use crate::text::{decimal, push_decimal};
use vstd::prelude::*;
use vstd::string::StringExecFns;

verus! {

/// The settings the server starts with.
pub struct AppConfig {
    pub app: AppSettings,
    pub database: DatabaseSettings,
}

/// Where the database is, and who connects to it.
pub struct DatabaseSettings {
    pub user: String,
    pub password: String,
    pub host: String,
    pub port: u16,
    pub db_name: String,
}

/// Where the server listens.
pub struct AppSettings {
    pub host: String,
    pub port: u16,
}

impl AppSettings {
    /// The address to listen on: the host, a colon, and the port in base ten.
    pub open spec fn address(&self) -> Seq<char> {
        self.host@ + seq![':'] + decimal(self.port as nat)
    }

    /// The address to listen on, as `host:port`.
    pub fn addr(&self) -> (address: String)
        ensures
            address@ == self.address(),
    {
        proof {
            reveal_strlit(":");
        }
        let mut address = self.host.clone();
        address.append(":");
        push_decimal(&mut address, self.port);
        address
    }
}

} // verus!
