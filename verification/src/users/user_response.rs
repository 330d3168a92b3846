use vstd::prelude::*;
use vstd::std_specs::convert::FromSpecImpl;

verus! {

/// A user as the outside world may see it.
#[derive(Debug)]
pub struct UserResponse {
    /// The user's identity, a UUID as a number of 128 bits.
    pub id: u128,
    pub email: String,
    /// When the account was made, in microseconds since the Unix epoch.
    pub created_at: i64,
    /// When the account was last changed, in microseconds since the Unix epoch.
    pub updated_at: i64,
}

/// A user as the store holds it, password hash included.
#[derive(Debug)]
pub struct UserEntity {
    /// The user's identity, a UUID as a number of 128 bits.
    pub id: u128,
    pub email: String,
    /// The encoded hash of the user's password.
    pub password: String,
    /// When the account was made, in microseconds since the Unix epoch.
    pub created_at: i64,
    /// When the account was last changed, in microseconds since the Unix epoch.
    pub updated_at: i64,
}

impl From<UserEntity> for UserResponse {
    /// Everything but the password hash.
    fn from(value: UserEntity) -> (response: UserResponse) {
        UserResponse {
            id: value.id,
            email: value.email,
            created_at: value.created_at,
            updated_at: value.updated_at,
        }
    }
}

impl FromSpecImpl<UserEntity> for UserResponse {
    open spec fn obeys_from_spec() -> bool {
        true
    }

    open spec fn from_spec(value: UserEntity) -> UserResponse {
        UserResponse {
            id: value.id,
            email: value.email,
            created_at: value.created_at,
            updated_at: value.updated_at,
        }
    }
}

} // verus!
