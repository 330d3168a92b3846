use vstd::prelude::*;

verus! {

/// A profile as the store holds it.
#[derive(Debug)]
pub struct ProfileEntity {
    /// The profile's identity, a UUID as a number of 128 bits.
    pub id: u128,
    /// The identity of the user the profile belongs to.
    pub user_id: u128,
    pub username: String,
    pub age: i32,
    pub about_me: String,
    /// When the profile was last changed, in microseconds since the Unix epoch.
    pub updated_at: i64,
    /// When the profile was made, in microseconds since the Unix epoch.
    pub created_at: i64,
}

} // verus!
