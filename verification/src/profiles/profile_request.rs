use super::domain::{acceptable_about_me, acceptable_age, username_fault, AboutMe, Age, Username};
use crate::request_error::RequestError;
use vstd::prelude::*;
use vstd::std_specs::convert::TryFromSpecImpl;

verus! {

/// What is wrong with the fields of a profile, checked in the order username,
/// age, description: the message of the first fault, or `None`.
pub open spec fn profile_fault(username: Seq<char>, age: int, about_me: Seq<char>) -> Option<
    Seq<char>,
> {
    if username_fault(username) is Some {
        username_fault(username)
    } else if !acceptable_age(age) {
        Some("Invalid age"@)
    } else if !acceptable_about_me(about_me) {
        Some("Profile description is too long"@)
    } else {
        None
    }
}

/// A request to make a profile, as it came in.
pub struct CreateProfileRequest {
    pub username: String,
    pub age: i32,
    pub about_me: String,
}

/// A request to make a profile whose fields have passed validation.
pub struct ValidCreateProfileRequest {
    pub username: Username,
    pub age: Age,
    pub about_me: AboutMe,
}

impl TryFrom<CreateProfileRequest> for ValidCreateProfileRequest {
    type Error = RequestError;

    /// Validates the username, then the age, then the description; the first
    /// fault is the error.
    fn try_from(value: CreateProfileRequest) -> (r: Result<Self, RequestError>)
        ensures
            match profile_fault(value.username@, value.age as int, value.about_me@) {
                None => r matches Ok(valid) && valid.username@ == value.username@ && valid.age@
                    == value.age && valid.about_me@ == value.about_me@,
                Some(fault) => r matches Err(RequestError::BadRequest(context)) && context@
                    == fault,
            },
    {
        let username = match Username::try_from(value.username) {
            Ok(username) => username,
            Err(error) => {
                return Err(error);
            },
        };
        let age = match Age::try_from(value.age) {
            Ok(age) => age,
            Err(error) => {
                return Err(error);
            },
        };
        let about_me = match AboutMe::try_from(value.about_me) {
            Ok(about_me) => about_me,
            Err(error) => {
                return Err(error);
            },
        };
        Ok(ValidCreateProfileRequest { username, age, about_me })
    }
}

impl TryFromSpecImpl<CreateProfileRequest> for ValidCreateProfileRequest {
    /// A refusal carries a message made on the spot, which no spec function
    /// can name: `try_from` states its outcome by views instead.
    open spec fn obeys_try_from_spec() -> bool {
        false
    }

    open spec fn try_from_spec(value: CreateProfileRequest) -> Result<Self, RequestError> {
        arbitrary()
    }
}

} // verus!
