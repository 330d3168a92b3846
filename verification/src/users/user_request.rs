use super::domain::{acceptable_password, well_formed_email, Email, Password};
use crate::request_error::RequestError;
use vstd::prelude::*;
use vstd::std_specs::convert::TryFromSpecImpl;

verus! {

/// What is wrong with an email address and a password, each checked only where
/// it is given, the email first: the message of the first fault, or `None`.
pub open spec fn credential_fault(email: Option<Seq<char>>, password: Option<Seq<char>>) -> Option<
    Seq<char>,
> {
    if email is Some && !well_formed_email(email->0) {
        Some("invalid email address"@)
    } else if password is Some && !acceptable_password(password->0) {
        Some("invalid user password"@)
    } else {
        None
    }
}

/// A request to open an account, as it came in.
#[derive(Debug)]
pub struct CreateUserRequest {
    pub email: String,
    pub password: String,
}

/// A request to open an account whose fields have passed validation.
pub struct ValidCreateUserRequest {
    pub email: Email,
    pub password: Password,
}

impl TryFrom<CreateUserRequest> for ValidCreateUserRequest {
    type Error = RequestError;

    /// Validates the email, then the password; the first fault is the error.
    fn try_from(value: CreateUserRequest) -> (r: Result<Self, RequestError>)
        ensures
            match credential_fault(Some(value.email@), Some(value.password@)) {
                None => r matches Ok(valid) && valid.email@ == value.email@ && valid.password@
                    == value.password@,
                Some(fault) => r matches Err(RequestError::BadRequest(context)) && context@
                    == fault,
            },
    {
        let email = match Email::try_from(value.email) {
            Ok(email) => email,
            Err(error) => {
                return Err(error);
            },
        };
        let password = match Password::try_from(value.password) {
            Ok(password) => password,
            Err(error) => {
                return Err(error);
            },
        };
        Ok(ValidCreateUserRequest { email, password })
    }
}

impl TryFromSpecImpl<CreateUserRequest> for ValidCreateUserRequest {
    /// A refusal carries a message made on the spot, which no spec function
    /// can name: `try_from` states its outcome by views instead.
    open spec fn obeys_try_from_spec() -> bool {
        false
    }

    open spec fn try_from_spec(value: CreateUserRequest) -> Result<Self, RequestError> {
        arbitrary()
    }
}

/// A request to change an account, as it came in: each field is optional.
#[derive(Debug)]
pub struct PatchUserRequest {
    pub email: Option<String>,
    pub password: Option<String>,
}

/// A request to change an account whose given fields have passed validation.
pub struct ValidPatchUserRequest {
    pub email: Option<Email>,
    pub password: Option<Password>,
}

/// The text of an optional string.
pub open spec fn text_of(value: Option<String>) -> Option<Seq<char>> {
    match value {
        Some(text) => Some(text@),
        None => None,
    }
}

/// The address of an optional email.
pub open spec fn address_of(value: Option<Email>) -> Option<Seq<char>> {
    match value {
        Some(email) => Some(email@),
        None => None,
    }
}

/// The text of an optional password.
pub open spec fn secret_of(value: Option<Password>) -> Option<Seq<char>> {
    match value {
        Some(password) => Some(password@),
        None => None,
    }
}

impl TryFrom<PatchUserRequest> for ValidPatchUserRequest {
    type Error = RequestError;

    /// Validates each field that is given, the email first; the first fault is
    /// the error. A field that is absent stays absent.
    fn try_from(value: PatchUserRequest) -> (r: Result<Self, RequestError>)
        ensures
            match credential_fault(text_of(value.email), text_of(value.password)) {
                None => r matches Ok(valid) && address_of(valid.email) == text_of(value.email)
                    && secret_of(valid.password) == text_of(value.password),
                Some(fault) => r matches Err(RequestError::BadRequest(context)) && context@
                    == fault,
            },
    {
        let email = match value.email {
            Some(raw) => match Email::try_from(raw) {
                Ok(email) => Some(email),
                Err(error) => {
                    return Err(error);
                },
            },
            None => None,
        };
        let password = match value.password {
            Some(raw) => match Password::try_from(raw) {
                Ok(password) => Some(password),
                Err(error) => {
                    return Err(error);
                },
            },
            None => None,
        };
        Ok(ValidPatchUserRequest { email, password })
    }
}

impl TryFromSpecImpl<PatchUserRequest> for ValidPatchUserRequest {
    /// A refusal carries a message made on the spot, which no spec function
    /// can name: `try_from` states its outcome by views instead.
    open spec fn obeys_try_from_spec() -> bool {
        false
    }

    open spec fn try_from_spec(value: PatchUserRequest) -> Result<Self, RequestError> {
        arbitrary()
    }
}

impl ValidPatchUserRequest {
    /// Whether the request changes nothing.
    pub fn is_empty(&self) -> (empty: bool)
        ensures
            empty == (self.email is None && self.password is None),
    {
        self.email.is_none() && self.password.is_none()
    }
}

/// A request to log in, as it came in.
#[derive(Debug)]
pub struct LoginUserRequest {
    pub email: String,
    pub password: String,
}

/// A request to log in whose fields have passed validation.
pub struct ValidLoginUserRequest {
    pub email: Email,
    pub password: Password,
}

impl TryFrom<LoginUserRequest> for ValidLoginUserRequest {
    type Error = RequestError;

    /// Validates the email, then the password; the first fault is the error.
    fn try_from(value: LoginUserRequest) -> (r: Result<Self, RequestError>)
        ensures
            match credential_fault(Some(value.email@), Some(value.password@)) {
                None => r matches Ok(valid) && valid.email@ == value.email@ && valid.password@
                    == value.password@,
                Some(fault) => r matches Err(RequestError::BadRequest(context)) && context@
                    == fault,
            },
    {
        let email = match Email::try_from(value.email) {
            Ok(email) => email,
            Err(error) => {
                return Err(error);
            },
        };
        let password = match Password::try_from(value.password) {
            Ok(password) => password,
            Err(error) => {
                return Err(error);
            },
        };
        Ok(ValidLoginUserRequest { email, password })
    }
}

impl TryFromSpecImpl<LoginUserRequest> for ValidLoginUserRequest {
    /// A refusal carries a message made on the spot, which no spec function
    /// can name: `try_from` states its outcome by views instead.
    open spec fn obeys_try_from_spec() -> bool {
        false
    }

    open spec fn try_from_spec(value: LoginUserRequest) -> Result<Self, RequestError> {
        arbitrary()
    }
}

} // verus!
