use crate::request_error::RequestError;
use vstd::prelude::*;
use vstd::std_specs::convert::TryFromSpecImpl;
use vstd::string::StringExecFns;
use vstd::utf8::encode_utf8;

verus! {

/// The longest password that is accepted, in bytes.
pub const MAX_PASSWORD_LENGTH: usize = 256;

/// Whether the `validator` crate takes `address` for an email address, by the
/// rules that HTML5 has for one.
pub uninterp spec fn well_formed_email(address: Seq<char>) -> bool;

/// Whether `address` may stand in an `Email`: the `validator` crate takes it
/// for an email address, so it is not empty and holds an `@`.
pub open spec fn acceptable_email(address: Seq<char>) -> bool {
    well_formed_email(address) && address.len() > 0 && address.contains('@')
}

/// `validator::ValidateEmail::validate_email` on a string: whether it is an
/// email address by the HTML5 rules. The verdict depends on the text alone and
/// is known here by its name. The crate turns down the empty string and
/// any text without an `@` before it looks further.
#[verifier::external_body]
fn validate_email(address: &str) -> (ok: bool)
    ensures
        ok == well_formed_email(address@),
        ok ==> address@.len() > 0 && address@.contains('@'),
{
    validator::ValidateEmail::validate_email(&address)
}

/// Whether `password` may be used as a password: it is not empty and takes at
/// most `MAX_PASSWORD_LENGTH` bytes.
pub open spec fn acceptable_password(password: Seq<char>) -> bool {
    password.len() > 0 && encode_utf8(password).len() <= MAX_PASSWORD_LENGTH
}

/// An email address that has passed validation.
#[derive(Debug)]
pub struct Email(String);

impl Email {
    #[verifier::type_invariant]
    spec fn valid(self) -> bool {
        acceptable_email(self.0@)
    }
}

impl View for Email {
    type V = Seq<char>;

    closed spec fn view(&self) -> Seq<char> {
        self.0@
    }
}

impl Clone for Email {
    fn clone(&self) -> (copy: Self)
        ensures
            copy@ == self@,
    {
        proof {
            use_type_invariant(self);
        }
        Email(self.0.clone())
    }
}

impl TryFrom<String> for Email {
    type Error = RequestError;

    /// Accepts `value` if and only if it is a well-formed email address.
    fn try_from(value: String) -> (r: Result<Self, RequestError>)
        ensures
            well_formed_email(value@) ==> (r matches Ok(email) && email@ == value@
                && acceptable_email(value@)),
            !well_formed_email(value@) ==> (r matches Err(RequestError::BadRequest(context))
                && context@ == "invalid email address"@),
    {
        if !validate_email(value.as_str()) {
            return Err(RequestError::BadRequest(String::from_str("invalid email address")));
        }
        Ok(Email(value))
    }
}

impl TryFromSpecImpl<String> for Email {
    /// A refusal carries a message made on the spot, which no spec function
    /// can name: `try_from` states its outcome by views instead.
    open spec fn obeys_try_from_spec() -> bool {
        false
    }

    open spec fn try_from_spec(value: String) -> Result<Self, RequestError> {
        arbitrary()
    }
}

impl AsRef<str> for Email {
    fn as_ref(&self) -> (address: &str)
        ensures
            address@ == self@,
            acceptable_email(address@),
    {
        proof {
            use_type_invariant(self);
        }
        self.0.as_str()
    }
}

/// A password that has passed validation.
#[derive(Debug)]
pub struct Password(String);

impl Password {
    #[verifier::type_invariant]
    spec fn valid(self) -> bool {
        acceptable_password(self.0@)
    }
}

impl View for Password {
    type V = Seq<char>;

    closed spec fn view(&self) -> Seq<char> {
        self.0@
    }
}

impl Clone for Password {
    fn clone(&self) -> (copy: Self)
        ensures
            copy@ == self@,
    {
        proof {
            use_type_invariant(self);
        }
        Password(self.0.clone())
    }
}

impl TryFrom<String> for Password {
    type Error = RequestError;

    /// Accepts `value` if and only if it is not empty and no longer than
    /// `MAX_PASSWORD_LENGTH` bytes.
    fn try_from(value: String) -> (r: Result<Self, RequestError>)
        ensures
            acceptable_password(value@) ==> (r matches Ok(password) && password@ == value@),
            !acceptable_password(value@) ==> (r matches Err(RequestError::BadRequest(context))
                && context@ == "invalid user password"@),
    {
        if value.as_str().is_empty() || value.as_str().as_bytes().len() > MAX_PASSWORD_LENGTH {
            return Err(RequestError::BadRequest(String::from_str("invalid user password")));
        }
        Ok(Password(value))
    }
}

impl TryFromSpecImpl<String> for Password {
    /// A refusal carries a message made on the spot, which no spec function
    /// can name: `try_from` states its outcome by views instead.
    open spec fn obeys_try_from_spec() -> bool {
        false
    }

    open spec fn try_from_spec(value: String) -> Result<Self, RequestError> {
        arbitrary()
    }
}

impl AsRef<str> for Password {
    fn as_ref(&self) -> (password: &str)
        ensures
            password@ == self@,
            acceptable_password(password@),
    {
        proof {
            use_type_invariant(self);
        }
        self.0.as_str()
    }
}

} // verus!
