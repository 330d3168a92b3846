use crate::request_error::RequestError;
use crate::text::{all_alphanumeric, char_is_alphanumeric, is_alphanumeric};
use vstd::prelude::*;
use vstd::std_specs::convert::TryFromSpecImpl;
use vstd::string::{StrSliceExecFns, StringExecFns};
use vstd::utf8::encode_utf8;

verus! {

/// A username takes fewer bytes than this.
pub const MAX_USERNAME_LENGTH: usize = 256;

/// The smallest age that is accepted.
pub const MIN_AGE: i32 = 12;

/// The largest age that is accepted.
pub const MAX_AGE: i32 = 120;

/// The most bytes a profile's description may take.
pub const MAX_ABOUT_ME_LENGTH: usize = 1024;

/// What is wrong with a username: the message of the first check it fails, or
/// `None`. It must not be empty, must take fewer than `MAX_USERNAME_LENGTH`
/// bytes, and must hold letters and numbers only.
pub open spec fn username_fault(name: Seq<char>) -> Option<Seq<char>> {
    if name.len() == 0 {
        Some("Username is empty"@)
    } else if encode_utf8(name).len() >= MAX_USERNAME_LENGTH {
        Some("Username is too long"@)
    } else if !all_alphanumeric(name) {
        Some("Username must be alphanumeric"@)
    } else {
        None
    }
}

/// Whether an age is accepted.
pub open spec fn acceptable_age(age: int) -> bool {
    MIN_AGE <= age <= MAX_AGE
}

/// Whether a profile's description is short enough.
pub open spec fn acceptable_about_me(text: Seq<char>) -> bool {
    encode_utf8(text).len() <= MAX_ABOUT_ME_LENGTH
}

/// Whether every character of `text` is a letter or a number.
fn is_all_alphanumeric(text: &str) -> (all: bool)
    ensures
        all == all_alphanumeric(text@),
{
    let length = text.unicode_len();
    let mut i: usize = 0;
    while i < length
        invariant
            length == text@.len(),
            i <= length,
            forall|j: int| 0 <= j < i ==> is_alphanumeric(#[trigger] text@[j]),
        decreases length - i,
    {
        if !char_is_alphanumeric(text.get_char(i)) {
            return false;
        }
        i += 1;
    }
    true
}

/// A username that has passed validation.
#[derive(Debug)]
pub struct Username(String);

impl Username {
    #[verifier::type_invariant]
    spec fn valid(self) -> bool {
        username_fault(self.0@) is None
    }
}

impl View for Username {
    type V = Seq<char>;

    closed spec fn view(&self) -> Seq<char> {
        self.0@
    }
}

impl Clone for Username {
    fn clone(&self) -> (copy: Self)
        ensures
            copy@ == self@,
    {
        proof {
            use_type_invariant(self);
        }
        Username(self.0.clone())
    }
}

impl TryFrom<String> for Username {
    type Error = RequestError;

    /// Accepts `value` if and only if it has no fault as a username; the
    /// first fault is the error.
    fn try_from(value: String) -> (r: Result<Self, RequestError>)
        ensures
            match username_fault(value@) {
                None => r matches Ok(name) && name@ == value@,
                Some(fault) => r matches Err(RequestError::BadRequest(context)) && context@
                    == fault,
            },
    {
        if value.as_str().is_empty() {
            return Err(RequestError::BadRequest(String::from_str("Username is empty")));
        }
        if value.as_str().as_bytes().len() >= MAX_USERNAME_LENGTH {
            return Err(RequestError::BadRequest(String::from_str("Username is too long")));
        }
        if !is_all_alphanumeric(value.as_str()) {
            return Err(
                RequestError::BadRequest(String::from_str("Username must be alphanumeric")),
            );
        }
        Ok(Username(value))
    }
}

impl TryFromSpecImpl<String> for Username {
    /// A refusal carries a message made on the spot, which no spec function
    /// can name: `try_from` states its outcome by views instead.
    open spec fn obeys_try_from_spec() -> bool {
        false
    }

    open spec fn try_from_spec(value: String) -> Result<Self, RequestError> {
        arbitrary()
    }
}

impl AsRef<str> for Username {
    fn as_ref(&self) -> (name: &str)
        ensures
            name@ == self@,
            username_fault(name@) is None,
    {
        proof {
            use_type_invariant(self);
        }
        self.0.as_str()
    }
}

/// An age that has passed validation.
#[derive(Debug, Clone, Copy)]
pub struct Age(i32);

impl Age {
    #[verifier::type_invariant]
    spec fn valid(self) -> bool {
        acceptable_age(self.0 as int)
    }
}

impl View for Age {
    type V = int;

    closed spec fn view(&self) -> int {
        self.0 as int
    }
}

impl TryFrom<i32> for Age {
    type Error = RequestError;

    /// Accepts `value` if and only if it lies between `MIN_AGE` and
    /// `MAX_AGE`, both included.
    fn try_from(value: i32) -> (r: Result<Self, RequestError>)
        ensures
            acceptable_age(value as int) ==> (r matches Ok(age) && age@ == value),
            !acceptable_age(value as int) ==> (r matches Err(RequestError::BadRequest(context))
                && context@ == "Invalid age"@),
    {
        if value < MIN_AGE || value > MAX_AGE {
            return Err(RequestError::BadRequest(String::from_str("Invalid age")));
        }
        Ok(Age(value))
    }
}

impl TryFromSpecImpl<i32> for Age {
    /// A refusal carries a message made on the spot, which no spec function
    /// can name: `try_from` states its outcome by views instead.
    open spec fn obeys_try_from_spec() -> bool {
        false
    }

    open spec fn try_from_spec(value: i32) -> Result<Self, RequestError> {
        arbitrary()
    }
}

impl AsRef<i32> for Age {
    fn as_ref(&self) -> (age: &i32)
        ensures
            *age == self@,
            acceptable_age(*age as int),
    {
        proof {
            use_type_invariant(self);
        }
        &self.0
    }
}

/// A profile's description that has passed validation.
#[derive(Debug)]
pub struct AboutMe(String);

impl AboutMe {
    #[verifier::type_invariant]
    spec fn valid(self) -> bool {
        acceptable_about_me(self.0@)
    }
}

impl View for AboutMe {
    type V = Seq<char>;

    closed spec fn view(&self) -> Seq<char> {
        self.0@
    }
}

impl Clone for AboutMe {
    fn clone(&self) -> (copy: Self)
        ensures
            copy@ == self@,
    {
        proof {
            use_type_invariant(self);
        }
        AboutMe(self.0.clone())
    }
}

impl TryFrom<String> for AboutMe {
    type Error = RequestError;

    /// Accepts `value` if and only if it takes at most `MAX_ABOUT_ME_LENGTH`
    /// bytes.
    fn try_from(value: String) -> (r: Result<Self, RequestError>)
        ensures
            acceptable_about_me(value@) ==> (r matches Ok(text) && text@ == value@),
            !acceptable_about_me(value@) ==> (r matches Err(RequestError::BadRequest(context))
                && context@ == "Profile description is too long"@),
    {
        if value.as_str().as_bytes().len() > MAX_ABOUT_ME_LENGTH {
            return Err(
                RequestError::BadRequest(String::from_str("Profile description is too long")),
            );
        }
        Ok(AboutMe(value))
    }
}

impl TryFromSpecImpl<String> for AboutMe {
    /// A refusal carries a message made on the spot, which no spec function
    /// can name: `try_from` states its outcome by views instead.
    open spec fn obeys_try_from_spec() -> bool {
        false
    }

    open spec fn try_from_spec(value: String) -> Result<Self, RequestError> {
        arbitrary()
    }
}

impl AsRef<str> for AboutMe {
    fn as_ref(&self) -> (text: &str)
        ensures
            text@ == self@,
            acceptable_about_me(text@),
    {
        proof {
            use_type_invariant(self);
        }
        self.0.as_str()
    }
}

} // verus!
