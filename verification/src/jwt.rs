use crate::jwt_coding::{decode_jwt_at, is_validation};
use crate::request_error::{RequestError, RequestResult};
use crate::text::{char_is_whitespace, is_blank, is_whitespace, same_text, starts_with};
use crate::users::UserEntity;
use vstd::prelude::*;
use vstd::std_specs::convert::FromSpecImpl;
use vstd::string::{StrSliceExecFns, StringExecFns};

verus! {

/// How long a token is good for, in seconds: 24 hours.
pub const TOKEN_LIFETIME: u64 = 86_400;

/// The hyphenated, lower-case text of the UUID with the number `id`.
pub uninterp spec fn uuid_text(id: u128) -> Seq<char>;

/// The number of the UUID that `text` is a written form of; `None` where it
/// is none.
pub uninterp spec fn uuid_value(text: Seq<char>) -> Option<u128>;

/// `Uuid::from_u128`, written out by `Display`: the hyphenated lower-case
/// form, which parses back to the same number.
#[verifier::external_body]
pub(crate) fn format_uuid(id: u128) -> (text: String)
    ensures
        text@ == uuid_text(id),
        uuid_value(text@) == Some(id),
{
    uuid::Uuid::from_u128(id).to_string()
}

/// `Uuid::parse_str`, and `as_u128` of what it finds.
#[verifier::external_body]
pub(crate) fn parse_uuid(text: &str) -> (id: Option<u128>)
    ensures
        id == uuid_value(text@),
{
    match uuid::Uuid::parse_str(text) {
        Ok(found) => Some(found.as_u128()),
        Err(_) => None,
    }
}

/// `Utc::now().timestamp()`: the system clock's seconds since the Unix epoch.
/// The value is the clock's, so nothing names it. It is never negative:
/// `Utc::now` stops the program rather than return a time before the epoch.
#[verifier::external_body]
pub(crate) fn unix_now() -> (now: i64)
    ensures
        0 <= now,
{
    chrono::Utc::now().timestamp()
}

/// What a token says: who it was issued to, and from when until when.
#[derive(Debug)]
pub struct Claims {
    /// The user's identity, a UUID as a number of 128 bits.
    pub sub: u128,
    /// The user's email address.
    pub email: String,
    /// When the token was issued, in seconds since the Unix epoch.
    pub iat: u64,
    /// When the token expires, in seconds since the Unix epoch.
    pub exp: u64,
}

/// Claims as plain values.
pub struct ClaimsView {
    pub sub: u128,
    pub email: Seq<char>,
    pub iat: u64,
    pub exp: u64,
}

impl View for Claims {
    type V = ClaimsView;

    open spec fn view(&self) -> ClaimsView {
        ClaimsView { sub: self.sub, email: self.email@, iat: self.iat, exp: self.exp }
    }
}

impl Claims {
    /// The claims of a token issued to `user` at the time `now`.
    pub open spec fn issued(user: UserEntity, now: u64) -> Claims {
        Claims { sub: user.id, email: user.email, iat: now, exp: (now + TOKEN_LIFETIME) as u64 }
    }

    /// The claims of a token issued to `user` at the time `now`, in seconds
    /// since the Unix epoch: it expires `TOKEN_LIFETIME` later.
    pub fn issued_at(user: UserEntity, now: u64) -> (claims: Claims)
        requires
            now + TOKEN_LIFETIME <= u64::MAX,
        ensures
            claims == Claims::issued(user, now),
    {
        Claims { sub: user.id, email: user.email, iat: now, exp: now + TOKEN_LIFETIME }
    }
}

impl From<UserEntity> for Claims {
    /// The claims of a token issued to `value` now, by the system's clock.
    fn from(value: UserEntity) -> (claims: Claims)
        ensures
            claims.sub == value.id,
            claims.email == value.email,
            claims.exp == claims.iat + TOKEN_LIFETIME,
    {
        let now = unix_now();
        Claims::issued_at(value, now as u64)
    }
}

impl FromSpecImpl<UserEntity> for Claims {
    /// The time of issue is the clock's, which no spec function names.
    open spec fn obeys_from_spec() -> bool {
        false
    }

    open spec fn from_spec(value: UserEntity) -> Claims {
        arbitrary()
    }
}

/// What the transport found under the name `Authorization`.
#[derive(Debug)]
pub enum AuthorizationHeader {
    /// The request has no such header.
    Missing,
    /// The header's value is no text; the transport's reason why.
    Unreadable(String),
    /// The header's value.
    Text(String),
}

/// What a bearer header starts with.
pub open spec fn bearer_prefix() -> Seq<char> {
    "Bearer "@
}

/// The token that a header's value presents: what follows the exact prefix
/// `Bearer `, unless that is blank.
pub open spec fn bearer_of(value: Seq<char>) -> Option<Seq<char>> {
    if starts_with(value, bearer_prefix()) && !is_blank(value.skip(bearer_prefix().len() as int)) {
        Some(value.skip(bearer_prefix().len() as int))
    } else {
        None
    }
}

/// Takes the token out of the value of an `Authorization` header.
pub fn bearer_token(value: &str) -> (token: Option<&str>)
    ensures
        match bearer_of(value@) {
            Some(text) => token matches Some(found) && found@ == text,
            None => token is None,
        },
{
    proof {
        reveal_strlit("Bearer ");
    }
    let length = value.unicode_len();
    if length < 7 {
        return None;
    }
    if !same_text(value.substring_char(0, 7), "Bearer ") {
        return None;
    }
    let rest = value.substring_char(7, length);
    let mut i: usize = 0;
    while i < length - 7
        invariant
            7 <= length,
            bearer_prefix().len() == 7,
            starts_with(value@, bearer_prefix()),
            rest@ == value@.skip(7),
            rest@.len() == length - 7,
            i <= length - 7,
            forall|j: int| 0 <= j < i ==> is_whitespace(#[trigger] rest@[j]),
        decreases length - 7 - i,
    {
        if !char_is_whitespace(rest.get_char(i)) {
            return Some(rest);
        }
        i += 1;
    }
    None
}

/// Whether `r` is the answer of the guard to a request at the time `now`.
/// Without a secret the server is at fault. A header that is missing,
/// unreadable or presents no token is `Unauthorized`. A token that is
/// presented passes if and only if it validates under the secret.
pub open spec fn is_guard_answer(
    r: RequestResult<Claims>,
    secret: Option<Seq<char>>,
    header: AuthorizationHeader,
    now: u64,
) -> bool {
    match secret {
        None => r matches Err(RequestError::InternalServerError(context)) && context@
            == "JWT middleware error: app_data initialize"@,
        Some(secret) => match header {
            AuthorizationHeader::Missing => r matches Err(RequestError::Unauthorized(context))
                && context@ == "Extract token error"@,
            AuthorizationHeader::Unreadable(reason) => r matches Err(
                RequestError::Unauthorized(context),
            ) && context@ == reason@,
            AuthorizationHeader::Text(value) => match bearer_of(value@) {
                None => r matches Err(RequestError::Unauthorized(context)) && context@
                    == "Extract token error"@,
                Some(token) => is_validation(r, token, secret, now),
            },
        },
    }
}

/// The text of an optional string slice.
pub open spec fn slice_text(value: Option<&str>) -> Option<Seq<char>> {
    match value {
        Some(text) => Some(text@),
        None => None,
    }
}

/// Decides, as of the time `now`, whether a request may pass to a protected
/// route: `Ok`, with the claims of its token, where it may.
///
/// `secret` is the server's signing secret, `None` where the server holds no
/// application data; `header` is what the request has under `Authorization`.
pub fn verify_jwt_at(secret: Option<&str>, header: &AuthorizationHeader, now: u64) -> (r:
    RequestResult<Claims>)
    ensures
        is_guard_answer(r, slice_text(secret), *header, now),
{
    let secret = match secret {
        Some(secret) => secret,
        None => {
            return Err(
                RequestError::InternalServerError(
                    String::from_str("JWT middleware error: app_data initialize"),
                ),
            );
        },
    };
    let value = match header {
        AuthorizationHeader::Missing => {
            return Err(RequestError::Unauthorized(String::from_str("Extract token error")));
        },
        AuthorizationHeader::Unreadable(reason) => {
            return Err(RequestError::Unauthorized(reason.clone()));
        },
        AuthorizationHeader::Text(value) => value,
    };
    match bearer_token(value.as_str()) {
        Some(token) => decode_jwt_at(token, secret, now),
        None => Err(RequestError::Unauthorized(String::from_str("Extract token error"))),
    }
}

/// Decides, as of now by the system's clock, whether a request may pass to a
/// protected route.
///
/// A request passes only with a header that presents a token, and then with
/// the claims that this token carries under the secret. Without a secret the
/// answer is `InternalServerError`; every other refusal is `Unauthorized`.
pub fn verify_jwt(secret: Option<&str>, header: &AuthorizationHeader) -> (r: RequestResult<Claims>)
    ensures
        exists|now: u64| is_guard_answer(r, slice_text(secret), *header, now),
{
    let now = unix_now();
    verify_jwt_at(secret, header, now as u64)
}

/// A request with no `Authorization` header, or with one that presents no
/// token, is never let through.
pub proof fn law_no_token_no_entry(
    r: RequestResult<Claims>,
    secret: Option<Seq<char>>,
    header: AuthorizationHeader,
    now: u64,
)
    requires
        is_guard_answer(r, secret, header, now),
        !(header matches AuthorizationHeader::Text(value) && bearer_of(value@) is Some),
    ensures
        r is Err,
{
}

} // verus!
