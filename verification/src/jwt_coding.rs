use crate::jwt::{format_uuid, parse_uuid, unix_now, uuid_text, uuid_value, Claims, ClaimsView};
use crate::request_error::{RequestError, RequestResult};
use crate::text::{has_full_stop, is_blank, lemma_full_stop_is_not_blank};
use jsonwebtoken::{DecodingKey, EncodingKey, Header, Validation};
use vstd::prelude::*;
use vstd::string::StringExecFns;

verus! {

/// What was found in the payload of a token of good signature: each of the
/// four claims, where the payload holds it in the right JSON type.
pub(crate) struct TokenPayload {
    pub sub: Option<String>,
    pub email: Option<String>,
    pub iat: Option<u64>,
    pub exp: Option<u64>,
}

/// A token's payload as plain values.
pub struct TokenPayloadView {
    pub sub: Option<Seq<char>>,
    pub email: Option<Seq<char>>,
    pub iat: Option<u64>,
    pub exp: Option<u64>,
}

impl View for TokenPayload {
    type V = TokenPayloadView;

    closed spec fn view(&self) -> TokenPayloadView {
        TokenPayloadView {
            sub: match self.sub {
                Some(text) => Some(text@),
                None => None,
            },
            email: match self.email {
                Some(text) => Some(text@),
                None => None,
            },
            iat: self.iat,
            exp: self.exp,
        }
    }
}

/// The token that the token crate makes of four claims under a secret, with
/// its default header (HS256).
pub uninterp spec fn signed_token(
    sub: Seq<char>,
    email: Seq<char>,
    iat: u64,
    exp: u64,
    secret: Seq<char>,
) -> Seq<char>;

/// What the token crate reads from a token under a secret, the time of expiry
/// left unjudged; `None` where it refuses the token: for its form, its
/// algorithm, its signature, or a payload without a numeric `exp`.
pub uninterp spec fn token_payload(token: Seq<char>, secret: Seq<char>) -> Option<
    TokenPayloadView,
>;

/// `jsonwebtoken::encode` with the default header, the secret as an HMAC key,
/// and a JSON object of the four claims as payload. The token depends on the
/// arguments alone and is known by its name. With the crate's own HMAC, which
/// takes a key of any length, nothing fails on a payload of strings and
/// numbers. The token is header, payload and signature joined by full stops.
/// Read back under the same secret, it yields the four claims it was made of.
#[verifier::external_body]
fn sign_claims(sub: &str, email: &str, iat: u64, exp: u64, secret: &str) -> (r: Result<
    String,
    jsonwebtoken::errors::Error,
>)
    ensures
        r is Ok,
        r matches Ok(token) ==> token@ == signed_token(sub@, email@, iat, exp, secret@),
        r matches Ok(token) ==> has_full_stop(token@),
        r matches Ok(token) ==> token_payload(token@, secret@) == Some(
            (TokenPayloadView {
                sub: Some(sub@),
                email: Some(email@),
                iat: Some(iat),
                exp: Some(exp),
            }),
        ),
{
    let mut payload = serde_json::Map::new();
    payload.insert("sub".to_string(), sub.into());
    payload.insert("email".to_string(), email.into());
    payload.insert("iat".to_string(), iat.into());
    payload.insert("exp".to_string(), exp.into());
    jsonwebtoken::encode(&Header::default(), &payload, &EncodingKey::from_secret(secret.as_bytes()))
}

/// `jsonwebtoken::decode` with the secret as an HMAC key and the default
/// validation, but for `validate_exp`, which is off: the crate then reads no
/// clock, and what it returns depends on the token and the secret alone. Of
/// the payload it hands back, the four claims are picked, each where it is
/// there as a string or as an unsigned number.
#[verifier::external_body]
fn read_token(token: &str, secret: &str) -> (r: Result<TokenPayload, jsonwebtoken::errors::Error>)
    ensures
        r is Ok <==> token_payload(token@, secret@) is Some,
        r matches Ok(payload) ==> token_payload(token@, secret@) == Some(payload@),
{
    let mut rules = Validation::default();
    rules.validate_exp = false;
    let key = DecodingKey::from_secret(secret.as_bytes());
    let data = jsonwebtoken::decode::<serde_json::Value>(token, &key, &rules)?;
    let text = |name: &str| data.claims.get(name).and_then(|v| v.as_str()).map(String::from);
    let number = |name: &str| data.claims.get(name).and_then(|v| v.as_u64());
    let (sub, email) = (text("sub"), text("email"));
    Ok(TokenPayload { sub, email, iat: number("iat"), exp: number("exp") })
}

/// The message of a `jsonwebtoken::errors::Error`, as its `Display` writes it.
/// Nothing is claimed of the text.
#[verifier::external_body]
fn token_error_text(error: &jsonwebtoken::errors::Error) -> (text: String) {
    error.to_string()
}

/// The claims that a payload stands for: all four are there, and the subject
/// is the text of a UUID.
pub open spec fn claims_of(payload: TokenPayloadView) -> Option<ClaimsView> {
    if payload.sub is Some && payload.email is Some && payload.iat is Some && payload.exp is Some
        && uuid_value(payload.sub->0) is Some {
        Some(
            ClaimsView {
                sub: uuid_value(payload.sub->0)->0,
                email: payload.email->0,
                iat: payload.iat->0,
                exp: payload.exp->0,
            },
        )
    } else {
        None
    }
}

/// The claims that a token carries under a secret: its signature is good and
/// its payload stands for claims.
pub open spec fn token_claims(token: Seq<char>, secret: Seq<char>) -> Option<ClaimsView> {
    match token_payload(token, secret) {
        Some(payload) => claims_of(payload),
        None => None,
    }
}

/// The token for `claims` under `secret`.
pub open spec fn token_for(claims: ClaimsView, secret: Seq<char>) -> Seq<char> {
    signed_token(uuid_text(claims.sub), claims.email, claims.iat, claims.exp, secret)
}

/// The claims that validating `token` under `secret` at the time `now` comes
/// to: the claims the token carries, unless its time of expiry has passed.
pub open spec fn valid_claims(token: Seq<char>, secret: Seq<char>, now: u64) -> Option<
    ClaimsView,
> {
    match token_claims(token, secret) {
        Some(claims) => if now <= claims.exp {
            Some(claims)
        } else {
            None
        },
        None => None,
    }
}

/// Whether `error` is the refusal of a token: `Unauthorized`, with one
/// message whatever the reason.
pub open spec fn refuses_token(error: RequestError) -> bool {
    error matches RequestError::Unauthorized(context) && context@ == "invalid token"@
}

/// Whether `r` is what validating `token` under `secret` at the time `now`
/// comes to: the valid claims, or the refusal of the token.
pub open spec fn is_validation(
    r: RequestResult<Claims>,
    token: Seq<char>,
    secret: Seq<char>,
    now: u64,
) -> bool {
    match valid_claims(token, secret, now) {
        Some(claims) => r matches Ok(found) && found@ == claims,
        None => r matches Err(error) && refuses_token(error),
    }
}

/// Whether `token` is the token for `claims` under `secret`: the one that the
/// token crate makes of them. Such a token is not blank, and validated under
/// the same secret it carries these claims again.
pub open spec fn is_token_for(token: Seq<char>, claims: ClaimsView, secret: Seq<char>) -> bool {
    &&& token == token_for(claims, secret)
    &&& !is_blank(token)
    &&& token_claims(token, secret) == Some(claims)
}

/// Signs `claims` with `secret` into a token, the subject written as a
/// hyphenated UUID. It always succeeds.
pub fn encode_jwt(claims: Claims, secret: &str) -> (r: RequestResult<String>)
    ensures
        r is Ok,
        r matches Ok(token) && is_token_for(token@, claims@, secret@),
{
    let subject = format_uuid(claims.sub);
    match sign_claims(subject.as_str(), claims.email.as_str(), claims.iat, claims.exp, secret) {
        Ok(token) => {
            proof {
                lemma_full_stop_is_not_blank(token@);
            }
            Ok(token)
        },
        Err(error) => Err(RequestError::from(error)),
    }
}

/// Validates `token` under `secret` as of the time `now`, in seconds since the
/// Unix epoch, and returns the claims it carries.
///
/// The token is refused as `Unauthorized` where the token crate refuses it,
/// where its payload does not stand for claims, and where `now` is past its
/// time of expiry. The message does not say which.
pub fn decode_jwt_at(token: &str, secret: &str, now: u64) -> (r: RequestResult<Claims>)
    ensures
        is_validation(r, token@, secret@, now),
        r matches Ok(claims) ==> now <= claims.exp,
{
    let payload = match read_token(token, secret) {
        Ok(payload) => payload,
        Err(error) => {
            return Err(RequestError::from(error));
        },
    };
    let TokenPayload { sub, email, iat, exp } = payload;
    let claims = match (sub, email, iat, exp) {
        (Some(sub), Some(email), Some(iat), Some(exp)) => match parse_uuid(sub.as_str()) {
            Some(id) => Some(Claims { sub: id, email, iat, exp }),
            None => None,
        },
        _ => None,
    };
    match claims {
        Some(claims) => {
            if now > claims.exp {
                Err(RequestError::Unauthorized(String::from_str("invalid token")))
            } else {
                Ok(claims)
            }
        },
        None => Err(RequestError::Unauthorized(String::from_str("invalid token"))),
    }
}

/// Validates `token` under `secret` as of now, by the system's clock.
///
/// Claims that come back are the ones the token carries. A token that
/// carries none is refused, and every refusal is `Unauthorized` with the same
/// message.
pub fn decode_jwt(token: &str, secret: &str) -> (r: RequestResult<Claims>)
    ensures
        exists|now: u64| is_validation(r, token@, secret@, now),
        r matches Ok(claims) ==> token_claims(token@, secret@) == Some(claims@),
        token_claims(token@, secret@) is None ==> r is Err,
        r matches Err(error) ==> refuses_token(error),
{
    let now = unix_now();
    decode_jwt_at(token, secret, now as u64)
}

/// Why the token crate turns `token` down under `secret`, in the crate's own
/// words; `None` where it does not. The words are for the server's log: the
/// client is told no more than `refuses_token` says.
pub fn token_fault(token: &str, secret: &str) -> (fault: Option<String>)
    ensures
        fault is Some <==> token_payload(token@, secret@) is None,
{
    match read_token(token, secret) {
        Ok(_) => None,
        Err(error) => Some(token_error_text(&error)),
    }
}

/// A token is refused at every time after its time of expiry, whatever the
/// secret it is validated under.
pub proof fn law_expired_token_is_refused(
    r: RequestResult<Claims>,
    token: Seq<char>,
    secret: Seq<char>,
    now: u64,
)
    requires
        is_validation(r, token, secret, now),
        token_payload(token, secret) matches Some(payload) && payload.exp matches Some(exp) && exp
            < now,
    ensures
        r matches Err(error) && refuses_token(error),
{
}

} // verus!
