use crate::jwt::{
    bearer_of, bearer_prefix, is_guard_answer, unix_now, AuthorizationHeader, Claims,
    TOKEN_LIFETIME,
};
use crate::jwt_coding::{encode_jwt, is_token_for, is_validation};
use crate::password::{generate_password_hash, password_verifies, verify_password};
use crate::request_error::{RequestError, RequestResult, StoreError};
use crate::users::user_request::{address_of, secret_of};
use crate::users::{
    Email, Password, UserEntity, ValidCreateUserRequest, ValidLoginUserRequest,
    ValidPatchUserRequest,
};
use vstd::prelude::*;
use vstd::string::StringExecFns;
use vstd::utf8::encode_utf8;

verus! {

/// A password hash that belongs to no account. A login for an unknown email
/// is verified against it, so that it costs the work of a hash whether or not
/// the account exists.
pub const DUMMY_HASH: &'static str =
    "$argon2id$v=19$m=19456,t=2,p=1$c29tZXNhbHR2YWx1ZQ$7H0vsXlY8UxxyW4TOHcDkME0mI0j6lf45i1HNrPzEzs";

/// What a lookup in the user store comes to for a login: the account that was
/// found, or none where the store has no such row. Any other failure of the
/// store ends the request with the error that answers it.
pub fn account_found(lookup: Result<UserEntity, StoreError>) -> (r: RequestResult<
    Option<UserEntity>,
>)
    ensures
        match lookup {
            Ok(user) => r == Ok::<Option<UserEntity>, RequestError>(Some(user)),
            Err(StoreError::RowNotFound) => r matches Ok(None),
            Err(error) => r matches Err(answer) && answer@ == error.answer(),
        },
{
    match lookup {
        Ok(user) => Ok(Some(user)),
        Err(StoreError::RowNotFound) => Ok(None),
        Err(error) => Err(RequestError::from(error)),
    }
}

/// The hash that a login is verified against: the account's own where the
/// lookup found one, the dummy hash where it found none.
pub open spec fn hash_to_verify(found: Option<UserEntity>) -> Seq<char> {
    match found {
        Some(user) => user.password@,
        None => DUMMY_HASH@,
    }
}

/// Verifies the password of a login against the hash that stands for what
/// the lookup found: the account's own, or `DUMMY_HASH` where there is no
/// account. Either way the work of one verification is done.
pub fn login_verification(password: &Password, found: &Option<UserEntity>) -> (verified: bool)
    ensures
        verified == password_verifies(encode_utf8(password@), hash_to_verify(*found)),
{
    let password_hash = match found {
        Some(entity) => entity.password.as_str(),
        None => DUMMY_HASH,
    };
    verify_password(password.as_ref().as_bytes(), password_hash)
}

/// Whether a login succeeds: the lookup found an account, and the password
/// verifies against its hash.
pub open spec fn login_accepted(found: Option<UserEntity>, password: Seq<char>) -> bool {
    found is Some && password_verifies(encode_utf8(password), hash_to_verify(found))
}

/// Whether `r` is the answer to a login at the time `now`: where the login
/// succeeds, the token for the account's claims under the secret; where it
/// does not, `Unauthorized` with one and the same message.
pub open spec fn is_login_answer(
    r: RequestResult<String>,
    found: Option<UserEntity>,
    password: Seq<char>,
    secret: Seq<char>,
    now: u64,
) -> bool {
    if login_accepted(found, password) {
        r matches Ok(token) && is_token_for(token@, Claims::issued(found->0, now)@, secret)
    } else {
        r matches Err(RequestError::Unauthorized(context)) && context@
            == "invalid email or password"@
    }
}

/// Answers a login at the time `now`, in seconds since the Unix epoch.
///
/// `found` is what the user store holds under the email of `user`. The
/// password is verified exactly once by `login_verification`, whatever the
/// lookup found. On success the answer is a token for the account, signed
/// with `jwt_secret` and good for `TOKEN_LIFETIME`.
pub fn login_user_at(
    user: ValidLoginUserRequest,
    found: Option<UserEntity>,
    jwt_secret: &str,
    now: u64,
) -> (r: RequestResult<String>)
    requires
        now + TOKEN_LIFETIME <= u64::MAX,
    ensures
        is_login_answer(r, found, user.password@, jwt_secret@, now),
        r is Ok <==> login_accepted(found, user.password@),
{
    let is_verified = login_verification(&user.password, &found);
    match found {
        Some(entity) => {
            if is_verified {
                encode_jwt(Claims::issued_at(entity, now), jwt_secret)
            } else {
                Err(RequestError::Unauthorized(String::from_str("invalid email or password")))
            }
        },
        None => Err(RequestError::Unauthorized(String::from_str("invalid email or password"))),
    }
}

/// Answers a login as of now, by the system's clock: what `login_user_at`
/// answers at some time.
pub fn login_user(user: ValidLoginUserRequest, found: Option<UserEntity>, jwt_secret: &str) -> (r:
    RequestResult<String>)
    ensures
        exists|now: u64|
            now + TOKEN_LIFETIME <= u64::MAX && is_login_answer(
                r,
                found,
                user.password@,
                jwt_secret@,
                now,
            ),
        r is Ok <==> login_accepted(found, user.password@),
{
    let now = unix_now();
    login_user_at(user, found, jwt_secret, now as u64)
}

/// An account that is ready to be stored: the email, and the hash of the
/// password in place of the password.
pub struct NewUser {
    pub email: Email,
    pub password_hash: String,
}

/// Whether `r` is a new account for `email` and `password`: it keeps the
/// email, and the password verifies against its hash.
pub open spec fn is_new_account(
    r: RequestResult<NewUser>,
    email: Seq<char>,
    password: Seq<char>,
) -> bool {
    r matches Ok(account) && account.email@ == email && password_verifies(
        encode_utf8(password),
        account.password_hash@,
    )
}

/// Prepares a new account for the store: the password is hashed, the email
/// kept. It always succeeds, and the password that came in verifies against
/// the hash that goes out.
pub fn create_user(user: ValidCreateUserRequest) -> (r: RequestResult<NewUser>)
    ensures
        is_new_account(r, user.email@, user.password@),
        r is Ok,
{
    let hashed = generate_password_hash(user.password.as_ref().as_bytes());
    match hashed {
        Ok(password_hash) => Ok(NewUser { email: user.email, password_hash }),
        Err(error) => Err(error),
    }
}

/// A change to an account that is ready to be stored: the new email, and the
/// hash of the new password, each where the request names one.
pub struct UserPatch {
    pub email: Option<Email>,
    pub password_hash: Option<String>,
}

/// Whether `r` is the change that a request for `email` and `password`
/// comes to. A request that names neither is a `BadRequest`. Every other
/// request succeeds: the email is kept, and a new password verifies against
/// the hash that stands in its place.
pub open spec fn is_patch(
    r: RequestResult<UserPatch>,
    email: Option<Seq<char>>,
    password: Option<Seq<char>>,
) -> bool {
    if email is None && password is None {
        r matches Err(RequestError::BadRequest(context)) && context@ == "user info is empty"@
    } else {
        r matches Ok(patch) && address_of(patch.email) == email && match password {
            Some(password) => patch.password_hash matches Some(hash) && password_verifies(
                encode_utf8(password),
                hash@,
            ),
            None => patch.password_hash is None,
        }
    }
}

/// Prepares a change to an account for the store.
///
/// A request that names neither an email nor a password is a `BadRequest`;
/// every other request succeeds. A new password is hashed, and verifies
/// against the hash that goes out; nothing is asked about the old one.
pub fn patch_user(user: ValidPatchUserRequest) -> (r: RequestResult<UserPatch>)
    ensures
        is_patch(r, address_of(user.email), secret_of(user.password)),
        r is Ok <==> !(user.email is None && user.password is None),
{
    if user.is_empty() {
        return Err(RequestError::BadRequest(String::from_str("user info is empty")));
    }
    let ValidPatchUserRequest { email, password } = user;
    let password_hash = match password {
        Some(password) => match generate_password_hash(password.as_ref().as_bytes()) {
            Ok(hash) => Some(hash),
            Err(error) => {
                return Err(error);
            },
        },
        None => None,
    };
    Ok(UserPatch { email, password_hash })
}

/// A login for an email that no account has and a login with a wrong
/// password for an email that an account has are answered alike: the same
/// kind of error with the same message.
pub proof fn law_failed_logins_are_alike(
    unknown: RequestResult<String>,
    wrong: RequestResult<String>,
    account: UserEntity,
    password_for_unknown: Seq<char>,
    wrong_password: Seq<char>,
    secret: Seq<char>,
    now_for_unknown: u64,
    now_for_wrong: u64,
)
    requires
        is_login_answer(unknown, None, password_for_unknown, secret, now_for_unknown),
        is_login_answer(wrong, Some(account), wrong_password, secret, now_for_wrong),
        !password_verifies(encode_utf8(wrong_password), account.password@),
    ensures
        unknown matches Err(first) && wrong matches Err(second) && first@ == second@,
{
}

/// An account logs in with the password that its hash verifies: the answer
/// is the token for its claims.
pub proof fn law_matching_password_logs_in(
    login: RequestResult<String>,
    account: UserEntity,
    password: Seq<char>,
    secret: Seq<char>,
    now: u64,
)
    requires
        password_verifies(encode_utf8(password), account.password@),
        is_login_answer(login, Some(account), password, secret, now),
    ensures
        login matches Ok(token) && is_token_for(token@, Claims::issued(account, now)@, secret),
{
}

/// A new account, once stored, logs in with the password it was made with.
pub proof fn law_new_account_logs_in(
    created: RequestResult<NewUser>,
    email: Seq<char>,
    password: Seq<char>,
    account: UserEntity,
    login: RequestResult<String>,
    secret: Seq<char>,
    now: u64,
)
    requires
        is_new_account(created, email, password),
        account.password@ == created->Ok_0.password_hash@,
        is_login_answer(login, Some(account), password, secret, now),
    ensures
        login matches Ok(token) && is_token_for(token@, Claims::issued(account, now)@, secret),
{
}

/// An account whose password was changed, once the change is stored, logs in
/// with the new password.
pub proof fn law_changed_password_logs_in(
    change: RequestResult<UserPatch>,
    email: Option<Seq<char>>,
    password: Seq<char>,
    account: UserEntity,
    login: RequestResult<String>,
    secret: Seq<char>,
    now: u64,
)
    requires
        is_patch(change, email, Some(password)),
        account.password@ == change->Ok_0.password_hash->0@,
        is_login_answer(login, Some(account), password, secret, now),
    ensures
        login matches Ok(token) && is_token_for(token@, Claims::issued(account, now)@, secret),
{
}

/// The token of a login, validated under the same secret and no later than
/// `TOKEN_LIFETIME` after the login, carries the claims of the account.
pub proof fn law_login_token_validates(
    login: RequestResult<String>,
    account: UserEntity,
    password: Seq<char>,
    secret: Seq<char>,
    issued: u64,
    validation: RequestResult<Claims>,
    now: u64,
)
    requires
        issued + TOKEN_LIFETIME <= u64::MAX,
        is_login_answer(login, Some(account), password, secret, issued),
        login is Ok,
        now <= issued + TOKEN_LIFETIME,
        is_validation(validation, login->Ok_0@, secret, now),
    ensures
        validation matches Ok(claims) && claims@ == Claims::issued(account, issued)@,
{
}

/// The token of a login, presented as `Bearer <token>` under the same secret
/// and no later than `TOKEN_LIFETIME` after the login, is let through by the
/// guard, with the claims of the account.
pub proof fn law_login_token_is_let_through(
    login: RequestResult<String>,
    account: UserEntity,
    password: Seq<char>,
    secret: Seq<char>,
    issued: u64,
    header: AuthorizationHeader,
    answer: RequestResult<Claims>,
    now: u64,
)
    requires
        issued + TOKEN_LIFETIME <= u64::MAX,
        is_login_answer(login, Some(account), password, secret, issued),
        login matches Ok(token) && header matches AuthorizationHeader::Text(value) && value@
            == bearer_prefix() + token@,
        now <= issued + TOKEN_LIFETIME,
        is_guard_answer(answer, Some(secret), header, now),
    ensures
        answer matches Ok(claims) && claims@ == Claims::issued(account, issued)@,
{
    let token = login->Ok_0@;
    let value = bearer_prefix() + token;
    assert(value.subrange(0, bearer_prefix().len() as int) =~= bearer_prefix());
    assert(value.skip(bearer_prefix().len() as int) =~= token);
    assert(bearer_of(value) == Some(token));
}

} // verus!
