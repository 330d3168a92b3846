use crate::request_error::{RequestError, RequestResult};
use crate::text::same_text;
use argon2::password_hash::rand_core::OsRng;
use argon2::password_hash::{PasswordHasher, SaltString};
use argon2::{Argon2, PasswordHash, PasswordVerifier};
use vstd::prelude::*;

verus! {

/// The longest password that Argon2 hashes, in bytes.
pub const MAX_HASHED_LENGTH: u64 = 0xFFFF_FFFF;

/// The most lanes that Argon2 works in.
pub const MAX_PARALLELISM: u32 = 0xFF_FFFF;

/// One parameter that an encoded hash names: its name, and its value where
/// that is written as a decimal number.
pub(crate) struct HashParameter {
    pub name: String,
    pub value: Option<u32>,
}

/// A parameter of an encoded hash as plain values.
pub struct HashParameterView {
    pub name: Seq<char>,
    pub value: Option<u32>,
}

impl View for HashParameter {
    type V = HashParameterView;

    closed spec fn view(&self) -> HashParameterView {
        HashParameterView { name: self.name@, value: self.value }
    }
}

/// The parameters that `encoded` names, in the order it names them; none
/// where it is no password hash in PHC form.
pub uninterp spec fn hash_parameters(encoded: Seq<char>) -> Seq<HashParameterView>;

/// Whether Argon2, with the parameters and the salt that `encoded` itself
/// names, turns `password` into the digest that `encoded` holds. It is false
/// of every `encoded` that is no password hash in PHC form.
pub uninterp spec fn password_matches(password: Seq<u8>, encoded: Seq<char>) -> bool;

/// Whether `encoded` starts as a password hash in PHC form does: with `$`.
pub open spec fn starts_as_hash(encoded: Seq<char>) -> bool {
    encoded.len() > 0 && encoded[0] == '$'
}

/// Whether parameters ask for more lanes than Argon2 works in. Of several
/// parameters named `p` the last one counts, as it does for Argon2.
pub open spec fn asks_too_many_lanes(parameters: Seq<HashParameterView>) -> bool
    decreases parameters.len(),
{
    if parameters.len() == 0 {
        false
    } else if parameters.last().name == "p"@ {
        parameters.last().value matches Some(lanes) && lanes > MAX_PARALLELISM
    } else {
        asks_too_many_lanes(parameters.drop_last())
    }
}

/// Whether `password` verifies against `encoded`: the hash asks for no more
/// lanes than Argon2 works in, and the password yields its digest.
pub open spec fn password_verifies(password: Seq<u8>, encoded: Seq<char>) -> bool {
    !asks_too_many_lanes(hash_parameters(encoded)) && password_matches(password, encoded)
}

/// `PasswordHash::new` on `encoded`, then every pair of `params.iter()`, the
/// name by `as_str` and the value by `decimal`. A text that does not parse has
/// no parameters.
#[verifier::external_body]
fn read_parameters(encoded: &str) -> (parameters: Vec<HashParameter>)
    ensures
        parameters@.len() == hash_parameters(encoded@).len(),
        forall|i: int|
            0 <= i < parameters@.len() ==> (#[trigger] parameters@[i])@ == hash_parameters(
                encoded@,
            )[i],
{
    let named = |(name, value): (argon2::password_hash::Ident, argon2::password_hash::Value)| {
        HashParameter { name: name.as_str().to_owned(), value: value.decimal().ok() }
    };
    match PasswordHash::new(encoded) {
        Ok(parsed) => parsed.params.iter().map(named).collect(),
        Err(_) => Vec::new(),
    }
}

/// `SaltString::generate` on the system's random source, then
/// `Argon2::default().hash_password` with that salt, written out in PHC form.
/// The salt is random, so the text differs from call to call and has no name.
/// With its default parameters and a salt of 16 bytes the hasher turns down
/// nothing but a password of more than `MAX_HASHED_LENGTH` bytes. The text
/// that comes back names the default parameters, one lane among them, and
/// the password it was made from verifies against it: verification reads
/// algorithm, parameters and salt from the text and computes the same digest
/// again. Where the system has no randomness to give, the random source stops
/// the program.
#[verifier::external_body]
fn argon2_hash(password: &[u8]) -> (r: Result<String, argon2::password_hash::Error>)
    ensures
        password@.len() <= MAX_HASHED_LENGTH ==> r is Ok,
        r matches Ok(encoded) ==> !asks_too_many_lanes(hash_parameters(encoded@)),
        r matches Ok(encoded) ==> password_matches(password@, encoded@),
{
    let salt = SaltString::generate(&mut OsRng);
    Ok(Argon2::default().hash_password(password, &salt)?.to_string())
}

/// `PasswordHash::new` on `encoded`, then `Argon2::default().verify_password`:
/// `Ok` if and only if the text parses as a password hash and the password
/// yields its digest. A text that is empty or does not start with `$` does
/// not parse. Left out is a text that asks for more than `MAX_PARALLELISM`
/// lanes: Argon2 multiplies that number before it tests it, and may stop the
/// program on it. The memory that a text asks for is the machine's to give.
#[verifier::external_body]
fn argon2_verify(password: &[u8], encoded: &str) -> (r: Result<
    (),
    argon2::password_hash::Error,
>)
    requires
        !asks_too_many_lanes(hash_parameters(encoded@)),
    ensures
        r is Ok <==> password_matches(password@, encoded@),
        !starts_as_hash(encoded@) ==> r is Err,
{
    let parsed = PasswordHash::new(encoded)?;
    Argon2::default().verify_password(password, &parsed)
}

/// Whether `error` is the answer to a failure of the hasher.
pub open spec fn hashing_failed(error: RequestError) -> bool {
    error matches RequestError::InternalServerError(context) && context@
        == "password hashing failed"@
}

/// Whether `r` is an answer of the hasher to `password`: an encoded hash that
/// the password verifies against, or, only for a password of more than
/// `MAX_HASHED_LENGTH` bytes, an `InternalServerError`.
pub open spec fn is_hash_answer(r: RequestResult<String>, password: Seq<u8>) -> bool {
    match r {
        Ok(encoded) => password_verifies(password, encoded@),
        Err(error) => password.len() > MAX_HASHED_LENGTH && hashing_failed(error),
    }
}

/// Hashes a password under a fresh random salt and returns the encoded hash.
///
/// A password of at most `MAX_HASHED_LENGTH` bytes always gets a hash, and
/// every hash that comes back verifies against the password it was made
/// from. A failure of the hasher is an `InternalServerError`.
pub fn generate_password_hash(password: &[u8]) -> (r: RequestResult<String>)
    ensures
        is_hash_answer(r, password@),
        password@.len() <= MAX_HASHED_LENGTH ==> r is Ok,
{
    match argon2_hash(password) {
        Ok(encoded) => Ok(encoded),
        Err(error) => Err(RequestError::from(error)),
    }
}

/// Whether parameters ask for more lanes than Argon2 works in.
fn too_many_lanes(parameters: &Vec<HashParameter>) -> (too_many: bool)
    ensures
        too_many == asks_too_many_lanes(parameters@.map_values(|p: HashParameter| p@)),
{
    let ghost all = parameters@.map_values(|p: HashParameter| p@);
    let mut i: usize = parameters.len();
    assert(all.take(i as int) =~= all);
    while i > 0
        invariant
            i <= parameters.len(),
            all == parameters@.map_values(|p: HashParameter| p@),
            asks_too_many_lanes(all) == asks_too_many_lanes(all.take(i as int)),
        decreases i,
    {
        i -= 1;
        proof {
            assert(all.take(i + 1).last() == parameters@[i as int]@);
            assert(all.take(i + 1).drop_last() =~= all.take(i as int));
        }
        if same_text(parameters[i].name.as_str(), "p") {
            return match parameters[i].value {
                Some(lanes) => lanes > MAX_PARALLELISM,
                None => false,
            };
        }
    }
    false
}

/// Whether `password` is the one that `encoded` was made from. A text that
/// is no password hash matches no password, and neither does a hash that asks
/// for more lanes than Argon2 works in: the answer is `false`, never an error,
/// and the program goes on.
pub fn verify_password(password: &[u8], encoded: &str) -> (verified: bool)
    ensures
        verified == password_verifies(password@, encoded@),
        !starts_as_hash(encoded@) ==> !verified,
{
    let parameters = read_parameters(encoded);
    proof {
        assert(parameters@.map_values(|p: HashParameter| p@) =~= hash_parameters(encoded@));
    }
    if too_many_lanes(&parameters) {
        return false;
    }
    argon2_verify(password, encoded).is_ok()
}

/// The hasher gives every password of at most `MAX_HASHED_LENGTH` bytes a
/// hash, and that hash verifies the password: `verify_password` answers
/// `true` to the two.
pub proof fn law_hash_verifies_its_password(r: RequestResult<String>, password: Seq<u8>)
    requires
        is_hash_answer(r, password),
        password.len() <= MAX_HASHED_LENGTH,
    ensures
        r matches Ok(encoded) && password_verifies(password, encoded@),
{
}

} // verus!
