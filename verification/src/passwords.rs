//! Passwords, kept as hashes of the `bcrypt` crate.

use bcrypt::BcryptError;
use vstd::prelude::*;

verus! {

/// `bcrypt::BcryptError`, what can go wrong in the crate.
#[verifier::external_type_specification]
#[verifier::external_body]
pub struct ExBcryptError(BcryptError);

/// What `bcrypt` finds of a password and a hash: whether they belong together;
/// `None` for a text that is no hash.
pub uninterp spec fn bcrypt_verdict(password: Seq<char>, hash: Seq<char>) -> Option<bool>;

/// A password belongs to a hash.
pub open spec fn opens(password: Seq<char>, hash: Seq<char>) -> bool {
    bcrypt_verdict(password, hash) == Some(true)
}

/// The shape of a hash of version 2b at cost 12.
pub open spec fn is_hash(hash: Seq<char>) -> bool {
    hash.len() == 60 && "$2b$12$"@.is_prefix_of(hash)
}

/// What a call of `bcrypt` on a password gave.
pub closed spec fn bcrypt_gave(password: Seq<char>, outcome: Result<String, BcryptError>) -> bool {
    exists|s: &str| s@ == password && #[trigger] call_ensures(bcrypt_hash, (s,), outcome)
}

/// Hashing failed: no random salt could be had.
#[derive(Clone, Copy, Debug, PartialEq, Eq, Structural)]
pub enum HashError {
    NoSalt,
}

/// `bcrypt::verify`: takes the salt and the cost out of the hash, hashes the password
/// with them and compares. The result depends on the two texts alone.
#[verifier::external_body]
fn bcrypt_verify(password: &str, hash: &str) -> (r: Result<bool, BcryptError>)
    ensures
        (match r {
            Ok(belongs) => Some(belongs),
            Err(_) => None,
        }) == bcrypt_verdict(password@, hash@),
{
    bcrypt::verify(password, hash)
}

/// `bcrypt::hash` at the crate's default cost, 12: a hash of version 2b with a random
/// salt. Which hash comes is left to chance; `bcrypt::verify` finds that the password
/// belongs to it. That there is one is not claimed: the system may have no random
/// numbers to give.
#[verifier::external_body]
fn bcrypt_hash(password: &str) -> (r: Result<String, BcryptError>)
    ensures
        r matches Ok(hash) ==> is_hash(hash@) && bcrypt_verdict(password@, hash@) == Some(true),
{
    bcrypt::hash(password, bcrypt::DEFAULT_COST)
}

/// Whether a password belongs to a hash; a text that is no hash belongs to none.
pub fn verify_password(password: &str, hash: &str) -> (r: bool)
    ensures
        r == opens(password@, hash@),
{
    match bcrypt_verify(password, hash) {
        Ok(belongs) => belongs,
        Err(_) => false,
    }
}

/// A hash that a password belongs to. Whether there is one rests on the random numbers
/// that the system has to give; `hash_outcome` tells the result for either case.
pub fn hash_password(password: &str) -> (r: Result<String, HashError>)
    ensures
        r matches Ok(hash) ==> is_hash(hash@) && opens(password@, hash@),
        exists|outcome: Result<String, BcryptError>| #[trigger]
            bcrypt_gave(password@, outcome) && r == (match outcome {
                Ok(hash) => Ok(hash),
                Err(_) => Err(HashError::NoSalt),
            }),
{
    let outcome: Result<String, BcryptError> = bcrypt_hash(password);
    assert(call_ensures(bcrypt_hash, (password,), outcome));
    assert(bcrypt_gave(password@, outcome));
    hash_outcome(outcome)
}

/// What becomes of hashing a password, given what `bcrypt` gave: its hash where there
/// is one. At a cost that `bcrypt` allows, nothing but the salt can be missing.
pub fn hash_outcome(outcome: Result<String, BcryptError>) -> (r: Result<String, HashError>)
    ensures
        r == (match outcome {
            Ok(hash) => Ok(hash),
            Err(_) => Err(HashError::NoSalt),
        }),
{
    match outcome {
        Ok(hash) => Ok(hash),
        Err(_) => Err(HashError::NoSalt),
    }
}

} // verus!
