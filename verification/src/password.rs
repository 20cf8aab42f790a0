//! Password hashing and checking with bcrypt.
use vstd::prelude::*;

verus! {

#[verifier::external_type_specification]
#[verifier::external_body]
pub struct ExBcryptError(bcrypt::BcryptError);

/// What `bcrypt::verify(password, hash)` gives: `Some(b)` for `Ok(b)`, `None`
/// when the hash text cannot be parsed. It depends on its two arguments only.
pub uninterp spec fn spec_bcrypt_verify(password: Seq<char>, hash: Seq<char>) -> Option<bool>;

/// `bcrypt::hash(password, DEFAULT_COST)`: hashes the password under a fresh
/// random salt. The salt, and so the hash text, is left open; stated is what
/// the crate shows of every outcome: the text is the 60 characters of the
/// `$2b$12$` format, and `bcrypt::verify` accepts the same password against
/// it. The crate fails only when the system's random source fails; then
/// this call stops with a panic.
#[verifier::external_body]
pub(crate) fn hash_password(password: &str) -> (r: String)
    ensures
        spec_bcrypt_verify(password@, r@) == Some(true),
        r@.len() == 60,
{
    bcrypt::hash(password, bcrypt::DEFAULT_COST).expect("the system random source failed")
}

/// `bcrypt::verify(password, hash)`: whether the password matches the hash;
/// an error when the hash text is malformed.
#[verifier::external_body]
pub(crate) fn verify_password(password: &str, hash: &str) -> (r: Result<bool, bcrypt::BcryptError>)
    ensures
        match r {
            Ok(b) => spec_bcrypt_verify(password@, hash@) == Some(b),
            Err(_) => spec_bcrypt_verify(password@, hash@) is None,
        },
{
    bcrypt::verify(password, hash)
}

} // verus!
