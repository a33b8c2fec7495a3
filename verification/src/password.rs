use vstd::prelude::*;
use crate::error::AppError;

verus! {

/// Whether `bcrypt::verify` accepts a password against a hash: `Some` of
/// its answer, `None` where it reports an error.
pub uninterp spec fn bcrypt_verification(password: Seq<char>, hash: Seq<char>) -> Option<bool>;

/// Hashes a password with `bcrypt::hash` at `bcrypt::DEFAULT_COST`. The salt
/// comes from the operating system's randomness, so nothing names the hash.
/// Claimed of a hash that comes back: it is 60 characters long and
/// `bcrypt::verify` accepts the same password against it (verification
/// reads the cost and salt back from the hash and recomputes it from the
/// password, truncated at 72 bytes in both directions).
#[verifier::external_body]
fn bcrypt_hash(password: &str) -> (r: Result<String, bcrypt::BcryptError>)
    ensures
        r matches Ok(h) ==> h@.len() == 60 && bcrypt_verification(password@, h@) == Some(true),
{
    bcrypt::hash(password, bcrypt::DEFAULT_COST)
}

/// Verifies a password with `bcrypt::verify`. Claimed: the answer is the
/// named verification; a hash that is not 60 ASCII characters is refused
/// with an error (the first check of the function).
#[verifier::external_body]
fn bcrypt_verify(password: &str, hash: &str) -> (r: Result<bool, bcrypt::BcryptError>)
    ensures
        r is Ok <==> bcrypt_verification(password@, hash@) is Some,
        r matches Ok(b) ==> bcrypt_verification(password@, hash@) == Some(b),
        !(hash@.len() == 60 && vstd::utf8::is_ascii_chars(hash@)) ==> r is Err,
{
    bcrypt::verify(password, hash)
}

/// Hashes a password for storage. A hash that comes back verifies against
/// the same password; a failure of the hasher is a password-hash error.
pub fn hash_password(password: &str) -> (r: Result<String, AppError>)
    ensures
        r matches Ok(h) ==> h@.len() == 60 && bcrypt_verification(password@, h@) == Some(true),
        r matches Err(e) ==> e is PassWordHashErr,
{
    match bcrypt_hash(password) {
        Ok(h) => Ok(h),
        Err(e) => Err(AppError::PassWordHashErr(e)),
    }
}

/// Checks a password against a stored hash: the verifier's answer, or a
/// password-hash error where the hash cannot be read.
pub fn verify_password(password: &str, hashed_passwrd: &str) -> (r: Result<bool, AppError>)
    ensures
        match bcrypt_verification(password@, hashed_passwrd@) {
            Some(b) => r == Ok::<bool, AppError>(b),
            None => r matches Err(e) && e is PassWordHashErr,
        },
        !(hashed_passwrd@.len() == 60 && vstd::utf8::is_ascii_chars(hashed_passwrd@)) ==> r is Err,
{
    match bcrypt_verify(password, hashed_passwrd) {
        Ok(b) => Ok(b),
        Err(e) => Err(AppError::PassWordHashErr(e)),
    }
}

} // verus!
