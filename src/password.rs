//! Password hashing with a memory-hard KDF and a fresh salt per hash.

use vstd::prelude::*;
use crate::error::HashError;

verus! {

/// The self-describing string `argon2::hash_encoded` produces for a password
/// and salt under the default configuration.
pub uninterp spec fn argon2_encoded_of(password: Seq<u8>, salt: Seq<u8>) -> Seq<char>;

/// What `argon2::verify_encoded` answers for an encoded hash and a password:
/// `None` where it reports an error.
pub uninterp spec fn argon2_verdict_of(encoded: Seq<char>, password: Seq<u8>) -> Option<bool>;

/// Shortest salt the hasher accepts, in bytes.
pub const SALT_MIN_LEN: usize = 8;

/// Length of the random salt of each hash, in bytes.
pub const SALT_LEN: usize = 32;

/// Relies on `rand::random::<[u8; 32]>`: thirty-two bytes from the thread-local CSPRNG.
#[verifier::external_body]
pub(crate) fn random_bytes32() -> (r: Vec<u8>)
    ensures
        r@.len() == 32,
{
    rand::random::<[u8; 32]>().to_vec()
}

/// Relies on `argon2::hash_encoded` with `Config::default()`: the encoded hash
/// depends on the password and salt alone; under the default configuration it
/// fails only on a password longer than 2^32 - 1 bytes or a salt outside 8 to
/// 2^32 - 1 bytes; and since the encoding carries the salt (in base64, between
/// `$` separators), hashes under two different salts differ.
#[verifier::external_body]
fn argon2_hash_encoded(password: &[u8], salt: &[u8]) -> (r: Result<String, argon2::Error>)
    ensures
        r matches Ok(h) ==> h@ == argon2_encoded_of(password@, salt@),
        r is Ok <== (password@.len() <= u32::MAX && SALT_MIN_LEN <= salt@.len() <= u32::MAX),
        r matches Ok(h) ==> forall|other: Seq<u8>| other != salt@ && SALT_MIN_LEN <= other.len() <= u32::MAX
            ==> h@ != #[trigger] argon2_encoded_of(password@, other),
{
    argon2::hash_encoded(password, salt, &argon2::Config::default())
}

/// Relies on `argon2::verify_encoded`: it re-derives the hash with the
/// parameters and salt that the encoded string names and compares; a hash
/// that `hash_encoded` made from the same password verifies.
#[verifier::external_body]
fn argon2_verify_encoded(encoded: &str, password: &[u8]) -> (r: Result<bool, argon2::Error>)
    ensures
        (match r {
            Ok(b) => argon2_verdict_of(encoded@, password@) == Some(b),
            Err(_) => argon2_verdict_of(encoded@, password@) is None,
        }),
        r matches Ok(true) <== (exists|salt: Seq<u8>| encoded@ == #[trigger] argon2_encoded_of(password@, salt)),
{
    argon2::verify_encoded(encoded, password)
}

/// Hashes a password under a given salt. It succeeds for passwords of up to
/// 2^32 - 1 bytes and salts of 8 to 2^32 - 1 bytes; two different salts give
/// two different hashes.
pub fn hash_password_with_salt(password: &[u8], salt: &[u8]) -> (r: Result<String, HashError>)
    ensures
        r matches Ok(h) ==> h@ == argon2_encoded_of(password@, salt@),
        r is Err ==> r matches Err(HashError::Encode(_)),
        password@.len() <= u32::MAX && SALT_MIN_LEN <= salt@.len() <= u32::MAX ==> r is Ok,
        r matches Ok(h) ==> forall|other: Seq<u8>| other != salt@ && SALT_MIN_LEN <= other.len() <= u32::MAX
            ==> h@ != #[trigger] argon2_encoded_of(password@, other),
{
    match argon2_hash_encoded(password, salt) {
        Ok(h) => Ok(h),
        Err(e) => Err(HashError::Encode(e)),
    }
}

/// Hashes a password under a fresh random salt.
pub fn hash_password(password: &[u8]) -> (r: Result<String, HashError>)
    ensures
        r matches Ok(h) ==> exists|salt: Seq<u8>| salt.len() == SALT_LEN && h@ == #[trigger] argon2_encoded_of(password@, salt),
        r is Err ==> r matches Err(HashError::Encode(_)),
        password@.len() <= u32::MAX ==> r is Ok,
{
    let salt = random_bytes32();
    hash_password_with_salt(password, salt.as_slice())
}

/// Checks a password against an encoded hash. Malformed hashes and
/// re-derivation failures come back as the same error kind.
pub fn verify_password(hash: &str, password: &[u8]) -> (r: Result<bool, HashError>)
    ensures
        (match argon2_verdict_of(hash@, password@) {
            Some(b) => r == Ok::<bool, HashError>(b),
            None => r matches Err(HashError::Verify(_)),
        }),
        forall|salt: Seq<u8>| hash@ == #[trigger] argon2_encoded_of(password@, salt) ==> r == Ok::<bool, HashError>(true),
{
    match argon2_verify_encoded(hash, password) {
        Ok(b) => Ok(b),
        Err(e) => Err(HashError::Verify(e)),
    }
}

} // verus!
