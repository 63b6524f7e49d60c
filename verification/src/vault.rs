//! The credential vault: a cleartext password becomes a salted, memory-hard
//! hash record, and a record says whether a password is the one it was made
//! from.

use vstd::prelude::*;
use vstd::utf8::encode_utf8;
use crate::error::{Cause, Error, ErrorKind, Result};

verus! {

/// The number of random bytes that salt one record.
pub const SALT_LENGTH: usize = 16;

/// The longest password or salt that can be hashed, in bytes.
pub const LENGTH_LIMIT: usize = 0xFFFF_FFFF;

/// The shortest salt that can be used, in bytes.
pub const SALT_MINIMUM: usize = 8;

/// What a client is told where a password could not be hashed.
pub const HASH_FAILED: &'static str = "Não foi possível gerar hash";

/// The record that `argon2::hash_encoded_defaults` makes of a password and a
/// salt: the parameters, the salt and the hash in one string.
pub uninterp spec fn argon2_encoded(password: Seq<u8>, salt: Seq<u8>) -> Seq<char>;

/// What `argon2::verify_encoded` says of a record and a password: whether
/// they match, or nothing where it cannot carry the comparison out (a record
/// that it cannot read, or one whose parameters it refuses).
pub uninterp spec fn argon2_verdict(record: Seq<char>, password: Seq<u8>) -> Option<bool>;

/// Whether a password and a salt of these bytes can be hashed.
pub open spec fn hashable(password: Seq<u8>, salt: Seq<u8>) -> bool {
    password.len() <= LENGTH_LIMIT && SALT_MINIMUM <= salt.len() <= LENGTH_LIMIT
}

/// Whether `record` was made from `password`, as far as verification tells.
pub open spec fn verifies(record: Seq<char>, password: Seq<char>) -> bool {
    argon2_verdict(record, encode_utf8(password)) == Some(true)
}

/// Calls `argon2::hash_encoded_defaults`. With the default parameters it
/// fails only on a password or a salt whose length is out of bounds;
/// otherwise it returns the record named by [`argon2_encoded`], and
/// verifying that record against the same password succeeds. Where it
/// fails, the error comes back as the two texts that it gives of itself
/// through `Display` and `Debug`, of which nothing is claimed.
#[verifier::external_body]
fn argon2_hash(password: &[u8], salt: &[u8]) -> (r: std::result::Result<String, Cause>)
    ensures
        r is Ok <==> hashable(password@, salt@),
        r matches Ok(record) ==> record@ == argon2_encoded(password@, salt@) && argon2_verdict(
            record@,
            password@,
        ) == Some(true),
{
    match argon2::hash_encoded_defaults(password, salt) {
        Ok(record) => Ok(record),
        Err(e) => Err(Cause { message: format!("{}", e), detail: format!("{:?}", e) }),
    }
}

/// Calls `argon2::verify_encoded`, whose outcome [`argon2_verdict`] names:
/// the answer where it gives one, nothing where it returns an error.
#[verifier::external_body]
fn argon2_verify(record: &str, password: &[u8]) -> (r: Option<bool>)
    ensures
        r == argon2_verdict(record@, password@),
{
    argon2::verify_encoded(record, password).ok()
}

/// Calls `rand::Rng::fill` on the thread's generator: `count` bytes from a
/// cryptographically secure source. Only their number is known.
#[verifier::external_body]
fn random_bytes(count: usize) -> (bytes: Vec<u8>)
    ensures
        bytes@.len() == count,
{
    let mut bytes = vec![0u8; count];
    rand::Rng::fill(&mut rand::thread_rng(), bytes.as_mut_slice());
    bytes
}

/// Hashes `password` with `salt`. Fails, with kind `Internal`, exactly
/// where the password or the salt is too long or the salt too short.
pub fn hash_with_salt(password: &str, salt: &[u8]) -> (r: Result<String>)
    ensures
        match r {
            Ok(record) => {
                &&& hashable(encode_utf8(password@), salt@)
                &&& record@ == argon2_encoded(encode_utf8(password@), salt@)
                &&& verifies(record@, password@)
            },
            Err(e) => {
                &&& !hashable(encode_utf8(password@), salt@)
                &&& e@.kind == ErrorKind::Internal
                &&& e@.description == Some(HASH_FAILED@)
                &&& e@.source is Some
            },
        },
{
    match argon2_hash(password.as_bytes(), salt) {
        Ok(record) => Ok(record),
        Err(cause) => Err(Error::caused(ErrorKind::Internal, HASH_FAILED, cause)),
    }
}

/// Hashes `password` with a fresh random salt of [`SALT_LENGTH`] bytes. The
/// record holds the parameters and the salt, so that it can be verified by
/// itself. Fails only on a password longer than [`LENGTH_LIMIT`] bytes.
pub fn hash_password(password: &str) -> (r: Result<String>)
    ensures
        match r {
            Ok(record) => {
                &&& encode_utf8(password@).len() <= LENGTH_LIMIT
                &&& verifies(record@, password@)
                &&& exists|salt: Seq<u8>|
                    salt.len() == SALT_LENGTH && record@ == #[trigger] argon2_encoded(
                        encode_utf8(password@),
                        salt,
                    )
            },
            Err(e) => {
                &&& encode_utf8(password@).len() > LENGTH_LIMIT
                &&& e@.kind == ErrorKind::Internal
                &&& e@.description == Some(HASH_FAILED@)
                &&& e@.source is Some
            },
        },
{
    let salt = random_bytes(SALT_LENGTH);
    hash_with_salt(password, salt.as_slice())
}

/// Whether `password` is the one that `record` was made from. A record that
/// cannot be read matches no password.
pub fn verify_password(record: &str, password: &str) -> (r: bool)
    ensures
        r == verifies(record@, password@),
{
    match argon2_verify(record, password.as_bytes()) {
        Some(same) => same,
        None => false,
    }
}

} // verus!
