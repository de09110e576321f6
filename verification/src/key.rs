//! Key derivation: the key is the SHA-256 digest of the password's bytes,
//! with no salt and no iteration.

use sha2::{Digest, Sha256};
use vstd::prelude::*;
use vstd::string::StringSliceAdditionalSpecFns;

verus! {

/// Length of an AES-256 key in bytes.
pub const KEY_LEN: usize = 32;

/// The SHA-256 digest of a byte string.
pub uninterp spec fn sha256(data: Seq<u8>) -> Seq<u8>;

/// The key that belongs to a password: the digest of its UTF-8 encoding.
pub open spec fn key_of_password(password: &str) -> Seq<u8> {
    sha256(password.spec_bytes())
}

/// Calls `sha2::Sha256::digest`. Trusted: the 32 bytes returned are the
/// SHA-256 digest of `data`, which depends on `data` alone.
#[verifier::external_body]
fn sha256_digest(data: &[u8]) -> (digest: [u8; 32])
    ensures
        digest@ == sha256(data@),
{
    Sha256::digest(data).into()
}

/// Derives the 32-byte key from a password. Total: every password has a key.
pub fn derive_key_from_password(password: &str) -> (key: [u8; 32])
    ensures
        key@ == key_of_password(password),
        key@.len() == KEY_LEN,
{
    sha256_digest(password.as_bytes())
}

/// Key derivation is deterministic: the key depends on nothing but the
/// password's characters, so deriving twice from one password gives one key.
pub proof fn key_derivation_is_deterministic(first: &str, second: &str)
    requires
        first@ == second@,
    ensures
        key_of_password(first) == key_of_password(second),
{
}

} // verus!
