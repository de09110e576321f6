//! The whole pipeline from password and container bytes to plaintext.

use crate::cipher::{
    decrypt_padded, decrypted, decrypted_blocks, padded_message_is_recovered, sizes_fit,
};
use crate::container::{ciphertext_of, holds_iv, iv_of, parse_container, IV_LEN};
use crate::error::DecryptError;
use crate::key::{derive_key_from_password, key_of_password, KEY_LEN};
use crate::padding::{with_padding, BLOCK_LEN};
use vstd::prelude::*;

verus! {

/// The plaintext of a container under a key: the container is split, then
/// its ciphertext is decrypted and unpadded.
pub open spec fn container_plaintext(key: Seq<u8>, data: Seq<u8>) -> Result<
    Seq<u8>,
    DecryptError,
> {
    if !holds_iv(data) {
        Err(DecryptError::MalformedContainer)
    } else {
        decrypted(key, iv_of(data), ciphertext_of(data))
    }
}

/// Decrypts a container with a key that is already at hand.
pub fn decrypt_with_key(key: &[u8], data: &[u8]) -> (outcome: Result<Vec<u8>, DecryptError>)
    ensures
        match container_plaintext(key@, data@) {
            Ok(plaintext) => outcome is Ok && outcome->Ok_0@ == plaintext,
            Err(e) => outcome == Err::<Vec<u8>, DecryptError>(e),
        },
{
    match parse_container(data) {
        Err(e) => Err(e),
        Ok(container) => {
            let iv = container.iv;
            decrypt_padded(key, iv.as_slice(), container.ciphertext)
        },
    }
}

/// Decrypts a container with the key that belongs to `password`. Never
/// panics: a wrong password or damaged data ends in an error, in practice
/// `Decryption`, or in a plaintext other than the one encrypted.
pub fn decrypt_container(password: &str, data: &[u8]) -> (outcome: Result<Vec<u8>, DecryptError>)
    ensures
        match container_plaintext(key_of_password(password), data@) {
            Ok(plaintext) => outcome is Ok && outcome->Ok_0@ == plaintext,
            Err(e) => outcome == Err::<Vec<u8>, DecryptError>(e),
        },
        data@.len() < IV_LEN ==> outcome == Err::<Vec<u8>, DecryptError>(
            DecryptError::MalformedContainer,
        ),
        data@.len() >= IV_LEN && (data@.len() - IV_LEN) % (BLOCK_LEN as int) != 0 ==> outcome
            == Err::<Vec<u8>, DecryptError>(DecryptError::Decryption),
        data@.len() == IV_LEN ==> outcome == Err::<Vec<u8>, DecryptError>(
            DecryptError::Decryption,
        ),
        outcome != Err::<Vec<u8>, DecryptError>(DecryptError::CipherInit),
{
    let key = derive_key_from_password(password);
    decrypt_with_key(key.as_slice(), data)
}

/// A container shorter than an initialization vector is refused as
/// malformed under every key, before any cipher is set up.
pub proof fn short_input_is_rejected(key: Seq<u8>, data: Seq<u8>)
    requires
        data.len() < IV_LEN,
    ensures
        container_plaintext(key, data) == Err::<Seq<u8>, DecryptError>(
            DecryptError::MalformedContainer,
        ),
{
}

/// A container whose ciphertext region is not a multiple of the block size
/// is refused as a decryption failure under every 32-byte key.
pub proof fn unaligned_container_is_rejected(key: Seq<u8>, data: Seq<u8>)
    requires
        key.len() == KEY_LEN,
        data.len() >= IV_LEN,
        (data.len() - IV_LEN) % (BLOCK_LEN as int) != 0,
    ensures
        container_plaintext(key, data) == Err::<Seq<u8>, DecryptError>(DecryptError::Decryption),
{
    assert(sizes_fit(key, iv_of(data)));
}

/// The decrypting half of a round trip, for a whole container: where the
/// ciphertext behind a 16-byte vector deciphers to a message with its
/// padding, the container's plaintext is that message, byte for byte, the
/// empty message included.
pub proof fn sealed_message_is_recovered(
    key: Seq<u8>,
    iv: Seq<u8>,
    ciphertext: Seq<u8>,
    message: Seq<u8>,
)
    requires
        iv.len() == IV_LEN,
        decrypted_blocks(key, iv, ciphertext) == Ok::<Seq<u8>, DecryptError>(
            with_padding(message),
        ),
    ensures
        container_plaintext(key, iv + ciphertext) == Ok::<Seq<u8>, DecryptError>(message),
{
    let data = iv + ciphertext;
    assert(iv_of(data) =~= iv);
    assert(ciphertext_of(data) =~= ciphertext);
    padded_message_is_recovered(key, iv, ciphertext, message);
}

} // verus!
