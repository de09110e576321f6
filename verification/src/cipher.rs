//! AES-256 in CBC mode over whole blocks, and the padded decryption built on
//! it.

use crate::container::IV_LEN;
use crate::error::DecryptError;
use crate::key::KEY_LEN;
use crate::padding::{
    has_valid_padding, remove_padding, unpadding_inverts_padding, with_padding, without_padding,
    BLOCK_LEN,
};
use aes::Aes256;
use cbc::cipher::block_padding::{NoPadding, UnpadError};
use cbc::cipher::{BlockDecryptMut, InvalidLength, KeyIvInit};
use cbc::Decryptor;
use vstd::prelude::*;

verus! {

/// The error of `cipher`'s slice-based constructors. Opaque here.
#[verifier::external_type_specification]
#[verifier::external_body]
pub struct ExInvalidLength(InvalidLength);

/// The error of `cipher`'s padded decryption. Opaque here.
#[verifier::external_type_specification]
#[verifier::external_body]
pub struct ExUnpadError(UnpadError);

/// The blocks that AES-256-CBC decryption gives for a 32-byte key, a 16-byte
/// initialization vector and a ciphertext of whole blocks: each block is
/// deciphered and combined with the block before it, the vector standing in
/// before the first. Padding is not touched.
pub uninterp spec fn aes256_cbc_blocks(key: Seq<u8>, iv: Seq<u8>, ciphertext: Seq<u8>) -> Seq<u8>;

/// Whether key and initialization vector have the sizes that AES-256-CBC takes.
pub open spec fn sizes_fit(key: Seq<u8>, iv: Seq<u8>) -> bool {
    key.len() == KEY_LEN && iv.len() == IV_LEN
}

/// Whether `ciphertext` is a positive number of whole blocks.
pub open spec fn is_whole_blocks(ciphertext: Seq<u8>) -> bool {
    ciphertext.len() > 0 && ciphertext.len() % (BLOCK_LEN as nat) == 0
}

/// What block decryption gives: the sizes are tested first, then the
/// alignment, and only then is anything deciphered.
pub open spec fn decrypted_blocks(key: Seq<u8>, iv: Seq<u8>, ciphertext: Seq<u8>) -> Result<
    Seq<u8>,
    DecryptError,
> {
    if !sizes_fit(key, iv) {
        Err(DecryptError::CipherInit)
    } else if !is_whole_blocks(ciphertext) {
        Err(DecryptError::Decryption)
    } else {
        Ok(aes256_cbc_blocks(key, iv, ciphertext))
    }
}

/// What padded decryption gives: the decrypted blocks without their padding,
/// if they end in valid padding.
pub open spec fn decrypted(key: Seq<u8>, iv: Seq<u8>, ciphertext: Seq<u8>) -> Result<
    Seq<u8>,
    DecryptError,
> {
    match decrypted_blocks(key, iv, ciphertext) {
        Err(e) => Err(e),
        Ok(padded) => if has_valid_padding(padded) {
            Ok(without_padding(padded))
        } else {
            Err(DecryptError::Decryption)
        },
    }
}

/// Calls `cbc::Decryptor::<aes::Aes256>::new_from_slices` and, on the cipher
/// it returns, `decrypt_padded_mut` with `NoPadding`. Trusted: the constructor
/// fails exactly when the key is not 32 bytes or the vector not 16; the
/// decryption fails exactly when the buffer is not a whole number of blocks
/// (an empty buffer passes); on any failure the buffer is untouched; on
/// success it holds the decrypted blocks, which depend on key, vector and
/// ciphertext alone, and is as long as before.
#[verifier::external_body]
fn cbc_decrypt_in_place(
    key: &[u8],
    iv: &[u8],
    buffer: &mut Vec<u8>,
) -> (outcome: Result<Result<(), UnpadError>, InvalidLength>)
    ensures
        outcome is Ok <==> sizes_fit(key@, iv@),
        outcome is Ok ==> (outcome->Ok_0 is Ok <==> old(buffer)@.len() % 16 == 0),
        outcome is Ok && outcome->Ok_0 is Ok ==> final(buffer)@ == aes256_cbc_blocks(
            key@,
            iv@,
            old(buffer)@,
        ),
        !(outcome is Ok && outcome->Ok_0 is Ok) ==> final(buffer)@ == old(buffer)@,
        final(buffer)@.len() == old(buffer)@.len(),
{
    match Decryptor::<Aes256>::new_from_slices(key, iv) {
        Err(e) => Err(e),
        Ok(cipher) => match cipher.decrypt_padded_mut::<NoPadding>(buffer) {
            Ok(_) => Ok(Ok(())),
            Err(e) => Ok(Err(e)),
        },
    }
}

/// Decrypts the ciphertext in `buffer` in place, block by block, leaving the
/// padding on. On failure the buffer is left as it was.
pub fn decrypt_blocks(key: &[u8], iv: &[u8], buffer: &mut Vec<u8>) -> (outcome: Result<
    (),
    DecryptError,
>)
    ensures
        match decrypted_blocks(key@, iv@, old(buffer)@) {
            Ok(padded) => outcome is Ok && final(buffer)@ == padded,
            Err(e) => outcome == Err::<(), DecryptError>(e) && final(buffer)@ == old(buffer)@,
        },
        final(buffer)@.len() == old(buffer)@.len(),
{
    match cbc_decrypt_in_place(key, iv, buffer) {
        Err(_) => Err(DecryptError::CipherInit),
        Ok(Err(_)) => Err(DecryptError::Decryption),
        Ok(Ok(())) => {
            if buffer.len() == 0 {
                assert(buffer@ =~= old(buffer)@);
                Err(DecryptError::Decryption)
            } else {
                Ok(())
            }
        },
    }
}

/// Decrypts a ciphertext and removes the padding: the whole of the
/// decryption after the container is split. There is no partial success.
pub fn decrypt_padded(key: &[u8], iv: &[u8], ciphertext: Vec<u8>) -> (outcome: Result<
    Vec<u8>,
    DecryptError,
>)
    ensures
        match decrypted(key@, iv@, ciphertext@) {
            Ok(plaintext) => outcome is Ok && outcome->Ok_0@ == plaintext,
            Err(e) => outcome == Err::<Vec<u8>, DecryptError>(e),
        },
{
    let mut buffer = ciphertext;
    match decrypt_blocks(key, iv, &mut buffer) {
        Err(e) => {
            return Err(e);
        },
        Ok(()) => {},
    }
    match remove_padding(&mut buffer) {
        Err(e) => Err(e),
        Ok(()) => Ok(buffer),
    }
}

/// A ciphertext that is not a positive number of whole blocks is refused as
/// a decryption failure, whatever key and vector of the right sizes say.
pub proof fn unaligned_ciphertext_is_rejected(key: Seq<u8>, iv: Seq<u8>, ciphertext: Seq<u8>)
    requires
        sizes_fit(key, iv),
        !is_whole_blocks(ciphertext),
    ensures
        decrypted(key, iv, ciphertext) == Err::<Seq<u8>, DecryptError>(DecryptError::Decryption),
{
}

/// The decrypting half of a round trip: where the blocks decipher to a
/// message with its padding, decryption returns that message exactly.
pub proof fn padded_message_is_recovered(
    key: Seq<u8>,
    iv: Seq<u8>,
    ciphertext: Seq<u8>,
    message: Seq<u8>,
)
    requires
        decrypted_blocks(key, iv, ciphertext) == Ok::<Seq<u8>, DecryptError>(
            with_padding(message),
        ),
    ensures
        decrypted(key, iv, ciphertext) == Ok::<Seq<u8>, DecryptError>(message),
{
    unpadding_inverts_padding(message);
}

} // verus!
