//! The ways in which decrypting a container can fail.

use vstd::prelude::*;

verus! {

/// Why a run stopped. Every error is final: nothing is retried.
#[derive(Clone, Copy, Debug, PartialEq, Eq, Structural)]
pub enum DecryptError {
    /// The container is shorter than an initialization vector.
    MalformedContainer,
    /// The key is not 32 bytes long or the initialization vector is not 16.
    CipherInit,
    /// The ciphertext is not a positive number of whole blocks, or the
    /// decrypted blocks do not end in valid padding. The second is also what
    /// a wrong password looks like: the format carries no integrity tag.
    Decryption,
    /// The input path has no file name to derive the output name from.
    InvalidPath,
}

impl DecryptError {
    /// The text of the diagnostic for this error.
    pub open spec fn message_text(self) -> Seq<char> {
        match self {
            DecryptError::MalformedContainer => "encrypted file is too short to contain an IV"@,
            DecryptError::CipherInit => "failed to initialize cipher: Invalid Length"@,
            DecryptError::Decryption => "decryption failed: Unpad Error"@,
            DecryptError::InvalidPath => "input path has no file name"@,
        }
    }

    /// The one-line diagnostic that a caller shows for this error.
    pub fn message(&self) -> (text: String)
        ensures
            text@ == self.message_text(),
    {
        match self {
            DecryptError::MalformedContainer => {
                "encrypted file is too short to contain an IV".to_owned()
            },
            DecryptError::CipherInit => "failed to initialize cipher: Invalid Length".to_owned(),
            DecryptError::Decryption => "decryption failed: Unpad Error".to_owned(),
            DecryptError::InvalidPath => "input path has no file name".to_owned(),
        }
    }
}

} // verus!
