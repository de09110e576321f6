//! Decryption of a single AES-256-CBC container whose key is the SHA-256
//! digest of a password.
//!
//! A container is sixteen bytes of initialization vector followed by the
//! ciphertext. Decryption is a forward pipeline: the password gives the key,
//! the container gives the vector and the ciphertext, the cipher gives the
//! padded plaintext, and removing the block padding gives the plaintext.

pub mod cipher;
pub mod container;
pub mod error;
pub mod key;
pub mod output;
pub mod padding;
pub mod pipeline;

pub use crate::cipher::{decrypt_blocks, decrypt_padded};
pub use crate::container::{parse_container, Container};
pub use crate::error::DecryptError;
pub use crate::key::derive_key_from_password;
pub use crate::output::{derive_output_path, output_file_name, output_name_for};
pub use crate::padding::remove_padding;
pub use crate::pipeline::{decrypt_container, decrypt_with_key};
