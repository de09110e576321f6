use decrypt_file::{decrypt_blocks, decrypt_padded, DecryptError};

fn bytes_of(text: &str) -> Vec<u8> {
    let digits: Vec<u8> = text
        .bytes()
        .map(|c| match c {
            b'0'..=b'9' => c - b'0',
            _ => c - b'a' + 10,
        })
        .collect();
    digits.chunks(2).map(|pair| pair[0] * 16 + pair[1]).collect()
}

fn sample_key() -> Vec<u8> {
    bytes_of("603deb1015ca71be2b73aef0857d77811f352c073b6108d72d9810a30914dff4")
}

fn sample_iv() -> Vec<u8> {
    bytes_of("000102030405060708090a0b0c0d0e0f")
}

fn secret_key() -> Vec<u8> {
    bytes_of("2bb80d537b1da3e38bd30361aa855686bde0eacd7162fef6a25fe97bf527a25b")
}

#[test]
fn blocks_decrypt_to_published_vector() {
    let mut buffer =
        bytes_of("f58c4c04d6e5f1ba779eabfb5f7bfbd69cfc4e967edb808d679f777bc6702c7d");
    let ciphertext = buffer.clone();
    assert_eq!(
        decrypt_blocks(&sample_key(), &sample_iv(), &mut buffer),
        Ok(())
    );
    assert_eq!(
        buffer,
        bytes_of("6bc1bee22e409f96e93d7e117393172aae2d8a571e03ac9c9eb76fac45af8e51")
    );
    assert_ne!(buffer, ciphertext);
}

#[test]
fn single_block_decrypts_with_iv_as_previous_block() {
    let mut buffer = bytes_of("f58c4c04d6e5f1ba779eabfb5f7bfbd6");
    assert_eq!(
        decrypt_blocks(&sample_key(), &sample_iv(), &mut buffer),
        Ok(())
    );
    assert_eq!(buffer, bytes_of("6bc1bee22e409f96e93d7e117393172a"));
}

#[test]
fn short_key_cannot_initialize_cipher() {
    let mut buffer = vec![0u8; 16];
    assert_eq!(
        decrypt_blocks(&[0u8; 31], &sample_iv(), &mut buffer),
        Err(DecryptError::CipherInit)
    );
    assert_eq!(buffer, vec![0u8; 16]);
}

#[test]
fn long_key_cannot_initialize_cipher() {
    let mut buffer = vec![0u8; 16];
    assert_eq!(
        decrypt_blocks(&[0u8; 33], &sample_iv(), &mut buffer),
        Err(DecryptError::CipherInit)
    );
}

#[test]
fn wrong_iv_length_cannot_initialize_cipher() {
    let mut buffer = vec![0u8; 16];
    assert_eq!(
        decrypt_blocks(&sample_key(), &[0u8; 15], &mut buffer),
        Err(DecryptError::CipherInit)
    );
    assert_eq!(
        decrypt_blocks(&sample_key(), &[0u8; 17], &mut buffer),
        Err(DecryptError::CipherInit)
    );
    assert_eq!(
        decrypt_blocks(&sample_key(), &[], &mut buffer),
        Err(DecryptError::CipherInit)
    );
}

#[test]
fn size_error_comes_before_alignment_error() {
    let mut buffer = vec![0u8; 5];
    assert_eq!(
        decrypt_blocks(&[0u8; 8], &sample_iv(), &mut buffer),
        Err(DecryptError::CipherInit)
    );
    let mut empty: Vec<u8> = Vec::new();
    assert_eq!(
        decrypt_blocks(&sample_key(), &[0u8; 4], &mut empty),
        Err(DecryptError::CipherInit)
    );
}

#[test]
fn unaligned_ciphertext_fails_and_is_untouched() {
    for len in [1usize, 15, 17, 31, 33] {
        let mut buffer = vec![7u8; len];
        assert_eq!(
            decrypt_blocks(&sample_key(), &sample_iv(), &mut buffer),
            Err(DecryptError::Decryption)
        );
        assert_eq!(buffer, vec![7u8; len]);
    }
}

#[test]
fn empty_ciphertext_fails() {
    let mut buffer: Vec<u8> = Vec::new();
    assert_eq!(
        decrypt_blocks(&sample_key(), &sample_iv(), &mut buffer),
        Err(DecryptError::Decryption)
    );
    assert_eq!(
        decrypt_padded(&sample_key(), &sample_iv(), Vec::new()),
        Err(DecryptError::Decryption)
    );
}

#[test]
fn padded_decryption_recovers_hello() {
    let ciphertext = bytes_of("38f9d373cc6733cf9f28e76e19658d53");
    assert_eq!(
        decrypt_padded(&secret_key(), &sample_iv(), ciphertext),
        Ok(b"hello".to_vec())
    );
}

#[test]
fn padded_decryption_recovers_empty_message() {
    let ciphertext = bytes_of("07ad203904e79a5460df94a8bcc0c4ab");
    assert_eq!(
        decrypt_padded(&secret_key(), &sample_iv(), ciphertext),
        Ok(Vec::new())
    );
}

#[test]
fn padded_decryption_recovers_a_full_block() {
    let ciphertext =
        bytes_of("84147a2132d1a91c0b1a40a13350b3289c985653223d96f70b6c3fc979644491");
    assert_eq!(
        decrypt_padded(&secret_key(), &sample_iv(), ciphertext),
        Ok(b"0123456789abcdef".to_vec())
    );
}

#[test]
fn padded_decryption_without_valid_padding_fails() {
    let ciphertext = bytes_of("f58c4c04d6e5f1ba779eabfb5f7bfbd6");
    assert_eq!(
        decrypt_padded(&sample_key(), &sample_iv(), ciphertext),
        Err(DecryptError::Decryption)
    );
}

#[test]
fn padded_decryption_reports_sizes_and_alignment() {
    assert_eq!(
        decrypt_padded(&[1u8; 16], &sample_iv(), vec![0u8; 16]),
        Err(DecryptError::CipherInit)
    );
    assert_eq!(
        decrypt_padded(&sample_key(), &sample_iv(), vec![0u8; 20]),
        Err(DecryptError::Decryption)
    );
}
