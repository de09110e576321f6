use decrypt_file::{remove_padding, DecryptError};

fn block_ending_in(tail: &[u8]) -> Vec<u8> {
    let mut block: Vec<u8> = (100u8..116).collect();
    let start = block.len() - tail.len();
    block[start..].copy_from_slice(tail);
    block
}

#[test]
fn padding_of_one_byte_is_removed() {
    let mut buffer = block_ending_in(&[1]);
    assert_eq!(remove_padding(&mut buffer), Ok(()));
    assert_eq!(buffer, (100u8..115).collect::<Vec<u8>>());
}

#[test]
fn padding_of_eleven_bytes_leaves_hello() {
    let mut buffer = b"hello".to_vec();
    buffer.extend([11u8; 11]);
    assert_eq!(remove_padding(&mut buffer), Ok(()));
    assert_eq!(buffer, b"hello".to_vec());
}

#[test]
fn whole_block_of_padding_leaves_nothing() {
    let mut buffer = vec![16u8; 16];
    assert_eq!(remove_padding(&mut buffer), Ok(()));
    assert!(buffer.is_empty());
}

#[test]
fn padding_is_taken_from_the_last_block_only() {
    let mut buffer: Vec<u8> = vec![4u8; 16];
    buffer.extend(block_ending_in(&[4, 4, 4, 4]));
    assert_eq!(remove_padding(&mut buffer), Ok(()));
    assert_eq!(buffer.len(), 28);
    assert_eq!(&buffer[..16], &[4u8; 16]);
    assert_eq!(&buffer[16..], &(100u8..112).collect::<Vec<u8>>()[..]);
}

#[test]
fn padding_byte_zero_is_invalid() {
    let mut buffer = block_ending_in(&[0]);
    let before = buffer.clone();
    assert_eq!(remove_padding(&mut buffer), Err(DecryptError::Decryption));
    assert_eq!(buffer, before);
}

#[test]
fn padding_byte_above_block_size_is_invalid() {
    let mut buffer = vec![17u8; 32];
    let before = buffer.clone();
    assert_eq!(remove_padding(&mut buffer), Err(DecryptError::Decryption));
    assert_eq!(buffer, before);
}

#[test]
fn padding_bytes_that_differ_are_invalid() {
    let mut buffer = block_ending_in(&[3, 2, 3]);
    let before = buffer.clone();
    assert_eq!(remove_padding(&mut buffer), Err(DecryptError::Decryption));
    assert_eq!(buffer, before);
    let mut first_differs = block_ending_in(&[9, 3, 3]);
    assert_eq!(
        remove_padding(&mut first_differs),
        Err(DecryptError::Decryption)
    );
}

#[test]
fn padding_longer_than_the_buffer_is_invalid() {
    let mut buffer = vec![5u8; 3];
    assert_eq!(remove_padding(&mut buffer), Err(DecryptError::Decryption));
    assert_eq!(buffer, vec![5u8; 3]);
}

#[test]
fn empty_buffer_has_no_padding() {
    let mut buffer: Vec<u8> = Vec::new();
    assert_eq!(remove_padding(&mut buffer), Err(DecryptError::Decryption));
    assert!(buffer.is_empty());
}
