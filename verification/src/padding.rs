//! Block padding: a padded message ends in N bytes of value N, with N from 1
//! to the block size.

use crate::error::DecryptError;
use vstd::prelude::*;

verus! {

/// The cipher's block size in bytes.
pub const BLOCK_LEN: usize = 16;

/// The number of padding bytes that the last byte of `padded` announces.
pub open spec fn announced_padding(padded: Seq<u8>) -> int
    recommends
        padded.len() > 0,
{
    padded[padded.len() - 1] as int
}

/// Whether `padded` ends in valid padding: it is not empty, its last byte N
/// lies between 1 and the block size and is no more than the length, and each
/// of the last N bytes is N.
pub open spec fn has_valid_padding(padded: Seq<u8>) -> bool {
    &&& padded.len() > 0
    &&& 1 <= announced_padding(padded) <= BLOCK_LEN
    &&& announced_padding(padded) <= padded.len()
    &&& forall|i: int|
        padded.len() - announced_padding(padded) <= i < padded.len() ==> #[trigger] padded[i]
            == announced_padding(padded)
}

/// What is left of a validly padded message when its padding is taken off.
pub open spec fn without_padding(padded: Seq<u8>) -> Seq<u8>
    recommends
        has_valid_padding(padded),
{
    padded.subrange(0, padded.len() - announced_padding(padded))
}

/// The number of bytes that padding adds to a message of `len` bytes: what is
/// missing to the next block boundary, and a whole block if nothing is.
pub open spec fn padding_for(len: nat) -> int {
    BLOCK_LEN - len % (BLOCK_LEN as nat)
}

/// A message with its padding appended.
pub open spec fn with_padding(message: Seq<u8>) -> Seq<u8> {
    message + Seq::new(padding_for(message.len()) as nat, |i: int| padding_for(message.len()) as u8)
}

/// Validates the padding at the end of `buffer` and cuts it off in place.
/// On failure the buffer is left as it was.
pub fn remove_padding(buffer: &mut Vec<u8>) -> (outcome: Result<(), DecryptError>)
    ensures
        has_valid_padding(old(buffer)@) ==> outcome is Ok && final(buffer)@ == without_padding(
            old(buffer)@,
        ),
        !has_valid_padding(old(buffer)@) ==> outcome == Err::<(), DecryptError>(
            DecryptError::Decryption,
        ) && final(buffer)@ == old(buffer)@,
{
    let len: usize = buffer.len();
    if len == 0 {
        return Err(DecryptError::Decryption);
    }
    let last: u8 = buffer[len - 1];
    let count: usize = last as usize;
    if count == 0 || count > BLOCK_LEN || count > len {
        return Err(DecryptError::Decryption);
    }
    let start: usize = len - count;
    let mut i: usize = start;
    while i < len
        invariant
            start <= i <= len,
            len == buffer@.len(),
            buffer@ == old(buffer)@,
            last as int == announced_padding(buffer@),
            start == len - last,
            forall|j: int| start <= j < i ==> buffer@[j] == last,
        decreases len - i,
    {
        if buffer[i] != last {
            assert(buffer@[i as int] != announced_padding(buffer@));
            return Err(DecryptError::Decryption);
        }
        i += 1;
    }
    buffer.truncate(start);
    Ok(())
}

/// Padding always ends a message validly, and a padded message is a whole
/// number of blocks, at least one.
pub proof fn padding_is_valid(message: Seq<u8>)
    ensures
        has_valid_padding(with_padding(message)),
        with_padding(message).len() > 0,
        with_padding(message).len() % (BLOCK_LEN as nat) == 0,
{
    let n = padding_for(message.len());
    let padded = with_padding(message);
    assert(1 <= n <= 16);
    assert(padded.len() == message.len() + n);
    assert(padded[padded.len() - 1] == n as u8);
}

/// Removing padding undoes adding it: every message, the empty one included,
/// comes back byte for byte.
pub proof fn unpadding_inverts_padding(message: Seq<u8>)
    ensures
        has_valid_padding(with_padding(message)),
        without_padding(with_padding(message)) == message,
{
    padding_is_valid(message);
    let n = padding_for(message.len());
    let padded = with_padding(message);
    assert(padded.len() == message.len() + n);
    assert(padded[padded.len() - 1] == n as u8);
    assert(without_padding(padded) =~= message);
}

/// Two validly padded messages of one length that unpad to the same bytes
/// are the same bytes: a change in the padded blocks that still passes
/// validation always shows in the message that comes out.
pub proof fn unpadding_is_injective(first: Seq<u8>, second: Seq<u8>)
    requires
        has_valid_padding(first),
        has_valid_padding(second),
        first.len() == second.len(),
        without_padding(first) == without_padding(second),
    ensures
        first == second,
{
    let n = announced_padding(first);
    let m = announced_padding(second);
    assert(without_padding(first).len() == first.len() - n);
    assert(without_padding(second).len() == second.len() - m);
    assert(n == m);
    assert forall|i: int| 0 <= i < first.len() implies first[i] == second[i] by {
        if i < first.len() - n {
            assert(first[i] == without_padding(first)[i]);
            assert(second[i] == without_padding(second)[i]);
        } else {
            assert(first[i] == n);
            assert(second[i] == m);
        }
    }
    assert(first =~= second);
}

} // verus!
