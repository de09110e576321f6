//! The container's framing: sixteen bytes of initialization vector, then
//! ciphertext to the end.

use crate::error::DecryptError;
use vstd::prelude::*;
use vstd::slice::{slice_subrange, slice_to_vec};

verus! {

/// Length of the initialization vector, which is also the cipher's block
/// size, in bytes.
pub const IV_LEN: usize = 16;

/// A container split into its two regions.
#[derive(Debug)]
pub struct Container {
    /// The initialization vector: the container's first sixteen bytes.
    pub iv: [u8; 16],
    /// Everything after the initialization vector.
    pub ciphertext: Vec<u8>,
}

/// Whether `data` is long enough to hold an initialization vector.
pub open spec fn holds_iv(data: Seq<u8>) -> bool {
    data.len() >= IV_LEN
}

/// The initialization vector of a container that holds one.
pub open spec fn iv_of(data: Seq<u8>) -> Seq<u8>
    recommends
        holds_iv(data),
{
    data.subrange(0, IV_LEN as int)
}

/// The ciphertext region of a container that holds an initialization vector.
pub open spec fn ciphertext_of(data: Seq<u8>) -> Seq<u8>
    recommends
        holds_iv(data),
{
    data.subrange(IV_LEN as int, data.len() as int)
}

/// Splits the raw bytes of a container into initialization vector and
/// ciphertext. Fails exactly when there are fewer than sixteen bytes. The
/// ciphertext's length is not looked at here: the cipher enforces alignment.
pub fn parse_container(data: &[u8]) -> (parsed: Result<Container, DecryptError>)
    ensures
        !holds_iv(data@) ==> parsed == Err::<Container, DecryptError>(
            DecryptError::MalformedContainer,
        ),
        holds_iv(data@) ==> parsed is Ok && parsed->Ok_0.iv@ == iv_of(data@)
            && parsed->Ok_0.ciphertext@ == ciphertext_of(data@),
        holds_iv(data@) ==> parsed->Ok_0.iv@ + parsed->Ok_0.ciphertext@ == data@,
{
    if data.len() < IV_LEN {
        return Err(DecryptError::MalformedContainer);
    }
    let mut iv: [u8; 16] = [0u8; 16];
    let mut i: usize = 0;
    while i < IV_LEN
        invariant
            i <= IV_LEN,
            data@.len() >= IV_LEN,
            forall|j: int| 0 <= j < i ==> iv@[j] == data@[j],
        decreases IV_LEN - i,
    {
        iv[i] = data[i];
        i += 1;
    }
    let ciphertext = slice_to_vec(slice_subrange(data, IV_LEN, data.len()));
    proof {
        assert(iv@ =~= iv_of(data@));
        assert(iv@ + ciphertext@ =~= data@);
    }
    Ok(Container { iv, ciphertext })
}

} // verus!
