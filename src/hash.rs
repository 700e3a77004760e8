use vstd::prelude::*;

use crate::error::CryptoError;

verus! {

/// Width in bytes of a digest.
pub const HASH_LEN: usize = 32;

/// A 32-byte digest: the only message form that is signed or verified.
#[derive(Debug, Clone, Copy, PartialEq, Eq)]
pub struct HashValue {
    bytes: [u8; 32],
}

/// Copies a slice of exactly `N` bytes into an array.
pub(crate) fn copy_bytes<const N: usize>(bytes: &[u8]) -> (r: [u8; N])
    requires
        bytes@.len() == N,
    ensures
        r@ == bytes@,
{
    let mut out = [0u8; N];
    let mut i: usize = 0;
    while i < N
        invariant
            bytes@.len() == N,
            out@.len() == N,
            i <= N,
            forall|j: int| 0 <= j < i ==> out@[j] == bytes@[j],
        decreases N - i,
    {
        out[i] = bytes[i];
        i = i + 1;
    }
    assert(out@ =~= bytes@);
    out
}

impl View for HashValue {
    type V = Seq<u8>;

    closed spec fn view(&self) -> Seq<u8> {
        self.bytes@
    }
}

impl HashValue {
    /// Reads a digest from a slice, which must hold exactly 32 bytes.
    pub fn try_from(bytes: &[u8]) -> (r: Result<HashValue, CryptoError>)
        ensures
            bytes@.len() == HASH_LEN ==> r is Ok && r->Ok_0@ == bytes@,
            bytes@.len() != HASH_LEN ==> r == Err::<HashValue, CryptoError>(CryptoError::InvalidLength),
    {
        if bytes.len() != HASH_LEN {
            return Err(CryptoError::InvalidLength);
        }
        Ok(HashValue { bytes: copy_bytes(bytes) })
    }

    /// The digest's bytes.
    pub fn to_bytes(&self) -> (r: [u8; 32])
        ensures
            r@ == self@,
    {
        self.bytes
    }
}

} // verus!
