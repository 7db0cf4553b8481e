//! Copying variable-length byte buffers into fixed-size arrays.

use vstd::prelude::*;

verus! {

/// Copies `src` into `dst`, which must have the same length (as `<[u8]>::copy_from_slice`).
pub fn copy_from_slice<const N: usize>(dst: &mut [u8; N], src: &[u8])
    requires
        src@.len() == N,
    ensures
        final(dst)@ == src@,
{
    let mut i: usize = 0;
    while i < N
        invariant
            0 <= i <= N,
            src@.len() == N,
            dst@.len() == N,
            forall|j: int| 0 <= j < i ==> dst@[j] == src@[j],
        decreases N - i,
    {
        dst[i] = src[i];
        i = i + 1;
    }
    assert(dst@ =~= src@);
}

} // verus!
