//! Moving bytes between fixed-size buffers.

use vstd::prelude::*;
use zeroize::Zeroize;

verus! {

/// Calls `zeroize::Zeroize::zeroize` on the slice. Believed of it: every
/// byte is zero afterwards. That the writes are not optimized away is its
/// own promise and no part of this contract.
#[verifier::external_body]
pub(crate) fn wipe(bytes: &mut [u8])
    ensures
        final(bytes)@.len() == old(bytes)@.len(),
        forall|i: int| 0 <= i < old(bytes)@.len() ==> #[trigger] final(bytes)@[i] == 0,
{
    bytes.zeroize();
}

/// `len` bytes, each of them zero.
pub open spec fn zeros(len: nat) -> Seq<u8> {
    Seq::new(len, |i: int| 0u8)
}

/// The sequence `dst` with the bytes of `src` written over it from place `at`.
pub open spec fn overwrite(dst: Seq<u8>, at: int, src: Seq<u8>) -> Seq<u8> {
    dst.subrange(0, at) + src + dst.subrange(at + src.len(), dst.len() as int)
}

/// Writes all of `src` into `dst`, starting at place `at`.
pub fn copy_into(dst: &mut [u8], at: usize, src: &[u8])
    requires
        at + src@.len() <= old(dst)@.len(),
    ensures
        final(dst)@ == overwrite(old(dst)@, at as int, src@),
        final(dst)@.len() == old(dst)@.len(),
{
    let n: usize = src.len();
    let total: usize = dst.len();
    let mut i: usize = 0;
    while i < n
        invariant
            i <= n,
            n == src@.len(),
            at + n <= total,
            dst@.len() == total,
            dst@.len() == old(dst)@.len(),
            forall|j: int| 0 <= j < at ==> dst@[j] == old(dst)@[j],
            forall|j: int| at <= j < at + i ==> dst@[j] == src@[j - at],
            forall|j: int| at + i <= j < dst@.len() ==> dst@[j] == old(dst)@[j],
        decreases n - i,
    {
        dst[at + i] = src[i];
        i += 1;
    }
}

/// The `N` bytes of `src` that start at place `at`, as an array.
pub fn read_array<const N: usize>(src: &[u8], at: usize) -> (out: [u8; N])
    requires
        at + N <= src@.len(),
    ensures
        out@ == src@.subrange(at as int, at + N),
{
    let mut out = [0u8; N];
    let total: usize = src.len();
    let mut i: usize = 0;
    while i < N
        invariant
            i <= N,
            at + N <= total,
            total == src@.len(),
            forall|j: int| 0 <= j < i ==> out@[j] == src@[at + j],
        decreases N - i,
    {
        out[i] = src[at + i];
        i += 1;
    }
    out
}

/// Sets the first `len` bytes of `dst` to zero.
pub fn clear_prefix(dst: &mut [u8], len: usize)
    requires
        len <= old(dst)@.len(),
    ensures
        final(dst)@ == overwrite(old(dst)@, 0, zeros(len as nat)),
        final(dst)@.len() == old(dst)@.len(),
{
    let mut i: usize = 0;
    while i < len
        invariant
            i <= len <= dst@.len(),
            dst@.len() == old(dst)@.len(),
            forall|j: int| 0 <= j < i ==> dst@[j] == 0,
            forall|j: int| i <= j < dst@.len() ==> dst@[j] == old(dst)@[j],
        decreases len - i,
    {
        dst[i] = 0;
        i += 1;
    }
}

} // verus!
