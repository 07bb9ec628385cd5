//! The two data-oblivious primitives of decapsulation: a comparison that
//! looks at every byte, and a conditional copy that writes every byte.
//!
//! Neither branches on the bytes it handles nor on the condition: the loops
//! run over the whole length, and the choice is made by a mask.

use vstd::prelude::*;

verus! {

/// Whether `a` and `b` hold the same bytes in their first `len` places.
pub open spec fn same_prefix(a: Seq<u8>, b: Seq<u8>, len: int) -> bool {
    forall|i: int| 0 <= i < len ==> a[i] == b[i]
}

/// The bytes that a conditional copy leaves in `r`: the first `len` bytes of
/// `x` followed by the rest of `r` when `b` is not zero, and `r` otherwise.
pub open spec fn cmov_spec(r: Seq<u8>, x: Seq<u8>, len: int, b: u8) -> Seq<u8> {
    if b != 0 {
        x.subrange(0, len) + r.subrange(len, r.len() as int)
    } else {
        r
    }
}

/// A buffer agrees with itself over every length, so that comparing it with
/// itself gives 0.
pub proof fn lemma_same_prefix_reflexive(a: Seq<u8>, len: int)
    ensures
        same_prefix(a, a, len),
{
}

/// Two buffers that differ at a place within the compared length do not
/// agree over it, so that comparing them gives 1.
pub proof fn lemma_difference_breaks_prefix(a: Seq<u8>, b: Seq<u8>, len: int, at: int)
    requires
        0 <= at < len,
        a[at] != b[at],
    ensures
        !same_prefix(a, b, len),
{
}

/// A conditional copy over the whole length of two buffers of one length
/// leaves the source when the condition is not zero, whatever its value, and
/// the destination when it is zero.
pub proof fn lemma_cmov_whole(r: Seq<u8>, x: Seq<u8>, b: u8)
    requires
        r.len() == x.len(),
    ensures
        b != 0 ==> cmov_spec(r, x, r.len() as int, b) == x,
        b == 0 ==> cmov_spec(r, x, r.len() as int, b) == r,
{
}

proof fn lemma_or_zero(acc: u8, d: u8)
    by (bit_vector)
    ensures
        (acc | d) == 0 <==> (acc == 0 && d == 0),
{
}

proof fn lemma_xor_zero(x: u8, y: u8)
    by (bit_vector)
    ensures
        (x ^ y) == 0 <==> x == y,
{
}

proof fn lemma_collapse(acc: u8)
    by (bit_vector)
    ensures
        acc == 0 ==> ((((acc as u16) + 0xffu16) as u16) >> 8) == 0,
        acc != 0 ==> ((((acc as u16) + 0xffu16) as u16) >> 8) == 1,
{
}

proof fn lemma_select(r: u8, x: u8)
    by (bit_vector)
    ensures
        r ^ (0xffu8 & (x ^ r)) == x,
        r ^ (0u8 & (x ^ r)) == r,
{
}

/// 0 for 0 and 1 for every other byte, computed without a comparison.
fn nonzero_bit(acc: u8) -> (bit: u8)
    ensures
        acc == 0 ==> bit == 0,
        acc != 0 ==> bit == 1,
{
    proof {
        lemma_collapse(acc);
    }
    let wide: u16 = acc as u16 + 0xff;
    (wide >> 8) as u8
}

/// Compares the first `len` bytes of `a` and `b` without stopping at the
/// first difference: 0 when they are all equal, 1 otherwise.
pub fn verify(a: &[u8], b: &[u8], len: usize) -> (r: u8)
    requires
        len <= a@.len(),
        len <= b@.len(),
    ensures
        r == 0 <==> same_prefix(a@, b@, len as int),
        r == 0 || r == 1,
{
    let mut acc: u8 = 0;
    let mut i: usize = 0;
    while i < len
        invariant
            i <= len,
            len <= a@.len(),
            len <= b@.len(),
            acc == 0 <==> same_prefix(a@, b@, i as int),
        decreases len - i,
    {
        let d: u8 = a[i] ^ b[i];
        proof {
            lemma_xor_zero(a@[i as int], b@[i as int]);
            lemma_or_zero(acc, d);
        }
        acc = acc | d;
        i += 1;
    }
    nonzero_bit(acc)
}

/// Copies the first `len` bytes of `x` over those of `r` when `b` is not
/// zero, and rewrites `r` with its own bytes when `b` is zero. Every one of
/// the `len` bytes is read and written either way.
pub fn cmov(r: &mut [u8], x: &[u8], len: usize, b: u8)
    requires
        len <= old(r)@.len(),
        len <= x@.len(),
    ensures
        final(r)@ == cmov_spec(old(r)@, x@, len as int, b),
        final(r)@.len() == old(r)@.len(),
        b != 0 ==> same_prefix(final(r)@, x@, len as int),
        b == 0 ==> final(r)@ == old(r)@,
{
    let mask: u8 = nonzero_bit(b) * 0xff;
    let mut i: usize = 0;
    while i < len
        invariant
            i <= len,
            len <= x@.len(),
            r@.len() == old(r)@.len(),
            len <= r@.len(),
            b == 0 ==> mask == 0,
            b != 0 ==> mask == 0xff,
            forall|j: int| 0 <= j < i ==> r@[j] == (if b != 0 { x@[j] } else { old(r)@[j] }),
            forall|j: int| i <= j < r@.len() ==> r@[j] == old(r)@[j],
        decreases len - i,
    {
        let cur: u8 = r[i];
        proof {
            lemma_select(cur, x@[i as int]);
        }
        r[i] = cur ^ (mask & (x[i] ^ cur));
        i += 1;
    }
}

} // verus!
