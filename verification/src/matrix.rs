//! The public matrix of the encryption scheme, expanded from a 32-byte seed.
//!
//! Each of the nine entries is a polynomial whose coefficients are sampled
//! by rejection from a stream of the extendable-output function: the stream
//! is read in groups of three bytes, each group gives two candidates of 12
//! bits, and the candidates below the modulus are taken in order until 256
//! are there.

use vstd::prelude::*;
use crate::ntt::{basemul, basemul_spec};
use crate::poly::{poly_add, poly_add_spec};
use crate::symmetric::{
    aes256ctr_byte, keystream, xof_absorb, xof_iv, xof_squeezeblocks, Aes256CtrCtx,
};

verus! {

/// Number of times that three blocks, 192 bytes or 64 groups, can be
/// squeezed before the stream of the extendable-output function ends.
pub const MATRIX_MAX_CHUNKS: u64 = 357913941;

/// Number of groups of three bytes in the whole stream.
pub open spec fn matrix_max_groups() -> nat {
    64 * 357913941
}

/// The first candidate of group `g` of the stream: the first byte and the
/// low half of the second.
pub open spec fn candidate_low(key: Seq<u8>, iv: Seq<u8>, g: nat) -> u16 {
    (aes256ctr_byte(key, iv, 3 * g) as int + (aes256ctr_byte(key, iv, 3 * g + 1) as int % 16)
        * 256) as u16
}

/// The second candidate of group `g` of the stream: the high half of the
/// second byte and the third.
pub open spec fn candidate_high(key: Seq<u8>, iv: Seq<u8>, g: nat) -> u16 {
    (aes256ctr_byte(key, iv, 3 * g + 1) as int / 16 + (aes256ctr_byte(key, iv, 3 * g + 2) as int)
        * 16) as u16
}

/// The coefficients sampled so far with one more candidate looked at: it is
/// taken if it is below the modulus and coefficients are still wanted.
pub open spec fn accept(have: Seq<u16>, d: u16) -> Seq<u16> {
    if have.len() < 256 && d < 3329 {
        have.push(d)
    } else {
        have
    }
}

/// The coefficients sampled so far, followed by zeros up to 256.
pub open spec fn padded(have: Seq<u16>) -> Seq<u16> {
    Seq::new(256, |i: int| if i < have.len() { have[i] } else { 0u16 })
}

/// The polynomial that sampling ends with, when `have` has been sampled
/// from the groups before `g`: sampling goes on group by group until 256
/// coefficients are there. Should the stream end first, zeros fill the
/// rest.
pub open spec fn sample_from(key: Seq<u8>, iv: Seq<u8>, g: nat, have: Seq<u16>) -> Seq<u16>
    decreases matrix_max_groups() - g,
{
    if have.len() >= 256 || g >= matrix_max_groups() {
        padded(have)
    } else {
        sample_from(
            key,
            iv,
            g + 1,
            accept(accept(have, candidate_low(key, iv, g)), candidate_high(key, iv, g)),
        )
    }
}

/// The entry of the matrix that the seed gives for the two domain bytes `x`
/// and `y`.
pub open spec fn matrix_entry_spec(seed: Seq<u8>, x: u8, y: u8) -> Seq<u16> {
    sample_from(seed, xof_iv(x, y), 0, Seq::empty())
}

/// The entry in row `row` and column `col` of the matrix, or of its
/// transpose: the column is the first domain byte and the row the second,
/// and the other way round for the transpose.
pub open spec fn matrix_at(seed: Seq<u8>, row: u8, col: u8, transposed: bool) -> Seq<u16> {
    if transposed {
        matrix_entry_spec(seed, row, col)
    } else {
        matrix_entry_spec(seed, col, row)
    }
}

/// The inner product of two vectors of three transformed polynomials.
pub open spec fn dot3_spec(
    a0: Seq<u16>,
    a1: Seq<u16>,
    a2: Seq<u16>,
    b0: Seq<u16>,
    b1: Seq<u16>,
    b2: Seq<u16>,
) -> Seq<u16> {
    poly_add_spec(poly_add_spec(basemul_spec(a0, b0), basemul_spec(a1, b1)), basemul_spec(a2, b2))
}

/// The inner product of row `row` of the matrix, or of its transpose, with
/// a vector of three transformed polynomials.
pub open spec fn matrix_row_dot_spec(
    seed: Seq<u8>,
    row: u8,
    transposed: bool,
    v0: Seq<u16>,
    v1: Seq<u16>,
    v2: Seq<u16>,
) -> Seq<u16> {
    dot3_spec(
        matrix_at(seed, row, 0, transposed),
        matrix_at(seed, row, 1, transposed),
        matrix_at(seed, row, 2, transposed),
        v0,
        v1,
        v2,
    )
}

/// Looks at one candidate: writes it behind the `n` coefficients that `r`
/// holds if it is below the modulus and `r` is not full, and returns how
/// many `r` holds then.
pub fn take_candidate(r: &mut [u16; 256], n: usize, d: u16) -> (m: usize)
    requires
        n <= 256,
        forall|j: int| n <= j < 256 ==> old(r)@[j] == 0,
    ensures
        m <= 256,
        final(r)@.subrange(0, m as int) == accept(old(r)@.subrange(0, n as int), d),
        forall|j: int| m <= j < 256 ==> final(r)@[j] == 0,
{
    if n < 256 && d < 3329 {
        r[n] = d;
        assert(r@.subrange(0, n + 1) =~= old(r)@.subrange(0, n as int).push(d));
        n + 1
    } else {
        assert(r@.subrange(0, n as int) =~= old(r)@.subrange(0, n as int));
        n
    }
}

/// The entry of the matrix that the seed gives for the two domain bytes `x`
/// and `y`.
pub fn sample_entry(seed: &[u8; 32], x: u8, y: u8) -> (r: [u16; 256])
    ensures
        r@ == matrix_entry_spec(seed@, x, y),
{
    let mut state = Aes256CtrCtx::new();
    xof_absorb(&mut state, seed, x, y);
    assert(seed@.subrange(0, 32) =~= seed@);
    let ghost iv = xof_iv(x, y);
    let mut r = [0u16; 256];
    let mut n: usize = 0;
    let mut chunk: u64 = 0;
    let mut buf = [0u8; 192];
    assert(r@.subrange(0, 0) =~= Seq::<u16>::empty());
    while n < 256 && chunk < MATRIX_MAX_CHUNKS
        invariant
            state.wf(),
            state.key() == seed@,
            state.iv() == iv,
            state.position() == chunk * 192,
            n <= 256,
            chunk <= MATRIX_MAX_CHUNKS,
            forall|j: int| n <= j < 256 ==> r@[j] == 0,
            matrix_entry_spec(seed@, x, y) == sample_from(
                seed@,
                iv,
                (chunk * 64) as nat,
                r@.subrange(0, n as int),
            ),
        decreases MATRIX_MAX_CHUNKS - chunk,
    {
        xof_squeezeblocks(&mut buf, 3, &mut state);
        assert(buf@ =~= keystream(seed@, iv, (chunk * 192) as nat, 192));
        let mut t: usize = 0;
        while t < 64
            invariant
                t <= 64,
                n <= 256,
                chunk < MATRIX_MAX_CHUNKS,
                buf@ == keystream(seed@, iv, (chunk * 192) as nat, 192),
                forall|j: int| n <= j < 256 ==> r@[j] == 0,
                matrix_entry_spec(seed@, x, y) == sample_from(
                    seed@,
                    iv,
                    (chunk * 64 + t) as nat,
                    r@.subrange(0, n as int),
                ),
            decreases 64 - t,
        {
            let ghost g = (chunk * 64 + t) as nat;
            let ghost before = r@.subrange(0, n as int);
            let b0: u16 = buf[3 * t] as u16;
            let b1: u16 = buf[3 * t + 1] as u16;
            let b2: u16 = buf[3 * t + 2] as u16;
            let low: u16 = b0 + (b1 % 16) * 256;
            let high: u16 = b1 / 16 + b2 * 16;
            assert(low == candidate_low(seed@, iv, g) && high == candidate_high(seed@, iv, g)) by {
                assert(chunk * 192 + 3 * t == 3 * g);
                assert(buf@[3 * t] == aes256ctr_byte(seed@, iv, 3 * g));
                assert(buf@[3 * t + 1] == aes256ctr_byte(seed@, iv, 3 * g + 1));
                assert(buf@[3 * t + 2] == aes256ctr_byte(seed@, iv, 3 * g + 2));
            }
            n = take_candidate(&mut r, n, low);
            n = take_candidate(&mut r, n, high);
            assert(sample_from(seed@, iv, g, before) == sample_from(
                seed@,
                iv,
                g + 1,
                r@.subrange(0, n as int),
            )) by {
                assert(g < matrix_max_groups());
                if before.len() >= 256 {
                    assert(r@.subrange(0, n as int) == before);
                }
            }
            t += 1;
        }
        chunk += 1;
    }
    assert(r@ =~= padded(r@.subrange(0, n as int)));
    r
}

/// The inner product of two vectors of three transformed polynomials.
pub fn dot3(
    a0: &[u16; 256],
    a1: &[u16; 256],
    a2: &[u16; 256],
    b0: &[u16; 256],
    b1: &[u16; 256],
    b2: &[u16; 256],
) -> (r: [u16; 256])
    ensures
        r@ == dot3_spec(a0@, a1@, a2@, b0@, b1@, b2@),
{
    let p0 = basemul(a0, b0);
    let p1 = basemul(a1, b1);
    let p2 = basemul(a2, b2);
    let sum = poly_add(&p0, &p1);
    poly_add(&sum, &p2)
}

/// The inner product of row `row` of the matrix that the seed gives, or of
/// its transpose, with a vector of three transformed polynomials.
pub fn matrix_row_dot(
    seed: &[u8; 32],
    row: u8,
    transposed: bool,
    v0: &[u16; 256],
    v1: &[u16; 256],
    v2: &[u16; 256],
) -> (r: [u16; 256])
    ensures
        r@ == matrix_row_dot_spec(seed@, row, transposed, v0@, v1@, v2@),
{
    let a0 = if transposed {
        sample_entry(seed, row, 0)
    } else {
        sample_entry(seed, 0, row)
    };
    let a1 = if transposed {
        sample_entry(seed, row, 1)
    } else {
        sample_entry(seed, 1, row)
    };
    let a2 = if transposed {
        sample_entry(seed, row, 2)
    } else {
        sample_entry(seed, 2, row)
    };
    dot3(&a0, &a1, &a2, v0, v1, v2)
}

} // verus!
