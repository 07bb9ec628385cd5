//! The number-theoretic transform of a polynomial with 256 coefficients
//! modulo 3329, its inverse, and the product of two transformed
//! polynomials.
//!
//! The transform runs in seven layers. A layer with distance `len` pairs
//! each coefficient with the one `len` places further on, within blocks of
//! `2 * len` coefficients that each have a twiddle factor of their own.
//! Each layer is stated coefficient by coefficient.

use vstd::prelude::*;
use crate::field::{
    fq_add, fq_add_spec, fq_mul, fq_mul_spec, fq_sub, fq_sub_spec, is_zeta_table, zeta_spec,
    zeta_table,
};

verus! {

/// `len` is the distance of one of the seven layers.
pub open spec fn is_layer(len: int) -> bool {
    len == 2 || len == 4 || len == 8 || len == 16 || len == 32 || len == 64 || len == 128
}

/// Coefficient `i` after the forward layer with distance `len`: the lower
/// one of a pair gets the sum, the upper one the difference, of the lower
/// one and the twiddled upper one.
pub open spec fn ntt_layer_at(a: Seq<u16>, len: int, i: int) -> u16 {
    let z = zeta_spec(128int / len + i / (2 * len));
    if i % (2 * len) < len {
        fq_add_spec(a[i], fq_mul_spec(z, a[i + len]))
    } else {
        fq_sub_spec(a[i - len], fq_mul_spec(z, a[i]))
    }
}

/// The coefficients after the forward layer with distance `len`.
pub open spec fn ntt_layer_spec(a: Seq<u16>, len: int) -> Seq<u16> {
    Seq::new(256, |i: int| ntt_layer_at(a, len, i))
}

/// The transform: the seven forward layers, from the widest to the
/// narrowest.
pub open spec fn ntt_spec(a: Seq<u16>) -> Seq<u16> {
    ntt_layer_spec(
        ntt_layer_spec(
            ntt_layer_spec(
                ntt_layer_spec(ntt_layer_spec(ntt_layer_spec(ntt_layer_spec(a, 128), 64), 32), 16),
                8,
            ),
            4,
        ),
        2,
    )
}

/// Coefficient `i` after the inverse layer with distance `len`: the lower
/// one of a pair gets the sum of the two, the upper one their twiddled
/// difference.
pub open spec fn intt_layer_at(a: Seq<u16>, len: int, i: int) -> u16 {
    let z = zeta_spec(256int / len - 1 - i / (2 * len));
    if i % (2 * len) < len {
        fq_add_spec(a[i], a[i + len])
    } else {
        fq_mul_spec(z, fq_sub_spec(a[i], a[i - len]))
    }
}

/// The coefficients after the inverse layer with distance `len`.
pub open spec fn intt_layer_spec(a: Seq<u16>, len: int) -> Seq<u16> {
    Seq::new(256, |i: int| intt_layer_at(a, len, i))
}

/// Every coefficient times 3303, the inverse of 128 modulo 3329.
pub open spec fn scale_spec(a: Seq<u16>) -> Seq<u16> {
    Seq::new(256, |i: int| fq_mul_spec(a[i], 3303))
}

/// The inverse transform: the seven inverse layers, from the narrowest to
/// the widest, and the division by 128 that they leave to do.
pub open spec fn intt_spec(a: Seq<u16>) -> Seq<u16> {
    scale_spec(
        intt_layer_spec(
            intt_layer_spec(
                intt_layer_spec(
                    intt_layer_spec(
                        intt_layer_spec(intt_layer_spec(intt_layer_spec(a, 2), 4), 8),
                        16,
                    ),
                    32,
                ),
                64,
            ),
            128,
        ),
    )
}

/// Coefficient `i` of the product of two transformed polynomials. The
/// coefficients stand in pairs, each pair a polynomial of degree one that is
/// multiplied modulo `X^2 - z`, where `z` is a twiddle factor for the even
/// pairs and its negative for the odd ones.
pub open spec fn basemul_at(a: Seq<u16>, b: Seq<u16>, i: int) -> u16 {
    let z0 = zeta_spec(64 + i / 4);
    let z = if (i / 2) % 2 == 1 {
        fq_sub_spec(0, z0)
    } else {
        z0
    };
    if i % 2 == 0 {
        fq_add_spec(fq_mul_spec(a[i], b[i]), fq_mul_spec(fq_mul_spec(a[i + 1], b[i + 1]), z))
    } else {
        fq_add_spec(fq_mul_spec(a[i - 1], b[i]), fq_mul_spec(a[i], b[i - 1]))
    }
}

/// The product of two transformed polynomials.
pub open spec fn basemul_spec(a: Seq<u16>, b: Seq<u16>) -> Seq<u16> {
    Seq::new(256, |i: int| basemul_at(a, b, i))
}

/// Within a layer every coefficient has its partner and its twiddle factor:
/// the indices that a layer computes stay in range.
pub proof fn lemma_layer_indices(len: int, i: int)
    requires
        is_layer(len),
        0 <= i < 256,
    ensures
        0 <= 128int / len + i / (2 * len) < 128,
        0 <= 256int / len - 1 - i / (2 * len) < 128,
        0 <= i % (2 * len) < 2 * len,
        i % (2 * len) < len ==> i + len < 256,
        i % (2 * len) >= len ==> i >= len,
{
    lemma_layer_indices_arith(len, i);
}

#[verifier::rlimit(100)]
proof fn lemma_layer_indices_arith(len: int, i: int)
    by (nonlinear_arith)
    requires
        len == 2 || len == 4 || len == 8 || len == 16 || len == 32 || len == 64 || len == 128,
        0 <= i < 256,
    ensures
        0 <= 128int / len + i / (2 * len) < 128,
        0 <= 256int / len - 1 - i / (2 * len) < 128,
        0 <= i % (2 * len) < 2 * len,
        i % (2 * len) < len ==> i + len < 256,
        i % (2 * len) >= len ==> i >= len,
{
}

/// One forward layer.
pub fn ntt_layer(a: &[u16; 256], len: usize, zetas: &[u16; 128]) -> (r: [u16; 256])
    requires
        is_layer(len as int),
        is_zeta_table(zetas@),
    ensures
        r@ == ntt_layer_spec(a@, len as int),
{
    let mut r = [0u16; 256];
    let mut i: usize = 0;
    while i < 256
        invariant
            i <= 256,
            is_layer(len as int),
            is_zeta_table(zetas@),
            forall|j: int| 0 <= j < i ==> r@[j] == ntt_layer_at(a@, len as int, j),
        decreases 256 - i,
    {
        proof {
            lemma_layer_indices(len as int, i as int);
        }
        let z: u16 = zetas[128 / len + i / (2 * len)];
        if i % (2 * len) < len {
            r[i] = fq_add(a[i], fq_mul(z, a[i + len]));
        } else {
            r[i] = fq_sub(a[i - len], fq_mul(z, a[i]));
        }
        i += 1;
    }
    assert(r@ =~= ntt_layer_spec(a@, len as int));
    r
}

/// The transform of a polynomial.
pub fn ntt(a: &[u16; 256]) -> (r: [u16; 256])
    ensures
        r@ == ntt_spec(a@),
{
    let zetas = zeta_table();
    let l1 = ntt_layer(a, 128, &zetas);
    let l2 = ntt_layer(&l1, 64, &zetas);
    let l3 = ntt_layer(&l2, 32, &zetas);
    let l4 = ntt_layer(&l3, 16, &zetas);
    let l5 = ntt_layer(&l4, 8, &zetas);
    let l6 = ntt_layer(&l5, 4, &zetas);
    ntt_layer(&l6, 2, &zetas)
}

/// One inverse layer.
pub fn intt_layer(a: &[u16; 256], len: usize, zetas: &[u16; 128]) -> (r: [u16; 256])
    requires
        is_layer(len as int),
        is_zeta_table(zetas@),
    ensures
        r@ == intt_layer_spec(a@, len as int),
{
    let mut r = [0u16; 256];
    let mut i: usize = 0;
    while i < 256
        invariant
            i <= 256,
            is_layer(len as int),
            is_zeta_table(zetas@),
            forall|j: int| 0 <= j < i ==> r@[j] == intt_layer_at(a@, len as int, j),
        decreases 256 - i,
    {
        proof {
            lemma_layer_indices(len as int, i as int);
        }
        if i % (2 * len) < len {
            r[i] = fq_add(a[i], a[i + len]);
        } else {
            let z: u16 = zetas[256 / len - 1 - i / (2 * len)];
            r[i] = fq_mul(z, fq_sub(a[i], a[i - len]));
        }
        i += 1;
    }
    assert(r@ =~= intt_layer_spec(a@, len as int));
    r
}

/// The inverse transform of a polynomial.
pub fn intt(a: &[u16; 256]) -> (r: [u16; 256])
    ensures
        r@ == intt_spec(a@),
{
    let zetas = zeta_table();
    let l1 = intt_layer(a, 2, &zetas);
    let l2 = intt_layer(&l1, 4, &zetas);
    let l3 = intt_layer(&l2, 8, &zetas);
    let l4 = intt_layer(&l3, 16, &zetas);
    let l5 = intt_layer(&l4, 32, &zetas);
    let l6 = intt_layer(&l5, 64, &zetas);
    let l7 = intt_layer(&l6, 128, &zetas);
    let mut r = [0u16; 256];
    let mut i: usize = 0;
    while i < 256
        invariant
            i <= 256,
            forall|j: int| 0 <= j < i ==> r@[j] == fq_mul_spec(l7@[j], 3303),
        decreases 256 - i,
    {
        r[i] = fq_mul(l7[i], 3303);
        i += 1;
    }
    assert(r@ =~= scale_spec(l7@));
    r
}

/// The product of two transformed polynomials.
pub fn basemul(a: &[u16; 256], b: &[u16; 256]) -> (r: [u16; 256])
    ensures
        r@ == basemul_spec(a@, b@),
{
    let zetas = zeta_table();
    let mut r = [0u16; 256];
    let mut i: usize = 0;
    while i < 256
        invariant
            i <= 256,
            is_zeta_table(zetas@),
            forall|j: int| 0 <= j < i ==> r@[j] == basemul_at(a@, b@, j),
        decreases 256 - i,
    {
        let z0: u16 = zetas[64 + i / 4];
        let z: u16 = if (i / 2) % 2 == 1 {
            fq_sub(0, z0)
        } else {
            z0
        };
        if i % 2 == 0 {
            r[i] = fq_add(fq_mul(a[i], b[i]), fq_mul(fq_mul(a[i + 1], b[i + 1]), z));
        } else {
            r[i] = fq_add(fq_mul(a[i - 1], b[i]), fq_mul(a[i], b[i - 1]));
        }
        i += 1;
    }
    assert(r@ =~= basemul_spec(a@, b@));
    r
}

} // verus!
