//! Polynomials with 256 coefficients modulo 3329: their sum and difference,
//! their encodings as bytes, with and without loss, the encoding of a
//! message as a polynomial, and the sampling of noise.
//!
//! Each operation is stated coefficient by coefficient, or byte by byte
//! where it writes bytes.

use vstd::prelude::*;
use crate::field::{fq_add, fq_add_spec, fq_sub, fq_sub_spec};
use crate::symmetric::{keystream, prf, prf_iv};

verus! {

/// Number of keystream bytes from which one polynomial of noise is made.
pub const NOISE_BYTES: usize = 128;

/// The sum of two polynomials.
pub open spec fn poly_add_spec(a: Seq<u16>, b: Seq<u16>) -> Seq<u16> {
    Seq::new(256, |i: int| fq_add_spec(a[i], b[i]))
}

/// The difference of two polynomials.
pub open spec fn poly_sub_spec(a: Seq<u16>, b: Seq<u16>) -> Seq<u16> {
    Seq::new(256, |i: int| fq_sub_spec(a[i], b[i]))
}

/// Coefficient `i` of the polynomial that 384 bytes encode: two
/// coefficients of 12 bits in every three bytes, low bits first.
pub open spec fn frombytes_at(b: Seq<u8>, i: int) -> u16 {
    let g = 3 * (i / 2);
    if i % 2 == 0 {
        (b[g] as int + (b[g + 1] as int % 16) * 256) as u16
    } else {
        (b[g + 1] as int / 16 + (b[g + 2] as int) * 16) as u16
    }
}

/// The polynomial that 384 bytes encode.
pub open spec fn frombytes_spec(b: Seq<u8>) -> Seq<u16> {
    Seq::new(256, |i: int| frombytes_at(b, i))
}

/// Byte `k` of the encoding of a polynomial, whose coefficients are taken
/// modulo 3329.
pub open spec fn tobytes_at(a: Seq<u16>, k: int) -> u8 {
    let t0 = a[2 * (k / 3)] as int % 3329;
    let t1 = a[2 * (k / 3) + 1] as int % 3329;
    if k % 3 == 0 {
        (t0 % 256) as u8
    } else if k % 3 == 1 {
        (t0 / 256 + (t1 % 16) * 16) as u8
    } else {
        (t1 / 16) as u8
    }
}

/// The 384 bytes that encode a polynomial.
pub open spec fn tobytes_spec(a: Seq<u16>) -> Seq<u8> {
    Seq::new(384, |k: int| tobytes_at(a, k))
}

/// A coefficient rounded to 10 bits: the nearest multiple of 3329/1024.
pub open spec fn compress10_spec(x: u16) -> int {
    (((x as int % 3329) * 1024 + 1664) / 3329) % 1024
}

/// A coefficient rounded to 4 bits: the nearest multiple of 3329/16.
pub open spec fn compress4_spec(x: u16) -> int {
    (((x as int % 3329) * 16 + 1664) / 3329) % 16
}

/// The coefficient that 10 bits stand for.
pub open spec fn decompress10_spec(t: int) -> u16 {
    ((t * 3329 + 512) / 1024) as u16
}

/// The coefficient that 4 bits stand for.
pub open spec fn decompress4_spec(t: int) -> u16 {
    ((t * 3329 + 8) / 16) as u16
}

/// Byte `k` of a polynomial at 10 bits a coefficient: four coefficients in
/// every five bytes, low bits first.
pub open spec fn compress10_at(a: Seq<u16>, k: int) -> u8 {
    let j = 4 * (k / 5);
    let t0 = compress10_spec(a[j]);
    let t1 = compress10_spec(a[j + 1]);
    let t2 = compress10_spec(a[j + 2]);
    let t3 = compress10_spec(a[j + 3]);
    if k % 5 == 0 {
        (t0 % 256) as u8
    } else if k % 5 == 1 {
        (t0 / 256 + (t1 % 64) * 4) as u8
    } else if k % 5 == 2 {
        (t1 / 64 + (t2 % 16) * 16) as u8
    } else if k % 5 == 3 {
        (t2 / 16 + (t3 % 4) * 64) as u8
    } else {
        (t3 / 4) as u8
    }
}

/// The 320 bytes of a polynomial at 10 bits a coefficient.
pub open spec fn poly_compress10_spec(a: Seq<u16>) -> Seq<u8> {
    Seq::new(320, |k: int| compress10_at(a, k))
}

/// Coefficient `i` of the polynomial that 320 bytes stand for.
pub open spec fn decompress10_at(b: Seq<u8>, i: int) -> u16 {
    let g = 5 * (i / 4);
    if i % 4 == 0 {
        decompress10_spec(b[g] as int + (b[g + 1] as int % 4) * 256)
    } else if i % 4 == 1 {
        decompress10_spec(b[g + 1] as int / 4 + (b[g + 2] as int % 16) * 64)
    } else if i % 4 == 2 {
        decompress10_spec(b[g + 2] as int / 16 + (b[g + 3] as int % 64) * 16)
    } else {
        decompress10_spec(b[g + 3] as int / 64 + (b[g + 4] as int) * 4)
    }
}

/// The polynomial that 320 bytes stand for.
pub open spec fn poly_decompress10_spec(b: Seq<u8>) -> Seq<u16> {
    Seq::new(256, |i: int| decompress10_at(b, i))
}

/// Byte `k` of a polynomial at 4 bits a coefficient: two coefficients in a
/// byte, the low half first.
pub open spec fn compress4_at(a: Seq<u16>, k: int) -> u8 {
    (compress4_spec(a[2 * k]) + compress4_spec(a[2 * k + 1]) * 16) as u8
}

/// The 128 bytes of a polynomial at 4 bits a coefficient.
pub open spec fn poly_compress4_spec(a: Seq<u16>) -> Seq<u8> {
    Seq::new(128, |k: int| compress4_at(a, k))
}

/// Coefficient `i` of the polynomial that 128 bytes stand for.
pub open spec fn decompress4_at(b: Seq<u8>, i: int) -> u16 {
    if i % 2 == 0 {
        decompress4_spec(b[i / 2] as int % 16)
    } else {
        decompress4_spec(b[i / 2] as int / 16)
    }
}

/// The polynomial that 128 bytes stand for.
pub open spec fn poly_decompress4_spec(b: Seq<u8>) -> Seq<u16> {
    Seq::new(256, |i: int| decompress4_at(b, i))
}

/// Bit `j` of a byte, counted from the lowest.
pub open spec fn bit_spec(byte: u8, j: int) -> int {
    if j == 0 {
        byte as int % 2
    } else if j == 1 {
        byte as int / 2 % 2
    } else if j == 2 {
        byte as int / 4 % 2
    } else if j == 3 {
        byte as int / 8 % 2
    } else if j == 4 {
        byte as int / 16 % 2
    } else if j == 5 {
        byte as int / 32 % 2
    } else if j == 6 {
        byte as int / 64 % 2
    } else {
        byte as int / 128 % 2
    }
}

/// The polynomial that stands for a message of 32 bytes: a coefficient for
/// every bit, half the modulus for a one and zero for a zero.
pub open spec fn frommsg_spec(m: Seq<u8>) -> Seq<u16> {
    Seq::new(256, |i: int| (bit_spec(m[i / 8], i % 8) * 1665) as u16)
}

/// The bit that a coefficient stands for: one if it is nearer to half the
/// modulus than to zero.
pub open spec fn message_bit_spec(x: u16) -> int {
    ((2 * (x as int % 3329) + 1664) / 3329) % 2
}

/// Byte `k` of the message that a polynomial stands for.
pub open spec fn tomsg_at(a: Seq<u16>, k: int) -> u8 {
    (message_bit_spec(a[8 * k]) + message_bit_spec(a[8 * k + 1]) * 2 + message_bit_spec(
        a[8 * k + 2],
    ) * 4 + message_bit_spec(a[8 * k + 3]) * 8 + message_bit_spec(a[8 * k + 4]) * 16
        + message_bit_spec(a[8 * k + 5]) * 32 + message_bit_spec(a[8 * k + 6]) * 64
        + message_bit_spec(a[8 * k + 7]) * 128) as u8
}

/// The message of 32 bytes that a polynomial stands for.
pub open spec fn tomsg_spec(a: Seq<u16>) -> Seq<u8> {
    Seq::new(32, |k: int| tomsg_at(a, k))
}

/// Coefficient `i` of the noise made from 128 bytes: the number of ones
/// among two bits less the number of ones among the next two, taken from the
/// `i`th group of four bits.
pub open spec fn cbd2_at(buf: Seq<u8>, i: int) -> u16 {
    let byte = buf[i / 2] as int;
    let nib = if i % 2 == 0 {
        byte % 16
    } else {
        byte / 16
    };
    fq_sub_spec((nib % 2 + nib / 2 % 2) as u16, (nib / 4 % 2 + nib / 8 % 2) as u16)
}

/// The noise made from 128 bytes, with coefficients between -2 and 2.
pub open spec fn cbd2_spec(buf: Seq<u8>) -> Seq<u16> {
    Seq::new(256, |i: int| cbd2_at(buf, i))
}

/// The noise that a 32-byte seed and a counter determine: made from the
/// first 128 bytes of the pseudorandom function's stream.
pub open spec fn noise_spec(seed: Seq<u8>, nonce: u8) -> Seq<u16> {
    cbd2_spec(keystream(seed, prf_iv(nonce), 0, 128))
}

/// Reading back the bytes of a polynomial gives its coefficients modulo
/// 3329: nothing is lost in the encoding at 12 bits.
pub proof fn lemma_frombytes_of_tobytes(a: Seq<u16>)
    requires
        a.len() == 256,
    ensures
        frombytes_spec(tobytes_spec(a)) == Seq::new(256, |i: int| (a[i] % 3329) as u16),
{
    let b = tobytes_spec(a);
    assert forall|i: int| 0 <= i < 256 implies frombytes_at(b, i) == (a[i] % 3329) as u16 by {
        let g = 3 * (i / 2);
        assert(b[g] == tobytes_at(a, g));
        assert(b[g + 1] == tobytes_at(a, g + 1));
        assert(b[g + 2] == tobytes_at(a, g + 2));
    }
    assert(frombytes_spec(b) =~= Seq::new(256, |i: int| (a[i] % 3329) as u16));
}

/// A byte is the sum of its bits, each at its weight.
pub proof fn lemma_byte_is_its_bits(byte: u8)
    ensures
        byte == bit_spec(byte, 0) + bit_spec(byte, 1) * 2 + bit_spec(byte, 2) * 4 + bit_spec(byte, 3)
            * 8 + bit_spec(byte, 4) * 16 + bit_spec(byte, 5) * 32 + bit_spec(byte, 6) * 64
            + bit_spec(byte, 7) * 128,
        forall|j: int| 0 <= j < 8 ==> 0 <= #[trigger] bit_spec(byte, j) <= 1,
{
    let b = byte as int;
    let h1 = b / 2;
    let h2 = h1 / 2;
    let h3 = h2 / 2;
    let h4 = h3 / 2;
    let h5 = h4 / 2;
    let h6 = h5 / 2;
    let h7 = h6 / 2;
    assert(h2 == b / 4 && h3 == b / 8 && h4 == b / 16 && h5 == b / 32 && h6 == b / 64 && h7 == b
        / 128);
    assert(b == b % 2 + 2 * h1);
    assert(h1 == h1 % 2 + 2 * h2);
    assert(h2 == h2 % 2 + 2 * h3);
    assert(h3 == h3 % 2 + 2 * h4);
    assert(h4 == h4 % 2 + 2 * h5);
    assert(h5 == h5 % 2 + 2 * h6);
    assert(h6 == h6 % 2 + 2 * h7);
    assert(h7 == h7 % 2);
}

/// The coefficient that stands for a bit stands for that bit.
pub proof fn lemma_message_bit_of_bit(b: int)
    requires
        b == 0 || b == 1,
    ensures
        message_bit_spec((b * 1665) as u16) == b,
{
}

/// A message is read back from the polynomial that stands for it.
pub proof fn lemma_tomsg_of_frommsg(m: Seq<u8>)
    requires
        m.len() == 32,
    ensures
        tomsg_spec(frommsg_spec(m)) == m,
{
    let p = frommsg_spec(m);
    assert forall|k: int| 0 <= k < 32 implies tomsg_at(p, k) == m[k] by {
        lemma_byte_is_its_bits(m[k]);
        assert forall|j: int| 0 <= j < 8 implies message_bit_spec(#[trigger] p[8 * k + j])
            == bit_spec(m[k], j) by {
            assert((8 * k + j) / 8 == k && (8 * k + j) % 8 == j);
            lemma_message_bit_of_bit(bit_spec(m[k], j));
        }
        assert(message_bit_spec(p[8 * k]) == bit_spec(m[k], 0)) by {
            assert(p[8 * k] == p[8 * k + 0]);
        }
    }
    assert(tomsg_spec(p) =~= m);
}

/// Bits that stand for a coefficient are the bits that the coefficient is
/// rounded to: rounding what was rounded changes nothing.
pub proof fn lemma_compress_of_decompress(t: int)
    ensures
        0 <= t < 1024 ==> compress10_spec(decompress10_spec(t)) == t,
        0 <= t < 16 ==> compress4_spec(decompress4_spec(t)) == t,
{
}

/// The sum of two polynomials.
pub fn poly_add(a: &[u16; 256], b: &[u16; 256]) -> (r: [u16; 256])
    ensures
        r@ == poly_add_spec(a@, b@),
{
    let mut r = [0u16; 256];
    let mut i: usize = 0;
    while i < 256
        invariant
            i <= 256,
            forall|j: int| 0 <= j < i ==> r@[j] == fq_add_spec(a@[j], b@[j]),
        decreases 256 - i,
    {
        r[i] = fq_add(a[i], b[i]);
        i += 1;
    }
    assert(r@ =~= poly_add_spec(a@, b@));
    r
}

/// The difference of two polynomials.
pub fn poly_sub(a: &[u16; 256], b: &[u16; 256]) -> (r: [u16; 256])
    ensures
        r@ == poly_sub_spec(a@, b@),
{
    let mut r = [0u16; 256];
    let mut i: usize = 0;
    while i < 256
        invariant
            i <= 256,
            forall|j: int| 0 <= j < i ==> r@[j] == fq_sub_spec(a@[j], b@[j]),
        decreases 256 - i,
    {
        r[i] = fq_sub(a[i], b[i]);
        i += 1;
    }
    assert(r@ =~= poly_sub_spec(a@, b@));
    r
}

/// The polynomial that the 384 bytes of `bytes` from place `at` on encode.
/// Coefficients of 12 bits are taken as they are, also where they are not
/// below the modulus.
pub fn poly_frombytes(bytes: &[u8], at: usize) -> (r: [u16; 256])
    requires
        at + 384 <= bytes@.len(),
    ensures
        r@ == frombytes_spec(bytes@.subrange(at as int, at + 384)),
{
    let ghost b = bytes@.subrange(at as int, at + 384);
    let total: usize = bytes.len();
    let mut r = [0u16; 256];
    let mut i: usize = 0;
    while i < 256
        invariant
            i <= 256,
            at + 384 <= total,
            total == bytes@.len(),
            b == bytes@.subrange(at as int, at + 384),
            forall|j: int| 0 <= j < i ==> r@[j] == frombytes_at(b, j),
        decreases 256 - i,
    {
        let g: usize = 3 * (i / 2);
        assert(b[g as int] == bytes@[at + g]);
        assert(b[g + 1] == bytes@[at + g + 1]);
        assert(b[g + 2] == bytes@[at + g + 2]);
        let b0: u32 = bytes[at + g] as u32;
        let b1: u32 = bytes[at + g + 1] as u32;
        let b2: u32 = bytes[at + g + 2] as u32;
        if i % 2 == 0 {
            r[i] = (b0 + (b1 % 16) * 256) as u16;
        } else {
            r[i] = (b1 / 16 + b2 * 16) as u16;
        }
        i += 1;
    }
    assert(r@ =~= frombytes_spec(b));
    r
}

/// The 384 bytes that encode a polynomial.
pub fn poly_tobytes(a: &[u16; 256]) -> (r: [u8; 384])
    ensures
        r@ == tobytes_spec(a@),
{
    let mut r = [0u8; 384];
    let mut k: usize = 0;
    while k < 384
        invariant
            k <= 384,
            forall|j: int| 0 <= j < k ==> r@[j] == tobytes_at(a@, j),
        decreases 384 - k,
    {
        let t0: u32 = (a[2 * (k / 3)] % 3329) as u32;
        let t1: u32 = (a[2 * (k / 3) + 1] % 3329) as u32;
        if k % 3 == 0 {
            r[k] = (t0 % 256) as u8;
        } else if k % 3 == 1 {
            r[k] = (t0 / 256 + (t1 % 16) * 16) as u8;
        } else {
            r[k] = (t1 / 16) as u8;
        }
        k += 1;
    }
    assert(r@ =~= tobytes_spec(a@));
    r
}

/// A coefficient rounded to 10 bits.
pub fn compress10(x: u16) -> (t: u32)
    ensures
        t == compress10_spec(x),
        t < 1024,
{
    (((x % 3329) as u32 * 1024 + 1664) / 3329) % 1024
}

/// A coefficient rounded to 4 bits.
pub fn compress4(x: u16) -> (t: u32)
    ensures
        t == compress4_spec(x),
        t < 16,
{
    (((x % 3329) as u32 * 16 + 1664) / 3329) % 16
}

/// The coefficient that 10 bits stand for.
pub fn decompress10(t: u32) -> (x: u16)
    requires
        t < 1024,
    ensures
        x == decompress10_spec(t as int),
        x < 3329,
{
    ((t * 3329 + 512) / 1024) as u16
}

/// The coefficient that 4 bits stand for.
pub fn decompress4(t: u32) -> (x: u16)
    requires
        t < 16,
    ensures
        x == decompress4_spec(t as int),
        x < 3329,
{
    ((t * 3329 + 8) / 16) as u16
}

/// The 320 bytes of a polynomial at 10 bits a coefficient.
pub fn poly_compress10(a: &[u16; 256]) -> (r: [u8; 320])
    ensures
        r@ == poly_compress10_spec(a@),
{
    let mut r = [0u8; 320];
    let mut k: usize = 0;
    while k < 320
        invariant
            k <= 320,
            forall|j: int| 0 <= j < k ==> r@[j] == compress10_at(a@, j),
        decreases 320 - k,
    {
        let j: usize = 4 * (k / 5);
        let t0: u32 = compress10(a[j]);
        let t1: u32 = compress10(a[j + 1]);
        let t2: u32 = compress10(a[j + 2]);
        let t3: u32 = compress10(a[j + 3]);
        if k % 5 == 0 {
            r[k] = (t0 % 256) as u8;
        } else if k % 5 == 1 {
            r[k] = (t0 / 256 + (t1 % 64) * 4) as u8;
        } else if k % 5 == 2 {
            r[k] = (t1 / 64 + (t2 % 16) * 16) as u8;
        } else if k % 5 == 3 {
            r[k] = (t2 / 16 + (t3 % 4) * 64) as u8;
        } else {
            r[k] = (t3 / 4) as u8;
        }
        k += 1;
    }
    assert(r@ =~= poly_compress10_spec(a@));
    r
}

/// The polynomial that the 320 bytes of `bytes` from place `at` on stand
/// for.
pub fn poly_decompress10(bytes: &[u8], at: usize) -> (r: [u16; 256])
    requires
        at + 320 <= bytes@.len(),
    ensures
        r@ == poly_decompress10_spec(bytes@.subrange(at as int, at + 320)),
{
    let ghost b = bytes@.subrange(at as int, at + 320);
    let total: usize = bytes.len();
    let mut r = [0u16; 256];
    let mut i: usize = 0;
    while i < 256
        invariant
            i <= 256,
            at + 320 <= total,
            total == bytes@.len(),
            b == bytes@.subrange(at as int, at + 320),
            forall|j: int| 0 <= j < i ==> r@[j] == decompress10_at(b, j),
        decreases 256 - i,
    {
        let g: usize = 5 * (i / 4);
        assert(b[g as int] == bytes@[at + g]);
        assert(b[g + 1] == bytes@[at + g + 1]);
        assert(b[g + 2] == bytes@[at + g + 2]);
        assert(b[g + 3] == bytes@[at + g + 3]);
        assert(b[g + 4] == bytes@[at + g + 4]);
        let b0: u32 = bytes[at + g] as u32;
        let b1: u32 = bytes[at + g + 1] as u32;
        let b2: u32 = bytes[at + g + 2] as u32;
        let b3: u32 = bytes[at + g + 3] as u32;
        let b4: u32 = bytes[at + g + 4] as u32;
        if i % 4 == 0 {
            r[i] = decompress10(b0 + (b1 % 4) * 256);
        } else if i % 4 == 1 {
            r[i] = decompress10(b1 / 4 + (b2 % 16) * 64);
        } else if i % 4 == 2 {
            r[i] = decompress10(b2 / 16 + (b3 % 64) * 16);
        } else {
            r[i] = decompress10(b3 / 64 + b4 * 4);
        }
        i += 1;
    }
    assert(r@ =~= poly_decompress10_spec(b));
    r
}

/// The 128 bytes of a polynomial at 4 bits a coefficient.
pub fn poly_compress4(a: &[u16; 256]) -> (r: [u8; 128])
    ensures
        r@ == poly_compress4_spec(a@),
{
    let mut r = [0u8; 128];
    let mut k: usize = 0;
    while k < 128
        invariant
            k <= 128,
            forall|j: int| 0 <= j < k ==> r@[j] == compress4_at(a@, j),
        decreases 128 - k,
    {
        r[k] = (compress4(a[2 * k]) + compress4(a[2 * k + 1]) * 16) as u8;
        k += 1;
    }
    assert(r@ =~= poly_compress4_spec(a@));
    r
}

/// The polynomial that the 128 bytes of `bytes` from place `at` on stand
/// for.
pub fn poly_decompress4(bytes: &[u8], at: usize) -> (r: [u16; 256])
    requires
        at + 128 <= bytes@.len(),
    ensures
        r@ == poly_decompress4_spec(bytes@.subrange(at as int, at + 128)),
{
    let ghost b = bytes@.subrange(at as int, at + 128);
    let total: usize = bytes.len();
    let mut r = [0u16; 256];
    let mut i: usize = 0;
    while i < 256
        invariant
            i <= 256,
            at + 128 <= total,
            total == bytes@.len(),
            b == bytes@.subrange(at as int, at + 128),
            forall|j: int| 0 <= j < i ==> r@[j] == decompress4_at(b, j),
        decreases 256 - i,
    {
        assert(b[i as int / 2] == bytes@[at + i / 2]);
        let byte: u32 = bytes[at + i / 2] as u32;
        if i % 2 == 0 {
            r[i] = decompress4(byte % 16);
        } else {
            r[i] = decompress4(byte / 16);
        }
        i += 1;
    }
    assert(r@ =~= poly_decompress4_spec(b));
    r
}

/// Bit `j` of a byte, counted from the lowest.
pub fn bit(byte: u8, j: usize) -> (b: u16)
    requires
        j < 8,
    ensures
        b == bit_spec(byte, j as int),
        b <= 1,
{
    let wide: u16 = byte as u16;
    if j == 0 {
        wide % 2
    } else if j == 1 {
        wide / 2 % 2
    } else if j == 2 {
        wide / 4 % 2
    } else if j == 3 {
        wide / 8 % 2
    } else if j == 4 {
        wide / 16 % 2
    } else if j == 5 {
        wide / 32 % 2
    } else if j == 6 {
        wide / 64 % 2
    } else {
        wide / 128 % 2
    }
}

/// The polynomial that stands for a message of 32 bytes.
pub fn poly_frommsg(m: &[u8; 32]) -> (r: [u16; 256])
    ensures
        r@ == frommsg_spec(m@),
{
    let mut r = [0u16; 256];
    let mut i: usize = 0;
    while i < 256
        invariant
            i <= 256,
            forall|j: int| 0 <= j < i ==> r@[j] == (bit_spec(m@[j / 8], j % 8) * 1665) as u16,
        decreases 256 - i,
    {
        r[i] = bit(m[i / 8], i % 8) * 1665;
        i += 1;
    }
    assert(r@ =~= frommsg_spec(m@));
    r
}

/// The bit that a coefficient stands for.
pub fn message_bit(x: u16) -> (b: u32)
    ensures
        b == message_bit_spec(x),
        b <= 1,
{
    ((2 * (x % 3329) as u32 + 1664) / 3329) % 2
}

/// The message of 32 bytes that a polynomial stands for.
pub fn poly_tomsg(a: &[u16; 256]) -> (r: [u8; 32])
    ensures
        r@ == tomsg_spec(a@),
{
    let mut r = [0u8; 32];
    let mut k: usize = 0;
    while k < 32
        invariant
            k <= 32,
            forall|j: int| 0 <= j < k ==> r@[j] == tomsg_at(a@, j),
        decreases 32 - k,
    {
        let byte: u32 = message_bit(a[8 * k]) + message_bit(a[8 * k + 1]) * 2 + message_bit(
            a[8 * k + 2],
        ) * 4 + message_bit(a[8 * k + 3]) * 8 + message_bit(a[8 * k + 4]) * 16 + message_bit(
            a[8 * k + 5],
        ) * 32 + message_bit(a[8 * k + 6]) * 64 + message_bit(a[8 * k + 7]) * 128;
        r[k] = byte as u8;
        k += 1;
    }
    assert(r@ =~= tomsg_spec(a@));
    r
}

/// The noise made from 128 bytes.
pub fn cbd2(buf: &[u8; 128]) -> (r: [u16; 256])
    ensures
        r@ == cbd2_spec(buf@),
{
    let mut r = [0u16; 256];
    let mut i: usize = 0;
    while i < 256
        invariant
            i <= 256,
            forall|j: int| 0 <= j < i ==> r@[j] == cbd2_at(buf@, j),
        decreases 256 - i,
    {
        let byte: u16 = buf[i / 2] as u16;
        let nib: u16 = if i % 2 == 0 {
            byte % 16
        } else {
            byte / 16
        };
        r[i] = fq_sub(nib % 2 + nib / 2 % 2, nib / 4 % 2 + nib / 8 % 2);
        i += 1;
    }
    assert(r@ =~= cbd2_spec(buf@));
    r
}

/// The noise that a 32-byte seed and a counter determine.
pub fn poly_getnoise(seed: &[u8; 32], nonce: u8) -> (r: [u16; 256])
    ensures
        r@ == noise_spec(seed@, nonce),
{
    let mut buf = [0u8; 128];
    prf(&mut buf, NOISE_BYTES, seed, nonce);
    cbd2(&buf)
}

} // verus!
