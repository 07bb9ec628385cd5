//! The Keccak permutation and what is built on it: the hash functions
//! SHA3-256 and SHA3-512 and the extendable-output functions SHAKE128 and
//! SHAKE256, as the second family of symmetric primitives, and the three
//! uses that the encryption scheme makes of them.
//!
//! The state is 25 lanes of 64 bits. A message is padded to whole blocks,
//! each block is combined into the state by exclusive or, with a permutation
//! between two blocks, and output is read from the state after one more
//! permutation for every block of output.

use vstd::prelude::*;
use crate::buffer::overwrite;

verus! {

/// Number of bytes in a block of SHAKE128.
pub const SHAKE128_RATE: usize = 168;

/// Number of bytes in a block of SHAKE256.
pub const SHAKE256_RATE: usize = 136;

/// Number of bytes in a block of SHA3-256.
pub const SHA3_256_RATE: usize = 136;

/// Number of bytes in a block of SHA3-512.
pub const SHA3_512_RATE: usize = 72;

/// The byte that ends a message of the extendable-output functions.
pub const SHAKE_SUFFIX: u8 = 0x1f;

/// The byte that ends a message of the hash functions.
pub const SHA3_SUFFIX: u8 = 0x06;

/// A block has one of the three lengths in use.
pub open spec fn is_rate(rate: int) -> bool {
    rate == 72 || rate == 136 || rate == 168
}

/// A lane rotated to the left by `n` bits.
pub open spec fn rotl_spec(x: u64, n: u64) -> u64 {
    if n == 0 {
        x
    } else {
        (x << n) | (x >> ((64 - n) as u64))
    }
}

/// By how many bits lane `i` is rotated.
pub open spec fn rho_offset_spec(i: int) -> u64 {
    if i == 0 {
        0
    } else if i == 1 {
        1
    } else if i == 2 {
        62
    } else if i == 3 {
        28
    } else if i == 4 {
        27
    } else if i == 5 {
        36
    } else if i == 6 {
        44
    } else if i == 7 {
        6
    } else if i == 8 {
        55
    } else if i == 9 {
        20
    } else if i == 10 {
        3
    } else if i == 11 {
        10
    } else if i == 12 {
        43
    } else if i == 13 {
        25
    } else if i == 14 {
        39
    } else if i == 15 {
        41
    } else if i == 16 {
        45
    } else if i == 17 {
        15
    } else if i == 18 {
        21
    } else if i == 19 {
        8
    } else if i == 20 {
        18
    } else if i == 21 {
        2
    } else if i == 22 {
        61
    } else if i == 23 {
        56
    } else {
        14
    }
}

/// The constant of round `r`.
pub open spec fn round_constant_spec(r: int) -> u64 {
    if r == 0 {
        0x0000000000000001
    } else if r == 1 {
        0x0000000000008082
    } else if r == 2 {
        0x800000000000808a
    } else if r == 3 {
        0x8000000080008000
    } else if r == 4 {
        0x000000000000808b
    } else if r == 5 {
        0x0000000080000001
    } else if r == 6 {
        0x8000000080008081
    } else if r == 7 {
        0x8000000000008009
    } else if r == 8 {
        0x000000000000008a
    } else if r == 9 {
        0x0000000000000088
    } else if r == 10 {
        0x0000000080008009
    } else if r == 11 {
        0x000000008000000a
    } else if r == 12 {
        0x000000008000808b
    } else if r == 13 {
        0x800000000000008b
    } else if r == 14 {
        0x8000000000008089
    } else if r == 15 {
        0x8000000000008003
    } else if r == 16 {
        0x8000000000008002
    } else if r == 17 {
        0x8000000000000080
    } else if r == 18 {
        0x000000000000800a
    } else if r == 19 {
        0x800000008000000a
    } else if r == 20 {
        0x8000000080008081
    } else if r == 21 {
        0x8000000000008080
    } else if r == 22 {
        0x0000000080000001
    } else {
        0x8000000080008008
    }
}

/// The parity of column `x`.
pub open spec fn column_parity_spec(a: Seq<u64>, x: int) -> u64 {
    a[x] ^ a[x + 5] ^ a[x + 10] ^ a[x + 15] ^ a[x + 20]
}

/// Lane `i` after the first step of a round: combined with the parities of
/// the two neighbouring columns.
pub open spec fn theta_at(a: Seq<u64>, i: int) -> u64 {
    a[i] ^ column_parity_spec(a, (i % 5 + 4) % 5) ^ rotl_spec(
        column_parity_spec(a, (i % 5 + 1) % 5),
        1,
    )
}

/// The state after the first step of a round.
pub open spec fn theta_spec(a: Seq<u64>) -> Seq<u64> {
    Seq::new(25, |i: int| theta_at(a, i))
}

/// The lane from which lane `j` comes in the second step of a round.
pub open spec fn pi_source(j: int) -> int {
    (j % 5 + 3 * (j / 5)) % 5 + 5 * (j % 5)
}

/// Lane `j` after the second step of a round: a lane from elsewhere,
/// rotated.
pub open spec fn rho_pi_at(a: Seq<u64>, j: int) -> u64 {
    rotl_spec(a[pi_source(j)], rho_offset_spec(pi_source(j)))
}

/// The state after the second step of a round.
pub open spec fn rho_pi_spec(a: Seq<u64>) -> Seq<u64> {
    Seq::new(25, |j: int| rho_pi_at(a, j))
}

/// Lane `i` after the third step of a round: combined with the next two
/// lanes of its row.
pub open spec fn chi_at(b: Seq<u64>, i: int) -> u64 {
    b[i] ^ (!b[5 * (i / 5) + (i % 5 + 1) % 5] & b[5 * (i / 5) + (i % 5 + 2) % 5])
}

/// The state after the third step of a round.
pub open spec fn chi_spec(b: Seq<u64>) -> Seq<u64> {
    Seq::new(25, |i: int| chi_at(b, i))
}

/// The state after round `r`: the three steps, and the round's constant
/// combined into the first lane.
pub open spec fn round_spec(a: Seq<u64>, r: int) -> Seq<u64> {
    let c = chi_spec(rho_pi_spec(theta_spec(a)));
    c.update(0, c[0] ^ round_constant_spec(r))
}

/// The state after the first `n` rounds.
pub open spec fn keccak_rounds(a: Seq<u64>, n: nat) -> Seq<u64>
    decreases n,
{
    if n == 0 {
        a
    } else {
        round_spec(keccak_rounds(a, (n - 1) as nat), n - 1)
    }
}

/// The permutation: 24 rounds.
pub open spec fn keccak_f_spec(a: Seq<u64>) -> Seq<u64> {
    keccak_rounds(a, 24)
}

/// The state after `n` permutations.
pub open spec fn permuted(a: Seq<u64>, n: nat) -> Seq<u64>
    decreases n,
{
    if n == 0 {
        a
    } else {
        keccak_f_spec(permuted(a, (n - 1) as nat))
    }
}

/// The state of 25 lanes that are all zero.
pub open spec fn zero_lanes() -> Seq<u64> {
    Seq::new(25, |i: int| 0u64)
}

/// Byte `t` of the block that starts at place `base` of the padded
/// message: the message's own byte where it has one, and then the suffix,
/// zeros, and the bit that ends the last block.
pub open spec fn block_byte(data: Seq<u8>, rate: int, suffix: u8, base: int, t: int) -> u8 {
    if base + t < data.len() {
        data[base + t]
    } else {
        ((if base + t == data.len() {
            suffix as int
        } else {
            0
        }) + (if t == rate - 1 && data.len() < base + rate {
            128int
        } else {
            0
        })) as u8
    }
}

/// Lane `j` of the block that starts at place `base` of the padded message,
/// its eight bytes taken with the lowest first.
pub open spec fn block_lane(data: Seq<u8>, rate: int, suffix: u8, base: int, j: int) -> u64 {
    (block_byte(data, rate, suffix, base, 8 * j) as int + block_byte(
        data,
        rate,
        suffix,
        base,
        8 * j + 1,
    ) as int * 256 + block_byte(data, rate, suffix, base, 8 * j + 2) as int * 65536 + block_byte(
        data,
        rate,
        suffix,
        base,
        8 * j + 3,
    ) as int * 16777216 + block_byte(data, rate, suffix, base, 8 * j + 4) as int * 4294967296
        + block_byte(data, rate, suffix, base, 8 * j + 5) as int * 1099511627776 + block_byte(
        data,
        rate,
        suffix,
        base,
        8 * j + 6,
    ) as int * 281474976710656 + block_byte(data, rate, suffix, base, 8 * j + 7) as int
        * 72057594037927936) as u64
}

/// The state with the block that starts at place `base` of the padded
/// message combined into its first lanes.
pub open spec fn absorb_block_spec(
    a: Seq<u64>,
    data: Seq<u8>,
    rate: int,
    suffix: u8,
    base: int,
) -> Seq<u64> {
    Seq::new(
        25,
        |j: int|
            if 8 * j < rate {
                a[j] ^ block_lane(data, rate, suffix, base, j)
            } else {
                a[j]
            },
    )
}

/// The state after the rest of the padded message has been absorbed, from
/// the block that starts at place `base` on, into the state `a`: a
/// permutation follows every block but the last.
pub open spec fn absorb_from(
    a: Seq<u64>,
    data: Seq<u8>,
    rate: int,
    suffix: u8,
    base: int,
) -> Seq<u64>
    decreases data.len() - base,
{
    if rate <= 0 || data.len() < base + rate {
        absorb_block_spec(a, data, rate, suffix, base)
    } else {
        absorb_from(
            keccak_f_spec(absorb_block_spec(a, data, rate, suffix, base)),
            data,
            rate,
            suffix,
            base + rate,
        )
    }
}

/// The state after a whole message has been absorbed.
pub open spec fn absorbed_spec(data: Seq<u8>, rate: int, suffix: u8) -> Seq<u64> {
    absorb_from(zero_lanes(), data, rate, suffix, 0)
}

/// 256 to the power `k`.
pub open spec fn pow256_spec(k: int) -> u64 {
    if k == 0 {
        1
    } else if k == 1 {
        256
    } else if k == 2 {
        65536
    } else if k == 3 {
        16777216
    } else if k == 4 {
        4294967296
    } else if k == 5 {
        1099511627776
    } else if k == 6 {
        281474976710656
    } else {
        72057594037927936
    }
}

/// Byte `t` of a state, the bytes of each lane taken with the lowest first.
pub open spec fn state_byte_spec(a: Seq<u64>, t: int) -> u8 {
    (a[t / 8] / pow256_spec(t % 8) % 256) as u8
}

/// Byte `p` of the output that the state `a` gives with blocks of `rate`
/// bytes: output block `k` is read after `k + 1` permutations.
#[verifier::opaque]
pub open spec fn stream_byte_spec(a: Seq<u64>, rate: int, p: int) -> u8 {
    state_byte_spec(permuted(a, (p / rate + 1) as nat), p % rate)
}

/// The first `len` bytes of the output that the state `a` gives.
pub open spec fn stream_spec(a: Seq<u64>, rate: int, len: nat) -> Seq<u8> {
    Seq::new(len, |p: int| stream_byte_spec(a, rate, p))
}

/// The SHA3-256 digest of `data`.
pub open spec fn sha3_256_spec(data: Seq<u8>) -> Seq<u8> {
    stream_spec(absorbed_spec(data, 136, 0x06), 136, 32)
}

/// The SHA3-512 digest of `data`.
pub open spec fn sha3_512_spec(data: Seq<u8>) -> Seq<u8> {
    stream_spec(absorbed_spec(data, 72, 0x06), 72, 64)
}

/// The first `len` bytes of the SHAKE256 output for `data`.
pub open spec fn shake256_spec(data: Seq<u8>, len: nat) -> Seq<u8> {
    stream_spec(absorbed_spec(data, 136, 0x1f), 136, len)
}

/// A lane rotated to the left by `n` bits.
pub fn rotl(x: u64, n: u64) -> (r: u64)
    requires
        n < 64,
    ensures
        r == rotl_spec(x, n),
{
    if n == 0 {
        x
    } else {
        (x << n) | (x >> (64 - n))
    }
}

/// By how many bits lane `i` is rotated.
pub fn rho_offset(i: usize) -> (n: u64)
    ensures
        n == rho_offset_spec(i as int),
        n < 64,
{
    if i == 0 {
        0
    } else if i == 1 {
        1
    } else if i == 2 {
        62
    } else if i == 3 {
        28
    } else if i == 4 {
        27
    } else if i == 5 {
        36
    } else if i == 6 {
        44
    } else if i == 7 {
        6
    } else if i == 8 {
        55
    } else if i == 9 {
        20
    } else if i == 10 {
        3
    } else if i == 11 {
        10
    } else if i == 12 {
        43
    } else if i == 13 {
        25
    } else if i == 14 {
        39
    } else if i == 15 {
        41
    } else if i == 16 {
        45
    } else if i == 17 {
        15
    } else if i == 18 {
        21
    } else if i == 19 {
        8
    } else if i == 20 {
        18
    } else if i == 21 {
        2
    } else if i == 22 {
        61
    } else if i == 23 {
        56
    } else {
        14
    }
}

/// The constant of round `r`.
pub fn round_constant(r: usize) -> (c: u64)
    ensures
        c == round_constant_spec(r as int),
{
    if r == 0 {
        0x0000000000000001
    } else if r == 1 {
        0x0000000000008082
    } else if r == 2 {
        0x800000000000808a
    } else if r == 3 {
        0x8000000080008000
    } else if r == 4 {
        0x000000000000808b
    } else if r == 5 {
        0x0000000080000001
    } else if r == 6 {
        0x8000000080008081
    } else if r == 7 {
        0x8000000000008009
    } else if r == 8 {
        0x000000000000008a
    } else if r == 9 {
        0x0000000000000088
    } else if r == 10 {
        0x0000000080008009
    } else if r == 11 {
        0x000000008000000a
    } else if r == 12 {
        0x000000008000808b
    } else if r == 13 {
        0x800000000000008b
    } else if r == 14 {
        0x8000000000008089
    } else if r == 15 {
        0x8000000000008003
    } else if r == 16 {
        0x8000000000008002
    } else if r == 17 {
        0x8000000000000080
    } else if r == 18 {
        0x000000000000800a
    } else if r == 19 {
        0x800000008000000a
    } else if r == 20 {
        0x8000000080008081
    } else if r == 21 {
        0x8000000000008080
    } else if r == 22 {
        0x0000000080000001
    } else {
        0x8000000080008008
    }
}

/// The parity of column `x`.
pub fn column_parity(a: &[u64; 25], x: usize) -> (c: u64)
    requires
        x < 5,
    ensures
        c == column_parity_spec(a@, x as int),
{
    a[x] ^ a[x + 5] ^ a[x + 10] ^ a[x + 15] ^ a[x + 20]
}

/// One round of the permutation.
pub fn keccak_round(a: &[u64; 25], r: usize) -> (out: [u64; 25])
    ensures
        out@ == round_spec(a@, r as int),
{
    let mut t = [0u64; 25];
    let mut i: usize = 0;
    while i < 25
        invariant
            i <= 25,
            forall|j: int| 0 <= j < i ==> t@[j] == theta_at(a@, j),
        decreases 25 - i,
    {
        let left: u64 = column_parity(a, (i % 5 + 4) % 5);
        let right: u64 = column_parity(a, (i % 5 + 1) % 5);
        t[i] = a[i] ^ left ^ rotl(right, 1);
        i += 1;
    }
    assert(t@ =~= theta_spec(a@));
    let mut b = [0u64; 25];
    let mut j: usize = 0;
    while j < 25
        invariant
            j <= 25,
            forall|k: int| 0 <= k < j ==> b@[k] == rho_pi_at(t@, k),
        decreases 25 - j,
    {
        let src: usize = (j % 5 + 3 * (j / 5)) % 5 + 5 * (j % 5);
        b[j] = rotl(t[src], rho_offset(src));
        j += 1;
    }
    assert(b@ =~= rho_pi_spec(t@));
    let mut c = [0u64; 25];
    let mut k: usize = 0;
    while k < 25
        invariant
            k <= 25,
            forall|m: int| 0 <= m < k ==> c@[m] == chi_at(b@, m),
        decreases 25 - k,
    {
        c[k] = b[k] ^ (!b[5 * (k / 5) + (k % 5 + 1) % 5] & b[5 * (k / 5) + (k % 5 + 2) % 5]);
        k += 1;
    }
    assert(c@ =~= chi_spec(b@));
    let first: u64 = c[0] ^ round_constant(r);
    c[0] = first;
    assert(c@ =~= round_spec(a@, r as int));
    c
}

/// The permutation.
pub fn keccak_f(a: &[u64; 25]) -> (out: [u64; 25])
    ensures
        out@ == keccak_f_spec(a@),
{
    let mut s = *a;
    let mut r: usize = 0;
    while r < 24
        invariant
            r <= 24,
            s@ == keccak_rounds(a@, r as nat),
        decreases 24 - r,
    {
        s = keccak_round(&s, r);
        r += 1;
    }
    s
}

/// Byte `t` of the block that starts at place `base` of the padded
/// message made of the first `inlen` bytes of `input`.
pub fn padded_byte(
    input: &[u8],
    inlen: usize,
    rate: usize,
    suffix: u8,
    base: usize,
    t: usize,
) -> (b: u8)
    requires
        inlen <= input@.len(),
        is_rate(rate as int),
        suffix < 128,
        t < rate,
        base + rate <= usize::MAX,
    ensures
        b == block_byte(
            input@.subrange(0, inlen as int),
            rate as int,
            suffix,
            base as int,
            t as int,
        ),
{
    if base + t < inlen {
        input[base + t]
    } else {
        let ends: u8 = if base + t == inlen {
            suffix
        } else {
            0
        };
        let last: u8 = if t == rate - 1 && inlen < base + rate {
            128
        } else {
            0
        };
        ends + last
    }
}

/// The state with the block that starts at place `base` of the padded
/// message combined into its first lanes.
pub fn absorb_block(
    a: &[u64; 25],
    input: &[u8],
    inlen: usize,
    rate: usize,
    suffix: u8,
    base: usize,
) -> (out: [u64; 25])
    requires
        inlen <= input@.len(),
        is_rate(rate as int),
        suffix < 128,
        base + rate <= usize::MAX,
    ensures
        out@ == absorb_block_spec(
            a@,
            input@.subrange(0, inlen as int),
            rate as int,
            suffix,
            base as int,
        ),
{
    let ghost data = input@.subrange(0, inlen as int);
    let mut out = *a;
    let mut j: usize = 0;
    while j < 25
        invariant
            j <= 25,
            inlen <= input@.len(),
            is_rate(rate as int),
            suffix < 128,
            base + rate <= usize::MAX,
            data == input@.subrange(0, inlen as int),
            forall|k: int|
                0 <= k < j ==> out@[k] == absorb_block_spec(
                    a@,
                    data,
                    rate as int,
                    suffix,
                    base as int,
                )[k],
            forall|k: int| j <= k < 25 ==> out@[k] == a@[k],
        decreases 25 - j,
    {
        if 8 * j < rate {
            let b0: u64 = padded_byte(input, inlen, rate, suffix, base, 8 * j) as u64;
            let b1: u64 = padded_byte(input, inlen, rate, suffix, base, 8 * j + 1) as u64;
            let b2: u64 = padded_byte(input, inlen, rate, suffix, base, 8 * j + 2) as u64;
            let b3: u64 = padded_byte(input, inlen, rate, suffix, base, 8 * j + 3) as u64;
            let b4: u64 = padded_byte(input, inlen, rate, suffix, base, 8 * j + 4) as u64;
            let b5: u64 = padded_byte(input, inlen, rate, suffix, base, 8 * j + 5) as u64;
            let b6: u64 = padded_byte(input, inlen, rate, suffix, base, 8 * j + 6) as u64;
            let b7: u64 = padded_byte(input, inlen, rate, suffix, base, 8 * j + 7) as u64;
            let lane: u64 = b0 + b1 * 256 + b2 * 65536 + b3 * 16777216 + b4 * 4294967296 + b5
                * 1099511627776 + b6 * 281474976710656 + b7 * 72057594037927936;
            out[j] = a[j] ^ lane;
        }
        j += 1;
    }
    assert(out@ =~= absorb_block_spec(a@, data, rate as int, suffix, base as int));
    out
}

/// The state after the first `inlen` bytes of `input` have been absorbed,
/// with blocks of `rate` bytes and the given suffix.
pub fn keccak_absorb_once(input: &[u8], inlen: usize, rate: usize, suffix: u8) -> (s: [u64; 25])
    requires
        inlen <= input@.len(),
        is_rate(rate as int),
        suffix < 128,
        inlen + 168 <= usize::MAX,
    ensures
        s@ == absorbed_spec(input@.subrange(0, inlen as int), rate as int, suffix),
{
    let ghost data = input@.subrange(0, inlen as int);
    let mut s = [0u64; 25];
    assert(s@ =~= zero_lanes());
    let mut base: usize = 0;
    while base + rate <= inlen
        invariant
            inlen <= input@.len(),
            is_rate(rate as int),
            suffix < 128,
            inlen + 168 <= usize::MAX,
            base <= inlen,
            data == input@.subrange(0, inlen as int),
            absorbed_spec(data, rate as int, suffix) == absorb_from(
                s@,
                data,
                rate as int,
                suffix,
                base as int,
            ),
        decreases inlen - base,
    {
        let t = absorb_block(&s, input, inlen, rate, suffix, base);
        s = keccak_f(&t);
        base += rate;
    }
    absorb_block(&s, input, inlen, rate, suffix, base)
}

/// 256 to the power `k`.
pub fn pow256(k: usize) -> (p: u64)
    ensures
        p == pow256_spec(k as int),
        p > 0,
{
    if k == 0 {
        1
    } else if k == 1 {
        256
    } else if k == 2 {
        65536
    } else if k == 3 {
        16777216
    } else if k == 4 {
        4294967296
    } else if k == 5 {
        1099511627776
    } else if k == 6 {
        281474976710656
    } else {
        72057594037927936
    }
}

/// Byte `t` of a state.
pub fn state_byte(a: &[u64; 25], t: usize) -> (b: u8)
    requires
        t < 200,
    ensures
        b == state_byte_spec(a@, t as int),
{
    (a[t / 8] / pow256(t % 8) % 256) as u8
}

/// Writes the next `len` bytes of output, at most one block, into `out`
/// from place `at` on: permutes the state and reads its first bytes.
pub fn squeeze_block(out: &mut [u8], at: usize, len: usize, s: &mut [u64; 25])
    requires
        len <= 168,
        at + len <= old(out)@.len(),
    ensures
        final(s)@ == keccak_f_spec(old(s)@),
        final(out)@.len() == old(out)@.len(),
        forall|i: int| 0 <= i < at ==> final(out)@[i] == old(out)@[i],
        forall|i: int| at <= i < at + len ==> final(out)@[i] == state_byte_spec(final(s)@, i - at),
        forall|i: int| at + len <= i < old(out)@.len() ==> final(out)@[i] == old(out)@[i],
{
    let next = keccak_f(s);
    *s = next;
    let total: usize = out.len();
    let mut t: usize = 0;
    while t < len
        invariant
            t <= len <= 168,
            at + len <= total,
            total == out@.len(),
            out@.len() == old(out)@.len(),
            s@ == next@,
            forall|i: int| 0 <= i < at ==> out@[i] == old(out)@[i],
            forall|i: int| at <= i < at + t ==> out@[i] == state_byte_spec(next@, i - at),
            forall|i: int| at + t <= i < out@.len() ==> out@[i] == old(out)@[i],
        decreases len - t,
    {
        out[at + t] = state_byte(&next, t);
        t += 1;
    }
}

/// The bytes of output block `k` are the first bytes of the state after
/// one more permutation than the `k` before it.
pub proof fn lemma_stream_block(a: Seq<u64>, rate: int, k: int, i: int)
    requires
        rate > 0,
        k >= 0,
        k * rate <= i < k * rate + rate,
    ensures
        stream_byte_spec(a, rate, i) == state_byte_spec(
            keccak_f_spec(permuted(a, k as nat)),
            i - k * rate,
        ),
{
    reveal(stream_byte_spec);
    vstd::arithmetic::div_mod::lemma_fundamental_div_mod_converse(i, rate, k, i - k * rate);
    assert(permuted(a, (k + 1) as nat) == keccak_f_spec(permuted(a, k as nat)));
}

/// The state of an extendable-output function of the SHA-3 family: the 25
/// lanes, and the number of bytes of the current block that are used up.
#[derive(Clone, Copy)]
pub struct KeccakState {
    /// The 25 lanes.
    pub s: [u64; 25],
    /// The number of bytes of the current block that are used up.
    pub pos: usize,
}

impl KeccakState {
    /// A state of zeros.
    pub fn new() -> (state: Self)
        ensures
            state.s@ == zero_lanes(),
            state.pos == 0,
    {
        let state = KeccakState { s: [0u64; 25], pos: 0usize };
        assert(state.s@ =~= zero_lanes());
        state
    }

    /// Sets the state back to zeros.
    pub fn reset(&mut self)
        ensures
            final(self).s@ == zero_lanes(),
            final(self).pos == 0,
    {
        self.s = [0u64; 25];
        self.pos = 0;
        assert(self.s@ =~= zero_lanes());
    }
}

/// Absorbs the first `inlen` bytes of `input` into a fresh SHAKE128 state,
/// whatever `state` held before. The whole first block of output is still
/// to be read.
pub fn shake128_absorb_once(state: &mut KeccakState, input: &[u8], inlen: usize)
    requires
        inlen <= input@.len(),
        inlen + 168 <= usize::MAX,
    ensures
        final(state).s@ == absorbed_spec(input@.subrange(0, inlen as int), 168, 0x1f),
        final(state).pos == SHAKE128_RATE,
{
    state.s = keccak_absorb_once(input, inlen, SHAKE128_RATE, SHAKE_SUFFIX);
    state.pos = SHAKE128_RATE;
}

/// Writes the next `nblocks` blocks of SHAKE128 output over the start of
/// `out` and moves the state on by as many permutations.
pub fn shake128_squeezeblocks(out: &mut [u8], nblocks: usize, state: &mut KeccakState)
    requires
        nblocks * 168 <= old(out)@.len(),
    ensures
        final(out)@ == overwrite(
            old(out)@,
            0,
            stream_spec(old(state).s@, 168, (nblocks * 168) as nat),
        ),
        final(state).s@ == permuted(old(state).s@, nblocks as nat),
        final(state).pos == old(state).pos,
{
    let total: usize = out.len();
    let mut k: usize = 0;
    while k < nblocks
        invariant
            k <= nblocks,
            nblocks * 168 <= total,
            total == out@.len(),
            out@.len() == old(out)@.len(),
            state.pos == old(state).pos,
            state.s@ == permuted(old(state).s@, k as nat),
            forall|i: int| 0 <= i < k * 168 ==> out@[i] == stream_byte_spec(old(state).s@, 168, i),
            forall|i: int| k * 168 <= i < out@.len() ==> out@[i] == old(out)@[i],
        decreases nblocks - k,
    {
        squeeze_block(out, k * 168, 168, &mut state.s);
        assert forall|i: int| k * 168 <= i < k * 168 + 168 implies out@[i] == stream_byte_spec(
            old(state).s@,
            168,
            i,
        ) by {
            lemma_stream_block(old(state).s@, 168, k as int, i);
        }
        k += 1;
    }
    assert(out@ =~= overwrite(
        old(out)@,
        0,
        stream_spec(old(state).s@, 168, (nblocks * 168) as nat),
    ));
}

/// Writes the first `outlen` bytes of the SHAKE256 output for the first
/// `inlen` bytes of `input` over the start of `out`.
pub fn shake256(out: &mut [u8], outlen: usize, input: &[u8], inlen: usize)
    requires
        outlen <= old(out)@.len(),
        inlen <= input@.len(),
        inlen + 168 <= usize::MAX,
    ensures
        final(out)@ == overwrite(
            old(out)@,
            0,
            shake256_spec(input@.subrange(0, inlen as int), outlen as nat),
        ),
{
    let mut s = keccak_absorb_once(input, inlen, SHAKE256_RATE, SHAKE_SUFFIX);
    let ghost start = s@;
    let ghost mut k: int = 0;
    let total: usize = out.len();
    let mut done: usize = 0;
    while outlen - done >= 136
        invariant
            done <= outlen <= total,
            total == out@.len(),
            out@.len() == old(out)@.len(),
            k >= 0,
            done == 136 * k,
            s@ == permuted(start, k as nat),
            forall|i: int| 0 <= i < done ==> out@[i] == stream_byte_spec(start, 136, i),
            forall|i: int| done <= i < out@.len() ==> out@[i] == old(out)@[i],
        decreases outlen - done,
    {
        squeeze_block(out, done, 136, &mut s);
        assert forall|i: int| done <= i < done + 136 implies out@[i] == stream_byte_spec(
            start,
            136,
            i,
        ) by {
            lemma_stream_block(start, 136, k, i);
        }
        done += 136;
        proof {
            k = k + 1;
        }
    }
    if done < outlen {
        squeeze_block(out, done, outlen - done, &mut s);
        assert forall|i: int| done <= i < outlen implies out@[i] == stream_byte_spec(
            start,
            136,
            i,
        ) by {
            lemma_stream_block(start, 136, k, i);
        }
    }
    assert(out@ =~= overwrite(old(out)@, 0, stream_spec(start, 136, outlen as nat)));
}

/// Writes the SHA3-256 digest of the first `inlen` bytes of `input` into the
/// first 32 bytes of `out`.
pub fn sha3_256(out: &mut [u8], input: &[u8], inlen: usize)
    requires
        32 <= old(out)@.len(),
        inlen <= input@.len(),
        inlen + 168 <= usize::MAX,
    ensures
        final(out)@ == overwrite(old(out)@, 0, sha3_256_spec(input@.subrange(0, inlen as int))),
{
    let mut s = keccak_absorb_once(input, inlen, SHA3_256_RATE, SHA3_SUFFIX);
    let ghost start = s@;
    squeeze_block(out, 0, 32, &mut s);
    assert forall|i: int| 0 <= i < 32 implies out@[i] == stream_byte_spec(start, 136, i) by {
        lemma_stream_block(start, 136, 0, i);
    }
    assert(out@ =~= overwrite(old(out)@, 0, stream_spec(start, 136, 32)));
}

/// Writes the SHA3-512 digest of the first `inlen` bytes of `input` into the
/// first 64 bytes of `out`.
pub fn sha3_512(out: &mut [u8], input: &[u8], inlen: usize)
    requires
        64 <= old(out)@.len(),
        inlen <= input@.len(),
        inlen + 168 <= usize::MAX,
    ensures
        final(out)@ == overwrite(old(out)@, 0, sha3_512_spec(input@.subrange(0, inlen as int))),
{
    let mut s = keccak_absorb_once(input, inlen, SHA3_512_RATE, SHA3_SUFFIX);
    let ghost start = s@;
    squeeze_block(out, 0, 64, &mut s);
    assert forall|i: int| 0 <= i < 64 implies out@[i] == stream_byte_spec(start, 72, i) by {
        lemma_stream_block(start, 72, 0, i);
    }
    assert(out@ =~= overwrite(old(out)@, 0, stream_spec(start, 72, 64)));
}

/// Starts the stream from which an entry of the matrix is sampled: absorbs
/// the 32-byte seed followed by the two domain bytes into a fresh SHAKE128
/// state.
pub fn kyber_shake128_absorb(s: &mut KeccakState, input: &[u8], x: u8, y: u8)
    requires
        input@.len() == 32,
    ensures
        final(s).s@ == absorbed_spec(input@ + seq![x, y], 168, 0x1f),
        final(s).pos == SHAKE128_RATE,
{
    let mut extseed = [0u8; 34];
    let mut i: usize = 0;
    while i < 32
        invariant
            i <= 32,
            input@.len() == 32,
            forall|j: int| 0 <= j < i ==> extseed@[j] == input@[j],
        decreases 32 - i,
    {
        extseed[i] = input[i];
        i += 1;
    }
    extseed[32] = x;
    extseed[33] = y;
    assert(extseed@.subrange(0, 34) =~= input@ + seq![x, y]);
    shake128_absorb_once(s, &extseed, 34);
}

/// Writes the next `nblocks` blocks of that stream over the start of
/// `output`.
pub fn kyber_shake128_squeezeblocks(output: &mut [u8], nblocks: usize, s: &mut KeccakState)
    requires
        nblocks * 168 <= old(output)@.len(),
    ensures
        final(output)@ == overwrite(
            old(output)@,
            0,
            stream_spec(old(s).s@, 168, (nblocks * 168) as nat),
        ),
        final(s).s@ == permuted(old(s).s@, nblocks as nat),
        final(s).pos == old(s).pos,
{
    shake128_squeezeblocks(output, nblocks, s);
}

/// The pseudorandom function of this family: writes over the start of
/// `output` the first `outlen` bytes of the SHAKE256 output for the 32-byte
/// key followed by the nonce.
pub fn shake256_prf(output: &mut [u8], outlen: usize, key: &[u8], nonce: u8)
    requires
        outlen <= old(output)@.len(),
        key@.len() == 32,
    ensures
        final(output)@ == overwrite(
            old(output)@,
            0,
            shake256_spec(key@ + seq![nonce], outlen as nat),
        ),
{
    let mut extkey = [0u8; 33];
    let mut i: usize = 0;
    while i < 32
        invariant
            i <= 32,
            key@.len() == 32,
            forall|j: int| 0 <= j < i ==> extkey@[j] == key@[j],
        decreases 32 - i,
    {
        extkey[i] = key[i];
        i += 1;
    }
    extkey[32] = nonce;
    assert(extkey@.subrange(0, 33) =~= key@ + seq![nonce]);
    shake256(output, outlen, &extkey, 33);
}

} // verus!
