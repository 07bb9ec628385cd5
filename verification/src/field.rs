//! Arithmetic modulo the prime 3329, on canonical representatives, and the
//! powers of the root of unity that the number-theoretic transform uses.
//!
//! Every operation takes any 16-bit values and returns a value below the
//! modulus, so that nothing here has a precondition and nothing overflows.

use vstd::prelude::*;

verus! {

/// The sum of two values modulo 3329.
pub open spec fn fq_add_spec(a: u16, b: u16) -> u16 {
    ((a as int + b as int) % 3329) as u16
}

/// The difference of two values modulo 3329.
pub open spec fn fq_sub_spec(a: u16, b: u16) -> u16 {
    ((a as int - b as int) % 3329) as u16
}

/// The product of two values modulo 3329.
pub open spec fn fq_mul_spec(a: u16, b: u16) -> u16 {
    ((a as int * b as int) % 3329) as u16
}

/// 17 to the power `n` modulo 3329. 17 is a primitive 256th root of unity.
pub open spec fn pow17(n: nat) -> u16
    decreases n,
{
    if n == 0 {
        1
    } else {
        fq_mul_spec(pow17((n - 1) as nat), 17)
    }
}

/// The seven low bits of `k` in reverse order.
pub open spec fn brv7(k: int) -> int {
    (k % 2) * 64 + (k / 2 % 2) * 32 + (k / 4 % 2) * 16 + (k / 8 % 2) * 8 + (k / 16 % 2) * 4 + (k
        / 32 % 2) * 2 + (k / 64 % 2)
}

/// The `k`th twiddle factor: 17 to the power of the bit-reversed `k`.
pub open spec fn zeta_spec(k: int) -> u16 {
    pow17(brv7(k) as nat)
}

/// `table` holds the 128 twiddle factors in order.
pub open spec fn is_zeta_table(table: Seq<u16>) -> bool {
    &&& table.len() == 128
    &&& forall|k: int| 0 <= k < 128 ==> table[k] == zeta_spec(k)
}

/// The sum of two values modulo 3329.
pub fn fq_add(a: u16, b: u16) -> (r: u16)
    ensures
        r == fq_add_spec(a, b),
        r < 3329,
{
    let wide: u32 = (a as u32 + b as u32) % 3329;
    wide as u16
}

/// The difference of two values modulo 3329.
pub fn fq_sub(a: u16, b: u16) -> (r: u16)
    ensures
        r == fq_sub_spec(a, b),
        r < 3329,
{
    // 66580 is twenty times the modulus and more than any 16-bit value.
    let wide: u32 = (a as u32 + 66580 - b as u32) % 3329;
    wide as u16
}

/// The product of two values modulo 3329.
pub fn fq_mul(a: u16, b: u16) -> (r: u16)
    ensures
        r == fq_mul_spec(a, b),
        r < 3329,
{
    assert(0 <= (a as int) * (b as int) <= 65535 * 65535) by (nonlinear_arith)
        requires
            0 <= a <= 65535,
            0 <= b <= 65535,
    ;
    let wide: u32 = (a as u32 * b as u32) % 3329;
    wide as u16
}

/// The `k`th twiddle factor, by repeated multiplication.
pub fn zeta(k: usize) -> (z: u16)
    requires
        k < 128,
    ensures
        z == zeta_spec(k as int),
        z < 3329,
{
    let e: usize = (k % 2) * 64 + (k / 2 % 2) * 32 + (k / 4 % 2) * 16 + (k / 8 % 2) * 8 + (k / 16
        % 2) * 4 + (k / 32 % 2) * 2 + (k / 64 % 2);
    let mut acc: u16 = 1;
    let mut i: usize = 0;
    while i < e
        invariant
            i <= e,
            acc == pow17(i as nat),
            acc < 3329,
        decreases e - i,
    {
        acc = fq_mul(acc, 17);
        i += 1;
    }
    acc
}

/// The 128 twiddle factors in order.
pub fn zeta_table() -> (table: [u16; 128])
    ensures
        is_zeta_table(table@),
{
    let mut table = [0u16; 128];
    let mut k: usize = 0;
    while k < 128
        invariant
            k <= 128,
            forall|j: int| 0 <= j < k ==> table@[j] == zeta_spec(j),
        decreases 128 - k,
    {
        table[k] = zeta(k);
        k += 1;
    }
    table
}

} // verus!
