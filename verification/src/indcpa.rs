//! The lattice public-key encryption scheme on which the key encapsulation
//! is built, for module rank three: key generation, encryption and
//! decryption, as functions from bytes to bytes.
//!
//! A secret key is a vector `s` of three small polynomials, a public key is
//! `t = A s + e` for a matrix `A` expanded from a seed and a small `e`, and a
//! ciphertext is the rounded pair `u = A^T r + e1`, `v = t r + e2 + m`, in
//! which the message `m` has one coefficient for every bit. Decryption
//! rounds `v - s u` back to bits. It gives back the message that was
//! encrypted unless the noise adds up to more than a quarter of the
//! modulus, which is rare and is not shown here: what depends on it is
//! stated where it is needed, as a hypothesis.

use vstd::prelude::*;
use crate::buffer::{copy_into, read_array};
use crate::matrix::{dot3, dot3_spec, matrix_row_dot, matrix_row_dot_spec};
use crate::ntt::{intt, intt_spec, ntt, ntt_spec};
use crate::params::{
    KYBER_INDCPA_BYTES, KYBER_INDCPA_PUBLIC_KEY_BYTES, KYBER_INDCPA_SECRET_KEY_BYTES,
    KYBER_SYM_BYTES,
};
use crate::poly::{
    frombytes_spec, frommsg_spec, noise_spec, poly_add, poly_add_spec, poly_compress10,
    poly_compress10_spec, poly_compress4, poly_compress4_spec, poly_decompress10,
    poly_decompress10_spec, poly_decompress4, poly_decompress4_spec, poly_frombytes,
    poly_frommsg, poly_getnoise, poly_sub, poly_sub_spec, poly_tobytes, poly_tomsg,
    tobytes_spec, tomsg_spec,
};
use crate::symmetric::{hash_g, hash_g_spec};

verus! {

/// The three polynomials of the secret vector, transformed, that the noise
/// seed `sigma` gives.
pub open spec fn secret_vector(sigma: Seq<u8>, i: u8) -> Seq<u16> {
    ntt_spec(noise_spec(sigma, i))
}

/// Polynomial `i` of the public vector `t = A s + e`, transformed.
pub open spec fn public_vector(rho: Seq<u8>, sigma: Seq<u8>, i: u8) -> Seq<u16> {
    poly_add_spec(
        matrix_row_dot_spec(
            rho,
            i,
            false,
            secret_vector(sigma, 0),
            secret_vector(sigma, 1),
            secret_vector(sigma, 2),
        ),
        ntt_spec(noise_spec(sigma, (3 + i) as u8)),
    )
}

/// The public key and the secret key that key generation derives from a
/// 32-byte seed. The long hash of the seed gives the seed of the matrix and
/// the seed of the noise; the public key is the public vector followed by
/// the seed of the matrix, the secret key is the secret vector.
pub open spec fn pke_keypair_of(seed: Seq<u8>) -> (Seq<u8>, Seq<u8>) {
    let rho = hash_g_spec(seed).subrange(0, 32);
    let sigma = hash_g_spec(seed).subrange(32, 64);
    (
        tobytes_spec(public_vector(rho, sigma, 0)) + tobytes_spec(public_vector(rho, sigma, 1))
            + tobytes_spec(public_vector(rho, sigma, 2)) + rho,
        tobytes_spec(secret_vector(sigma, 0)) + tobytes_spec(secret_vector(sigma, 1))
            + tobytes_spec(secret_vector(sigma, 2)),
    )
}

/// Polynomial `i` of the vector that a public or a secret key holds.
pub open spec fn key_vector(key: Seq<u8>, i: int) -> Seq<u16> {
    frombytes_spec(key.subrange(384 * i, 384 * i + 384))
}

/// Polynomial `i` of the first part `u = A^T r + e1` of a ciphertext, before
/// it is rounded. The seed of the matrix is read from the end of the public
/// key, and all noise comes from the coins.
pub open spec fn cipher_vector(pk: Seq<u8>, coins: Seq<u8>, i: u8) -> Seq<u16> {
    poly_add_spec(
        intt_spec(
            matrix_row_dot_spec(
                pk.subrange(1152, 1184),
                i,
                true,
                secret_vector(coins, 0),
                secret_vector(coins, 1),
                secret_vector(coins, 2),
            ),
        ),
        noise_spec(coins, (3 + i) as u8),
    )
}

/// The second part `v = t r + e2 + m` of a ciphertext, before it is rounded.
pub open spec fn cipher_scalar(m: Seq<u8>, pk: Seq<u8>, coins: Seq<u8>) -> Seq<u16> {
    poly_add_spec(
        poly_add_spec(
            intt_spec(
                dot3_spec(
                    key_vector(pk, 0),
                    key_vector(pk, 1),
                    key_vector(pk, 2),
                    secret_vector(coins, 0),
                    secret_vector(coins, 1),
                    secret_vector(coins, 2),
                ),
            ),
            noise_spec(coins, 6),
        ),
        frommsg_spec(m),
    )
}

/// The ciphertext of the 32-byte message `m` under the public key `pk`, with
/// all of the scheme's randomness derived from the 32 bytes of `coins`: the
/// three polynomials of `u` at 10 bits a coefficient, then `v` at 4.
pub open spec fn pke_encrypt_of(m: Seq<u8>, pk: Seq<u8>, coins: Seq<u8>) -> Seq<u8> {
    poly_compress10_spec(cipher_vector(pk, coins, 0)) + poly_compress10_spec(
        cipher_vector(pk, coins, 1),
    ) + poly_compress10_spec(cipher_vector(pk, coins, 2)) + poly_compress4_spec(
        cipher_scalar(m, pk, coins),
    )
}

/// Polynomial `i` of the first part of a ciphertext, as its bytes give it,
/// transformed.
pub open spec fn received_vector(c: Seq<u8>, i: int) -> Seq<u16> {
    ntt_spec(poly_decompress10_spec(c.subrange(320 * i, 320 * i + 320)))
}

/// The 32-byte message that the secret key `sk` recovers from the
/// ciphertext `c`: the bits that `v - s u` rounds to.
pub open spec fn pke_decrypt_of(c: Seq<u8>, sk: Seq<u8>) -> Seq<u8> {
    tomsg_spec(
        poly_sub_spec(
            poly_decompress4_spec(c.subrange(960, 1088)),
            intt_spec(
                dot3_spec(
                    key_vector(sk, 0),
                    key_vector(sk, 1),
                    key_vector(sk, 2),
                    received_vector(c, 0),
                    received_vector(c, 1),
                    received_vector(c, 2),
                ),
            ),
        ),
    )
}

/// Generates the key pair that a 32-byte seed determines.
pub fn indcpa_keypair(seed: &[u8; 32]) -> (keys: (
    [u8; KYBER_INDCPA_PUBLIC_KEY_BYTES],
    [u8; KYBER_INDCPA_SECRET_KEY_BYTES],
))
    ensures
        keys.0@ == pke_keypair_of(seed@).0,
        keys.1@ == pke_keypair_of(seed@).1,
{
    let mut buf = [0u8; 64];
    hash_g(&mut buf, seed, KYBER_SYM_BYTES);
    assert(seed@.subrange(0, 32) =~= seed@);
    let rho: [u8; 32] = read_array::<32>(&buf, 0);
    let sigma: [u8; 32] = read_array::<32>(&buf, 32);
    assert(rho@ =~= hash_g_spec(seed@).subrange(0, 32));
    assert(sigma@ =~= hash_g_spec(seed@).subrange(32, 64));

    let s0 = ntt(&poly_getnoise(&sigma, 0));
    let s1 = ntt(&poly_getnoise(&sigma, 1));
    let s2 = ntt(&poly_getnoise(&sigma, 2));
    let e0 = ntt(&poly_getnoise(&sigma, 3));
    let e1 = ntt(&poly_getnoise(&sigma, 4));
    let e2 = ntt(&poly_getnoise(&sigma, 5));

    let t0 = poly_add(&matrix_row_dot(&rho, 0, false, &s0, &s1, &s2), &e0);
    let t1 = poly_add(&matrix_row_dot(&rho, 1, false, &s0, &s1, &s2), &e1);
    let t2 = poly_add(&matrix_row_dot(&rho, 2, false, &s0, &s1, &s2), &e2);

    let mut pk = [0u8; KYBER_INDCPA_PUBLIC_KEY_BYTES];
    let mut sk = [0u8; KYBER_INDCPA_SECRET_KEY_BYTES];
    copy_into(&mut pk, 0, &poly_tobytes(&t0));
    copy_into(&mut pk, 384, &poly_tobytes(&t1));
    copy_into(&mut pk, 768, &poly_tobytes(&t2));
    copy_into(&mut pk, 1152, &rho);
    copy_into(&mut sk, 0, &poly_tobytes(&s0));
    copy_into(&mut sk, 384, &poly_tobytes(&s1));
    copy_into(&mut sk, 768, &poly_tobytes(&s2));
    assert(pk@ =~= tobytes_spec(t0@) + tobytes_spec(t1@) + tobytes_spec(t2@) + rho@);
    assert(sk@ =~= tobytes_spec(s0@) + tobytes_spec(s1@) + tobytes_spec(s2@));
    (pk, sk)
}

/// Encrypts the 32-byte message `m` under the public key `pk`, with all
/// randomness derived from `coins`.
pub fn indcpa_enc(
    m: &[u8; KYBER_SYM_BYTES],
    pk: &[u8; KYBER_INDCPA_PUBLIC_KEY_BYTES],
    coins: &[u8; KYBER_SYM_BYTES],
) -> (c: [u8; KYBER_INDCPA_BYTES])
    ensures
        c@ == pke_encrypt_of(m@, pk@, coins@),
{
    let t0 = poly_frombytes(pk, 0);
    let t1 = poly_frombytes(pk, 384);
    let t2 = poly_frombytes(pk, 768);
    let rho: [u8; 32] = read_array::<32>(pk, 1152);

    let r0 = ntt(&poly_getnoise(coins, 0));
    let r1 = ntt(&poly_getnoise(coins, 1));
    let r2 = ntt(&poly_getnoise(coins, 2));

    let e0 = poly_getnoise(coins, 3);
    let e1 = poly_getnoise(coins, 4);
    let e2 = poly_getnoise(coins, 5);
    let u0 = poly_add(&intt(&matrix_row_dot(&rho, 0, true, &r0, &r1, &r2)), &e0);
    let u1 = poly_add(&intt(&matrix_row_dot(&rho, 1, true, &r0, &r1, &r2)), &e1);
    let u2 = poly_add(&intt(&matrix_row_dot(&rho, 2, true, &r0, &r1, &r2)), &e2);
    let masked = poly_add(&intt(&dot3(&t0, &t1, &t2, &r0, &r1, &r2)), &poly_getnoise(coins, 6));
    let v = poly_add(&masked, &poly_frommsg(m));

    let mut c = [0u8; KYBER_INDCPA_BYTES];
    copy_into(&mut c, 0, &poly_compress10(&u0));
    copy_into(&mut c, 320, &poly_compress10(&u1));
    copy_into(&mut c, 640, &poly_compress10(&u2));
    copy_into(&mut c, 960, &poly_compress4(&v));
    assert(c@ =~= poly_compress10_spec(u0@) + poly_compress10_spec(u1@) + poly_compress10_spec(u2@)
        + poly_compress4_spec(v@));
    c
}

/// Decrypts the ciphertext `c` with the secret key `sk`.
pub fn indcpa_dec(
    c: &[u8; KYBER_INDCPA_BYTES],
    sk: &[u8; KYBER_INDCPA_SECRET_KEY_BYTES],
) -> (m: [u8; KYBER_SYM_BYTES])
    ensures
        m@ == pke_decrypt_of(c@, sk@),
{
    let u0 = ntt(&poly_decompress10(c, 0));
    let u1 = ntt(&poly_decompress10(c, 320));
    let u2 = ntt(&poly_decompress10(c, 640));
    let v = poly_decompress4(c, 960);
    let s0 = poly_frombytes(sk, 0);
    let s1 = poly_frombytes(sk, 384);
    let s2 = poly_frombytes(sk, 768);
    let mp = intt(&dot3(&s0, &s1, &s2, &u0, &u1, &u2));
    poly_tomsg(&poly_sub(&v, &mp))
}

} // verus!
