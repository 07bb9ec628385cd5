//! Byte lengths and lattice parameters of the one parameter set this crate is
//! built for: rank three, with SHA-2 and AES-256 in counter mode as the
//! symmetric primitives.

use vstd::prelude::*;

verus! {

/// Rank of the module lattice: the number of polynomials in a vector.
pub const KYBER_SECURITY_PARAMETER: usize = 3;

/// Whether SHA-2 and AES-256-CTR stand in for the SHA-3 family.
pub const KYBER_90S: bool = true;

/// Number of coefficients of a polynomial.
pub const KYBER_N: usize = 256;

/// The prime modulus of the coefficient ring.
pub const KYBER_Q: usize = 3329;

/// Width of the centered binomial noise of secrets.
pub const KYBER_ETA1: usize = 2;

/// Width of the centered binomial noise of ciphertexts.
pub const KYBER_ETA2: usize = 2;

/// Number of bytes in a hash, a seed or a block of coins.
pub const KYBER_SYM_BYTES: usize = 32;

/// Number of bytes in a shared secret.
pub const KYBER_SHARED_SECRET_BYTES: usize = 32;

/// Number of bytes in a serialized polynomial.
pub const KYBER_POLY_BYTES: usize = 384;

/// Number of bytes in a serialized vector of polynomials.
pub const KYBER_POLYVEC_BYTES: usize = 1152;

/// Number of bytes in a compressed polynomial.
pub const KYBER_POLY_COMPRESSED_BYTES: usize = 128;

/// Number of bytes in a compressed vector of polynomials.
pub const KYBER_POLYVEC_COMPRESSED_BYTES: usize = 960;

/// Number of bytes in a public key of the encryption scheme.
pub const KYBER_INDCPA_PUBLIC_KEY_BYTES: usize = 1184;

/// Number of bytes in a secret key of the encryption scheme.
pub const KYBER_INDCPA_SECRET_KEY_BYTES: usize = 1152;

/// Number of bytes in a ciphertext of the encryption scheme.
pub const KYBER_INDCPA_BYTES: usize = 1088;

/// Number of bytes in a public key.
pub const KYBER_PUBLIC_KEY_BYTES: usize = 1184;

/// Number of bytes in a secret key.
pub const KYBER_SECRET_KEY_BYTES: usize = 2400;

/// Number of bytes in a ciphertext.
pub const KYBER_CIPHERTEXT_BYTES: usize = 1088;

/// How the lengths above follow from the rank and from one another.
pub proof fn lemma_lengths_consistent()
    ensures
        KYBER_POLYVEC_BYTES == KYBER_SECURITY_PARAMETER * KYBER_POLY_BYTES,
        KYBER_POLYVEC_COMPRESSED_BYTES == KYBER_SECURITY_PARAMETER * 320,
        KYBER_INDCPA_PUBLIC_KEY_BYTES == KYBER_POLYVEC_BYTES + KYBER_SYM_BYTES,
        KYBER_INDCPA_SECRET_KEY_BYTES == KYBER_POLYVEC_BYTES,
        KYBER_INDCPA_BYTES == KYBER_POLYVEC_COMPRESSED_BYTES + KYBER_POLY_COMPRESSED_BYTES,
        KYBER_PUBLIC_KEY_BYTES == KYBER_INDCPA_PUBLIC_KEY_BYTES,
        KYBER_SECRET_KEY_BYTES == KYBER_INDCPA_SECRET_KEY_BYTES + KYBER_INDCPA_PUBLIC_KEY_BYTES
            + 2 * KYBER_SYM_BYTES,
        KYBER_CIPHERTEXT_BYTES == KYBER_INDCPA_BYTES,
{
}

} // verus!
