//! The operations most callers need: generating and importing key pairs,
//! encapsulating to a public key and decapsulating with a secret key, with
//! every length checked before any cryptography runs.

use vstd::prelude::*;
use rand_core::{CryptoRng, RngCore};
use crate::buffer::{read_array, wipe, zeros};
use crate::error::KyberLibError;
use crate::kem::{
    decaps_secret, decrypt_message, decrypts_encapsulation, encaps_ciphertext, encaps_secret,
    encrypt_message, encrypt_message_from_seed, generate_key_pair, generate_key_pair_from_seed,
    is_encapsulation, is_generated_key_pair, key_pair_matches, keypair_public, keypair_secret,
    lemma_decapsulation_returns_encapsulated_secret, sk_public_key, SECRET_KEY_PUBLIC_AT,
};
use crate::kex::{Decapsulated, Encapsulated, PublicKey, SecretKey};
use crate::params::{
    KYBER_CIPHERTEXT_BYTES, KYBER_PUBLIC_KEY_BYTES, KYBER_SECRET_KEY_BYTES,
    KYBER_SHARED_SECRET_BYTES, KYBER_SYM_BYTES,
};
use crate::rng::random_seed;
use crate::verify::verify;

verus! {

/// A public key and the secret key that goes with it.
#[derive(Copy, Clone, Debug, Eq, PartialEq)]
pub struct Keypair {
    /// The public key.
    pub public: PublicKey,
    /// The secret key.
    pub secret: SecretKey,
}

/// Decapsulating what encapsulation with the randomness `m` sends gives the
/// secret that encapsulation kept.
pub open spec fn secrets_agree(pk: Seq<u8>, sk: Seq<u8>, m: Seq<u8>) -> bool {
    decaps_secret(encaps_ciphertext(pk, m), sk) == encaps_secret(pk, m)
}

/// A key pair that belongs together passes the check of an import, on all
/// randomness on which the encryption scheme decrypts what it encrypted.
pub proof fn lemma_matching_pair_agrees(pk: Seq<u8>, sk: Seq<u8>, m: Seq<u8>)
    requires
        key_pair_matches(pk, sk),
        decrypts_encapsulation(pk, sk, m),
    ensures
        secrets_agree(pk, sk, m),
{
    lemma_decapsulation_returns_encapsulated_secret(pk, sk, m);
}

/// Generates a key pair from 64 bytes drawn from `rng`. Fails only when the
/// source of randomness fails.
pub fn keypair<R: RngCore + CryptoRng>(rng: &mut R) -> (res: Result<Keypair, KyberLibError>)
    ensures
        res matches Ok(keys) ==> keys.wf() && is_generated_key_pair(keys.public@, keys.secret@),
        res matches Err(e) ==> e == KyberLibError::RandomBytesGeneration,
{
    let mut public = [0u8; KYBER_PUBLIC_KEY_BYTES];
    let mut secret = [0u8; KYBER_SECRET_KEY_BYTES];
    match generate_key_pair(&mut public, &mut secret, rng, None) {
        Ok(_) => {
            let keys = Keypair { public, secret };
            wipe(&mut secret);
            Ok(keys)
        },
        Err(e) => Err(e),
    }
}

/// Whether `secret` decapsulates to the right secret what encapsulation to
/// `public` with the randomness `m` sends. The two secrets are compared
/// over all their bytes.
pub fn key_pair_agrees(
    public: &[u8; KYBER_PUBLIC_KEY_BYTES],
    secret: &[u8; KYBER_SECRET_KEY_BYTES],
    m: &[u8; 32],
) -> (agrees: bool)
    ensures
        agrees <==> secrets_agree(public@, secret@, m@),
{
    let mut ct = [0u8; KYBER_CIPHERTEXT_BYTES];
    let mut sent = [0u8; KYBER_SHARED_SECRET_BYTES];
    let mut received = [0u8; KYBER_SHARED_SECRET_BYTES];
    encrypt_message_from_seed(&mut ct, &mut sent, public, m);
    decrypt_message(&mut received, &ct, secret);
    let differ = verify(&received, &sent, KYBER_SHARED_SECRET_BYTES);
    proof {
        if differ == 0 {
            assert(received@ =~= sent@);
        }
    }
    differ == 0
}

/// Checks, with one encapsulation under fresh randomness, that `secret`
/// belongs to `public`, and returns the two as a key pair if it does.
/// Fails with `InvalidKey` if it does not, and with `RandomBytesGeneration`
/// when the source of randomness fails. The two buffers are left as they
/// are.
pub fn keypairfrom<R: RngCore + CryptoRng>(
    public: &mut [u8; KYBER_PUBLIC_KEY_BYTES],
    secret: &mut [u8; KYBER_SECRET_KEY_BYTES],
    rng: &mut R,
) -> (res: Result<Keypair, KyberLibError>)
    ensures
        *final(public) == *old(public),
        *final(secret) == *old(secret),
        res matches Ok(keys) ==> keys.public == *old(public) && keys.secret == *old(secret) && (
        exists|m: Seq<u8>|
            m.len() == KYBER_SYM_BYTES && #[trigger] secrets_agree(old(public)@, old(secret)@, m)),
        res matches Err(e) ==> e == KyberLibError::RandomBytesGeneration || (e
            == KyberLibError::InvalidKey && exists|m: Seq<u8>|
            m.len() == KYBER_SYM_BYTES && !#[trigger] secrets_agree(
                old(public)@,
                old(secret)@,
                m,
            )),
{
    let m: [u8; 32] = match random_seed(rng) {
        Ok(bytes) => bytes,
        Err(e) => {
            return Err(e);
        },
    };
    if key_pair_agrees(public, secret, &m) {
        Ok(Keypair { public: *public, secret: *secret })
    } else {
        Err(KyberLibError::InvalidKey)
    }
}

/// Encapsulates to the public key `pk` with 32 bytes drawn from `rng`:
/// returns the ciphertext to send and the shared secret to keep. Fails with
/// `InvalidInput` exactly when `pk` has the wrong length, and with
/// `RandomBytesGeneration` when the source of randomness fails.
pub fn encapsulate<R: RngCore + CryptoRng>(pk: &[u8], rng: &mut R) -> (res: Encapsulated)
    ensures
        (res matches Err(e) && e == KyberLibError::InvalidInput) <==> pk@.len()
            != KYBER_PUBLIC_KEY_BYTES,
        res matches Ok(sent) ==> is_encapsulation(pk@, sent.0@, sent.1@),
        res matches Err(e) ==> e == KyberLibError::InvalidInput || e
            == KyberLibError::RandomBytesGeneration,
{
    if pk.len() != KYBER_PUBLIC_KEY_BYTES {
        return Err(KyberLibError::InvalidInput);
    }
    let mut ct = [0u8; KYBER_CIPHERTEXT_BYTES];
    let mut ss = [0u8; KYBER_SHARED_SECRET_BYTES];
    match encrypt_message(&mut ct, &mut ss, pk, rng, None) {
        Ok(_) => Ok((ct, ss)),
        Err(e) => Err(e),
    }
}

/// Decapsulates the ciphertext `ct` with the secret key `sk`. Fails with
/// `InvalidInput` exactly when one of the two has the wrong length; every
/// other input gets a shared secret, a forged ciphertext one that is
/// unrelated to the sender's.
pub fn decapsulate(ct: &[u8], sk: &[u8]) -> (res: Decapsulated)
    ensures
        res is Err <==> (ct@.len() != KYBER_CIPHERTEXT_BYTES || sk@.len()
            != KYBER_SECRET_KEY_BYTES),
        res matches Err(e) ==> e == KyberLibError::InvalidInput,
        res matches Ok(ss) ==> ss@ == decaps_secret(ct@, sk@),
{
    if ct.len() != KYBER_CIPHERTEXT_BYTES || sk.len() != KYBER_SECRET_KEY_BYTES {
        return Err(KyberLibError::InvalidInput);
    }
    let mut ss = [0u8; KYBER_SHARED_SECRET_BYTES];
    decrypt_message(&mut ss, ct, sk);
    Ok(ss)
}

impl Keypair {
    /// The secret key holds the public key and its hash at their places.
    pub open spec fn wf(&self) -> bool {
        key_pair_matches(self.public@, self.secret@)
    }

    /// Generates a key pair from 64 bytes drawn from `rng`.
    pub fn generate<R: RngCore + CryptoRng>(rng: &mut R) -> (res: Result<Keypair, KyberLibError>)
        ensures
            res matches Ok(keys) ==> keys.wf() && is_generated_key_pair(
                keys.public@,
                keys.secret@,
            ),
            res matches Err(e) ==> e == KyberLibError::RandomBytesGeneration,
    {
        keypair(rng)
    }

    /// The secret key, handed out on request only.
    pub fn expose_secret(&self) -> (secret: &SecretKey)
        ensures
            *secret == self.secret,
    {
        &self.secret
    }

    /// Checks that `secret` belongs to `public` and returns them as a key
    /// pair.
    pub fn import<R: RngCore + CryptoRng>(
        public: &mut [u8; KYBER_PUBLIC_KEY_BYTES],
        secret: &mut [u8; KYBER_SECRET_KEY_BYTES],
        rng: &mut R,
    ) -> (res: Result<Keypair, KyberLibError>)
        ensures
            *final(public) == *old(public),
            *final(secret) == *old(secret),
            res matches Ok(keys) ==> keys.public == *old(public) && keys.secret == *old(secret)
                && (exists|m: Seq<u8>|
                m.len() == KYBER_SYM_BYTES && #[trigger] secrets_agree(
                    old(public)@,
                    old(secret)@,
                    m,
                )),
            res matches Err(e) ==> e == KyberLibError::RandomBytesGeneration || (e
                == KyberLibError::InvalidKey && exists|m: Seq<u8>|
                m.len() == KYBER_SYM_BYTES && !#[trigger] secrets_agree(
                    old(public)@,
                    old(secret)@,
                    m,
                )),
    {
        keypairfrom(public, secret, rng)
    }

    /// Overwrites both keys with zeros.
    pub fn zeroize(&mut self)
        ensures
            final(self).public@ == zeros(KYBER_PUBLIC_KEY_BYTES as nat),
            final(self).secret@ == zeros(KYBER_SECRET_KEY_BYTES as nat),
    {
        wipe(&mut self.public);
        wipe(&mut self.secret);
        assert(self.public@ =~= zeros(KYBER_PUBLIC_KEY_BYTES as nat));
        assert(self.secret@ =~= zeros(KYBER_SECRET_KEY_BYTES as nat));
    }
}

/// `keys` is the key pair that the 64-byte seed determines: its first half
/// seeds the encryption scheme, its second half is the fallback bytes.
pub open spec fn derived_from(seed: Seq<u8>, keys: Keypair) -> bool {
    &&& keys.public@ == keypair_public(seed.subrange(0, 32))
    &&& keys.secret@ == keypair_secret(seed.subrange(0, 32), seed.subrange(32, 64))
}

/// Derives a key pair from a 64-byte seed: the first half seeds the
/// encryption scheme, the second half becomes the fallback bytes. The same
/// seed always gives the same key pair. Fails with `InvalidInput` exactly
/// when the seed does not have 64 bytes.
pub fn derive(seed: &[u8]) -> (res: Result<Keypair, KyberLibError>)
    ensures
        seed@.len() != 64 ==> (res matches Err(e) && e == KyberLibError::InvalidInput),
        seed@.len() == 64 ==> (res matches Ok(keys) && keys.wf() && derived_from(seed@, keys)),
{
    let mut public = [0u8; KYBER_PUBLIC_KEY_BYTES];
    let mut secret = [0u8; KYBER_SECRET_KEY_BYTES];
    if seed.len() != 64 {
        return Err(KyberLibError::InvalidInput);
    }
    let d: [u8; 32] = read_array::<32>(seed, 0);
    let z: [u8; 32] = read_array::<32>(seed, 32);
    generate_key_pair_from_seed(&mut public, &mut secret, &d, &z);
    Ok(Keypair { public, secret })
}

/// The public key that a secret key holds: a copy of the bytes at its place,
/// with nothing computed. Only a slice of exactly the length of a secret key
/// is one: bytes are never cut out of a slice of any other length.
pub fn public(sk: &[u8]) -> (pk: PublicKey)
    requires
        sk@.len() == KYBER_SECRET_KEY_BYTES,
    ensures
        pk@ == sk_public_key(sk@),
{
    read_array::<KYBER_PUBLIC_KEY_BYTES>(sk, SECRET_KEY_PUBLIC_AT)
}

/// A seed determines its key pair: two key pairs derived from one seed are
/// the same, byte for byte.
pub proof fn lemma_derive_is_deterministic(seed: Seq<u8>, first: Keypair, second: Keypair)
    requires
        derived_from(seed, first),
        derived_from(seed, second),
    ensures
        first == second,
{
    assert(first.public =~= second.public);
    assert(first.secret =~= second.secret);
}

/// The public key read out of the secret key of a pair that belongs
/// together is the public key of that pair.
pub proof fn lemma_public_of_matching_pair(pk: Seq<u8>, sk: Seq<u8>)
    requires
        key_pair_matches(pk, sk),
    ensures
        sk_public_key(sk) == pk,
{
}

} // verus!
