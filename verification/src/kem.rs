//! The key-encapsulation mechanism: key generation, encapsulation, and
//! decapsulation with implicit rejection.
//!
//! A secret key is laid out as the secret key of the encryption scheme, the
//! public key, the short hash of the public key, and 32 fallback bytes. The
//! hash binds every derived secret to one public key; the fallback bytes key
//! the answer to a ciphertext that does not survive re-encryption.

use vstd::prelude::*;
use vstd::slice::slice_subrange;
use rand_core::{CryptoRng, RngCore};
use crate::buffer::{copy_into, read_array};
use crate::error::KyberLibError;
use crate::indcpa::{
    indcpa_dec, indcpa_enc, indcpa_keypair, pke_decrypt_of, pke_encrypt_of, pke_keypair_of,
};
use crate::params::{
    KYBER_CIPHERTEXT_BYTES, KYBER_INDCPA_PUBLIC_KEY_BYTES, KYBER_INDCPA_SECRET_KEY_BYTES,
    KYBER_PUBLIC_KEY_BYTES, KYBER_SECRET_KEY_BYTES, KYBER_SHARED_SECRET_BYTES, KYBER_SYM_BYTES,
};
use crate::rng::random_seed;
use crate::symmetric::{hash_g, hash_g_spec, hash_h, hash_h_spec, kdf, kdf_spec};
use crate::verify::{cmov, verify};

verus! {

/// Where the public key starts inside a secret key.
pub const SECRET_KEY_PUBLIC_AT: usize = 1152;

/// Where the hash of the public key starts inside a secret key.
pub const SECRET_KEY_HASH_AT: usize = 2336;

/// Where the fallback bytes start inside a secret key.
pub const SECRET_KEY_FALLBACK_AT: usize = 2368;

/// The part of a secret key that is the secret key of the encryption scheme.
pub open spec fn sk_pke_secret(sk: Seq<u8>) -> Seq<u8> {
    sk.subrange(0, SECRET_KEY_PUBLIC_AT as int)
}

/// The public key held inside a secret key.
pub open spec fn sk_public_key(sk: Seq<u8>) -> Seq<u8> {
    sk.subrange(SECRET_KEY_PUBLIC_AT as int, SECRET_KEY_HASH_AT as int)
}

/// The hash of the public key held inside a secret key.
pub open spec fn sk_public_hash(sk: Seq<u8>) -> Seq<u8> {
    sk.subrange(SECRET_KEY_HASH_AT as int, SECRET_KEY_FALLBACK_AT as int)
}

/// The fallback bytes at the end of a secret key.
pub open spec fn sk_fallback(sk: Seq<u8>) -> Seq<u8> {
    sk.subrange(SECRET_KEY_FALLBACK_AT as int, KYBER_SECRET_KEY_BYTES as int)
}

/// A secret key put together from its four parts.
pub open spec fn secret_key_of(pke_secret: Seq<u8>, pk: Seq<u8>, z: Seq<u8>) -> Seq<u8> {
    pke_secret + pk + hash_h_spec(pk) + z
}

/// The public key generated from the seed `d`.
pub open spec fn keypair_public(d: Seq<u8>) -> Seq<u8> {
    pke_keypair_of(d).0
}

/// The secret key generated from the seed `d` and the fallback bytes `z`.
pub open spec fn keypair_secret(d: Seq<u8>, z: Seq<u8>) -> Seq<u8> {
    secret_key_of(pke_keypair_of(d).1, pke_keypair_of(d).0, z)
}

/// A public key and a secret key of the right lengths, of which the second
/// holds the first and its hash.
pub open spec fn key_pair_matches(pk: Seq<u8>, sk: Seq<u8>) -> bool {
    &&& pk.len() == KYBER_PUBLIC_KEY_BYTES
    &&& sk.len() == KYBER_SECRET_KEY_BYTES
    &&& sk_public_key(sk) == pk
    &&& sk_public_hash(sk) == hash_h_spec(pk)
}

/// Some seed and some fallback bytes generate this key pair.
pub open spec fn is_generated_key_pair(pk: Seq<u8>, sk: Seq<u8>) -> bool {
    exists|d: Seq<u8>, z: Seq<u8>|
        d.len() == KYBER_SYM_BYTES && z.len() == KYBER_SYM_BYTES && pk == keypair_public(d) && sk
            == #[trigger] keypair_secret(d, z)
}

/// The 64 bytes from which encapsulation takes its pre-key, the first half,
/// and its coins, the second half: the long hash of the hashed randomness
/// followed by the hash of the public key.
pub open spec fn encaps_seed(pk: Seq<u8>, m: Seq<u8>) -> Seq<u8> {
    hash_g_spec(hash_h_spec(m) + hash_h_spec(pk))
}

/// The ciphertext that encapsulation to `pk` gives for the randomness `m`.
pub open spec fn encaps_ciphertext(pk: Seq<u8>, m: Seq<u8>) -> Seq<u8> {
    pke_encrypt_of(hash_h_spec(m), pk, encaps_seed(pk, m).subrange(32, 64))
}

/// The shared secret that encapsulation to `pk` gives for the randomness
/// `m`.
pub open spec fn encaps_secret(pk: Seq<u8>, m: Seq<u8>) -> Seq<u8> {
    kdf_spec(encaps_seed(pk, m).subrange(0, 32) + hash_h_spec(encaps_ciphertext(pk, m)))
}

/// Some randomness gives this ciphertext and this shared secret for `pk`.
pub open spec fn is_encapsulation(pk: Seq<u8>, ct: Seq<u8>, ss: Seq<u8>) -> bool {
    exists|m: Seq<u8>|
        m.len() == KYBER_SYM_BYTES && ct == #[trigger] encaps_ciphertext(pk, m) && ss
            == encaps_secret(pk, m)
}

/// The message that the secret key recovers from a ciphertext.
pub open spec fn decaps_message(ct: Seq<u8>, sk: Seq<u8>) -> Seq<u8> {
    pke_decrypt_of(ct, sk_pke_secret(sk))
}

/// The 64 bytes of pre-key and coins that decapsulation derives from the
/// recovered message.
pub open spec fn decaps_seed(ct: Seq<u8>, sk: Seq<u8>) -> Seq<u8> {
    hash_g_spec(decaps_message(ct, sk) + sk_public_hash(sk))
}

/// The ciphertext that decapsulation gets when it encrypts the recovered
/// message again.
pub open spec fn reencryption(ct: Seq<u8>, sk: Seq<u8>) -> Seq<u8> {
    pke_encrypt_of(decaps_message(ct, sk), sk_public_key(sk), decaps_seed(ct, sk).subrange(32, 64))
}

/// The shared secret that decapsulation gives: derived from the pre-key when
/// re-encryption reproduces the ciphertext, and from the fallback bytes when
/// it does not.
pub open spec fn decaps_secret(ct: Seq<u8>, sk: Seq<u8>) -> Seq<u8> {
    if reencryption(ct, sk) == ct {
        kdf_spec(decaps_seed(ct, sk).subrange(0, 32) + hash_h_spec(ct))
    } else {
        kdf_spec(sk_fallback(sk) + hash_h_spec(ct))
    }
}

/// The secret key recovers, from the ciphertext that encapsulation with `m`
/// gives, the message that was encrypted. The encryption scheme fails to do
/// so for a negligible share of its inputs only.
pub open spec fn decrypts_encapsulation(pk: Seq<u8>, sk: Seq<u8>, m: Seq<u8>) -> bool {
    decaps_message(encaps_ciphertext(pk, m), sk) == hash_h_spec(m)
}

/// Decapsulation returns the secret that encapsulation returned, for every
/// key pair that belongs together and all randomness on which the encryption
/// scheme decrypts what it encrypted.
pub proof fn lemma_decapsulation_returns_encapsulated_secret(
    pk: Seq<u8>,
    sk: Seq<u8>,
    m: Seq<u8>,
)
    requires
        key_pair_matches(pk, sk),
        decrypts_encapsulation(pk, sk, m),
    ensures
        decaps_secret(encaps_ciphertext(pk, m), sk) == encaps_secret(pk, m),
{
}

/// A ciphertext that re-encryption does not reproduce is answered with the
/// key derived from the fallback bytes and the hash of that ciphertext, and
/// with nothing that depends on the recovered message.
pub proof fn lemma_rejected_ciphertext_gets_fallback_secret(ct: Seq<u8>, sk: Seq<u8>)
    requires
        reencryption(ct, sk) != ct,
    ensures
        decaps_secret(ct, sk) == kdf_spec(sk_fallback(sk) + hash_h_spec(ct)),
{
}

/// A secret key put together from parts of the right lengths holds each of
/// them at its place.
proof fn lemma_secret_key_parts(pk: Seq<u8>, sk: Seq<u8>, z: Seq<u8>, pke_secret: Seq<u8>)
    requires
        pk.len() == KYBER_PUBLIC_KEY_BYTES,
        pke_secret.len() == KYBER_INDCPA_SECRET_KEY_BYTES,
        hash_h_spec(pk).len() == KYBER_SYM_BYTES,
        z.len() == KYBER_SYM_BYTES,
        sk == secret_key_of(pke_secret, pk, z),
    ensures
        key_pair_matches(pk, sk),
        sk_pke_secret(sk) == pke_secret,
        sk_fallback(sk) == z,
{
    assert(sk_public_key(sk) =~= pk);
    assert(sk_public_hash(sk) =~= hash_h_spec(pk));
}

/// Writes into `pk` and `sk` the key pair that the seed `d` and the fallback
/// bytes `z` generate.
pub fn generate_key_pair_from_seed(pk: &mut [u8], sk: &mut [u8], d: &[u8; 32], z: &[u8; 32])
    requires
        old(pk)@.len() == KYBER_PUBLIC_KEY_BYTES,
        old(sk)@.len() == KYBER_SECRET_KEY_BYTES,
    ensures
        final(pk)@ == keypair_public(d@),
        final(sk)@ == keypair_secret(d@, z@),
        key_pair_matches(final(pk)@, final(sk)@),
        sk_fallback(final(sk)@) == z@,
{
    let (pke_public, pke_secret) = indcpa_keypair(d);
    copy_into(pk, 0, &pke_public);
    copy_into(sk, 0, &pke_secret);
    copy_into(sk, SECRET_KEY_PUBLIC_AT, &pke_public);
    let mut digest = [0u8; 32];
    hash_h(&mut digest, &pke_public, KYBER_PUBLIC_KEY_BYTES);
    assert(pke_public@.subrange(0, KYBER_PUBLIC_KEY_BYTES as int) =~= pke_public@);
    copy_into(sk, SECRET_KEY_HASH_AT, &digest);
    copy_into(sk, SECRET_KEY_FALLBACK_AT, z);
    assert(sk@ =~= secret_key_of(pke_secret@, pke_public@, z@));
    proof {
        lemma_secret_key_parts(pk@, sk@, z@, pke_secret@);
    }
}

/// Generates a key pair into `pk` and `sk`: from the two halves of `seed`
/// where it is given, and else from 64 bytes drawn from `rng`, the seed of
/// the encryption scheme first and the fallback bytes second. When the
/// source of randomness fails, neither buffer is touched.
pub fn generate_key_pair<R: RngCore + CryptoRng>(
    pk: &mut [u8],
    sk: &mut [u8],
    rng: &mut R,
    seed: Option<(&[u8], &[u8])>,
) -> (res: Result<(), KyberLibError>)
    requires
        old(pk)@.len() == KYBER_PUBLIC_KEY_BYTES,
        old(sk)@.len() == KYBER_SECRET_KEY_BYTES,
        seed matches Some(s) ==> s.0@.len() == KYBER_SYM_BYTES && s.1@.len() == KYBER_SYM_BYTES,
    ensures
        final(pk)@.len() == KYBER_PUBLIC_KEY_BYTES,
        final(sk)@.len() == KYBER_SECRET_KEY_BYTES,
        seed matches Some(s) ==> res is Ok && final(pk)@ == keypair_public(s.0@) && final(sk)@
            == keypair_secret(s.0@, s.1@),
        res is Ok ==> is_generated_key_pair(final(pk)@, final(sk)@) && key_pair_matches(
            final(pk)@,
            final(sk)@,
        ),
        res matches Err(e) ==> e == KyberLibError::RandomBytesGeneration && seed is None
            && final(pk)@ == old(pk)@ && final(sk)@ == old(sk)@,
{
    match seed {
        Some(s) => {
            let d: [u8; 32] = read_array::<32>(s.0, 0);
            let z: [u8; 32] = read_array::<32>(s.1, 0);
            assert(d@ =~= s.0@);
            generate_key_pair_from_seed(pk, sk, &d, &z);
            Ok(())
        },
        None => {
            let d: [u8; 32] = match random_seed(rng) {
                Ok(bytes) => bytes,
                Err(e) => {
                    return Err(e);
                },
            };
            let z: [u8; 32] = match random_seed(rng) {
                Ok(bytes) => bytes,
                Err(e) => {
                    return Err(e);
                },
            };
            generate_key_pair_from_seed(pk, sk, &d, &z);
            Ok(())
        },
    }
}

/// Writes into `ct` and `ss` the ciphertext and the shared secret that
/// encapsulation to `pk` gives for the 32 bytes of randomness `m`.
pub fn encrypt_message_from_seed(ct: &mut [u8], ss: &mut [u8], pk: &[u8], m: &[u8; 32])
    requires
        old(ct)@.len() == KYBER_CIPHERTEXT_BYTES,
        old(ss)@.len() == KYBER_SHARED_SECRET_BYTES,
        pk@.len() == KYBER_PUBLIC_KEY_BYTES,
    ensures
        final(ct)@ == encaps_ciphertext(pk@, m@),
        final(ss)@ == encaps_secret(pk@, m@),
        final(ct)@.len() == KYBER_CIPHERTEXT_BYTES,
        final(ss)@.len() == KYBER_SHARED_SECRET_BYTES,
{
    let mut buf = [0u8; 64];
    let mut kr = [0u8; 64];
    let mut digest = [0u8; 32];

    // The randomness is hashed before use, so that the output of the source
    // of randomness itself never leaves this function.
    hash_h(&mut buf, m, KYBER_SYM_BYTES);
    assert(m@.subrange(0, KYBER_SYM_BYTES as int) =~= m@);

    // The hash of the public key ties the coins and the secret to that key.
    hash_h(&mut digest, pk, KYBER_PUBLIC_KEY_BYTES);
    assert(pk@.subrange(0, KYBER_PUBLIC_KEY_BYTES as int) =~= pk@);
    copy_into(&mut buf, 32, &digest);
    hash_g(&mut kr, &buf, 64);
    assert(buf@.subrange(0, 64) =~= buf@);

    let message: [u8; 32] = read_array::<32>(&buf, 0);
    assert(message@ =~= hash_h_spec(m@));
    let coins: [u8; 32] = read_array::<32>(&kr, 32);
    let public: [u8; KYBER_INDCPA_PUBLIC_KEY_BYTES] = read_array::<KYBER_INDCPA_PUBLIC_KEY_BYTES>(
        pk,
        0,
    );
    let c = indcpa_enc(&message, &public, &coins);
    copy_into(ct, 0, &c);

    // The coins give way to the hash of the ciphertext.
    hash_h(&mut digest, &c, KYBER_CIPHERTEXT_BYTES);
    assert(c@.subrange(0, KYBER_CIPHERTEXT_BYTES as int) =~= c@);
    copy_into(&mut kr, 32, &digest);
    assert(kr@.subrange(0, 64) =~= kr@);
    kdf(ss, &kr, 64);
}

/// Encapsulates to `pk`: writes the ciphertext into `ct` and the shared
/// secret into `ss`. The 32 bytes of randomness are `seed` where it is given
/// and are drawn from `rng` otherwise. When the source of randomness fails,
/// neither buffer is touched.
pub fn encrypt_message<R: RngCore + CryptoRng>(
    ct: &mut [u8],
    ss: &mut [u8],
    pk: &[u8],
    rng: &mut R,
    seed: Option<&[u8]>,
) -> (res: Result<(), KyberLibError>)
    requires
        old(ct)@.len() == KYBER_CIPHERTEXT_BYTES,
        old(ss)@.len() == KYBER_SHARED_SECRET_BYTES,
        pk@.len() == KYBER_PUBLIC_KEY_BYTES,
        seed matches Some(s) ==> s@.len() == KYBER_SYM_BYTES,
    ensures
        final(ct)@.len() == KYBER_CIPHERTEXT_BYTES,
        final(ss)@.len() == KYBER_SHARED_SECRET_BYTES,
        seed matches Some(s) ==> res is Ok && final(ct)@ == encaps_ciphertext(pk@, s@)
            && final(ss)@ == encaps_secret(pk@, s@),
        res is Ok ==> is_encapsulation(pk@, final(ct)@, final(ss)@),
        res matches Err(e) ==> e == KyberLibError::RandomBytesGeneration && seed is None
            && final(ct)@ == old(ct)@ && final(ss)@ == old(ss)@,
{
    let m: [u8; 32] = match seed {
        Some(s) => {
            let bytes: [u8; 32] = read_array::<32>(s, 0);
            assert(bytes@ =~= s@);
            bytes
        },
        None => match random_seed(rng) {
            Ok(bytes) => bytes,
            Err(e) => {
                return Err(e);
            },
        },
    };
    encrypt_message_from_seed(ct, ss, pk, &m);
    Ok(())
}

/// The secret that decapsulation answers with, once the pre-key has been
/// derived from the recovered message and that message has been encrypted
/// again: derived from the pre-key when `again` is the ciphertext, and from
/// the fallback bytes of the secret key when it is not.
pub open spec fn selected_secret(
    ct: Seq<u8>,
    sk: Seq<u8>,
    pre_key: Seq<u8>,
    again: Seq<u8>,
) -> Seq<u8> {
    if again == ct {
        kdf_spec(pre_key + hash_h_spec(ct))
    } else {
        kdf_spec(sk_fallback(sk) + hash_h_spec(ct))
    }
}

/// The last steps of decapsulation: compares the ciphertext `ct` with its
/// re-encryption `again`, puts the fallback bytes of `sk` in the place of
/// `pre_key` if the two differ, and derives the secret `ss`. The comparison
/// runs over all bytes and the choice is made by a copy over all bytes,
/// never by a branch.
pub fn select_shared_secret(
    ss: &mut [u8],
    ct: &[u8],
    sk: &[u8],
    pre_key: &[u8; 32],
    again: &[u8; KYBER_CIPHERTEXT_BYTES],
)
    requires
        old(ss)@.len() == KYBER_SHARED_SECRET_BYTES,
        ct@.len() == KYBER_CIPHERTEXT_BYTES,
        sk@.len() == KYBER_SECRET_KEY_BYTES,
    ensures
        final(ss)@ == selected_secret(ct@, sk@, pre_key@, again@),
        final(ss)@.len() == KYBER_SHARED_SECRET_BYTES,
{
    let mut kr = [0u8; 64];
    let mut digest = [0u8; 32];
    copy_into(&mut kr, 0, pre_key);
    let fail = verify(ct, again, KYBER_CIPHERTEXT_BYTES);
    assert(fail == 0 <==> again@ == ct@) by {
        if fail == 0 {
            assert(again@ =~= ct@);
        }
    }

    hash_h(&mut digest, ct, KYBER_CIPHERTEXT_BYTES);
    assert(ct@.subrange(0, KYBER_CIPHERTEXT_BYTES as int) =~= ct@);
    copy_into(&mut kr, 32, &digest);
    assert(kr@ =~= pre_key@ + hash_h_spec(ct@));

    cmov(&mut kr, slice_subrange(sk, SECRET_KEY_FALLBACK_AT, KYBER_SECRET_KEY_BYTES), 32, fail);
    assert(fail != 0 ==> kr@ =~= sk_fallback(sk@) + hash_h_spec(ct@));
    assert(kr@.subrange(0, 64) =~= kr@);
    kdf(ss, &kr, 64);
}

/// Decapsulates `ct` with `sk` into `ss`. Every ciphertext of the right
/// length gets an answer: the secret of the encapsulation when encrypting
/// the recovered message again gives `ct` back, and otherwise a secret
/// derived from the fallback bytes of `sk`.
pub fn decrypt_message(ss: &mut [u8], ct: &[u8], sk: &[u8])
    requires
        old(ss)@.len() == KYBER_SHARED_SECRET_BYTES,
        ct@.len() == KYBER_CIPHERTEXT_BYTES,
        sk@.len() == KYBER_SECRET_KEY_BYTES,
    ensures
        final(ss)@ == decaps_secret(ct@, sk@),
        final(ss)@.len() == KYBER_SHARED_SECRET_BYTES,
{
    let mut buf = [0u8; 64];
    let mut kr = [0u8; 64];
    let pke_secret: [u8; KYBER_INDCPA_SECRET_KEY_BYTES] = read_array::<
        KYBER_INDCPA_SECRET_KEY_BYTES,
    >(sk, 0);
    let public: [u8; KYBER_INDCPA_PUBLIC_KEY_BYTES] = read_array::<KYBER_INDCPA_PUBLIC_KEY_BYTES>(
        sk,
        SECRET_KEY_PUBLIC_AT,
    );
    let c: [u8; KYBER_CIPHERTEXT_BYTES] = read_array::<KYBER_CIPHERTEXT_BYTES>(ct, 0);
    assert(c@ =~= ct@);

    let message = indcpa_dec(&c, &pke_secret);
    copy_into(&mut buf, 0, &message);
    copy_into(&mut buf, 32, slice_subrange(sk, SECRET_KEY_HASH_AT, SECRET_KEY_FALLBACK_AT));
    assert(buf@ =~= decaps_message(ct@, sk@) + sk_public_hash(sk@));
    hash_g(&mut kr, &buf, 64);
    assert(buf@.subrange(0, 64) =~= buf@);

    let pre_key: [u8; 32] = read_array::<32>(&kr, 0);
    let coins: [u8; 32] = read_array::<32>(&kr, 32);
    let again = indcpa_enc(&message, &public, &coins);
    select_shared_secret(ss, ct, sk, &pre_key, &again);
}

/// Whether the secret key `sk` recovers, from the ciphertext that
/// encapsulation to `pk` with the randomness `m` gives, the message that was
/// encrypted. Where it does and the two keys belong together,
/// decapsulation returns the secret that encapsulation returned.
pub fn decrypts_encapsulated(pk: &[u8], sk: &[u8], m: &[u8; 32]) -> (ok: bool)
    requires
        pk@.len() == KYBER_PUBLIC_KEY_BYTES,
        sk@.len() == KYBER_SECRET_KEY_BYTES,
    ensures
        ok <==> decrypts_encapsulation(pk@, sk@, m@),
        ok && key_pair_matches(pk@, sk@) ==> decaps_secret(encaps_ciphertext(pk@, m@), sk@)
            == encaps_secret(pk@, m@),
{
    let mut ct = [0u8; KYBER_CIPHERTEXT_BYTES];
    let mut ss = [0u8; KYBER_SHARED_SECRET_BYTES];
    let mut sent = [0u8; 32];
    encrypt_message_from_seed(&mut ct, &mut ss, pk, m);
    let pke_secret: [u8; KYBER_INDCPA_SECRET_KEY_BYTES] = read_array::<
        KYBER_INDCPA_SECRET_KEY_BYTES,
    >(sk, 0);
    let recovered = indcpa_dec(&ct, &pke_secret);
    hash_h(&mut sent, m, KYBER_SYM_BYTES);
    assert(m@.subrange(0, KYBER_SYM_BYTES as int) =~= m@);
    let differ = verify(&recovered, &sent, KYBER_SYM_BYTES);
    proof {
        if differ == 0 {
            assert(recovered@ =~= sent@);
        }
        if differ == 0 && key_pair_matches(pk@, sk@) {
            lemma_decapsulation_returns_encapsulated_secret(pk@, sk@, m@);
        }
    }
    differ == 0
}

} // verus!
