//! The symmetric primitives: the two hashes, the key-derivation function, and
//! the stream that serves as extendable-output function and as pseudorandom
//! function.
//!
//! The short hash and the key derivation are SHA-256, the long hash is
//! SHA-512, and the stream is AES-256 in counter mode with a 32-bit big-endian
//! block counter. The digests and the keystream come from other crates and
//! are known here by name only; sizes, offsets and the way nonces are padded
//! are this module's own and are proved.

use vstd::prelude::*;
use vstd::slice::slice_subrange;
use aes::cipher::{KeyIvInit, StreamCipher, StreamCipherSeek};
use sha2::{Digest, Sha256, Sha512};
use crate::buffer::{clear_prefix, copy_into, overwrite, read_array, zeros};
use crate::params::KYBER_SYM_BYTES;

verus! {

/// Number of bytes that one squeezed block holds.
pub const AES256CTR_BLOCKBYTES: usize = 64;

/// Number of bytes that one block of the extendable-output function holds.
pub const XOF_BLOCKBYTES: usize = 64;

/// Number of keystream bytes that one key and nonce can give: the block
/// counter has 32 bits, a cipher block has 16 bytes, and the cipher refuses
/// to use the last counter value.
pub const AES256CTR_STREAM_BYTES: u64 = 0xffff_ffff0;

/// The SHA-256 digest of `data`.
pub uninterp spec fn sha256_of(data: Seq<u8>) -> Seq<u8>;

/// The SHA-512 digest of `data`.
pub uninterp spec fn sha512_of(data: Seq<u8>) -> Seq<u8>;

/// The byte at place `pos` of the AES-256 counter-mode keystream under `key`
/// and the 16-byte initial counter block `iv`.
pub uninterp spec fn aes256ctr_byte(key: Seq<u8>, iv: Seq<u8>, pos: nat) -> u8;

/// The short hash.
pub open spec fn hash_h_spec(data: Seq<u8>) -> Seq<u8> {
    sha256_of(data)
}

/// The long hash, whose digest is read as two halves.
pub open spec fn hash_g_spec(data: Seq<u8>) -> Seq<u8> {
    sha512_of(data)
}

/// The key derivation that ends every computation of a shared secret.
pub open spec fn kdf_spec(data: Seq<u8>) -> Seq<u8> {
    sha256_of(data)
}

/// `len` bytes of keystream from place `pos` on.
pub open spec fn keystream(key: Seq<u8>, iv: Seq<u8>, pos: nat, len: nat) -> Seq<u8> {
    Seq::new(len, |i: int| aes256ctr_byte(key, iv, pos + i as nat))
}

/// The initial counter block of the extendable-output function: the two
/// domain bytes, then zeros.
pub open spec fn xof_iv(x: u8, y: u8) -> Seq<u8> {
    Seq::new(16, |i: int| if i == 0 { x } else if i == 1 { y } else { 0u8 })
}

/// The initial counter block of the pseudorandom function: the nonce, then
/// zeros.
pub open spec fn prf_iv(nonce: u8) -> Seq<u8> {
    Seq::new(16, |i: int| if i == 0 { nonce } else { 0u8 })
}

/// The bytes of `data` with the first `len` of them combined, by exclusive
/// or, with the keystream from place `pos` on.
pub open spec fn apply_keystream_spec(
    data: Seq<u8>,
    key: Seq<u8>,
    iv: Seq<u8>,
    pos: nat,
    len: nat,
) -> Seq<u8> {
    Seq::new(
        data.len(),
        |i: int| if i < len { data[i] ^ aes256ctr_byte(key, iv, pos + i as nat) } else { data[i] },
    )
}

/// Calls `sha2::Sha256::digest`. Believed of it: the 32 bytes it returns are
/// the SHA-256 digest of the input, the same for the same input.
#[verifier::external_body]
fn sha256_digest(input: &[u8]) -> (digest: [u8; 32])
    ensures
        digest@ == sha256_of(input@),
{
    let mut digest = [0u8; 32];
    digest.copy_from_slice(Sha256::digest(input).as_slice());
    digest
}

/// Calls `sha2::Sha512::digest`. Believed of it: the 64 bytes it returns are
/// the SHA-512 digest of the input, the same for the same input.
#[verifier::external_body]
fn sha512_digest(input: &[u8]) -> (digest: [u8; 64])
    ensures
        digest@ == sha512_of(input@),
{
    let mut digest = [0u8; 64];
    digest.copy_from_slice(Sha512::digest(input).as_slice());
    digest
}

/// Builds `ctr::Ctr32BE<aes::Aes256>` from `key` and `iv`, moves it to byte
/// `pos` with `seek` and calls `apply_keystream` on the first `len` bytes of
/// `data`. Believed of it: each of those bytes is combined by exclusive or
/// with the keystream byte of its place, counted from `pos`, and the bytes
/// behind them stay. The cipher panics when the block counter would pass its
/// last value, which the precondition excludes.
#[verifier::external_body]
fn aes256ctr_apply(key: &[u8; 32], iv: &[u8; 16], pos: u64, data: &mut [u8], len: usize)
    requires
        len <= old(data)@.len(),
        pos % 16 == 0,
        pos + len <= AES256CTR_STREAM_BYTES,
    ensures
        final(data)@.len() == old(data)@.len(),
        forall|i: int|
            0 <= i < len ==> #[trigger] final(data)@[i] == old(data)@[i] ^ aes256ctr_byte(
                key@,
                iv@,
                (pos + i) as nat,
            ),
        forall|i: int| len <= i < old(data)@.len() ==> #[trigger] final(data)@[i] == old(data)@[i],
{
    let mut cipher = ctr::Ctr32BE::<aes::Aes256>::new(key.into(), iv.into());
    cipher.seek(pos);
    cipher.apply_keystream(&mut data[..len]);
}

/// Writes the short hash of the first `inlen` bytes of `input` into the
/// first 32 bytes of `out`.
pub fn hash_h(out: &mut [u8], input: &[u8], inlen: usize)
    requires
        inlen <= input@.len(),
        old(out)@.len() >= 32,
    ensures
        final(out)@ == overwrite(old(out)@, 0, hash_h_spec(input@.subrange(0, inlen as int))),
        final(out)@.len() == old(out)@.len(),
        final(out)@.subrange(0, 32) == hash_h_spec(input@.subrange(0, inlen as int)),
{
    let digest = sha256_digest(slice_subrange(input, 0, inlen));
    copy_into(out, 0, &digest);
}

/// Writes the long hash of the first `inlen` bytes of `input` into the first
/// 64 bytes of `out`.
pub fn hash_g(out: &mut [u8], input: &[u8], inlen: usize)
    requires
        inlen <= input@.len(),
        old(out)@.len() >= 64,
    ensures
        final(out)@ == overwrite(old(out)@, 0, hash_g_spec(input@.subrange(0, inlen as int))),
        final(out)@.len() == old(out)@.len(),
        final(out)@.subrange(0, 64) == hash_g_spec(input@.subrange(0, inlen as int)),
{
    let digest = sha512_digest(slice_subrange(input, 0, inlen));
    copy_into(out, 0, &digest);
}

/// Writes the key derived from the first `inlen` bytes of `input` into the
/// first 32 bytes of `out`.
pub fn kdf(out: &mut [u8], input: &[u8], inlen: usize)
    requires
        inlen <= input@.len(),
        old(out)@.len() >= 32,
    ensures
        final(out)@ == overwrite(old(out)@, 0, kdf_spec(input@.subrange(0, inlen as int))),
        final(out)@.len() == old(out)@.len(),
        final(out)@.subrange(0, 32) == kdf_spec(input@.subrange(0, inlen as int)),
{
    let digest = sha256_digest(slice_subrange(input, 0, inlen));
    copy_into(out, 0, &digest);
}

/// Combines all of `out`, by exclusive or, with the keystream that `key` and
/// the one-byte `nonce` give from its start; over zeros this leaves the
/// keystream itself. The second argument is not read: the length is that of
/// `out`.
pub fn prf(out: &mut [u8], _outbytes: usize, key: &[u8], nonce: u8)
    requires
        key@.len() == 32,
        old(out)@.len() <= AES256CTR_STREAM_BYTES,
    ensures
        final(out)@ == apply_keystream_spec(
            old(out)@,
            key@,
            prf_iv(nonce),
            0,
            old(out)@.len(),
        ),
        (forall|i: int| 0 <= i < old(out)@.len() ==> old(out)@[i] == 0) ==> final(out)@
            == keystream(key@, prf_iv(nonce), 0, old(out)@.len()),
{
    let k: [u8; 32] = read_array::<32>(key, 0);
    let mut iv = [0u8; 16];
    iv[0] = nonce;
    assert(iv@ =~= prf_iv(nonce));
    assert(k@ =~= key@);
    let n: usize = out.len();
    aes256ctr_apply(&k, &iv, 0, out, n);
    proof {
        if forall|i: int| 0 <= i < old(out)@.len() ==> old(out)@[i] == 0 {
            assert forall|i: int| 0 <= i < out@.len() implies out@[i] == keystream(
                key@,
                prf_iv(nonce),
                0,
                old(out)@.len(),
            )[i] by {
                lemma_xor_with_zero(aes256ctr_byte(key@, prf_iv(nonce), i as nat));
            }
        }
    }
}

/// The stream is one stream: the bytes squeezed in two steps are the bytes
/// squeezed in one.
pub proof fn lemma_keystream_splits(key: Seq<u8>, iv: Seq<u8>, pos: nat, first: nat, second: nat)
    ensures
        keystream(key, iv, pos, first + second) == keystream(key, iv, pos, first) + keystream(
            key,
            iv,
            pos + first,
            second,
        ),
{
}

proof fn lemma_xor_with_zero(k: u8)
    by (bit_vector)
    ensures
        0u8 ^ k == k,
{
}

/// The state of the extendable-output function: the key and the two domain
/// bytes that were absorbed, and how many bytes have been squeezed since.
#[derive(Clone, Copy, Debug)]
pub struct Aes256CtrCtx {
    key: [u8; 32],
    iv: [u8; 16],
    pos: u64,
}

/// The state of the extendable-output function.
pub type XofState = Aes256CtrCtx;

impl Aes256CtrCtx {
    /// The 32 bytes that were absorbed as the key.
    pub closed spec fn key(&self) -> Seq<u8> {
        self.key@
    }

    /// The initial counter block made of the two domain bytes.
    pub closed spec fn iv(&self) -> Seq<u8> {
        self.iv@
    }

    /// The number of bytes squeezed since the last absorb.
    pub closed spec fn position(&self) -> nat {
        self.pos as nat
    }

    /// Whole blocks only have been squeezed, and no more than the stream has.
    pub closed spec fn wf(&self) -> bool {
        &&& self.pos % 64 == 0
        &&& self.pos <= AES256CTR_STREAM_BYTES
    }

    /// A state in which nothing has been absorbed: the key and the domain
    /// bytes are zero.
    pub fn new() -> (state: Self)
        ensures
            state.wf(),
            state.position() == 0,
            state.key() == zeros(32),
            state.iv() == xof_iv(0, 0),
    {
        let state = Aes256CtrCtx { key: [0u8; 32], iv: [0u8; 16], pos: 0 };
        state
    }
}

/// Starts a fresh stream: takes the first 32 bytes of `input` as the key and
/// `x` and `y` as the domain bytes, and forgets what was squeezed before.
pub fn xof_absorb(state: &mut XofState, input: &[u8], x: u8, y: u8)
    requires
        input@.len() >= KYBER_SYM_BYTES,
    ensures
        final(state).wf(),
        final(state).key() == input@.subrange(0, KYBER_SYM_BYTES as int),
        final(state).iv() == xof_iv(x, y),
        final(state).position() == 0,
{
    let key: [u8; 32] = read_array::<32>(input, 0);
    let mut iv = [0u8; 16];
    iv[0] = x;
    iv[1] = y;
    *state = Aes256CtrCtx { key, iv, pos: 0 };
}

/// Writes the next `outblocks` blocks of the stream over the start of `out`
/// and moves the state on by as many.
pub fn xof_squeezeblocks(out: &mut [u8], outblocks: usize, state: &mut XofState)
    requires
        old(state).wf(),
        outblocks * XOF_BLOCKBYTES <= old(out)@.len(),
        old(state).position() + outblocks * XOF_BLOCKBYTES <= AES256CTR_STREAM_BYTES,
    ensures
        final(out)@ == overwrite(
            old(out)@,
            0,
            keystream(
                old(state).key(),
                old(state).iv(),
                old(state).position(),
                (outblocks * XOF_BLOCKBYTES) as nat,
            ),
        ),
        final(state).wf(),
        final(state).key() == old(state).key(),
        final(state).iv() == old(state).iv(),
        final(state).position() == old(state).position() + outblocks * XOF_BLOCKBYTES,
{
    let total: usize = out.len();
    let len: usize = outblocks * XOF_BLOCKBYTES;
    clear_prefix(out, len);
    aes256ctr_apply(&state.key, &state.iv, state.pos, out, len);
    proof {
        let ks = keystream(state.key@, state.iv@, state.pos as nat, len as nat);
        assert forall|i: int| 0 <= i < out@.len() implies out@[i] == overwrite(
            old(out)@,
            0,
            ks,
        )[i] by {
            if i < len {
                lemma_xor_with_zero(
                    aes256ctr_byte(state.key@, state.iv@, state.pos as nat + i as nat),
                );
            }
        }
    }
    state.pos = state.pos + len as u64;
}

} // verus!
