//! Drawing bytes from a source of randomness that the caller supplies.
//!
//! Nothing is known of the bytes that such a source gives, so the contracts
//! here say which bytes may have changed and which error can come back, and
//! no more.

use vstd::prelude::*;
use rand_core::{CryptoRng, RngCore};
use crate::error::KyberLibError;

verus! {

/// The error of a source of randomness. Nothing is read from it.
#[verifier::external_type_specification]
#[verifier::external_body]
pub struct ExRandomError(rand_core::Error);

/// Calls `rand_core::RngCore::try_fill_bytes` on the first `len` bytes of
/// `x`. Believed of it: it touches no other byte. Nothing is claimed of the
/// bytes it writes, nor of when it fails. A source that panics where it
/// could return an error makes this call panic with it.
#[verifier::external_body]
fn try_fill<R: RngCore + CryptoRng>(x: &mut [u8], len: usize, rng: &mut R) -> (res: Result<
    (),
    rand_core::Error,
>)
    requires
        len <= old(x)@.len(),
    ensures
        final(x)@.len() == old(x)@.len(),
        final(x)@.subrange(len as int, old(x)@.len() as int) == old(x)@.subrange(
            len as int,
            old(x)@.len() as int,
        ),
{
    rng.try_fill_bytes(&mut x[..len])
}

/// Fills the first `len` bytes of `x` from `rng`, with one request to the
/// source. Fails with `InvalidLength`, and leaves `x` as it is, when `x` is
/// shorter than `len`; otherwise the result is what `fill_outcome` makes of
/// the source's answer.
pub fn randombytes<R: RngCore + CryptoRng>(x: &mut [u8], len: usize, rng: &mut R) -> (res: Result<
    (),
    KyberLibError,
>)
    ensures
        final(x)@.len() == old(x)@.len(),
        len > old(x)@.len() ==> res == Err::<(), KyberLibError>(KyberLibError::InvalidLength)
            && final(x)@ == old(x)@,
        len <= old(x)@.len() ==> (res is Ok || res == Err::<(), KyberLibError>(
            KyberLibError::RandomBytesGeneration,
        )),
        len <= old(x)@.len() ==> final(x)@.subrange(len as int, old(x)@.len() as int)
            == old(x)@.subrange(len as int, old(x)@.len() as int),
{
    if len > x.len() {
        return Err(KyberLibError::InvalidLength);
    }
    fill_outcome(try_fill(x, len, rng))
}

/// What a request to the source comes to: success when the source filled
/// the buffer, and `RandomBytesGeneration` when it failed, whatever its own
/// error says.
pub fn fill_outcome(filled: Result<(), rand_core::Error>) -> (res: Result<(), KyberLibError>)
    ensures
        filled is Ok ==> res is Ok,
        filled is Err ==> res == Err::<(), KyberLibError>(KyberLibError::RandomBytesGeneration),
{
    match filled {
        Ok(_) => Ok(()),
        Err(_) => Err(KyberLibError::RandomBytesGeneration),
    }
}

/// Thirty-two bytes from `rng`, or `RandomBytesGeneration` when the source
/// fails.
pub fn random_seed<R: RngCore + CryptoRng>(rng: &mut R) -> (res: Result<[u8; 32], KyberLibError>)
    ensures
        res matches Err(e) ==> e == KyberLibError::RandomBytesGeneration,
{
    let mut seed = [0u8; 32];
    let filled = randombytes(&mut seed, 32, rng);
    seed_outcome(filled, seed)
}

/// What drawing a seed comes to once the source has answered: the bytes of
/// the buffer when the source filled it, and `RandomBytesGeneration` when it
/// did not.
pub fn seed_outcome(filled: Result<(), KyberLibError>, bytes: [u8; 32]) -> (res: Result<
    [u8; 32],
    KyberLibError,
>)
    ensures
        filled is Ok ==> res == Ok::<[u8; 32], KyberLibError>(bytes),
        filled is Err ==> res == Err::<[u8; 32], KyberLibError>(
            KyberLibError::RandomBytesGeneration,
        ),
{
    match filled {
        Ok(_) => Ok(bytes),
        Err(_) => Err(KyberLibError::RandomBytesGeneration),
    }
}

} // verus!
