//! A key-encapsulation mechanism secure against chosen-ciphertext attacks,
//! built from a lattice public-key encryption scheme by re-encryption with
//! implicit rejection, and two authenticated key exchanges built on it.
//!
//! The encryption scheme is written here as arithmetic modulo 3329 and is
//! stated coefficient by coefficient. The hash functions and the block
//! cipher are taken from other crates; what this crate does with their
//! results is stated in the contracts of its functions and proved.
//!
//! The crate is built for one parameter set, rank three, and its key
//! encapsulation for one family of symmetric primitives, SHA-2 with AES-256
//! in counter mode. The primitives of the other family, SHA-3 and SHAKE, are
//! in `fips202`, written out and proved there.
//!
//! Deriving a key pair from a seed is `api::derive`; it is reached by that
//! path.

pub mod api;
pub mod buffer;
pub mod error;
pub mod field;
pub mod fips202;
pub mod indcpa;
pub mod kem;
pub mod kex;
pub mod loggers;
pub mod matrix;
pub mod ntt;
pub mod params;
pub mod poly;
pub mod rng;
pub mod symmetric;
pub mod verify;

pub use api::{decapsulate, encapsulate, keypair, keypairfrom, public, Keypair};
pub use error::KyberLibError;
pub use kex::{
    Ake, AkeSendInit, AkeSendResponse, Decapsulated, Encapsulated, PublicKey, SecretKey,
    SharedSecret, Uake, UakeSendInit, UakeSendResponse, AKE_INIT_BYTES, AKE_RESPONSE_BYTES,
    UAKE_INIT_BYTES, UAKE_RESPONSE_BYTES,
};
pub use params::{
    KYBER_90S, KYBER_CIPHERTEXT_BYTES, KYBER_PUBLIC_KEY_BYTES, KYBER_SECRET_KEY_BYTES,
    KYBER_SECURITY_PARAMETER, KYBER_SHARED_SECRET_BYTES, KYBER_SYM_BYTES,
};
pub use rand_core::{CryptoRng, RngCore};
