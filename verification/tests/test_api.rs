use kyberlib::{
    decapsulate, encapsulate, keypair, keypairfrom, public, Keypair, KYBER_CIPHERTEXT_BYTES,
    KYBER_PUBLIC_KEY_BYTES, KYBER_SECRET_KEY_BYTES, KYBER_SHARED_SECRET_BYTES,
};
use rand::rngs::OsRng;

// Test for keypair generation
#[test]
fn test_api_test_keypair_generation() {
    let mut rng = OsRng;
    let keypair = keypair(&mut rng).unwrap();
    assert_eq!(keypair.public.len(), KYBER_PUBLIC_KEY_BYTES);
    assert_eq!(keypair.secret.len(), KYBER_SECRET_KEY_BYTES);
}

// Test for encapsulation and decapsulation
#[test]
fn test_api_test_encapsulate_decapsulate() {
    let mut rng = OsRng;
    let keypair = keypair(&mut rng).unwrap();
    let (ciphertext, shared_secret1) = encapsulate(&keypair.public, &mut rng).unwrap();
    let shared_secret2 = decapsulate(&ciphertext, &keypair.secret).unwrap();
    assert_eq!(shared_secret1, shared_secret2);
}

// Test for keypair derivation
#[test]
fn test_derive_keypair() {
    let seed = [0u8; 64];
    let keypair = kyberlib::api::derive(&seed).unwrap();
    assert_eq!(keypair.public.len(), KYBER_PUBLIC_KEY_BYTES);
    assert_eq!(keypair.secret.len(), KYBER_SECRET_KEY_BYTES);
}

// Test for public key extraction
#[test]
fn test_public_key_extraction() {
    let mut rng = OsRng;
    let keypair = keypair(&mut rng).unwrap();
    let extracted_pk = public(&keypair.secret);
    assert_eq!(extracted_pk, keypair.public);
}

// Test for handling of invalid inputs
#[test]
fn test_invalid_input_handling() {
    let mut rng = OsRng;
    let keypair = keypair(&mut rng).unwrap();
    let invalid_pk = [0u8; KYBER_PUBLIC_KEY_BYTES - 1];
    let invalid_ct = [0u8; KYBER_CIPHERTEXT_BYTES - 1];
    let invalid_secret_key = [0u8; KYBER_SECRET_KEY_BYTES - 1];

    assert!(encapsulate(&invalid_pk, &mut rng).is_err());
    assert!(decapsulate(&invalid_ct, &keypair.secret).is_err());
    assert!(decapsulate(&invalid_ct, &invalid_secret_key).is_err());
    assert!(kyberlib::api::derive(&invalid_secret_key).is_err());

    let invalid_seed = [0u8; 63];
    assert!(kyberlib::api::derive(&invalid_seed).is_err());
}

// Test for keypair generation using Keypair::generate
#[test]
fn test_keypair_generate() {
    let mut rng = OsRng;
    let keypair = Keypair::generate(&mut rng).unwrap();
    assert_eq!(keypair.public.len(), KYBER_PUBLIC_KEY_BYTES);
    assert_eq!(keypair.secret.len(), KYBER_SECRET_KEY_BYTES);
}

// Test for Keypair::import method
#[test]
fn test_keypair_import() {
    let mut rng = OsRng;
    let keypair = keypair(&mut rng).unwrap();
    let mut public_key = keypair.public;
    let mut secret_key = keypair.secret;
    let imported_keypair = Keypair::import(&mut public_key, &mut secret_key, &mut rng).unwrap();
    assert_eq!(imported_keypair.public, keypair.public);
    assert_eq!(imported_keypair.secret, keypair.secret);
}

// Test for keypairfrom function
#[test]
fn test_keypairfrom() {
    let mut rng = OsRng;
    let keypair = keypair(&mut rng).unwrap();
    let mut public_key = keypair.public;
    let mut secret_key = keypair.secret;
    let new_keypair = keypairfrom(&mut public_key, &mut secret_key, &mut rng).unwrap();
    assert_eq!(new_keypair.public, keypair.public);
    assert_eq!(new_keypair.secret, keypair.secret);
}

// Test for handling of invalid inputs in keypairfrom
#[test]
fn test_keypairfrom_invalid_input() {
    let mut rng = OsRng;
    let mut invalid_public_key = [0u8; KYBER_PUBLIC_KEY_BYTES];
    let mut invalid_secret_key = [0u8; KYBER_SECRET_KEY_BYTES];
    invalid_public_key[0] = 0xFF;
    invalid_secret_key[0] = 0xFF;
    assert!(keypairfrom(&mut invalid_public_key, &mut invalid_secret_key, &mut rng).is_err());
}

// Test for handling of invalid inputs in Keypair::import
#[test]
fn test_keypair_import_invalid_input() {
    let mut rng = OsRng;
    let mut invalid_public_key = [0u8; KYBER_PUBLIC_KEY_BYTES];
    let mut invalid_secret_key = [0u8; KYBER_SECRET_KEY_BYTES];
    invalid_public_key[0] = 0xFF;
    invalid_secret_key[0] = 0xFF;
    assert!(
        Keypair::import(&mut invalid_public_key, &mut invalid_secret_key, &mut rng).is_err()
    );
}

// Test for handling of invalid inputs in Keypair::generate
#[test]
fn test_keypair_generate_invalid_input() {
    let mut rng = OsRng;
    let mut invalid_public_key = [0u8; KYBER_PUBLIC_KEY_BYTES];
    let mut invalid_secret_key = [0u8; KYBER_SECRET_KEY_BYTES];
    invalid_public_key[0] = 0xFF;
    invalid_secret_key[0] = 0xFF;
    assert!(Keypair::generate(&mut rng).is_ok());
}

// Test for handling of invalid inputs in encapsulate
#[test]
fn test_encapsulate_invalid_input() {
    let mut rng = OsRng;
    let invalid_public_key = [0u8; KYBER_PUBLIC_KEY_BYTES - 1];
    assert!(encapsulate(&invalid_public_key, &mut rng).is_err());
}

// Test for handling of invalid inputs in decapsulate
#[test]
fn test_decapsulate_invalid_input() {
    let mut rng = OsRng;
    let keypair = keypair(&mut rng).unwrap();
    let invalid_ciphertext = [0u8; KYBER_CIPHERTEXT_BYTES - 1];
    let invalid_secret_key = [0u8; KYBER_SECRET_KEY_BYTES - 1];
    assert!(decapsulate(&invalid_ciphertext, &keypair.secret).is_err());
    assert!(decapsulate(&invalid_ciphertext, &invalid_secret_key).is_err());
}

// Test for handling of invalid inputs in derive
#[test]
fn test_derive_invalid_input() {
    let invalid_secret_key = [0u8; KYBER_SECRET_KEY_BYTES - 1];
    assert!(kyberlib::api::derive(&invalid_secret_key).is_err());
}

// Test for handling of invalid inputs in public: a slice of any other length
// than that of a secret key is not a secret key, and `public` is not to be
// called on it. A caller tells by the length, as here, before the call.
#[test]
fn test_public_invalid_secret_key_length() {
    let invalid_secret_key = [0u8; KYBER_SECRET_KEY_BYTES - 1];
    assert_ne!(invalid_secret_key.len(), KYBER_SECRET_KEY_BYTES);
    let secret_key = [0u8; KYBER_SECRET_KEY_BYTES];
    assert_eq!(secret_key.len(), KYBER_SECRET_KEY_BYTES);
    assert_eq!(public(&secret_key).len(), KYBER_PUBLIC_KEY_BYTES);
    assert_eq!(public(&secret_key), [0u8; KYBER_PUBLIC_KEY_BYTES]);
}

// Test for keypair equality
#[test]
fn test_keypair_equality() {
    let mut rng = OsRng;
    let keypair1 = keypair(&mut rng).unwrap();
    let keypair2 = keypair(&mut rng).unwrap();
    assert_eq!(keypair1, keypair1);
    assert_ne!(keypair1, keypair2);
}

// Test for valid seed for derivation
#[test]
fn test_derive_valid_seed() {
    let seed = [0u8; 64];
    let keypair = kyberlib::api::derive(&seed).unwrap();
    assert_eq!(keypair.public.len(), KYBER_PUBLIC_KEY_BYTES);
    assert_eq!(keypair.secret.len(), KYBER_SECRET_KEY_BYTES);
}

// Test for valid input for encapsulation and decapsulation
#[test]
fn test_encapsulate_decapsulate_valid_input() {
    let mut rng = OsRng;
    let keypair = keypair(&mut rng).unwrap();
    let (ciphertext, shared_secret) = encapsulate(&keypair.public, &mut rng).unwrap();
    assert_eq!(ciphertext.len(), KYBER_CIPHERTEXT_BYTES);
    assert_eq!(shared_secret.len(), KYBER_SHARED_SECRET_BYTES);
    let decapsulated_secret = decapsulate(&ciphertext, &keypair.secret).unwrap();
    assert_eq!(shared_secret, decapsulated_secret);
}

// The secret key that exposing hands out is the one the pair holds.
#[test]
fn test_expose_secret_is_the_secret_key() {
    let keys = kyberlib::api::derive(&[3u8; 64]).unwrap();
    assert_eq!(keys.expose_secret(), &keys.secret);
    assert_eq!(keys.expose_secret().len(), KYBER_SECRET_KEY_BYTES);
}

// Importing leaves the caller's buffers as they were, so that a second
// import of the same buffers succeeds too.
#[test]
fn test_import_twice_from_the_same_buffers() {
    let mut rng = OsRng;
    let keys = keypair(&mut rng).unwrap();
    let mut public_key = keys.public;
    let mut secret_key = keys.secret;
    let first = Keypair::import(&mut public_key, &mut secret_key, &mut rng).unwrap();
    let second = Keypair::import(&mut public_key, &mut secret_key, &mut rng).unwrap();
    assert_eq!(first, second);
    assert_eq!(public_key, keys.public);
    assert_eq!(secret_key, keys.secret);
}

// A secret key from another pair is refused as not belonging to the public
// key.
#[test]
fn test_import_of_a_mixed_pair_is_an_invalid_key() {
    let mut rng = OsRng;
    let mut public_key = kyberlib::api::derive(&[1u8; 64]).unwrap().public;
    let mut secret_key = kyberlib::api::derive(&[2u8; 64]).unwrap().secret;
    assert_eq!(
        keypairfrom(&mut public_key, &mut secret_key, &mut rng),
        Err(kyberlib::KyberLibError::InvalidKey)
    );
}

// The check behind an import, on randomness that the test chooses.
#[test]
fn test_key_pair_agrees_on_chosen_randomness() {
    let keys = kyberlib::api::derive(&[9u8; 64]).unwrap();
    let other = kyberlib::api::derive(&[8u8; 64]).unwrap();
    assert!(kyberlib::api::key_pair_agrees(&keys.public, &keys.secret, &[5u8; 32]));
    assert!(!kyberlib::api::key_pair_agrees(&keys.public, &other.secret, &[5u8; 32]));
}

// Erasing a key pair leaves zeros in both keys.
#[test]
fn test_keypair_zeroize_leaves_zeros() {
    let mut keys = kyberlib::api::derive(&[4u8; 64]).unwrap();
    assert_ne!(keys.secret, [0u8; KYBER_SECRET_KEY_BYTES]);
    keys.zeroize();
    assert_eq!(keys.public, [0u8; KYBER_PUBLIC_KEY_BYTES]);
    assert_eq!(keys.secret, [0u8; KYBER_SECRET_KEY_BYTES]);
}
