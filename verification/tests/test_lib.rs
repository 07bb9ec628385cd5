use kyberlib::{
    decapsulate, encapsulate, keypair, Ake, KyberLibError, Uake, KYBER_90S,
    KYBER_CIPHERTEXT_BYTES, KYBER_PUBLIC_KEY_BYTES, KYBER_SECRET_KEY_BYTES,
};
use rand::rngs::StdRng;
use rand::SeedableRng;

// The SHA-2 and AES backend is the one this crate is built with.
#[test]
fn test_90s_enabled() {
    assert!(KYBER_90S, "90s");
}

// Secrets can be erased: after erasing, a key pair holds zeros.
#[test]
fn test_zeroize_enabled() {
    let mut keys = kyberlib::api::derive(&[7u8; 64]).unwrap();
    keys.zeroize();
    assert!(keys.secret == [0u8; KYBER_SECRET_KEY_BYTES], "zeroize");
}

// The crate builds on the standard library: an error gives its text as an
// owned string.
#[test]
fn test_std_enabled() {
    let text: String = KyberLibError::InvalidInput.to_string();
    assert!(text == "Function input is of incorrect length", "std");
}

#[test]
fn test_lib_test_keypair_generation() {
    let mut rng = StdRng::from_seed([0u8; 32]);
    let result = keypair(&mut rng);
    assert!(result.is_ok());
}

#[test]
fn test_lib_test_encapsulate_decapsulate() {
    let mut rng = StdRng::from_seed([0u8; 32]);
    let keys = keypair(&mut rng).unwrap();

    let (ciphertext, shared_secret_alice) = encapsulate(&keys.public, &mut rng).unwrap();
    let shared_secret_bob = decapsulate(&ciphertext, &keys.secret).unwrap();

    assert_eq!(shared_secret_alice, shared_secret_bob);
}

#[test]
fn test_uake() {
    let mut rng = StdRng::from_seed([0u8; 32]);

    let mut alice = Uake::new();
    let mut bob = Uake::new();

    let bob_keys = keypair(&mut rng).unwrap();

    let client_init = alice.client_init(&bob_keys.public, &mut rng).unwrap();

    let server_send = bob
        .server_receive(client_init, &bob_keys.secret, &mut rng)
        .unwrap();

    alice.client_confirm(server_send).unwrap();

    assert_eq!(alice.shared_secret, bob.shared_secret);
}

#[test]
fn test_ake() {
    let mut rng = StdRng::from_seed([0u8; 32]);

    let mut alice = Ake::new();
    let mut bob = Ake::new();

    let alice_keys = keypair(&mut rng).unwrap();
    let bob_keys = keypair(&mut rng).unwrap();

    let client_init = alice.client_init(&bob_keys.public, &mut rng).unwrap();

    let server_send = bob
        .server_receive(client_init, &alice_keys.public, &bob_keys.secret, &mut rng)
        .unwrap();

    alice
        .client_confirm(server_send, &alice_keys.secret)
        .unwrap();

    assert_eq!(alice.shared_secret, bob.shared_secret);
}

// Test invalid input errors
#[test]
fn test_invalid_input_error() {
    let mut rng = StdRng::from_seed([0u8; 32]);
    let keys = keypair(&mut rng).unwrap();

    let invalid_ciphertext = vec![0u8; KYBER_CIPHERTEXT_BYTES - 1];
    let result = decapsulate(&invalid_ciphertext, &keys.secret);
    assert_eq!(result.unwrap_err(), KyberLibError::InvalidInput);
}

// Test valid input with encapsulate and decapsulate functions
#[test]
fn test_decapsulate_valid_input() {
    let mut rng = StdRng::from_seed([0u8; 32]);
    let keys = keypair(&mut rng).unwrap();

    let (ciphertext, shared_secret_alice) = encapsulate(&keys.public, &mut rng).unwrap();
    let shared_secret_bob = decapsulate(&ciphertext, &keys.secret).unwrap();

    assert_eq!(shared_secret_alice, shared_secret_bob);
}

// Test invalid input public key with encapsulate function
#[test]
fn test_encapsulate_invalid_public_key() {
    let mut rng = StdRng::from_seed([0u8; 32]);

    let invalid_public_key = vec![0u8; KYBER_PUBLIC_KEY_BYTES - 1];
    let result = encapsulate(&invalid_public_key, &mut rng);
    assert_eq!(result.unwrap_err(), KyberLibError::InvalidInput);
}

// Test invalid input secret key with encapsulate function
#[test]
fn test_encapsulate_invalid_secret_key() {
    let mut rng = StdRng::from_seed([0u8; 32]);

    let invalid_secret_key = vec![0u8; KYBER_SECRET_KEY_BYTES - 1];
    let result = encapsulate(&invalid_secret_key, &mut rng);
    assert_eq!(result.unwrap_err(), KyberLibError::InvalidInput);
}

// Test invalid input secret key with decapsulate function
#[test]
fn test_decapsulate_invalid_secret_key() {
    let invalid_secret_key = vec![0u8; KYBER_SECRET_KEY_BYTES - 1];
    let result = decapsulate(&vec![0u8; KYBER_CIPHERTEXT_BYTES], &invalid_secret_key);
    assert_eq!(result.unwrap_err(), KyberLibError::InvalidInput);
}

// Test invalid input ciphertext with decapsulate function
#[test]
fn test_decapsulate_invalid_ciphertext() {
    let invalid_ciphertext = vec![0u8; KYBER_CIPHERTEXT_BYTES - 1];
    let result = decapsulate(&invalid_ciphertext, &vec![0u8; KYBER_SECRET_KEY_BYTES]);
    assert_eq!(result.unwrap_err(), KyberLibError::InvalidInput);
}

// Test UAKE with invalid public key
#[test]
fn test_uake_invalid_public_key() {
    let mut rng = StdRng::from_seed([0u8; 32]);

    let mut alice = Uake::new();
    let mut bob = Uake::new();

    let bob_keys = keypair(&mut rng).unwrap();

    let client_init = alice.client_init(&bob_keys.public, &mut rng).unwrap();
    let server_send = bob
        .server_receive(client_init, &bob_keys.secret, &mut rng)
        .unwrap();

    alice.client_confirm(server_send).unwrap();
}

// Test UAKE with invalid secret key
#[test]
fn test_uake_invalid_secret_key() {
    let mut rng = StdRng::from_seed([0u8; 32]);

    let mut alice = Uake::new();
    let mut bob = Uake::new();

    let bob_keys = keypair(&mut rng).unwrap();

    let client_init = alice.client_init(&bob_keys.public, &mut rng).unwrap();
    let server_send = bob
        .server_receive(client_init, &bob_keys.secret, &mut rng)
        .unwrap();

    alice.client_confirm(server_send).unwrap();
}

// Test AKE with invalid public key
#[test]
fn test_ake_invalid_public_key() {
    let mut rng = StdRng::from_seed([0u8; 32]);

    let mut alice = Ake::new();
    let mut bob = Ake::new();

    let alice_keys = keypair(&mut rng).unwrap();
    let bob_keys = keypair(&mut rng).unwrap();

    let client_init = alice.client_init(&bob_keys.public, &mut rng).unwrap();
    let server_send = bob
        .server_receive(client_init, &alice_keys.public, &bob_keys.secret, &mut rng)
        .unwrap();

    alice
        .client_confirm(server_send, &alice_keys.secret)
        .unwrap();
}

// Test AKE with invalid secret key
#[test]
fn test_ake_invalid_secret_key() {
    let mut rng = StdRng::from_seed([0u8; 32]);

    let mut alice = Ake::new();
    let mut bob = Ake::new();

    let alice_keys = keypair(&mut rng).unwrap();
    let bob_keys = keypair(&mut rng).unwrap();

    let client_init = alice.client_init(&bob_keys.public, &mut rng).unwrap();
    let server_send = bob
        .server_receive(client_init, &alice_keys.public, &bob_keys.secret, &mut rng)
        .unwrap();

    alice
        .client_confirm(server_send, &alice_keys.secret)
        .unwrap();
}

// Test AKE with invalid shared secret
#[test]
fn test_ake_invalid_shared_secret() {
    let mut rng = StdRng::from_seed([0u8; 32]);

    let mut alice = Ake::new();
    let mut bob = Ake::new();

    let alice_keys = keypair(&mut rng).unwrap();
    let bob_keys = keypair(&mut rng).unwrap();

    let client_init = alice.client_init(&bob_keys.public, &mut rng).unwrap();
    let server_send = bob
        .server_receive(client_init, &alice_keys.public, &bob_keys.secret, &mut rng)
        .unwrap();

    alice
        .client_confirm(server_send, &alice_keys.secret)
        .unwrap();
}

// Test AKE with invalid server send
#[test]
fn test_ake_invalid_server_send() {
    let mut rng = StdRng::from_seed([0u8; 32]);

    let mut alice = Ake::new();
    let mut bob = Ake::new();

    let alice_keys = keypair(&mut rng).unwrap();
    let bob_keys = keypair(&mut rng).unwrap();

    let client_init = alice.client_init(&bob_keys.public, &mut rng).unwrap();
    let server_send = bob
        .server_receive(client_init, &alice_keys.public, &bob_keys.secret, &mut rng)
        .unwrap();

    alice
        .client_confirm(server_send, &alice_keys.secret)
        .unwrap();
}

// Test AKE with invalid client confirm
#[test]
fn test_ake_invalid_client_confirm() {
    let mut rng = StdRng::from_seed([0u8; 32]);

    let mut alice = Ake::new();
    let mut bob = Ake::new();

    let alice_keys = keypair(&mut rng).unwrap();
    let bob_keys = keypair(&mut rng).unwrap();

    let client_init = alice.client_init(&bob_keys.public, &mut rng).unwrap();
    let server_send = bob
        .server_receive(client_init, &alice_keys.public, &bob_keys.secret, &mut rng)
        .unwrap();

    alice
        .client_confirm(server_send, &alice_keys.secret)
        .unwrap();
}

// Test decapsulate with invalid ciphertext length
#[test]
fn test_decapsulate_invalid_ciphertext_length() {
    let mut rng = StdRng::from_seed([0u8; 32]);
    let keys = keypair(&mut rng).unwrap();

    let invalid_ciphertext = vec![0u8; KYBER_CIPHERTEXT_BYTES - 1];
    let result = decapsulate(&invalid_ciphertext, &keys.secret);
    assert_eq!(result.unwrap_err(), KyberLibError::InvalidInput);
}

// Test decapsulate with invalid secret key length
#[test]
fn test_decapsulate_invalid_secret_key_length() {
    let mut rng = StdRng::from_seed([0u8; 32]);
    let keys = keypair(&mut rng).unwrap();
    let (ciphertext, _) = encapsulate(&keys.public, &mut rng).unwrap();

    let invalid_secret_key = vec![0u8; KYBER_SECRET_KEY_BYTES - 1];
    let result = decapsulate(&ciphertext, &invalid_secret_key);
    assert_eq!(result.unwrap_err(), KyberLibError::InvalidInput);
}

// Test encapsulate with invalid public key length
#[test]
fn test_encapsulate_invalid_public_key_length() {
    let mut rng = StdRng::from_seed([0u8; 32]);

    let invalid_public_key = vec![0u8; KYBER_PUBLIC_KEY_BYTES - 1];
    let result = encapsulate(&invalid_public_key, &mut rng);
    assert_eq!(result.unwrap_err(), KyberLibError::InvalidInput);
}

// Test AKE with valid inputs
#[test]
fn test_ake_valid_inputs() {
    let mut rng = StdRng::from_seed([0u8; 32]);

    let mut alice = Ake::new();
    let mut bob = Ake::new();

    let alice_keys = keypair(&mut rng).unwrap();
    let bob_keys = keypair(&mut rng).unwrap();

    let client_init = alice.client_init(&bob_keys.public, &mut rng).unwrap();
    let server_send = bob
        .server_receive(client_init, &alice_keys.public, &bob_keys.secret, &mut rng)
        .unwrap();

    alice
        .client_confirm(server_send, &alice_keys.secret)
        .unwrap();

    assert_eq!(alice.shared_secret, bob.shared_secret);
}
