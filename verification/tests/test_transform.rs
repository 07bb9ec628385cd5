use kyberlib::kem::{
    decrypt_message, decrypts_encapsulated, encrypt_message, encrypt_message_from_seed,
    generate_key_pair, generate_key_pair_from_seed, select_shared_secret,
};
use kyberlib::kex::{
    ake_shared_a, ake_shared_b_from_seed, uake_init_a_from_seed, uake_shared_a,
    uake_shared_b_from_seed,
};
use kyberlib::symmetric::{hash_g, hash_h, kdf};
use kyberlib::{
    decapsulate, encapsulate, keypair, public, KYBER_CIPHERTEXT_BYTES, KYBER_PUBLIC_KEY_BYTES,
    KYBER_SECRET_KEY_BYTES,
};
use rand::rngs::StdRng;
use rand::SeedableRng;

fn seed_of(byte: u8) -> [u8; 64] {
    let mut seed = [byte; 64];
    for (i, b) in seed.iter_mut().enumerate() {
        *b = b.wrapping_add(i as u8);
    }
    seed
}

// The same seed gives the same key pair, byte for byte, on every call.
#[test]
fn test_derive_is_deterministic() {
    let seed = [0u8; 64];
    let first = kyberlib::api::derive(&seed).unwrap();
    let second = kyberlib::api::derive(&seed).unwrap();
    assert_eq!(first.public, second.public);
    assert_eq!(first.secret, second.secret);
    assert_eq!(first, second);
    assert_ne!(first.public, [0u8; KYBER_PUBLIC_KEY_BYTES]);
}

// Different seeds give different key pairs, and either half of the seed
// matters: the first for both keys, the second for the secret key only.
#[test]
fn test_derive_depends_on_both_halves() {
    let base = kyberlib::api::derive(&[0u8; 64]).unwrap();
    let mut seed = [0u8; 64];
    seed[0] = 1;
    let other = kyberlib::api::derive(&seed).unwrap();
    assert_ne!(base.public, other.public);
    let mut seed = [0u8; 64];
    seed[63] = 1;
    let other = kyberlib::api::derive(&seed).unwrap();
    assert_eq!(base.public, other.public);
    assert_ne!(base.secret, other.secret);
    assert_eq!(base.secret[..2368], other.secret[..2368]);
}

// Every length but 64 is refused.
#[test]
fn test_derive_refuses_every_other_length() {
    for len in [0usize, 1, 32, 63, 65, 128] {
        assert_eq!(
            kyberlib::api::derive(&vec![0u8; len]),
            Err(kyberlib::KyberLibError::InvalidInput)
        );
    }
}

// The secret key is the scheme's secret key, the public key, the hash of
// the public key, and the second half of the seed, in that order.
#[test]
fn test_secret_key_layout() {
    let seed = seed_of(10);
    let keys = kyberlib::api::derive(&seed).unwrap();

    let mut d = [0u8; 32];
    d.copy_from_slice(&seed[..32]);
    let (pk, sk) = kyberlib::indcpa::indcpa_keypair(&d);
    assert_eq!(keys.public, pk);
    assert_eq!(keys.secret[..1152], sk);
    assert_eq!(keys.secret[1152..2336], pk);
    let mut digest = [0u8; 32];
    hash_h(&mut digest, &pk, KYBER_PUBLIC_KEY_BYTES);
    assert_eq!(keys.secret[2336..2368], digest);
    assert_eq!(keys.secret[2368..], seed[32..]);
    assert_eq!(public(&keys.secret), keys.public);
}

// The public key is read back from generated and from derived secret keys.
#[test]
fn test_public_key_is_read_back() {
    let mut rng = StdRng::from_seed([8u8; 32]);
    for byte in 0..4u8 {
        let keys = kyberlib::api::derive(&seed_of(byte)).unwrap();
        assert_eq!(public(&keys.secret), keys.public);
        let keys = keypair(&mut rng).unwrap();
        assert_eq!(public(keys.expose_secret()), keys.public);
    }
}

// The ciphertext encrypts the hash of the randomness under coins taken from
// the long hash, and the secret is derived from the other half of that hash
// and the hash of the ciphertext.
#[test]
fn test_encapsulation_formula() {
    let keys = kyberlib::api::derive(&seed_of(20)).unwrap();
    let m = [3u8; 32];
    let mut ct = [0u8; KYBER_CIPHERTEXT_BYTES];
    let mut ss = [0u8; 32];
    encrypt_message(&mut ct, &mut ss, &keys.public, &mut rand::thread_rng(), Some(&m)).unwrap();

    let mut buf = [0u8; 64];
    let mut digest = [0u8; 32];
    hash_h(&mut digest, &m, 32);
    buf[..32].copy_from_slice(&digest);
    hash_h(&mut digest, &keys.public, KYBER_PUBLIC_KEY_BYTES);
    buf[32..].copy_from_slice(&digest);
    let mut kr = [0u8; 64];
    hash_g(&mut kr, &buf, 64);
    let mut message = [0u8; 32];
    message.copy_from_slice(&buf[..32]);
    let mut coins = [0u8; 32];
    coins.copy_from_slice(&kr[32..]);
    let expected_ct = kyberlib::indcpa::indcpa_enc(&message, &keys.public, &coins);
    assert_eq!(ct, expected_ct);

    hash_h(&mut digest, &ct, KYBER_CIPHERTEXT_BYTES);
    kr[32..].copy_from_slice(&digest);
    let mut expected_ss = [0u8; 32];
    kdf(&mut expected_ss, &kr, 64);
    assert_eq!(ss, expected_ss);
}

// Decapsulation gives back the secret of the encapsulation, over many keys
// and much randomness.
#[test]
fn test_round_trip_over_random_trials() {
    let mut rng = rand::thread_rng();
    for _ in 0..25 {
        let keys = keypair(&mut rng).unwrap();
        for _ in 0..4 {
            let (ct, ss) = encapsulate(&keys.public, &mut rng).unwrap();
            assert_eq!(decapsulate(&ct, &keys.secret), Ok(ss));
        }
    }
}

// With the randomness given, encapsulation is repeatable.
#[test]
fn test_seeded_encapsulation_is_deterministic() {
    let keys = kyberlib::api::derive(&seed_of(30)).unwrap();
    let mut rng = rand::thread_rng();
    let mut first = ([0u8; KYBER_CIPHERTEXT_BYTES], [0u8; 32]);
    let mut second = ([0u8; KYBER_CIPHERTEXT_BYTES], [0u8; 32]);
    encrypt_message(&mut first.0, &mut first.1, &keys.public, &mut rng, Some(&[1u8; 32])).unwrap();
    encrypt_message(&mut second.0, &mut second.1, &keys.public, &mut rng, Some(&[1u8; 32]))
        .unwrap();
    assert_eq!(first, second);
    encrypt_message(&mut second.0, &mut second.1, &keys.public, &mut rng, Some(&[2u8; 32]))
        .unwrap();
    assert_ne!(first.0, second.0);
    assert_ne!(first.1, second.1);
}

// A ciphertext with any one bit flipped still gets a secret, and that
// secret is the one derived from the fallback bytes of the secret key and
// the hash of the ciphertext as it arrived.
#[test]
fn test_implicit_rejection_answers_with_the_fallback_secret() {
    let keys = kyberlib::api::derive(&seed_of(40)).unwrap();
    let mut ct = [0u8; KYBER_CIPHERTEXT_BYTES];
    let mut ss = [0u8; 32];
    encrypt_message(&mut ct, &mut ss, &keys.public, &mut rand::thread_rng(), Some(&[9u8; 32]))
        .unwrap();
    for place in [0usize, 1, 500, 959, 960, 1087] {
        for bit in [0u8, 3, 7] {
            let mut forged = ct;
            forged[place] ^= 1 << bit;
            let answer = decapsulate(&forged, &keys.secret).unwrap();
            assert_ne!(answer, ss);

            let mut buf = [0u8; 64];
            buf[..32].copy_from_slice(&keys.secret[2368..]);
            let mut digest = [0u8; 32];
            hash_h(&mut digest, &forged, KYBER_CIPHERTEXT_BYTES);
            buf[32..].copy_from_slice(&digest);
            let mut expected = [0u8; 32];
            kdf(&mut expected, &buf, 64);
            assert_eq!(answer, expected);
        }
    }
}

// A secret key whose fallback bytes differ answers a forged ciphertext
// differently and a true one alike.
#[test]
fn test_fallback_bytes_matter_only_on_rejection() {
    let keys = kyberlib::api::derive(&seed_of(50)).unwrap();
    let mut other = keys.secret;
    other[2399] ^= 1;
    let (ct, ss) = encapsulate(&keys.public, &mut rand::thread_rng()).unwrap();
    assert_eq!(decapsulate(&ct, &other), Ok(ss));
    let mut forged = ct;
    forged[10] ^= 4;
    assert_ne!(decapsulate(&forged, &other), decapsulate(&forged, &keys.secret));
}

// Keys and ciphertexts that are no keys and no ciphertexts get answers too.
#[test]
fn test_arbitrary_bytes_of_the_right_length_are_answered() {
    for byte in [0u8, 1, 0x7f, 0xff] {
        let pk = [byte; KYBER_PUBLIC_KEY_BYTES];
        let sk = [byte; KYBER_SECRET_KEY_BYTES];
        let ct = [byte; KYBER_CIPHERTEXT_BYTES];
        assert!(decapsulate(&ct, &sk).is_ok());
        let (sent, _) = encapsulate(&pk, &mut rand::thread_rng()).unwrap();
        assert!(decapsulate(&sent, &sk).is_ok());
    }
}

// The low-level functions write whole buffers and nothing else.
#[test]
fn test_low_level_functions_fill_their_buffers() {
    let mut rng = StdRng::from_seed([9u8; 32]);
    let mut pk = [0u8; KYBER_PUBLIC_KEY_BYTES];
    let mut sk = [0u8; KYBER_SECRET_KEY_BYTES];
    generate_key_pair(&mut pk, &mut sk, &mut rng, None).unwrap();
    assert_eq!(public(&sk), pk);
    let mut ct = [0u8; KYBER_CIPHERTEXT_BYTES];
    let mut ss = [0u8; 32];
    encrypt_message(&mut ct, &mut ss, &pk, &mut rng, None).unwrap();
    let mut again = [0u8; 32];
    decrypt_message(&mut again, &ct, &sk);
    assert_eq!(ss, again);
    assert_ne!(ss, [0u8; 32]);
}

fn hex(bytes: &[u8]) -> String {
    let mut text = String::new();
    for byte in bytes {
        text.push_str(&format!("{:02x}", byte));
    }
    text
}

fn digest(bytes: &[u8]) -> String {
    let mut out = [0u8; 32];
    hash_h(&mut out, bytes, bytes.len());
    hex(&out)
}

// Known answers: for the seed, the fallback bytes and the randomness made
// of the bytes i, i + 100 and i + 50, the short hashes of the public key,
// the secret key and the ciphertext, the shared secret, and the answer to
// the ciphertext with one bit flipped.
#[test]
fn test_known_answers() {
    let cases = [
        ("ac150ad70be0531630d56d63e73aaf43394ca542b39f1f842a28f69f77899314", "2c97f20b5dad8417779e542b3e9a6fbc1931ac4d854050c18f468635b4197389", "da8ea870ac24a9a66025544cb8187be33c3f3633848b4725db8922ec8467e41d", "2787ce1a60cdeacc2d3efb6f8107a3ad95aa96bbf6e0cd5d53d0b4bb1662252b", "c5bd60abeb2cc16bdd15ab4f352c56c2d84ec1c890e8428aa1e46e2dfc731a76"),
        ("6007cbf90a21cbe5f4387fc343222d75025e07dc211971a66c2925753028d370", "39862b2ee472f6977a93fe81b969a40dad133bfd9a2f206bc3687630a5f341bf", "728bc7bb8a876a8c75ddf4cdf17ac7c05aa904ad812f4bfc74877e9647b7d512", "55dcb7bfab7814230c71ec4a5e986c062f8001540b0b19c70c991f4a9787c32a", "350996bd5e6ec318069781a06686844d035f0129df967ca192e8d2dfa3896582"),
        ("4cf293b5ff032dbb162b96e93f9ec5f0905621fadca8f969cf4c37e7cff4d135", "a91e49e69c30bfac3a925fa9f4829abfb7483fbb566886f7953ecc8a0846d9d2", "97401abe944874fce15a15b90f84e313a82e3b9f61c34ac90729af94fe722d29", "f2afddd6c69e32d8c2c42ba9e34c6bf34d4b7ae3f4594185920dd1ce82b30cca", "2a3831880e900bce0b42bfb45f77f7247abccec0b93e7dd8cede88808ba59261"),
        ("bf52366c29887b4757793650854784a96963f0f28b3496bbc08e5e309f63c4b5", "4df5341500c00022e494a23d1f5fb153404bb1073d187b8fd6fa4691a8bd5b83", "86028a700bd44c683405526e087d52c0ab9a9921a212e0210bdeecb5aacb3062", "68afcd1c9a7505bb7aafedcdde0170f7f6f97edc05cba67fc097e0c0198d4454", "e3974d7f1d2ec6858ae96c6423915f76f54d9bc73f8f4888d075e240119edef9"),
        ("df6e3faf6194c9a6020cc0355afbe5d2351a1df589906127c0c8fc02cabaee09", "23bd191870860104c89e8f0d8ea5fef71f737a9c79eb5ea58a3cae4ea7857f46", "e1a751905956d393b4607d8661eb012e6da3bf2e6c5cfe00734d0522604b7862", "02beb2b93fb71fa8f07e049b4fb4b3f2c0fa87dc6d0732b0bc8a53b3357badcf", "54d9a9f60c968d9cacb41cfecaa77b2bb76ca1da8fb392ee639e61857bbe7ae0"),
        ("e39db53e923ddaee81304421b702b847bd0d62e36ea51fc82a861b6cc21b7b63", "9b5deb1c51cbbf66850a4c0d40509b63664789ffa0a949311e4a33857e9aaa2c", "f2724bb24e5bb7b35eff6091eed7234a4259f83273eb6f931dd3a6ecd51f66d2", "a06e7d3213ee1489314ef77f90c69ab95444f7b03872422b7b0e5a118314066a", "0e71f39a790c9306ab91feee4675226096ba219eb5ad4f274235d90c70f9c354"),
    ];
    for (i, case) in cases.iter().enumerate() {
        let i = i as u8;
        let mut pk = [0u8; KYBER_PUBLIC_KEY_BYTES];
        let mut sk = [0u8; KYBER_SECRET_KEY_BYTES];
        generate_key_pair_from_seed(&mut pk, &mut sk, &[i; 32], &[i + 100; 32]);
        assert_eq!(digest(&pk), case.0);
        assert_eq!(digest(&sk), case.1);
        let mut ct = [0u8; KYBER_CIPHERTEXT_BYTES];
        let mut ss = [0u8; 32];
        encrypt_message_from_seed(&mut ct, &mut ss, &pk, &[i + 50; 32]);
        assert_eq!(digest(&ct), case.2);
        assert_eq!(hex(&ss), case.3);
        assert_eq!(hex(&decapsulate(&ct, &sk).unwrap()), case.3);
        let mut forged = ct;
        forged[5] ^= 1;
        assert_eq!(hex(&decapsulate(&forged, &sk).unwrap()), case.4);
    }
}

// The key pair of the seed of 64 zeros.
#[test]
fn test_derive_zero_seed_known_answer() {
    let keys = kyberlib::api::derive(&[0u8; 64]).unwrap();
    assert_eq!(digest(&keys.public), "ac150ad70be0531630d56d63e73aaf43394ca542b39f1f842a28f69f77899314");
    assert_eq!(digest(&keys.secret), "7fabf71f24be97a45392840a64baedef20e7513389ce4a426c6491dff1a3ecbe");
    assert_eq!(keys.public[..8], [164, 196, 207, 234, 198, 19, 222, 180]);
    assert_eq!(keys.secret[2360..2370], [42, 40, 246, 159, 119, 137, 147, 20, 0, 0]);
}

// Known answers on keys and ciphertexts that no key generation and no
// encapsulation gave: their coefficients are not below the modulus.
#[test]
fn test_known_answers_on_arbitrary_bytes() {
    let mut pk = [0u8; KYBER_PUBLIC_KEY_BYTES];
    let mut sk = [0u8; KYBER_SECRET_KEY_BYTES];
    let mut ct = [0u8; KYBER_CIPHERTEXT_BYTES];
    for i in 0..KYBER_PUBLIC_KEY_BYTES {
        pk[i] = (i * 7 + 3) as u8;
    }
    for i in 0..KYBER_SECRET_KEY_BYTES {
        sk[i] = (i * 13 + 5) as u8;
    }
    for i in 0..KYBER_CIPHERTEXT_BYTES {
        ct[i] = (i * 11 + 1) as u8;
    }
    let mut sent = [0u8; KYBER_CIPHERTEXT_BYTES];
    let mut ss = [0u8; 32];
    encrypt_message_from_seed(&mut sent, &mut ss, &pk, &[9u8; 32]);
    assert_eq!(digest(&sent), "b045af7323db756757ccd382f8482ea61502696b18b9c230f9e82188d8184bab");
    assert_eq!(hex(&ss), "a4842b034b34aad8b5e73d8fccb4d6a95e752f7aeacdd30c5c38333eaf928e3d");
    assert_eq!(hex(&decapsulate(&ct, &sk).unwrap()), "9c9d4679ddd5cb6466e95b0e25b2ff9dc3756a69fb796f641da0f2fe858ddd53");

    let pk = [0xffu8; KYBER_PUBLIC_KEY_BYTES];
    let sk = [0xffu8; KYBER_SECRET_KEY_BYTES];
    let ct = [0xffu8; KYBER_CIPHERTEXT_BYTES];
    encrypt_message_from_seed(&mut sent, &mut ss, &pk, &[1u8; 32]);
    assert_eq!(digest(&sent), "1991eb6f175505f61a2cfc6bff6d960f48c3b98260dfd0b349361bf2553c64fa");
    assert_eq!(hex(&ss), "0fcb09ea3f43452d891e93d79e7a516a6bc137bccbbbae838155e4588bc608b8");
    assert_eq!(hex(&decapsulate(&ct, &sk).unwrap()), "d89f5b906279a484fbb3a82d9203982647e35d56615100166646a78bf7335755");
}

// The last steps of decapsulation, on their own: the pre-key is used when
// the re-encryption is the ciphertext, and the fallback bytes otherwise.
#[test]
fn test_select_shared_secret() {
    let ct = [5u8; KYBER_CIPHERTEXT_BYTES];
    let mut sk = [0u8; KYBER_SECRET_KEY_BYTES];
    sk[2368..].copy_from_slice(&[0x77u8; 32]);
    let pre_key = [0x11u8; 32];
    let mut digest = [0u8; 32];
    hash_h(&mut digest, &ct, KYBER_CIPHERTEXT_BYTES);

    let mut buf = [0u8; 64];
    buf[..32].copy_from_slice(&pre_key);
    buf[32..].copy_from_slice(&digest);
    let mut kept = [0u8; 32];
    kdf(&mut kept, &buf, 64);
    buf[..32].copy_from_slice(&[0x77u8; 32]);
    let mut fallback = [0u8; 32];
    kdf(&mut fallback, &buf, 64);
    assert_ne!(kept, fallback);

    let mut ss = [0u8; 32];
    select_shared_secret(&mut ss, &ct, &sk, &pre_key, &ct);
    assert_eq!(ss, kept);
    for place in [0usize, 1, 543, 1087] {
        let mut again = ct;
        again[place] ^= 0x80;
        select_shared_secret(&mut ss, &ct, &sk, &pre_key, &again);
        assert_eq!(ss, fallback);
    }
}

// The test of the hypothesis under which decapsulation gives back the
// secret of the encapsulation: it holds of generated keys, and where it
// holds the two secrets are the same.
#[test]
fn test_decrypts_encapsulated() {
    for byte in 0..6u8 {
        let keys = kyberlib::api::derive(&seed_of(byte)).unwrap();
        let m = [byte.wrapping_mul(31); 32];
        assert!(decrypts_encapsulated(&keys.public, &keys.secret, &m));
        let mut ct = [0u8; KYBER_CIPHERTEXT_BYTES];
        let mut ss = [0u8; 32];
        encrypt_message_from_seed(&mut ct, &mut ss, &keys.public, &m);
        assert_eq!(decapsulate(&ct, &keys.secret), Ok(ss));
    }
    let keys = kyberlib::api::derive(&seed_of(1)).unwrap();
    let other = kyberlib::api::derive(&seed_of(2)).unwrap();
    assert!(!decrypts_encapsulated(&keys.public, &other.secret, &[1u8; 32]));
    assert!(!decrypts_encapsulated(&[0xffu8; 1184], &[0xffu8; 2400], &[1u8; 32]));
}

// Known answers of the two exchanges with given randomness.
#[test]
fn test_exchanges_known_answers() {
    let mut pkb = [0u8; KYBER_PUBLIC_KEY_BYTES];
    let mut skb = [0u8; KYBER_SECRET_KEY_BYTES];
    generate_key_pair_from_seed(&mut pkb, &mut skb, &[21u8; 32], &[22u8; 32]);
    let mut pka = [0u8; KYBER_PUBLIC_KEY_BYTES];
    let mut ska = [0u8; KYBER_SECRET_KEY_BYTES];
    generate_key_pair_from_seed(&mut pka, &mut ska, &[23u8; 32], &[24u8; 32]);

    let mut send_a = [0u8; 2272];
    let mut tk = [0u8; 32];
    let mut esk = [0u8; KYBER_SECRET_KEY_BYTES];
    uake_init_a_from_seed(&mut send_a, &mut tk, &mut esk, &pkb, &[31u8; 32], &[32u8; 32], &[33u8; 32]);
    assert_eq!(digest(&send_a), "d0d19cb362b12b9f6bcd4580c96d269d774619e03e652737c2c5678fd4015249");
    assert_eq!(hex(&tk), "51ba3cdd1465b6bb0e73ea78a6e4bbd7f0fdc958e5c2e17cc2503fb451737231");
    assert_eq!(digest(&esk), "0d55f38ee5cf80b4f89c77ac5fb074ca4ef0051148c18897df084314fa14995e");
    // The message is the ephemeral public key and then the ciphertext.
    assert_eq!(send_a[..1184], public(&esk));
    let mut ct = [0u8; KYBER_CIPHERTEXT_BYTES];
    let mut ss = [0u8; 32];
    encrypt_message_from_seed(&mut ct, &mut ss, &pkb, &[33u8; 32]);
    assert_eq!(send_a[1184..], ct);
    assert_eq!(tk, ss);

    let mut send_b = [0u8; 1088];
    let mut bob = [0u8; 32];
    uake_shared_b_from_seed(&mut send_b, &mut bob, &send_a, &skb, &[34u8; 32]);
    assert_eq!(digest(&send_b), "1967ce914b99d4637276f36421b65b282beef01e8e298eca01a336e44fd8870a");
    assert_eq!(hex(&bob), "21c2679b002ff04a3c32aaa5c1fc1ec0dd72bcea8d139540dca4b8e714faaa57");
    let mut alice = [0u8; 32];
    assert_eq!(uake_shared_a(&mut alice, &send_b, &tk, &esk), Ok(()));
    assert_eq!(alice, bob);

    let mut send_b = [0u8; 2176];
    ake_shared_b_from_seed(&mut send_b, &mut bob, &send_a, &skb, &pka, &[34u8; 32], &[35u8; 32]);
    assert_eq!(digest(&send_b), "f5b58185e29b8eb2e1260e18f56424a3e6f23e9000817b90ec6eeeab05cc2724");
    assert_eq!(hex(&bob), "eb9bf59471df0785aafe69aa422ebeb832f4409f06bbe7639e077b1f90b5c345");
    encrypt_message_from_seed(&mut ct, &mut ss, &pka, &[35u8; 32]);
    assert_eq!(send_b[1088..], ct);
    assert_eq!(ake_shared_a(&mut alice, &send_b, &tk, &esk, &ska), Ok(()));
    assert_eq!(alice, bob);
    // With another long-term key the initiator ends elsewhere.
    assert_eq!(ake_shared_a(&mut alice, &send_b, &tk, &esk, &skb), Ok(()));
    assert_ne!(alice, bob);
}
