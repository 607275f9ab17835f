//! Tests for the serialization protocol's rejection rules, deterministic
//! derivation from entropy, mnemonic derivation and the per-type policy
//! restrictions.

use wallet_keypair::{Error, KeyTag, KeyType, Keypair, Network, PublicKey};

// A 32-byte entropy value whose ECC-compact public point has a compact
// form, so that every key type accepts it.
fn entropy32() -> Vec<u8> {
    vec![
        248, 55, 78, 168, 99, 123, 22, 203, 36, 250, 136, 86, 110, 119, 198, 170, 248, 55, 78,
        168, 99, 123, 22, 203, 36, 250, 136, 86, 110, 119, 198, 170,
    ]
}

fn tag(network: Network, key_type: KeyType) -> KeyTag {
    KeyTag { network, key_type }
}

#[test]
fn roundtrip_keypair_ecc_compact() {
    let keypair = Keypair::generate(tag(Network::MainNet, KeyType::EccCompact));
    let buffer = keypair.write().expect("encoded ecc keypair");
    let decoded = Keypair::read(&buffer).expect("decoded ecc keypair");
    assert_eq!(keypair, decoded);
}

#[test]
fn roundtrip_keypair_testnet() {
    for key_type in [KeyType::Ed25519, KeyType::EccCompact] {
        let keypair = Keypair::generate(tag(Network::TestNet, key_type));
        let buffer = keypair.write().expect("encoded testnet keypair");
        let decoded = Keypair::read(&buffer).expect("decoded testnet keypair");
        assert_eq!(keypair, decoded);
    }
}

#[test]
fn roundtrip_public_key_all_types() {
    for key_type in [KeyType::Ed25519, KeyType::EccCompact, KeyType::Secp256k1] {
        let keypair = Keypair::generate(tag(Network::MainNet, key_type));
        let buffer = keypair.public_key().write().expect("encoded public key");
        let decoded = PublicKey::read(&buffer).expect("decoded public key");
        assert_eq!(keypair.public_key(), &decoded);

        let b58 = keypair.public_key().to_b58();
        let from_text = PublicKey::from_b58(&b58).expect("decoded b58 public key");
        assert_eq!(keypair.public_key(), &from_text);
    }
}

#[test]
fn secp256k1_write_unsupported() {
    let keypair = Keypair::generate(tag(Network::MainNet, KeyType::Secp256k1));
    let err = keypair.write().expect_err("secp256k1 write must fail");
    assert!(matches!(err, Error::UnsupportedOperation(KeyType::Secp256k1)));
}

#[test]
fn secp256k1_read_unsupported() {
    let buffer = vec![0x03u8; 33];
    let err = Keypair::read(&buffer).expect_err("secp256k1 read must fail");
    assert!(matches!(err, Error::UnsupportedOperation(KeyType::Secp256k1)));
}

#[test]
fn seed_export_unsupported_types() {
    let ecc = Keypair::generate(tag(Network::MainNet, KeyType::EccCompact));
    let err = ecc.unencrypted_seed().expect_err("ecc seed export must fail");
    assert!(matches!(err, Error::UnsupportedOperation(KeyType::EccCompact)));

    let secp = Keypair::generate(tag(Network::MainNet, KeyType::Secp256k1));
    let err = secp.unencrypted_seed().expect_err("secp seed export must fail");
    assert!(matches!(err, Error::UnsupportedOperation(KeyType::Secp256k1)));
}

#[test]
fn read_rejects_invalid_tags() {
    // The historic MultiSig tag value, on both networks, and bytes whose
    // key type or network nibble is unknown.
    for bad in [0x02u8, 0x12, 0x04, 0x21, 0x47, 0xFF] {
        let mut buffer = vec![0u8; 66];
        buffer[0] = bad;
        match Keypair::read(&buffer) {
            Err(Error::InvalidKeyType(b)) => assert_eq!(b, bad),
            other => panic!("tag {:#04x} must be rejected, got {:?}", bad, other),
        }
    }
}

#[test]
fn read_rejects_short_input() {
    assert!(matches!(Keypair::read(&[]), Err(Error::StreamIO)));
    assert!(matches!(Keypair::read(&[0x01u8, 0, 0]), Err(Error::StreamIO)));
    assert!(matches!(Keypair::read(&vec![0x00u8; 20]), Err(Error::StreamIO)));
}

#[test]
fn public_key_read_rejects_invalid_input() {
    assert!(matches!(PublicKey::read(&[]), Err(Error::StreamIO)));
    assert!(matches!(PublicKey::read(&[0x01u8, 1, 2]), Err(Error::StreamIO)));
    match PublicKey::read(&vec![0x02u8; 34]) {
        Err(Error::InvalidKeyType(b)) => assert_eq!(b, 0x02),
        other => panic!("multisig public key must be rejected, got {:?}", other),
    }
    match PublicKey::read(&vec![0x04u8; 34]) {
        Err(Error::InvalidKeyType(b)) => assert_eq!(b, 0x04),
        other => panic!("unknown public key type must be rejected, got {:?}", other),
    }
}

#[test]
fn from_b58_rejects_garbage() {
    let err = PublicKey::from_b58("not a base58 string !!!").expect_err("must fail");
    assert!(matches!(err, Error::InvalidBase58));
}

#[test]
fn entropy_determinism() {
    let entropy = entropy32();
    for key_type in [KeyType::Ed25519, KeyType::EccCompact, KeyType::Secp256k1] {
        let t = tag(Network::MainNet, key_type);
        let kp1 = Keypair::generate_from_entropy(t, &entropy).expect("keypair from entropy");
        let kp2 = Keypair::generate_from_entropy(t, &entropy).expect("keypair from entropy");
        assert_eq!(kp1, kp2);
        if key_type != KeyType::Secp256k1 {
            let b1 = kp1.write().expect("encoded");
            let b2 = kp2.write().expect("encoded");
            assert_eq!(b1, b2);
        }
    }
}

#[test]
fn entropy_known_vector() {
    // The public key derived from this entropy is a fixed, externally
    // checkable base-58 address.
    let entropy = entropy32();
    let kp = Keypair::generate_from_entropy(tag(Network::MainNet, KeyType::Ed25519), &entropy)
        .expect("keypair from entropy");
    assert_eq!(
        "14MRZY2jc2ABDq1faCCMmXrkm2PXY9UBRTP1j9PWnFTKnCb7Hyn",
        kp.public_key().to_b58()
    );
    let seed = kp.unencrypted_seed().expect("seed");
    assert_eq!(64, seed.len());
    assert_eq!(&seed[..32], &entropy[..]);
}

#[test]
fn entropy_rejected_lengths() {
    let short = vec![1u8; 16];
    let err = Keypair::generate_from_entropy(tag(Network::MainNet, KeyType::Ed25519), &short)
        .expect_err("16 bytes must be rejected for ed25519");
    assert!(matches!(err, Error::InvalidEntropy));

    let err = Keypair::generate_from_entropy(tag(Network::MainNet, KeyType::EccCompact), &short)
        .expect_err("16 bytes must be rejected for ecc-compact");
    assert!(matches!(err, Error::InvalidEntropy));

    let long = vec![1u8; 40];
    let err = Keypair::generate_from_entropy(tag(Network::MainNet, KeyType::Secp256k1), &long)
        .expect_err("40 bytes must be rejected for secp256k1");
    assert!(matches!(err, Error::InvalidEntropy));
}

#[test]
fn entropy_multisig_rejected() {
    let entropy = entropy32();
    let err = Keypair::generate_from_entropy(tag(Network::MainNet, KeyType::MultiSig), &entropy)
        .expect_err("multisig derivation must be rejected");
    assert!(matches!(err, Error::InvalidKeyType(0x02)));
}

#[test]
fn phrase_word_count() {
    for key_type in [KeyType::Ed25519, KeyType::EccCompact, KeyType::Secp256k1] {
        let keypair = Keypair::generate(tag(Network::MainNet, key_type));
        let words = keypair.phrase().expect("mnemonic phrase");
        assert_eq!(24, words.len());
        for w in &words {
            assert!(!w.is_empty());
        }
    }
}

#[test]
fn phrase_deterministic() {
    let entropy = entropy32();
    let t = tag(Network::MainNet, KeyType::Ed25519);
    let kp1 = Keypair::generate_from_entropy(t, &entropy).expect("keypair");
    let kp2 = Keypair::generate_from_entropy(t, &entropy).expect("keypair");
    assert_eq!(kp1.phrase().expect("phrase"), kp2.phrase().expect("phrase"));
}

#[test]
fn sign_produces_bytes() {
    for key_type in [KeyType::Ed25519, KeyType::EccCompact, KeyType::Secp256k1] {
        let keypair = Keypair::generate(tag(Network::MainNet, key_type));
        let signature = keypair.sign(b"hello world").expect("signature");
        assert!(!signature.is_empty());
    }
}

#[test]
fn seed_stable_across_calls() {
    let keypair = Keypair::default();
    let s1 = keypair.unencrypted_seed().expect("seed");
    let s2 = keypair.unencrypted_seed().expect("seed");
    assert_eq!(s1, s2);
}

#[test]
fn default_tag_is_mainnet_ed25519() {
    let keypair = Keypair::default();
    let t = keypair.key_tag();
    assert_eq!(t.network, Network::MainNet);
    assert_eq!(t.key_type, KeyType::Ed25519);
    let encoded = keypair.write().expect("encoded");
    assert_eq!(encoded[0], 0x01);
    assert_eq!(encoded.len(), 65 + 33);
}

#[test]
fn sign_deterministic_ecdsa() {
    // ECDSA signing (RFC 6979) is a pure function of key and message.
    for key_type in [KeyType::EccCompact, KeyType::Secp256k1] {
        let keypair = Keypair::generate(tag(Network::MainNet, key_type));
        let s1 = keypair.sign(b"hello world").expect("signature");
        let s2 = keypair.sign(b"hello world").expect("signature");
        assert_eq!(s1, s2);
        assert_ne!(s1, keypair.sign(b"another message").expect("signature"));
    }
}

#[test]
fn all_zero_ed25519_entropy_rejected() {
    // An all-zero seed is the one 32-byte value the Ed25519 primitive
    // refuses; it must surface as a typed error, not a panic.
    let zero = vec![0u8; 32];
    let err = Keypair::generate_from_entropy(tag(Network::MainNet, KeyType::Ed25519), &zero)
        .expect_err("all-zero entropy must be rejected");
    assert!(matches!(err, Error::InvalidEntropy));
}

#[test]
fn read_rejects_all_zero_seed() {
    let mut buffer = vec![0u8; 65];
    buffer[0] = 0x01;
    let err = Keypair::read(&buffer).expect_err("all-zero seed must be rejected");
    assert!(matches!(err, Error::InvalidEntropy));
}

#[test]
fn read_rejects_inconsistent_public_half() {
    // Flip a byte of the embedded public half: the reader must notice
    // that it is no longer the one derived from the seed.
    let keypair = Keypair::default();
    let mut buffer = keypair.write().expect("encoded");
    buffer[40] ^= 0xFF;
    let err = Keypair::read(&buffer).expect_err("tampered public half must be rejected");
    assert!(matches!(err, Error::InvalidEntropy));
}

#[test]
fn read_parsed_roundtrip() {
    let keypair = Keypair::default();
    let buffer = keypair.write().expect("encoded");
    let decoded = Keypair::read_parsed(&buffer).expect("decoded");
    assert_eq!(keypair, decoded);
}

#[test]
fn public_key_read_rejects_off_curve_secp256k1() {
    // A well-formed compressed-point prefix whose x is not on the curve:
    // a typed error, never a panic.
    let mut buffer = vec![0xFFu8; 34];
    buffer[0] = 0x03;
    buffer[1] = 0x02;
    let err = PublicKey::read(&buffer).expect_err("off-curve point must be rejected");
    assert!(matches!(err, Error::InvalidEntropy));
}

#[test]
fn from_b58_rejects_off_curve_secp256k1() {
    // The same off-curve point behind a valid base-58 check encoding.
    let mut payload = vec![0u8; 35];
    payload[1] = 0x03;
    payload[2] = 0x02;
    for b in payload.iter_mut().skip(3) {
        *b = 0xFF;
    }
    let text = bs58::encode(&payload).with_check().into_string();
    let err = PublicKey::from_b58(&text).expect_err("off-curve point must be rejected");
    assert!(matches!(err, Error::InvalidEntropy));
}
