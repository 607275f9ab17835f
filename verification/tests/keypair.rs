//! Round-trip and seed-export tests on the default keypair.

use wallet_keypair::{Keypair, PublicKey};

#[test]
fn roundtrip_keypair() {
    let keypair = Keypair::default();
    let buffer = keypair.write().expect("Failed to encode keypair");

    let decoded = Keypair::read(&buffer).expect("Failed to decode keypair");
    assert_eq!(keypair, decoded);
}

#[test]
fn roundtrip_public_key() {
    let pk = Keypair::default();
    let buffer = pk.public_key().write().expect("Failed to encode public key");

    let decoded = PublicKey::read(&buffer).expect("Failed to decode public key");
    assert_eq!(pk.public_key(), &decoded);
}

#[test]
fn roundtrip_b58_public_key() {
    let pk = Keypair::default();
    let decoded =
        PublicKey::from_b58(&pk.public_key().to_b58()).expect("Failed to decode public key");
    assert_eq!(pk.public_key(), &decoded);
}

#[test]
fn test_seed_output() {
    let pk = Keypair::default();
    let seed = pk.unencrypted_seed().expect("ed25519 keypair seed");
    assert_eq!(64, seed.len());
}
