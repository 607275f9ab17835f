//! Trusted boundary to the cryptographic primitive library, the mnemonic
//! encoder and the base-58 codec. Every function here is an
//! `external_body` wrapper whose body only makes the outside call and
//! converts values; the contracts state what the outside sources show,
//! and every input on which an outside call would panic is excluded by a
//! `requires`.

use vstd::prelude::*;
use crate::tag::{decode_tag, tag_byte, KeyTag, KeyType, Network};
use p256::elliptic_curve::point::DecompactPoint;
use p256::elliptic_curve::sec1::ToCompactEncodedPoint;
use p256::ecdsa::signature::Signer;

verus! {

/// Whether every byte of a sequence is zero. An all-zero 32-byte seed is
/// the one value the Ed25519 primitive refuses to derive a keypair from.
pub open spec fn all_zero(b: Seq<u8>) -> bool {
    forall|i: int| 0 <= i < b.len() ==> b[i] == 0
}

/// The 32-byte public half that the Ed25519 primitive derives from a
/// 32-byte seed (`ed25519_compact::KeyPair::from_seed`); a function of the
/// seed alone.
pub uninterp spec fn ed25519_seed_public(seed: Seq<u8>) -> Seq<u8>;

/// What the P-256 primitive makes of a 33-byte tag-prefixed ECC-compact
/// keypair encoding: `None` when the scalar in bytes 1..33 is not a valid
/// nonzero scalar or its public point has no compact form; otherwise the
/// 33-byte public key encoding (the input's leading byte followed by the
/// 32-byte compact form). A function of the bytes alone
/// (`p256::SecretKey::from_slice` and `to_compact_encoded_point`).
pub uninterp spec fn ecc_compact_parse(key: Seq<u8>) -> Option<Seq<u8>>;

/// What the K-256 primitive makes of a 32-byte secret scalar encoding:
/// `None` when it is not a valid nonzero scalar; otherwise the 33-byte
/// compressed public point. A function of the bytes alone
/// (`k256::SecretKey::from_slice` and the SEC1 compressed encoding).
pub uninterp spec fn secp256k1_scalar_public(scalar: Seq<u8>) -> Option<Seq<u8>>;

/// Whether a 32-byte x-coordinate decompacts to a point on the P-256
/// curve (`p256::AffinePoint::decompact`); a function of the bytes alone.
pub uninterp spec fn ecc_x_decompacts(x: Seq<u8>) -> bool;

/// Whether 33 bytes are a valid SEC1 compressed point on the K-256 curve
/// (`k256::PublicKey::from_sec1_bytes`); a function of the bytes alone.
pub uninterp spec fn secp_point_ok(b: Seq<u8>) -> bool;

/// The base-58 check-encoded text (version byte 0) of a public key
/// encoding, as `helium_crypto::PublicKey`'s display gives it; a function
/// of the bytes alone.
pub uninterp spec fn base58_check_encode(b: Seq<u8>) -> Seq<char>;

/// The payload that base-58 check-decoding (version byte 0) yields for a
/// string, version byte stripped, as `bs58`'s checked decoder gives it;
/// `None` when the text does not decode. A function of the text alone.
pub uninterp spec fn base58_check_decode(s: Seq<char>) -> Option<Seq<u8>>;

/// The DER-encoded ECDSA signature that the P-256 primitive derives from
/// a 33-byte tag-prefixed ECC-compact secret key encoding and a message
/// (`p256::ecdsa::SigningKey::try_sign`, deterministic per RFC 6979, and
/// failing, when it fails, as a function of key and message alone);
/// `None` when the scalar does not parse or signing fails.
pub uninterp spec fn ecc_compact_signature(key: Seq<u8>, msg: Seq<u8>) -> Option<Seq<u8>>;

/// The DER-encoded ECDSA signature that the K-256 primitive derives from
/// a 33-byte tag-prefixed Secp256k1 secret key encoding and a message
/// (`k256::ecdsa::SigningKey::try_sign`, deterministic per RFC 6979, and
/// failing, when it fails, as a function of key and message alone);
/// `None` when the scalar does not parse or signing fails.
pub uninterp spec fn secp256k1_signature(key: Seq<u8>, msg: Seq<u8>) -> Option<Seq<u8>>;

/// The mnemonic word sequence that the BIP-39 encoder derives from
/// entropy (`bip39::Mnemonic::from_entropy`); a function of the entropy
/// alone.
pub uninterp spec fn mnemonic_words(e: Seq<u8>) -> Seq<Seq<char>>;

/// `e` left-padded with zero bytes to 32 bytes: the canonical big-endian
/// scalar encoding that the elliptic-curve primitives give to entropy
/// shorter than the field size.
pub open spec fn padded32(e: Seq<u8>) -> Seq<u8> {
    if e.len() >= 32 {
        e
    } else {
        Seq::new((32 - e.len()) as nat, |i: int| 0u8) + e
    }
}

/// Whether bytes are a public key encoding of this library's tag space
/// that the curve primitives accept: a decodable non-MultiSig tag byte,
/// the exact length for the type, and — for the elliptic-curve types — a
/// body that parses as a point.
pub open spec fn public_key_encoding_ok(b: Seq<u8>) -> bool {
    &&& b.len() >= 1
    &&& decode_tag(b[0]) is Some
    &&& match decode_tag(b[0]).unwrap().key_type {
        KeyType::Ed25519 => b.len() == 33,
        KeyType::EccCompact => b.len() == 33 && ecc_x_decompacts(b.subrange(1, 33)),
        KeyType::Secp256k1 => b.len() == 34 && secp_point_ok(b.subrange(1, 34)),
        KeyType::MultiSig => false,
    }
}

/// Relies on `helium_crypto::ed25519::Keypair::generate` with the system
/// random source, `to_vec` and `PublicKey::to_vec`: a fresh keypair's
/// 65-byte tag-prefixed encoding (tag, 32-byte seed, 32-byte derived
/// public half) and its 33-byte public key encoding. The seed is random;
/// the layout, the derivation of the public half, and the non-zero seed
/// (an all-zero seed makes the primitive diverge rather than return)
/// hold of every outcome.
#[verifier::external_body]
pub(crate) fn ed25519_generate_raw(network: Network) -> (r: (Vec<u8>, Vec<u8>))
    ensures
        r.0@.len() == 65,
        r.0@[0] == tag_byte(KeyTag { network, key_type: KeyType::Ed25519 }),
        r.0@.subrange(33, 65) == ed25519_seed_public(r.0@.subrange(1, 33)),
        !all_zero(r.0@.subrange(1, 33)),
        r.1@ == seq![r.0@[0]] + r.0@.subrange(33, 65),
        public_key_encoding_ok(r.1@),
{
    let net = match network {
        Network::MainNet => helium_crypto::Network::MainNet,
        Network::TestNet => helium_crypto::Network::TestNet,
    };
    let kp = helium_crypto::ed25519::Keypair::generate(net, &mut rand::rngs::OsRng);
    (kp.to_vec(), kp.public_key.to_vec())
}

/// Relies on `helium_crypto::ed25519::Keypair::generate_from_entropy`:
/// succeeds exactly on 32-byte entropy, and then deterministically
/// encodes to tag byte, entropy, derived public half. An all-zero
/// 32-byte seed is excluded: on it the primitive's `from_seed` panics
/// (callers reject it first).
#[verifier::external_body]
pub(crate) fn ed25519_from_entropy_raw(network: Network, entropy: &[u8]) -> (r: Option<
    (Vec<u8>, Vec<u8>),
>)
    requires
        !(entropy@.len() == 32 && all_zero(entropy@)),
    ensures
        r is Some <==> entropy@.len() == 32,
        (match r {
            Some(kp) => {
                &&& kp.0@ == seq![tag_byte(KeyTag { network, key_type: KeyType::Ed25519 })]
                    + entropy@ + ed25519_seed_public(entropy@)
                &&& kp.0@.len() == 65
                &&& kp.1@ == seq![tag_byte(KeyTag { network, key_type: KeyType::Ed25519 })]
                    + ed25519_seed_public(entropy@)
                &&& kp.1@.len() == 33
                &&& public_key_encoding_ok(kp.1@)
            },
            None => true,
        }),
{
    let net = match network {
        Network::MainNet => helium_crypto::Network::MainNet,
        Network::TestNet => helium_crypto::Network::TestNet,
    };
    match helium_crypto::ed25519::Keypair::generate_from_entropy(net, entropy) {
        Ok(kp) => Some((kp.to_vec(), kp.public_key.to_vec())),
        Err(_) => None,
    }
}

/// Relies on `helium_crypto::ed25519::Keypair::try_from` and `sign`: the
/// Ed25519 primitive signs any message under a parsed keypair without
/// failing, yielding a 64-byte signature (randomized with fresh noise;
/// only success and length hold of every outcome).
#[verifier::external_body]
pub(crate) fn ed25519_sign_raw(key_bytes: &[u8], msg: &[u8]) -> (r: Option<Vec<u8>>)
    requires
        key_bytes@.len() == 65,
        key_bytes@[0] & 0xF0 == 0x00 || key_bytes@[0] & 0xF0 == 0x10,
    ensures
        r is Some,
        (match r {
            Some(v) => v@.len() == 64,
            None => true,
        }),
{
    match helium_crypto::ed25519::Keypair::try_from(key_bytes) {
        Ok(kp) => helium_crypto::Sign::sign(&kp, msg).ok(),
        Err(_) => None,
    }
}

/// Relies on `helium_crypto::ecc_compact::Keypair::generate` with the
/// system random source, `to_vec` and `PublicKey::to_vec`: a fresh
/// keypair's 33-byte tag-prefixed scalar encoding and its 33-byte public
/// key encoding, consistent under reparsing. The scalar is random; only
/// these facts hold of every outcome.
#[verifier::external_body]
pub(crate) fn ecc_compact_generate_raw(network: Network) -> (r: (Vec<u8>, Vec<u8>))
    ensures
        r.0@.len() == 33,
        r.0@[0] == tag_byte(KeyTag { network, key_type: KeyType::EccCompact }),
        ecc_compact_parse(r.0@) == Some(r.1@),
        r.1@.len() == 33,
        r.1@[0] == r.0@[0],
        ecc_x_decompacts(r.1@.subrange(1, 33)),
{
    let net = match network {
        Network::MainNet => helium_crypto::Network::MainNet,
        Network::TestNet => helium_crypto::Network::TestNet,
    };
    let kp = helium_crypto::ecc_compact::Keypair::generate(net, &mut rand::rngs::OsRng);
    (kp.to_vec(), kp.public_key.to_vec())
}

/// Relies on `helium_crypto::ecc_compact::Keypair::generate_from_entropy`:
/// succeeds exactly when the entropy is 24 to 32 bytes, forms a valid
/// nonzero scalar after zero-padding, and its public point has a compact
/// form; the encoding is then the tag byte followed by the padded scalar.
#[verifier::external_body]
pub(crate) fn ecc_compact_from_entropy_raw(network: Network, entropy: &[u8]) -> (r: Option<
    (Vec<u8>, Vec<u8>),
>)
    ensures
        r is Some <==> (24 <= entropy@.len() <= 32 && ecc_compact_parse(
            seq![tag_byte(KeyTag { network, key_type: KeyType::EccCompact })]
                + padded32(entropy@),
        ) is Some),
        (match r {
            Some(kp) => {
                &&& kp.0@ == seq![tag_byte(KeyTag { network, key_type: KeyType::EccCompact })]
                    + padded32(entropy@)
                &&& kp.0@.len() == 33
                &&& ecc_compact_parse(kp.0@) == Some(kp.1@)
                &&& kp.1@.len() == 33
                &&& kp.1@[0] == kp.0@[0]
                &&& ecc_x_decompacts(kp.1@.subrange(1, 33))
            },
            None => true,
        }),
{
    let net = match network {
        Network::MainNet => helium_crypto::Network::MainNet,
        Network::TestNet => helium_crypto::Network::TestNet,
    };
    match helium_crypto::ecc_compact::Keypair::generate_from_entropy(net, entropy) {
        Ok(kp) => Some((kp.to_vec(), kp.public_key.to_vec())),
        Err(_) => None,
    }
}

/// Relies on `p256::SecretKey::from_slice` and
/// `to_compact_encoded_point`, the same primitives the crypto library's
/// own parse and write use: parse the scalar in bytes 1..33 and derive the
/// 33-byte public key encoding, failing (instead of panicking, as the
/// library's own write path would) when the point has no compact form.
#[verifier::external_body]
pub(crate) fn ecc_compact_parse_raw(key_bytes: &[u8]) -> (r: Option<Vec<u8>>)
    requires
        key_bytes@.len() == 33,
        decode_tag_is_ecc(key_bytes@[0]),
    ensures
        (match r {
            Some(p) => {
                &&& ecc_compact_parse(key_bytes@) == Some(p@)
                &&& p@.len() == 33
                &&& p@[0] == key_bytes@[0]
                &&& ecc_x_decompacts(p@.subrange(1, 33))
            },
            None => ecc_compact_parse(key_bytes@) is None,
        }),
{
    let secret = match p256::SecretKey::from_slice(&key_bytes[1..]) {
        Ok(s) => s,
        Err(_) => return None,
    };
    let point = match Option::<p256::EncodedPoint>::from(
        secret.public_key().as_affine().to_compact_encoded_point(),
    ) {
        Some(p) => p,
        None => return None,
    };
    let mut out: Vec<u8> = Vec::with_capacity(33);
    out.push(key_bytes[0]);
    out.extend_from_slice(&point.as_bytes()[1..]);
    Some(out)
}

/// Relies on `p256::ecdsa::SigningKey::from_slice` and `try_sign`, the
/// primitives behind the crypto library's ECDSA signing: the DER-encoded
/// signature, a deterministic function of key and message (RFC 6979), or
/// `None` exactly when that function has no value (bad scalar or signing
/// failure, both functions of the inputs alone).
#[verifier::external_body]
pub(crate) fn ecc_compact_sign_raw(key_bytes: &[u8], msg: &[u8]) -> (r: Option<Vec<u8>>)
    requires
        key_bytes@.len() == 33,
    ensures
        (match r {
            Some(v) => ecc_compact_signature(key_bytes@, msg@) == Some(v@),
            None => ecc_compact_signature(key_bytes@, msg@) is None,
        }),
{
    let key = match p256::ecdsa::SigningKey::from_slice(&key_bytes[1..]) {
        Ok(k) => k,
        Err(_) => return None,
    };
    let sig: p256::ecdsa::Signature = match key.try_sign(msg) {
        Ok(s) => s,
        Err(_) => return None,
    };
    Some(sig.to_der().as_bytes().to_vec())
}

/// Relies on `helium_crypto::secp256k1::Keypair::generate` with the
/// system random source, `to_vec` and `PublicKey::to_vec`: a fresh
/// keypair's 33-byte tag-prefixed scalar encoding and its 34-byte public
/// key encoding. The scalar is random; only these facts hold of every
/// outcome.
#[verifier::external_body]
pub(crate) fn secp256k1_generate_raw(network: Network) -> (r: (Vec<u8>, Vec<u8>))
    ensures
        r.0@.len() == 33,
        r.0@[0] == tag_byte(KeyTag { network, key_type: KeyType::Secp256k1 }),
        secp256k1_scalar_public(r.0@.subrange(1, 33)) == Some(r.1@.subrange(1, 34)),
        r.1@.len() == 34,
        r.1@[0] == r.0@[0],
        secp_point_ok(r.1@.subrange(1, 34)),
{
    let net = match network {
        Network::MainNet => helium_crypto::Network::MainNet,
        Network::TestNet => helium_crypto::Network::TestNet,
    };
    let kp = helium_crypto::secp256k1::Keypair::generate(net, &mut rand::rngs::OsRng);
    (kp.to_vec(), kp.public_key.to_vec())
}

/// Relies on `helium_crypto::secp256k1::Keypair::generate_from_entropy`:
/// succeeds exactly when the entropy is 24 to 32 bytes and forms a valid
/// nonzero scalar after zero-padding; the encoding is then the tag byte
/// followed by the padded scalar.
#[verifier::external_body]
pub(crate) fn secp256k1_from_entropy_raw(network: Network, entropy: &[u8]) -> (r: Option<
    (Vec<u8>, Vec<u8>),
>)
    ensures
        r is Some <==> (24 <= entropy@.len() <= 32 && secp256k1_scalar_public(
            padded32(entropy@),
        ) is Some),
        (match r {
            Some(kp) => {
                &&& kp.0@ == seq![tag_byte(KeyTag { network, key_type: KeyType::Secp256k1 })]
                    + padded32(entropy@)
                &&& kp.0@.len() == 33
                &&& secp256k1_scalar_public(padded32(entropy@)) == Some(kp.1@.subrange(1, 34))
                &&& kp.1@.len() == 34
                &&& kp.1@[0] == kp.0@[0]
                &&& secp_point_ok(kp.1@.subrange(1, 34))
            },
            None => true,
        }),
{
    let net = match network {
        Network::MainNet => helium_crypto::Network::MainNet,
        Network::TestNet => helium_crypto::Network::TestNet,
    };
    match helium_crypto::secp256k1::Keypair::generate_from_entropy(net, entropy) {
        Ok(kp) => Some((kp.to_vec(), kp.public_key.to_vec())),
        Err(_) => None,
    }
}

/// Relies on `k256::ecdsa::SigningKey::from_slice` and `try_sign`, the
/// primitives behind the crypto library's Secp256k1 signing: the
/// DER-encoded signature, a deterministic function of key and message
/// (RFC 6979), or `None` exactly when that function has no value.
#[verifier::external_body]
pub(crate) fn secp256k1_sign_raw(key_bytes: &[u8], msg: &[u8]) -> (r: Option<Vec<u8>>)
    requires
        key_bytes@.len() == 33,
    ensures
        (match r {
            Some(v) => secp256k1_signature(key_bytes@, msg@) == Some(v@),
            None => secp256k1_signature(key_bytes@, msg@) is None,
        }),
{
    let key = match k256::ecdsa::SigningKey::from_slice(&key_bytes[1..]) {
        Ok(k) => k,
        Err(_) => return None,
    };
    let sig: k256::ecdsa::Signature = match key.try_sign(msg) {
        Ok(s) => s,
        Err(_) => return None,
    };
    Some(sig.to_der().as_bytes().to_vec())
}

/// Relies on `p256::AffinePoint::decompact`: whether a 32-byte
/// x-coordinate is that of a point on the curve in compact form. Never
/// panics, unlike the crypto library's own public-key paths.
#[verifier::external_body]
pub(crate) fn ecc_pub_check_raw(x: &[u8]) -> (r: bool)
    requires
        x@.len() == 32,
    ensures
        r == ecc_x_decompacts(x@),
{
    let mut buf = [0u8; 32];
    buf.copy_from_slice(x);
    bool::from(p256::AffinePoint::decompact(&p256::FieldBytes::from(buf)).is_some())
}

/// Relies on `k256::PublicKey::from_sec1_bytes`: whether 33 bytes are a
/// valid compressed point on the curve. Never panics, unlike the crypto
/// library's own Secp256k1 public-key parse, which unwraps the same
/// check.
#[verifier::external_body]
pub(crate) fn secp_pub_check_raw(b: &[u8]) -> (r: bool)
    requires
        b@.len() == 33,
    ensures
        r == secp_point_ok(b@),
{
    k256::PublicKey::from_sec1_bytes(b).is_ok()
}

/// Relies on `helium_crypto::PublicKey::try_from` and its display: the
/// base-58 check-encoded text of a public key encoding, which the
/// checked base-58 decoder inverts to the same bytes. The `requires`
/// holds the shapes on which the library's parse neither fails nor
/// panics (exact length, known tag, on-curve body).
#[verifier::external_body]
pub(crate) fn public_key_to_b58_raw(b: &[u8]) -> (r: Option<String>)
    requires
        public_key_encoding_ok(b@),
    ensures
        r is Some,
        (match r {
            Some(s) => {
                &&& s@ == base58_check_encode(b@)
                &&& base58_check_decode(s@) == Some(b@)
            },
            None => true,
        }),
{
    match helium_crypto::PublicKey::try_from(b) {
        Ok(pk) => Some(pk.to_string()),
        Err(_) => None,
    }
}

/// Relies on `bs58`'s checked decoding with version byte 0, the same
/// codec the crypto library's own text parsing uses: the decoded payload
/// with the version byte stripped, or `None` when the text does not
/// check-decode. Never panics on any text.
#[verifier::external_body]
pub(crate) fn b58_check_decode_raw(s: &str) -> (r: Option<Vec<u8>>)
    ensures
        (match r {
            Some(v) => base58_check_decode(s@) == Some(v@),
            None => base58_check_decode(s@) is None,
        }),
{
    match bs58::decode(s).with_check(Some(0)).into_vec() {
        Ok(data) => Some(data[1..].to_vec()),
        Err(_) => None,
    }
}

/// Relies on `bip39::Mnemonic::from_entropy`: succeeds exactly on entropy
/// of 16 to 32 bytes in 4-byte steps, yielding three words for every four
/// entropy bytes, each word a non-empty wordlist entry.
#[verifier::external_body]
pub(crate) fn entropy_to_words_raw(entropy: &[u8]) -> (r: Option<Vec<String>>)
    ensures
        r is Some <==> (16 <= entropy@.len() <= 32 && entropy@.len() % 4 == 0),
        (match r {
            Some(v) => {
                &&& v@.len() == entropy@.len() * 3 / 4
                &&& v@.map_values(|s: String| s@) == mnemonic_words(entropy@)
                &&& forall|i: int| 0 <= i < v@.len() ==> (#[trigger] v@[i])@.len() > 0
            },
            None => true,
        }),
{
    let m = match bip39::Mnemonic::from_entropy(entropy) {
        Ok(m) => m,
        Err(_) => return None,
    };
    let mut words: Vec<String> = Vec::new();
    for w in m.words() {
        words.push(w.to_string());
    }
    Some(words)
}

/// Relies on `sodiumoxide::init` (libsodium's `sodium_init`): one-time
/// process-wide initialization of the cryptographic subsystem, thread-safe
/// and idempotent by libsodium's own guard; reports whether it completed.
#[verifier::external_body]
pub(crate) fn crypto_init() -> (r: bool)
{
    sodiumoxide::init().is_ok()
}

/// Whether a byte is a valid ECC-compact tag byte: a known network nibble
/// over the ECC-compact key type nibble.
pub open spec fn decode_tag_is_ecc(b: u8) -> bool {
    (b & 0xF0 == 0x00 || b & 0xF0 == 0x10) && b & 0x0F == 0x00
}

} // verus!
