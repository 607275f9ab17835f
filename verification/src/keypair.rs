//! The keypair: a tagged union over the supported key algorithms, with
//! generation, deterministic derivation from entropy, signing, binary
//! serialization, mnemonic phrase derivation and raw seed export.
//!
//! A keypair is modelled by its tag, its tag-prefixed secret key encoding
//! and its derived public key; the binary protocol is specified exactly
//! over that model.

use vstd::prelude::*;
use vstd::pervasive::unreached;
use crate::bytes::{bytes_concat, bytes_eq, bytes_slice, is_all_zero};
use crate::crypto::{
    all_zero, crypto_init, ecc_compact_from_entropy_raw, ecc_compact_generate_raw,
    ecc_compact_parse, ecc_compact_parse_raw, ecc_compact_sign_raw, ecc_compact_signature,
    ed25519_from_entropy_raw, ed25519_generate_raw, ed25519_seed_public, ed25519_sign_raw,
    entropy_to_words_raw, mnemonic_words, padded32, secp256k1_from_entropy_raw,
    secp256k1_generate_raw, secp256k1_scalar_public, secp256k1_sign_raw, secp256k1_signature,
};
use crate::error::Error;
use crate::public_key::{public_key_wf, PublicKey, PublicKeyModel};
use crate::tag::{
    decode_network, decode_tag, lemma_tag_byte_nibbles, tag_byte, KeyTag, KeyType, Network,
};

verus! {

/// The mathematical view of a keypair: its tag, its tag-prefixed secret
/// key encoding, and its derived public key.
pub struct KeypairModel {
    pub tag: KeyTag,
    pub key: Seq<u8>,
    pub public: PublicKeyModel,
}

/// A keypair over one of the supported key algorithms, exclusively owning
/// its secret key encoding together with the public key derived from it.
#[derive(Debug, PartialEq, Eq)]
pub struct Keypair {
    pub(crate) tag: KeyTag,
    pub(crate) key_bytes: Vec<u8>,
    pub(crate) public: PublicKey,
}

impl View for Keypair {
    type V = KeypairModel;

    open(crate) spec fn view(&self) -> KeypairModel {
        KeypairModel { tag: self.tag, key: self.key_bytes@, public: self.public@ }
    }
}

/// The length of a keypair's tag-prefixed secret key encoding.
pub open spec fn keypair_len(k: KeyType) -> int {
    match k {
        KeyType::EccCompact => 33,
        KeyType::Ed25519 => 65,
        KeyType::Secp256k1 => 33,
        KeyType::MultiSig => 0,
    }
}

/// Well-formedness of a keypair: a generatable key type, a secret key
/// encoding of the fixed length for the type starting with the tag byte,
/// and a well-formed public key on the same tag that is the one the
/// secret material determines.
pub open spec fn keypair_wf(m: KeypairModel) -> bool {
    &&& m.public.tag == m.tag
    &&& public_key_wf(m.public)
    &&& m.key.len() == keypair_len(m.tag.key_type)
    &&& m.key.len() >= 1
    &&& m.key[0] == tag_byte(m.tag)
    &&& match m.tag.key_type {
        KeyType::Ed25519 => {
            &&& m.public.bytes == seq![tag_byte(m.tag)] + m.key.subrange(33, 65)
            &&& m.key.subrange(33, 65) == ed25519_seed_public(m.key.subrange(1, 33))
            &&& !all_zero(m.key.subrange(1, 33))
        },
        KeyType::EccCompact => ecc_compact_parse(m.key) == Some(m.public.bytes),
        KeyType::Secp256k1 => secp256k1_scalar_public(m.key.subrange(1, 33)) == Some(
            m.public.bytes.subrange(1, 34),
        ),
        KeyType::MultiSig => false,
    }
}

/// What serializing a keypair yields: the secret key encoding followed by
/// the public key encoding for Ed25519 and ECC-compact; a deliberate
/// failure for Secp256k1; MultiSig keypairs do not exist.
pub open spec fn write_model(m: KeypairModel) -> Result<Seq<u8>, Error> {
    match m.tag.key_type {
        KeyType::Ed25519 => Ok(m.key + m.public.bytes),
        KeyType::EccCompact => Ok(m.key + m.public.bytes),
        KeyType::Secp256k1 => Err(Error::UnsupportedOperation(KeyType::Secp256k1)),
        KeyType::MultiSig => Err(Error::InvalidKeyType(tag_byte(m.tag))),
    }
}

/// What reading a keypair from the front of a byte stream yields: one tag
/// byte, dispatched on its key type nibble — MultiSig and unknown values
/// rejected with the offending byte, Secp256k1 deliberately unsupported —
/// then the network nibble checked, then the fixed-length tag-prefixed
/// secret key body handed to the primitive library's parser. For Ed25519
/// the embedded public half must be the one derived from the seed, and
/// the seed must not be all zero: key material that violates the
/// derivation invariant is rejected.
pub open spec fn read_model(b: Seq<u8>) -> Result<KeypairModel, Error> {
    if b.len() < 1 {
        Err(Error::StreamIO)
    } else if b[0] & 0x0F == 0x02 {
        Err(Error::InvalidKeyType(b[0]))
    } else if b[0] & 0x0F == 0x03 {
        Err(Error::UnsupportedOperation(KeyType::Secp256k1))
    } else if b[0] & 0x0F == 0x01 {
        match decode_network(b[0]) {
            None => Err(Error::InvalidKeyType(b[0])),
            Some(net) => {
                if b.len() < 65 {
                    Err(Error::StreamIO)
                } else {
                    let seed = b.subrange(1, 33);
                    let embedded = b.subrange(33, 65);
                    if all_zero(seed) || embedded != ed25519_seed_public(seed) {
                        Err(Error::InvalidEntropy)
                    } else {
                        let t = KeyTag { network: net, key_type: KeyType::Ed25519 };
                        Ok(KeypairModel {
                            tag: t,
                            key: b.subrange(0, 65),
                            public: PublicKeyModel { tag: t, bytes: seq![b[0]] + embedded },
                        })
                    }
                }
            },
        }
    } else if b[0] & 0x0F == 0x00 {
        match decode_network(b[0]) {
            None => Err(Error::InvalidKeyType(b[0])),
            Some(net) => {
                if b.len() < 33 {
                    Err(Error::StreamIO)
                } else {
                    let t = KeyTag { network: net, key_type: KeyType::EccCompact };
                    match ecc_compact_parse(b.subrange(0, 33)) {
                        Some(p) => Ok(KeypairModel {
                            tag: t,
                            key: b.subrange(0, 33),
                            public: PublicKeyModel { tag: t, bytes: p },
                        }),
                        None => Err(Error::InvalidEntropy),
                    }
                }
            },
        }
    } else {
        Err(Error::InvalidKeyType(b[0]))
    }
}

/// What deterministic derivation from caller-supplied entropy yields for
/// a tag: `None` exactly when the entropy is unusable for the key type.
pub open spec fn entropy_model(tag: KeyTag, e: Seq<u8>) -> Option<KeypairModel> {
    let tb = tag_byte(tag);
    match tag.key_type {
        KeyType::Ed25519 => {
            if e.len() == 32 && !all_zero(e) {
                Some(KeypairModel {
                    tag,
                    key: seq![tb] + e + ed25519_seed_public(e),
                    public: PublicKeyModel { tag, bytes: seq![tb] + ed25519_seed_public(e) },
                })
            } else {
                None
            }
        },
        KeyType::EccCompact => {
            let key = seq![tb] + padded32(e);
            if 24 <= e.len() <= 32 && ecc_compact_parse(key) is Some {
                Some(KeypairModel {
                    tag,
                    key,
                    public: PublicKeyModel { tag, bytes: ecc_compact_parse(key).unwrap() },
                })
            } else {
                None
            }
        },
        KeyType::Secp256k1 => {
            let key = seq![tb] + padded32(e);
            if 24 <= e.len() <= 32 && secp256k1_scalar_public(padded32(e)) is Some {
                Some(KeypairModel {
                    tag,
                    key,
                    public: PublicKeyModel {
                        tag,
                        bytes: seq![tb] + secp256k1_scalar_public(padded32(e)).unwrap(),
                    },
                })
            } else {
                None
            }
        },
        KeyType::MultiSig => None,
    }
}

/// For every keypair of a supported serializable type, writing and then
/// reading the written bytes yields the keypair back: the same secret
/// material and the same derived public key.
pub proof fn lemma_write_read_roundtrip(m: KeypairModel)
    ensures
        keypair_wf(m) && (m.tag.key_type == KeyType::Ed25519 || m.tag.key_type
            == KeyType::EccCompact) ==> {
            &&& write_model(m) is Ok
            &&& read_model(write_model(m)->Ok_0) == Ok::<KeypairModel, Error>(m)
        },
{
    if keypair_wf(m) && (m.tag.key_type == KeyType::Ed25519 || m.tag.key_type
        == KeyType::EccCompact) {
        let w = m.key + m.public.bytes;
        lemma_tag_byte_nibbles(m.tag);
        assert(w[0] == tag_byte(m.tag));
        if m.tag.key_type == KeyType::Ed25519 {
            assert(w.subrange(0, 65) =~= m.key);
            assert(w.subrange(1, 33) =~= m.key.subrange(1, 33));
            assert(w.subrange(33, 65) =~= m.key.subrange(33, 65));
            let r = read_model(w);
            assert(r is Ok);
            assert(r->Ok_0.tag == m.tag);
            assert(r->Ok_0.key == m.key);
            assert(r->Ok_0.public.bytes == m.public.bytes);
            assert(r->Ok_0.public == m.public);
        } else {
            assert(w.subrange(0, 33) =~= m.key);
            let r = read_model(w);
            assert(r is Ok);
            assert(r->Ok_0.public == m.public);
        }
    }
}

/// Derivation from entropy is a pure function of tag and entropy: two
/// keypairs derived from the same tag and entropy serialize to the same
/// bytes.
pub proof fn lemma_entropy_determinism(tag: KeyTag, e: Seq<u8>, m1: KeypairModel, m2: KeypairModel)
    ensures
        entropy_model(tag, e) == Some(m1) && entropy_model(tag, e) == Some(m2) ==> write_model(m1)
            == write_model(m2),
{
}

/// A byte whose low nibble is the historic MultiSig value is rejected by
/// the keypair reader with that byte, whatever the rest of the stream
/// holds; so is any byte that decodes to no key tag, unless its key type
/// nibble is the deliberately unsupported Secp256k1 one, which is
/// reported as such.
pub proof fn lemma_read_rejects_invalid_tags(b: Seq<u8>)
    ensures
        b.len() >= 1 && b[0] & 0x0F == 0x02 ==> read_model(b) == Err::<KeypairModel, Error>(
            Error::InvalidKeyType(b[0]),
        ),
        b.len() >= 1 && b[0] & 0x0F == 0x03 ==> read_model(b) == Err::<KeypairModel, Error>(
            Error::UnsupportedOperation(KeyType::Secp256k1),
        ),
        b.len() >= 1 && decode_tag(b[0]) is None && b[0] & 0x0F != 0x03 ==> read_model(b)
            == Err::<KeypairModel, Error>(Error::InvalidKeyType(b[0])),
{
}

/// The length of a keypair's tag-prefixed secret key encoding.
pub fn keypair_len_of(k: KeyType) -> (r: usize)
    ensures
        r == keypair_len(k),
{
    match k {
        KeyType::EccCompact => 33,
        KeyType::Ed25519 => 65,
        KeyType::Secp256k1 => 33,
        KeyType::MultiSig => 0,
    }
}

impl Keypair {
    #[verifier::type_invariant]
    spec fn type_inv(self) -> bool {
        keypair_wf(self@)
    }

    /// Generate a fresh keypair for the given tag from the system's
    /// cryptographically secure random source.
    pub fn generate(key_tag: KeyTag) -> (r: Self)
        requires
            key_tag.key_type != KeyType::MultiSig,
        ensures
            r@.tag == key_tag,
            keypair_wf(r@),
    {
        proof {
            lemma_tag_byte_nibbles(key_tag);
        }
        match key_tag.key_type {
            KeyType::Ed25519 => {
                let (k, p) = ed25519_generate_raw(key_tag.network);
                proof {
                    assert((seq![k@[0]] + k@.subrange(33, 65))[0] == k@[0]);
                }
                Keypair {
                    tag: key_tag,
                    key_bytes: k,
                    public: PublicKey { tag: key_tag, bytes: p },
                }
            },
            KeyType::EccCompact => {
                let (k, p) = ecc_compact_generate_raw(key_tag.network);
                Keypair {
                    tag: key_tag,
                    key_bytes: k,
                    public: PublicKey { tag: key_tag, bytes: p },
                }
            },
            KeyType::Secp256k1 => {
                let (k, p) = secp256k1_generate_raw(key_tag.network);
                Keypair {
                    tag: key_tag,
                    key_bytes: k,
                    public: PublicKey { tag: key_tag, bytes: p },
                }
            },
            KeyType::MultiSig => unreached(),
        }
    }

    /// Deterministically derive a keypair for the given tag from
    /// caller-supplied entropy; fails exactly when the entropy is
    /// unusable for the key type.
    pub fn generate_from_entropy(key_tag: KeyTag, entropy: &[u8]) -> (r: Result<Self, Error>)
        ensures
            (match r {
                Ok(kp) => entropy_model(key_tag, entropy@) == Some(kp@) && keypair_wf(kp@),
                Err(e) => entropy_model(key_tag, entropy@) is None && e == (
                if key_tag.key_type == KeyType::MultiSig {
                    Error::InvalidKeyType(tag_byte(key_tag))
                } else {
                    Error::InvalidEntropy
                }),
            }),
    {
        proof {
            lemma_tag_byte_nibbles(key_tag);
        }
        match key_tag.key_type {
            KeyType::Ed25519 => {
                if entropy.len() == 32 && is_all_zero(entropy) {
                    return Err(Error::InvalidEntropy);
                }
                match ed25519_from_entropy_raw(key_tag.network, entropy) {
                    Some((k, p)) => {
                        proof {
                            let tb = tag_byte(key_tag);
                            assert(k@[0] == tb);
                            assert(p@[0] == tb);
                            assert(k@.subrange(1, 33) =~= entropy@);
                            assert(k@.subrange(33, 65) =~= ed25519_seed_public(entropy@));
                            assert(p@ =~= seq![tb] + k@.subrange(33, 65));
                        }
                        Ok(Keypair {
                            tag: key_tag,
                            key_bytes: k,
                            public: PublicKey { tag: key_tag, bytes: p },
                        })
                    },
                    None => Err(Error::InvalidEntropy),
                }
            },
            KeyType::EccCompact => {
                match ecc_compact_from_entropy_raw(key_tag.network, entropy) {
                    Some((k, p)) => {
                        proof {
                            assert(k@[0] == tag_byte(key_tag));
                        }
                        Ok(Keypair {
                            tag: key_tag,
                            key_bytes: k,
                            public: PublicKey { tag: key_tag, bytes: p },
                        })
                    },
                    None => Err(Error::InvalidEntropy),
                }
            },
            KeyType::Secp256k1 => {
                match secp256k1_from_entropy_raw(key_tag.network, entropy) {
                    Some((k, p)) => {
                        proof {
                            assert(k@[0] == tag_byte(key_tag));
                            assert(k@.subrange(1, 33) =~= padded32(entropy@));
                            assert(p@.subrange(1, 34) =~= secp256k1_scalar_public(
                                padded32(entropy@),
                            ).unwrap());
                            assert(p@ =~= seq![tag_byte(key_tag)] + secp256k1_scalar_public(
                                padded32(entropy@),
                            ).unwrap());
                        }
                        Ok(Keypair {
                            tag: key_tag,
                            key_bytes: k,
                            public: PublicKey { tag: key_tag, bytes: p },
                        })
                    },
                    None => Err(Error::InvalidEntropy),
                }
            },
            KeyType::MultiSig => Err(Error::InvalidKeyType(key_tag.to_byte())),
        }
    }

    /// The key tag of this keypair.
    pub fn key_tag(&self) -> (r: KeyTag)
        ensures
            r == self@.tag,
    {
        self.tag
    }

    /// A borrowed view of the public key derived from this keypair's
    /// secret material; never fails.
    pub fn public_key(&self) -> (r: &PublicKey)
        ensures
            r@ == self@.public,
    {
        &self.public
    }

    /// Sign a message with the private key. Ed25519 signing cannot fail
    /// (its signature carries fresh random noise); for the ECDSA key
    /// types the signature is a deterministic function of key and
    /// message, and a failure of the underlying primitive is reported as
    /// a signing error.
    pub fn sign(&self, msg: &[u8]) -> (r: Result<Vec<u8>, Error>)
        ensures
            self@.tag.key_type == KeyType::Ed25519 ==> r is Ok && r->Ok_0@.len() == 64,
            self@.tag.key_type == KeyType::EccCompact ==> (match r {
                Ok(v) => ecc_compact_signature(self@.key, msg@) == Some(v@),
                Err(_) => ecc_compact_signature(self@.key, msg@) is None,
            }),
            self@.tag.key_type == KeyType::Secp256k1 ==> (match r {
                Ok(v) => secp256k1_signature(self@.key, msg@) == Some(v@),
                Err(_) => secp256k1_signature(self@.key, msg@) is None,
            }),
            r is Err ==> r == Err::<Vec<u8>, Error>(Error::SigningError),
    {
        proof {
            use_type_invariant(self);
            lemma_tag_byte_nibbles(self.tag);
        }
        match self.tag.key_type {
            KeyType::Ed25519 => {
                match ed25519_sign_raw(self.key_bytes.as_slice(), msg) {
                    Some(sig) => Ok(sig),
                    None => Err(Error::SigningError),
                }
            },
            KeyType::EccCompact => {
                match ecc_compact_sign_raw(self.key_bytes.as_slice(), msg) {
                    Some(sig) => Ok(sig),
                    None => Err(Error::SigningError),
                }
            },
            KeyType::Secp256k1 => {
                match secp256k1_sign_raw(self.key_bytes.as_slice(), msg) {
                    Some(sig) => Ok(sig),
                    None => Err(Error::SigningError),
                }
            },
            KeyType::MultiSig => unreached(),
        }
    }

    /// The mnemonic word sequence that encodes this keypair's secret
    /// entropy: the 32 bytes after the tag byte, giving 24 words.
    pub fn phrase(&self) -> (r: Result<Vec<String>, Error>)
        ensures
            (match r {
                Ok(v) => {
                    &&& v@.len() == 24
                    &&& v@.map_values(|s: String| s@) == mnemonic_words(
                        self@.key.subrange(1, 33),
                    )
                    &&& forall|i: int| 0 <= i < v@.len() ==> (#[trigger] v@[i])@.len() > 0
                },
                Err(_) => false,
            }),
    {
        proof {
            use_type_invariant(self);
        }
        let entropy = bytes_slice(self.key_bytes.as_slice(), 1, 33);
        match entropy_to_words_raw(entropy.as_slice()) {
            Some(v) => Ok(v),
            None => {
                proof {
                    assert(false);
                }
                Err(Error::InvalidEntropy)
            },
        }
    }

    /// The raw private key bytes for external wallet import, supported
    /// only for Ed25519: the 64 bytes of seed and public half with the
    /// leading type tag byte stripped. A deliberate policy restriction
    /// rejects the other key types.
    pub fn unencrypted_seed(&self) -> (r: Result<Vec<u8>, Error>)
        ensures
            r is Ok <==> self@.tag.key_type == KeyType::Ed25519,
            (match r {
                Ok(v) => v@ == self@.key.subrange(1, 65) && v@.len() == 64,
                Err(e) => e == Error::UnsupportedOperation(self@.tag.key_type),
            }),
    {
        proof {
            use_type_invariant(self);
        }
        match self.tag.key_type {
            KeyType::Ed25519 => Ok(bytes_slice(self.key_bytes.as_slice(), 1, 65)),
            KeyType::EccCompact => Err(Error::UnsupportedOperation(KeyType::EccCompact)),
            KeyType::Secp256k1 => Err(Error::UnsupportedOperation(KeyType::Secp256k1)),
            KeyType::MultiSig => unreached(),
        }
    }

    /// Serialize this keypair: the tag-prefixed secret key encoding
    /// followed by the public key encoding; deliberately unsupported for
    /// Secp256k1.
    pub fn write(&self) -> (r: Result<Vec<u8>, Error>)
        ensures
            (match r {
                Ok(v) => write_model(self@) == Ok::<Seq<u8>, Error>(v@),
                Err(e) => write_model(self@) == Err::<Seq<u8>, Error>(e),
            }),
    {
        proof {
            use_type_invariant(self);
        }
        match self.tag.key_type {
            KeyType::Ed25519 => Ok(
                bytes_concat(self.key_bytes.as_slice(), self.public.bytes.as_slice()),
            ),
            KeyType::EccCompact => Ok(
                bytes_concat(self.key_bytes.as_slice(), self.public.bytes.as_slice()),
            ),
            KeyType::Secp256k1 => Err(Error::UnsupportedOperation(KeyType::Secp256k1)),
            KeyType::MultiSig => unreached(),
        }
    }

    /// Deserialize a keypair from the front of `bytes`, assuming the
    /// cryptographic subsystem is already initialized (`read` performs
    /// that initialization and then calls this): one tag byte, then the
    /// fixed-length secret key body for its type; trailing bytes are
    /// ignored. The result is exactly what the read model says, for
    /// every input.
    pub fn read_parsed(bytes: &[u8]) -> (r: Result<Self, Error>)
        ensures
            (match r {
                Ok(kp) => read_model(bytes@) == Ok::<KeypairModel, Error>(kp@) && keypair_wf(kp@),
                Err(e) => read_model(bytes@) == Err::<KeypairModel, Error>(e),
            }),
    {
        if bytes.len() < 1 {
            return Err(Error::StreamIO);
        }
        let t0 = bytes[0];
        let lo = t0 & 0x0F;
        if lo == 0x02 {
            return Err(Error::InvalidKeyType(t0));
        }
        if lo == 0x03 {
            return Err(Error::UnsupportedOperation(KeyType::Secp256k1));
        }
        if lo != 0x00 && lo != 0x01 {
            return Err(Error::InvalidKeyType(t0));
        }
        let hi = t0 & 0xF0;
        let network = if hi == 0x00 {
            Network::MainNet
        } else if hi == 0x10 {
            Network::TestNet
        } else {
            return Err(Error::InvalidKeyType(t0));
        };
        if lo == 0x01 {
            let tag = KeyTag { network, key_type: KeyType::Ed25519 };
            proof {
                lemma_tag_byte_nibbles(tag);
                assert((t0 & 0xF0) | (t0 & 0x0F) == t0) by (bit_vector);
            }
            if bytes.len() < 65 {
                return Err(Error::StreamIO);
            }
            let seed = bytes_slice(bytes, 1, 33);
            if is_all_zero(seed.as_slice()) {
                return Err(Error::InvalidEntropy);
            }
            match ed25519_from_entropy_raw(network, seed.as_slice()) {
                Some((_, derived)) => {
                    // The embedded public half must be the one derived
                    // from the seed.
                    let embedded = bytes_slice(bytes, 33, 65);
                    proof {
                        assert(derived@.subrange(1, 33) =~= ed25519_seed_public(
                            bytes@.subrange(1, 33),
                        ));
                    }
                    if bytes_eq(&derived.as_slice()[1..33], embedded.as_slice()) {
                        let key = bytes_slice(bytes, 0, 65);
                        proof {
                            assert(derived@ =~= seq![t0] + bytes@.subrange(33, 65));
                            assert(key@.subrange(1, 33) =~= bytes@.subrange(1, 33));
                            assert(key@.subrange(33, 65) =~= bytes@.subrange(33, 65));
                        }
                        Ok(Keypair { tag, key_bytes: key, public: PublicKey { tag, bytes: derived } })
                    } else {
                        Err(Error::InvalidEntropy)
                    }
                },
                None => {
                    proof {
                        assert(false);
                    }
                    Err(Error::InvalidEntropy)
                },
            }
        } else {
            let tag = KeyTag { network, key_type: KeyType::EccCompact };
            proof {
                lemma_tag_byte_nibbles(tag);
                assert((t0 & 0xF0) | (t0 & 0x0F) == t0) by (bit_vector);
            }
            if bytes.len() < 33 {
                return Err(Error::StreamIO);
            }
            let key = bytes_slice(bytes, 0, 33);
            match ecc_compact_parse_raw(key.as_slice()) {
                Some(p) => {
                    proof {
                        assert(p@[0] == tag_byte(tag));
                    }
                    Ok(Keypair { tag, key_bytes: key, public: PublicKey { tag, bytes: p } })
                },
                None => Err(Error::InvalidEntropy),
            }
        }
    }

    /// Deserialize a keypair from the front of `bytes`, after one-time
    /// initialization of the cryptographic subsystem; the parse itself,
    /// with its exact contract, is `read_parsed`.
    pub fn read(bytes: &[u8]) -> (r: Result<Self, Error>)
        ensures
            (match r {
                Ok(kp) => read_model(bytes@) == Ok::<KeypairModel, Error>(kp@) && keypair_wf(kp@),
                Err(e) => e == Error::CryptoInit || read_model(bytes@) == Err::<
                    KeypairModel,
                    Error,
                >(e),
            }),
    {
        if !crypto_init() {
            return Err(Error::CryptoInit);
        }
        Self::read_parsed(bytes)
    }
}

impl Default for Keypair {
    /// A fresh keypair for the default tag: Ed25519 on the main network.
    fn default() -> (r: Self)
        ensures
            r@.tag == (KeyTag { network: Network::MainNet, key_type: KeyType::Ed25519 }),
            keypair_wf(r@),
    {
        Keypair::generate(KeyTag::default())
    }
}


} // verus!
