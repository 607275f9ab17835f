//! Derived public keys: non-secret, independently serializable as a tag
//! byte followed by a fixed-length public key body, and displayable as a
//! base-58 check string.

use vstd::prelude::*;
use crate::bytes::bytes_slice;
use crate::crypto::{
    b58_check_decode_raw, base58_check_decode, base58_check_encode, ecc_pub_check_raw,
    public_key_encoding_ok, public_key_to_b58_raw, secp_pub_check_raw,
};
use crate::error::Error;
use crate::tag::{
    decode_tag, lemma_decode_byte_roundtrip, lemma_tag_byte_roundtrip, tag_byte, KeyTag, KeyType,
};

verus! {

/// The mathematical view of a public key: its tag and its full
/// tag-prefixed binary encoding.
pub struct PublicKeyModel {
    pub tag: KeyTag,
    pub bytes: Seq<u8>,
}

/// A derived public key, holding its tag and its tag-prefixed encoding.
#[derive(Debug, PartialEq, Eq)]
pub struct PublicKey {
    pub(crate) tag: KeyTag,
    pub(crate) bytes: Vec<u8>,
}

impl View for PublicKey {
    type V = PublicKeyModel;

    open(crate) spec fn view(&self) -> PublicKeyModel {
        PublicKeyModel { tag: self.tag, bytes: self.bytes@ }
    }
}

/// The length of a public key encoding for a key type, tag byte included.
pub open spec fn public_key_len(k: KeyType) -> int {
    match k {
        KeyType::EccCompact => 33,
        KeyType::Ed25519 => 33,
        KeyType::Secp256k1 => 34,
        KeyType::MultiSig => 0,
    }
}

/// Well-formedness of a public key: a non-MultiSig tag, an encoding of
/// the fixed length for its type that starts with its tag byte, and a
/// body the curve primitives accept as a point.
pub open spec fn public_key_wf(m: PublicKeyModel) -> bool {
    &&& m.tag.key_type != KeyType::MultiSig
    &&& m.bytes.len() == public_key_len(m.tag.key_type)
    &&& m.bytes[0] == tag_byte(m.tag)
    &&& public_key_encoding_ok(m.bytes)
}

/// What reading a public key from a byte stream yields: one tag byte,
/// rejected when unknown or MultiSig; then the fixed-length body for the
/// decoded type, rejected when the curve primitives do not accept it.
pub open spec fn public_key_read_model(b: Seq<u8>) -> Result<PublicKeyModel, Error> {
    if b.len() < 1 {
        Err(Error::StreamIO)
    } else {
        match decode_tag(b[0]) {
            None => Err(Error::InvalidKeyType(b[0])),
            Some(t) => {
                if t.key_type == KeyType::MultiSig {
                    Err(Error::InvalidKeyType(b[0]))
                } else if b.len() < public_key_len(t.key_type) {
                    Err(Error::StreamIO)
                } else {
                    let bs = b.subrange(0, public_key_len(t.key_type));
                    if public_key_encoding_ok(bs) {
                        Ok(PublicKeyModel { tag: t, bytes: bs })
                    } else {
                        Err(Error::InvalidEntropy)
                    }
                }
            },
        }
    }
}

/// What parsing a base-58 check string yields: the decoded bytes read as
/// a public key, or a decode failure.
pub open spec fn public_key_from_b58_model(s: Seq<char>) -> Result<PublicKeyModel, Error> {
    match base58_check_decode(s) {
        None => Err(Error::InvalidBase58),
        Some(v) => public_key_read_model(v),
    }
}

/// A well-formed public key's encoding reads back to the same public key.
pub proof fn lemma_public_key_roundtrip(m: PublicKeyModel)
    ensures
        public_key_wf(m) ==> public_key_read_model(m.bytes) == Ok::<PublicKeyModel, Error>(m),
{
    if public_key_wf(m) {
        lemma_tag_byte_roundtrip(m.tag);
        assert(m.bytes.subrange(0, public_key_len(m.tag.key_type)) =~= m.bytes);
    }
}

/// The length of a public key encoding for a key type, tag byte included.
pub fn public_key_len_of(k: KeyType) -> (r: usize)
    ensures
        r == public_key_len(k),
{
    match k {
        KeyType::EccCompact => 33,
        KeyType::Ed25519 => 33,
        KeyType::Secp256k1 => 34,
        KeyType::MultiSig => 0,
    }
}

impl PublicKey {
    #[verifier::type_invariant]
    pub(crate) open spec fn type_inv(self) -> bool {
        public_key_wf(self@)
    }

    /// The key tag of this public key.
    pub fn key_tag(&self) -> (r: KeyTag)
        ensures
            r == self@.tag,
    {
        self.tag
    }

    /// Serialize this public key: its tag-prefixed encoding, never
    /// failing.
    pub fn write(&self) -> (r: Result<Vec<u8>, Error>)
        ensures
            (match r {
                Ok(v) => v@ == self@.bytes,
                Err(_) => false,
            }),
    {
        let n = self.bytes.len();
        let v = bytes_slice(self.bytes.as_slice(), 0, n);
        proof {
            assert(self.bytes@.subrange(0, self.bytes@.len() as int) =~= self.bytes@);
        }
        Ok(v)
    }

    /// Deserialize a public key from the front of `bytes`: exactly one tag
    /// byte and the fixed-length body for its type; trailing bytes are
    /// ignored.
    pub fn read(bytes: &[u8]) -> (r: Result<PublicKey, Error>)
        ensures
            (match r {
                Ok(pk) => public_key_read_model(bytes@) == Ok::<PublicKeyModel, Error>(pk@) && public_key_wf(pk@),
                Err(e) => public_key_read_model(bytes@) == Err::<PublicKeyModel, Error>(e),
            }),
    {
        if bytes.len() < 1 {
            return Err(Error::StreamIO);
        }
        let b0 = bytes[0];
        let t = match KeyTag::from_byte(b0) {
            Some(t) => t,
            None => {
                return Err(Error::InvalidKeyType(b0));
            },
        };
        if t.key_type == KeyType::MultiSig {
            return Err(Error::InvalidKeyType(b0));
        }
        let n = public_key_len_of(t.key_type);
        if bytes.len() < n {
            return Err(Error::StreamIO);
        }
        let bs = bytes_slice(bytes, 0, n);
        proof {
            lemma_decode_byte_roundtrip(b0);
        }
        let body_ok: bool;
        if t.key_type == KeyType::EccCompact {
            body_ok = ecc_pub_check_raw(&bytes[1..33]);
            proof {
                assert(bs@.subrange(1, 33) =~= bytes@.subrange(1, 33));
            }
        } else if t.key_type == KeyType::Secp256k1 {
            body_ok = secp_pub_check_raw(&bytes[1..34]);
            proof {
                assert(bs@.subrange(1, 34) =~= bytes@.subrange(1, 34));
            }
        } else {
            body_ok = true;
        }
        if body_ok {
            Ok(PublicKey { tag: t, bytes: bs })
        } else {
            Err(Error::InvalidEntropy)
        }
    }

    /// The base-58 check string of this public key. The string decodes
    /// back to this very public key: the textual round trip is part of
    /// the contract.
    pub fn to_b58(&self) -> (r: String)
        ensures
            r@ == base58_check_encode(self@.bytes),
            base58_check_decode(r@) == Some(self@.bytes),
            public_key_from_b58_model(r@) == Ok::<PublicKeyModel, Error>(self@),
    {
        proof {
            use_type_invariant(self);
            lemma_public_key_roundtrip(self@);
            lemma_tag_byte_roundtrip(self@.tag);
        }
        match public_key_to_b58_raw(self.bytes.as_slice()) {
            Some(s) => s,
            None => {
                proof {
                    assert(false);
                }
                String::new()
            },
        }
    }

    /// Parse a public key from its base-58 check string.
    pub fn from_b58(s: &str) -> (r: Result<PublicKey, Error>)
        ensures
            (match r {
                Ok(pk) => public_key_from_b58_model(s@) == Ok::<PublicKeyModel, Error>(pk@) && public_key_wf(pk@),
                Err(e) => public_key_from_b58_model(s@) == Err::<PublicKeyModel, Error>(e),
            }),
    {
        match b58_check_decode_raw(s) {
            Some(v) => Self::read(v.as_slice()),
            None => Err(Error::InvalidBase58),
        }
    }
}

} // verus!
