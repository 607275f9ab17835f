//! Key tags: the single leading byte of every serialized key, packing the
//! key type (low nibble) and the network (high nibble).

use vstd::prelude::*;

verus! {

/// The network a key belongs to, encoded in the high nibble of the tag byte.
#[derive(Debug, Clone, Copy, PartialEq, Eq, Structural)]
pub enum Network {
    MainNet,
    TestNet,
}

/// The algorithm of a key, encoded in the low nibble of the tag byte.
/// `MultiSig` is a historic tag value that is recognized and rejected on
/// read; no keypair of that type can be built.
#[derive(Debug, Clone, Copy, PartialEq, Eq, Structural)]
pub enum KeyType {
    EccCompact,
    Ed25519,
    MultiSig,
    Secp256k1,
}

/// A key tag: the (network, key type) pair carried by the tag byte.
#[derive(Debug, Clone, Copy, PartialEq, Eq, Structural)]
pub struct KeyTag {
    pub network: Network,
    pub key_type: KeyType,
}

/// The nibble value of a network in the tag byte.
pub open spec fn network_byte(n: Network) -> u8 {
    match n {
        Network::MainNet => 0x00,
        Network::TestNet => 0x10,
    }
}

/// The nibble value of a key type in the tag byte.
pub open spec fn key_type_byte(k: KeyType) -> u8 {
    match k {
        KeyType::EccCompact => 0x00,
        KeyType::Ed25519 => 0x01,
        KeyType::MultiSig => 0x02,
        KeyType::Secp256k1 => 0x03,
    }
}

/// The tag byte of a key tag: network nibble in the high half, key type
/// nibble in the low half.
pub open spec fn tag_byte(t: KeyTag) -> u8 {
    network_byte(t.network) | key_type_byte(t.key_type)
}

/// The key type a byte's low nibble decodes to, if any.
pub open spec fn decode_key_type(b: u8) -> Option<KeyType> {
    if b & 0x0F == 0x00 {
        Some(KeyType::EccCompact)
    } else if b & 0x0F == 0x01 {
        Some(KeyType::Ed25519)
    } else if b & 0x0F == 0x02 {
        Some(KeyType::MultiSig)
    } else if b & 0x0F == 0x03 {
        Some(KeyType::Secp256k1)
    } else {
        None
    }
}

/// The network a byte's high nibble decodes to, if any.
pub open spec fn decode_network(b: u8) -> Option<Network> {
    if b & 0xF0 == 0x00 {
        Some(Network::MainNet)
    } else if b & 0xF0 == 0x10 {
        Some(Network::TestNet)
    } else {
        None
    }
}

/// The key tag a byte decodes to, if both nibbles are valid.
pub open spec fn decode_tag(b: u8) -> Option<KeyTag> {
    match (decode_network(b), decode_key_type(b)) {
        (Some(n), Some(k)) => Some(KeyTag { network: n, key_type: k }),
        _ => None,
    }
}

/// Every key tag's byte decodes back to the same tag: the tag byte is a
/// lossless encoding of the (network, key type) pair.
pub proof fn lemma_tag_byte_roundtrip(t: KeyTag)
    ensures
        decode_tag(tag_byte(t)) == Some(t),
{
    assert(0x00u8 | 0x00u8 == 0x00u8) by (bit_vector);
    assert(0x00u8 | 0x01u8 == 0x01u8) by (bit_vector);
    assert(0x00u8 | 0x02u8 == 0x02u8) by (bit_vector);
    assert(0x00u8 | 0x03u8 == 0x03u8) by (bit_vector);
    assert(0x10u8 | 0x00u8 == 0x10u8) by (bit_vector);
    assert(0x10u8 | 0x01u8 == 0x11u8) by (bit_vector);
    assert(0x10u8 | 0x02u8 == 0x12u8) by (bit_vector);
    assert(0x10u8 | 0x03u8 == 0x13u8) by (bit_vector);
    assert(forall|b: u8| 0x00 <= b <= 0x13 ==> #[trigger] (b & 0x0F) == b % 16) by (bit_vector);
    assert(forall|b: u8| 0x00 <= b <= 0x13 ==> #[trigger] (b & 0xF0) == b - b % 16) by (bit_vector);
}

/// The two nibbles of a tag byte are the network and key type values it
/// was built from.
pub proof fn lemma_tag_byte_nibbles(t: KeyTag)
    ensures
        tag_byte(t) & 0x0F == key_type_byte(t.key_type),
        tag_byte(t) & 0xF0 == network_byte(t.network),
        decode_tag(tag_byte(t)) == Some(t),
{
    let n = network_byte(t.network);
    let k = key_type_byte(t.key_type);
    assert((n == 0x00 || n == 0x10) && k <= 3 ==> ((n | k) & 0x0F == k && (n | k) & 0xF0 == n))
        by (bit_vector);
    lemma_tag_byte_roundtrip(t);
}

/// A byte that decodes to a key tag is exactly that tag's byte: decoding
/// loses nothing.
pub proof fn lemma_decode_byte_roundtrip(b: u8)
    ensures
        decode_tag(b) is Some ==> tag_byte(decode_tag(b).unwrap()) == b,
{
    if decode_tag(b) is Some {
        let t = decode_tag(b).unwrap();
        assert(network_byte(t.network) == b & 0xF0);
        assert(key_type_byte(t.key_type) == b & 0x0F);
        assert(((b & 0xF0) | (b & 0x0F)) == b) by (bit_vector);
    }
}

impl Network {
    /// The nibble value of this network in the tag byte.
    pub fn to_byte(&self) -> (r: u8)
        ensures
            r == network_byte(*self),
    {
        match self {
            Network::MainNet => 0x00,
            Network::TestNet => 0x10,
        }
    }
}

impl KeyType {
    /// The nibble value of this key type in the tag byte.
    pub fn to_byte(&self) -> (r: u8)
        ensures
            r == key_type_byte(*self),
    {
        match self {
            KeyType::EccCompact => 0x00,
            KeyType::Ed25519 => 0x01,
            KeyType::MultiSig => 0x02,
            KeyType::Secp256k1 => 0x03,
        }
    }
}

impl KeyTag {
    /// The tag byte of this key tag.
    pub fn to_byte(&self) -> (r: u8)
        ensures
            r == tag_byte(*self),
    {
        self.network.to_byte() | self.key_type.to_byte()
    }

    /// Decode a tag byte into a key tag; `None` when either nibble is not
    /// a known network or key type.
    pub fn from_byte(b: u8) -> (r: Option<KeyTag>)
        ensures
            r == decode_tag(b),
    {
        let lo = b & 0x0F;
        let hi = b & 0xF0;
        let key_type = if lo == 0x00 {
            Some(KeyType::EccCompact)
        } else if lo == 0x01 {
            Some(KeyType::Ed25519)
        } else if lo == 0x02 {
            Some(KeyType::MultiSig)
        } else if lo == 0x03 {
            Some(KeyType::Secp256k1)
        } else {
            None
        };
        let network = if hi == 0x00 {
            Some(Network::MainNet)
        } else if hi == 0x10 {
            Some(Network::TestNet)
        } else {
            None
        };
        match (network, key_type) {
            (Some(n), Some(k)) => Some(KeyTag { network: n, key_type: k }),
            _ => None,
        }
    }
}

impl Default for Network {
    /// The default network is the main network.
    fn default() -> (r: Self)
        ensures
            r == Network::MainNet,
    {
        Network::MainNet
    }
}

impl Default for KeyType {
    /// The default key type is Ed25519.
    fn default() -> (r: Self)
        ensures
            r == KeyType::Ed25519,
    {
        KeyType::Ed25519
    }
}

impl Default for KeyTag {
    /// The default key tag: Ed25519 on the main network.
    fn default() -> (r: Self)
        ensures
            r == (KeyTag { network: Network::MainNet, key_type: KeyType::Ed25519 }),
    {
        KeyTag { network: Network::MainNet, key_type: KeyType::Ed25519 }
    }
}

} // verus!
