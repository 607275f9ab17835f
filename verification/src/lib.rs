//! A serializable keypair library for a blockchain wallet: generation,
//! signing, binary (de)serialization with a self-describing tag byte,
//! mnemonic phrase derivation and raw seed export, for the Ed25519,
//! ECC-compact and Secp256k1 key types.

mod bytes;
pub mod crypto;
pub mod error;
pub mod keypair;
pub mod public_key;
pub mod tag;

pub use error::Error;
pub use keypair::{keypair_len_of, Keypair};
pub use public_key::{public_key_len_of, PublicKey};
pub use tag::{KeyTag, KeyType, Network};
