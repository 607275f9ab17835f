//! The error type of the library. Every fallible operation reports one of
//! these kinds; no secret key material is ever carried in an error.

use vstd::prelude::*;
use crate::tag::KeyType;

verus! {

/// The error kinds of the library.
#[derive(Debug, Clone, Copy, PartialEq, Eq)]
pub enum Error {
    /// Supplied entropy or key material is unusable for the requested key
    /// type (wrong length, out-of-range scalar, or a point with no compact
    /// form).
    InvalidEntropy,
    /// A tag byte decodes to an unknown or explicitly rejected key type;
    /// carries the offending byte.
    InvalidKeyType(u8),
    /// The operation is deliberately not supported for this key type;
    /// carries the key type.
    UnsupportedOperation(KeyType),
    /// The input ended before the fixed-length key body was complete, or an
    /// underlying byte-stream failed.
    StreamIO,
    /// The underlying signing primitive rejected the operation.
    SigningError,
    /// One-time initialization of the cryptographic subsystem failed.
    CryptoInit,
    /// A base-58 string did not decode to a public key.
    InvalidBase58,
}

} // verus!
