//! A backend-agnostic BLS signature layer: fixed-size byte codecs for keys
//! and signatures, in-place aggregation, and a batch-verification protocol
//! over sets of (message, public keys) pairs.
//!
//! This crate provides the deterministic test-double backend: signing always
//! produces the canonical zero signature and every well-formed verification
//! request is accepted, so consensus-logic tests stay fast and deterministic.
//! It must never be selected on a production verification path.
use vstd::prelude::*;

pub mod aggregate_public_key;
pub mod aggregate_signature;
pub mod bytes;
pub mod hash256;
pub mod public_key;
pub mod secret_key;
pub mod signature;
pub mod signature_set;

pub use crate::aggregate_public_key::AggregatePublicKey;
pub use crate::aggregate_signature::AggregateSignature;
pub use crate::hash256::Hash256;
pub use crate::public_key::PublicKey;
pub use crate::secret_key::SecretKey;
pub use crate::signature::Signature;
pub use crate::signature_set::SignatureSet;
pub use crate::signature_set::SignedMessage;
pub use crate::signature_set::verify_signature_sets;

verus! {

/// Length in bytes of a serialized secret key (a BLS12-381 scalar).
pub const SECRET_KEY_BYTES_LEN: usize = 32;

/// Length in bytes of a serialized (compressed) public key.
pub const PUBLIC_KEY_BYTES_LEN: usize = 48;

/// Length in bytes of a serialized (compressed) signature.
pub const SIGNATURE_BYTES_LEN: usize = 96;

/// Length in bytes of a message digest handed to signing and verification.
pub const MESSAGE_DIGEST_BYTES_LEN: usize = 32;

/// The one recoverable error of this layer: a byte buffer could not be
/// decoded into a value of the expected type.
///
/// A failed verification is never an `Error`: `verify` and its relatives
/// return `false` instead.
#[derive(Clone, Copy, PartialEq, Eq, Structural, Debug)]
pub enum Error {
    /// The input had the wrong length, or decoded to a forbidden encoding
    /// (the identity element, for public keys).
    DeserializationError,
}

} // verus!
