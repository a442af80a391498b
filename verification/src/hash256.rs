//! The 32-byte message digest that callers sign and verify against.
use vstd::prelude::*;

use crate::Error;
use crate::MESSAGE_DIGEST_BYTES_LEN;
use crate::bytes::copy_bytes;
use crate::bytes::deserialize_fixed;
use crate::bytes::repeat_bytes;
use crate::bytes::spec_deserialize_fixed;

verus! {

/// A 32-byte message digest. The consensus logic produces these; this layer
/// only carries them into signing and verification.
#[derive(Clone)]
pub struct Hash256 {
    bytes: Vec<u8>,
}

impl View for Hash256 {
    type V = Seq<u8>;

    closed spec fn view(&self) -> Seq<u8> {
        self.bytes@
    }
}

impl Hash256 {
    /// A well-formed digest holds exactly `MESSAGE_DIGEST_BYTES_LEN` bytes.
    pub open spec fn wf(&self) -> bool {
        self@.len() == MESSAGE_DIGEST_BYTES_LEN
    }

    /// The digest whose 32 bytes all hold `value`.
    pub fn repeat_byte(value: u8) -> (r: Self)
        ensures
            r.wf(),
            forall|i: int| 0 <= i < r@.len() ==> r@[i] == value,
    {
        Hash256 { bytes: repeat_bytes(MESSAGE_DIGEST_BYTES_LEN, value) }
    }

    /// Builds a digest from a byte slice; the slice must hold exactly the
    /// fixed digest length, else a `DeserializationError` comes back.
    pub fn from_bytes(bytes: &[u8]) -> (r: Result<Self, Error>)
        ensures
            r matches Ok(h) ==> h.wf()
                && spec_deserialize_fixed(bytes@, MESSAGE_DIGEST_BYTES_LEN as int, false)
                    == Ok::<Seq<u8>, Error>(h@),
            r matches Err(e) ==> spec_deserialize_fixed(
                bytes@,
                MESSAGE_DIGEST_BYTES_LEN as int,
                false,
            ) == Err::<Seq<u8>, Error>(e),
    {
        match deserialize_fixed(bytes, MESSAGE_DIGEST_BYTES_LEN, false) {
            Ok(v) => Ok(Hash256 { bytes: v }),
            Err(e) => Err(e),
        }
    }

    /// Hands out the digest's bytes.
    pub fn serialize(&self) -> (r: Vec<u8>)
        ensures
            r@ == self@,
    {
        copy_bytes(self.bytes.as_slice())
    }
}

} // verus!
