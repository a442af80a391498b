//! The public-key type: a fixed 48-byte compressed encoding with a
//! byte-exact codec. Deserialization refuses the identity element, so a
//! degenerate "unsigned" proof can never be smuggled in from untrusted bytes.
use vstd::prelude::*;

use crate::Error;
use crate::PUBLIC_KEY_BYTES_LEN;
use crate::bytes::all_zero;
use crate::bytes::bytes_eq;
use crate::bytes::copy_bytes;
use crate::bytes::deserialize_fixed;
use crate::bytes::repeat_bytes;
use crate::bytes::spec_deserialize_fixed;

verus! {

/// A BLS public key: 48 bytes, compressed. Immutable once created; equality
/// is byte-exact.
#[derive(Clone)]
pub struct PublicKey {
    bytes: Vec<u8>,
}

impl View for PublicKey {
    type V = Seq<u8>;

    closed spec fn view(&self) -> Seq<u8> {
        self.bytes@
    }
}

/// What deserializing public-key bytes yields: the bytes themselves when
/// they have the exact length and are not the identity encoding, and a
/// `DeserializationError` otherwise.
pub open spec fn spec_public_key_deserialize(s: Seq<u8>) -> Result<Seq<u8>, Error> {
    spec_deserialize_fixed(s, PUBLIC_KEY_BYTES_LEN as int, true)
}

impl PublicKey {
    /// A well-formed public key holds exactly `PUBLIC_KEY_BYTES_LEN` bytes.
    pub open spec fn wf(&self) -> bool {
        self@.len() == PUBLIC_KEY_BYTES_LEN
    }

    /// The identity element (the point at infinity, encoded as all zeroes).
    /// `deserialize` refuses this encoding, so it can only be constructed,
    /// never read back from untrusted bytes.
    pub fn zero() -> (r: Self)
        ensures
            r.wf(),
            all_zero(r@),
    {
        PublicKey { bytes: repeat_bytes(PUBLIC_KEY_BYTES_LEN, 0) }
    }

    /// The canonical 48-byte encoding of this key.
    pub fn serialize(&self) -> (r: Vec<u8>)
        ensures
            r@ == self@,
    {
        copy_bytes(self.bytes.as_slice())
    }

    /// Decodes a public key from untrusted bytes. Succeeds exactly on
    /// buffers of the fixed length that do not encode the identity element;
    /// anything else is a `DeserializationError`.
    pub fn deserialize(bytes: &[u8]) -> (r: Result<Self, Error>)
        ensures
            r matches Ok(pk) ==> pk.wf()
                && spec_public_key_deserialize(bytes@) == Ok::<Seq<u8>, Error>(pk@),
            r matches Err(e) ==> spec_public_key_deserialize(bytes@) == Err::<Seq<u8>, Error>(e),
    {
        match deserialize_fixed(bytes, PUBLIC_KEY_BYTES_LEN, true) {
            Ok(v) => Ok(PublicKey { bytes: v }),
            Err(e) => Err(e),
        }
    }
}

impl PartialEq for PublicKey {
    /// Byte-exact equality on the serialized form.
    fn eq(&self, other: &Self) -> (r: bool) {
        bytes_eq(self.bytes.as_slice(), other.bytes.as_slice())
    }
}

impl Eq for PublicKey {

}

impl vstd::std_specs::cmp::PartialEqSpecImpl for PublicKey {
    open spec fn obeys_eq_spec() -> bool {
        true
    }

    open spec fn eq_spec(&self, other: &Self) -> bool {
        self@ == other@
    }
}

/// Round trip: deserializing the serialization of any valid (well-formed,
/// non-identity) public key gives back exactly that key's bytes.
pub proof fn lemma_public_key_round_trip(pk: PublicKey)
    requires
        pk.wf(),
        !all_zero(pk@),
    ensures
        spec_public_key_deserialize(pk@) == Ok::<Seq<u8>, Error>(pk@),
{
}

} // verus!
