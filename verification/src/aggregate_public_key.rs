//! The aggregate public key: the algebraic sum of zero-or-more public keys,
//! sharing the 48-byte compressed encoding of a single key. Its identity
//! element is the required starting accumulator for key aggregation.
use vstd::prelude::*;

use crate::Error;
use crate::PUBLIC_KEY_BYTES_LEN;
use crate::bytes::all_zero;
use crate::bytes::bytes_eq;
use crate::bytes::copy_bytes;
use crate::bytes::deserialize_fixed;
use crate::bytes::repeat_bytes;
use crate::bytes::spec_deserialize_fixed;

verus! {

/// The sum of zero-or-more public keys: 48 bytes, compressed. Equality is
/// byte-exact.
#[derive(Clone)]
pub struct AggregatePublicKey {
    bytes: Vec<u8>,
}

impl View for AggregatePublicKey {
    type V = Seq<u8>;

    closed spec fn view(&self) -> Seq<u8> {
        self.bytes@
    }
}

/// What deserializing aggregate-public-key bytes yields: the bytes
/// themselves when they have the exact length and are not the identity
/// encoding, and a `DeserializationError` otherwise.
pub open spec fn spec_aggregate_public_key_deserialize(s: Seq<u8>) -> Result<Seq<u8>, Error> {
    spec_deserialize_fixed(s, PUBLIC_KEY_BYTES_LEN as int, true)
}

impl AggregatePublicKey {
    /// A well-formed aggregate key holds exactly `PUBLIC_KEY_BYTES_LEN`
    /// bytes.
    pub open spec fn wf(&self) -> bool {
        self@.len() == PUBLIC_KEY_BYTES_LEN
    }

    /// The identity element: the empty aggregation, used as the starting
    /// accumulator. `deserialize` refuses this encoding.
    pub fn zero() -> (r: Self)
        ensures
            r.wf(),
            all_zero(r@),
    {
        AggregatePublicKey { bytes: repeat_bytes(PUBLIC_KEY_BYTES_LEN, 0) }
    }

    /// The canonical 48-byte encoding of this aggregate key.
    pub fn serialize(&self) -> (r: Vec<u8>)
        ensures
            r@ == self@,
    {
        copy_bytes(self.bytes.as_slice())
    }

    /// Decodes an aggregate key from untrusted bytes. Succeeds exactly on
    /// buffers of the fixed length that do not encode the identity element;
    /// anything else is a `DeserializationError`.
    pub fn deserialize(bytes: &[u8]) -> (r: Result<Self, Error>)
        ensures
            r matches Ok(key) ==> key.wf()
                && spec_aggregate_public_key_deserialize(bytes@) == Ok::<Seq<u8>, Error>(key@),
            r matches Err(e) ==> spec_aggregate_public_key_deserialize(bytes@)
                == Err::<Seq<u8>, Error>(e),
    {
        match deserialize_fixed(bytes, PUBLIC_KEY_BYTES_LEN, true) {
            Ok(v) => Ok(AggregatePublicKey { bytes: v }),
            Err(e) => Err(e),
        }
    }
}

impl PartialEq for AggregatePublicKey {
    /// Byte-exact equality on the serialized form.
    fn eq(&self, other: &Self) -> (r: bool) {
        bytes_eq(self.bytes.as_slice(), other.bytes.as_slice())
    }
}

impl Eq for AggregatePublicKey {

}

impl vstd::std_specs::cmp::PartialEqSpecImpl for AggregatePublicKey {
    open spec fn obeys_eq_spec() -> bool {
        true
    }

    open spec fn eq_spec(&self, other: &Self) -> bool {
        self@ == other@
    }
}

/// Round trip: deserializing the serialization of any valid (well-formed,
/// non-identity) aggregate public key gives back exactly that key's bytes.
pub proof fn lemma_aggregate_public_key_round_trip(key: AggregatePublicKey)
    requires
        key.wf(),
        !all_zero(key@),
    ensures
        spec_aggregate_public_key_deserialize(key@) == Ok::<Seq<u8>, Error>(key@),
{
}

} // verus!
