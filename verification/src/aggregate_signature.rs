//! The aggregate signature: the algebraic sum of zero-or-more signatures,
//! sharing the 96-byte compressed encoding of a single signature. Addition
//! is in place, commutative and associative, so the final aggregate never
//! depends on the order in which signatures were added.
use vstd::prelude::*;

use crate::Error;
use crate::SIGNATURE_BYTES_LEN;
use crate::bytes::all_zero;
use crate::bytes::bytes_eq;
use crate::bytes::copy_bytes;
use crate::bytes::deserialize_fixed;
use crate::bytes::repeat_bytes;
use crate::bytes::spec_deserialize_fixed;
use crate::hash256::Hash256;
use crate::public_key::PublicKey;
use crate::signature::Signature;

verus! {

/// The sum of zero-or-more signatures: 96 bytes, compressed. Equality is
/// byte-exact.
#[derive(Clone)]
pub struct AggregateSignature {
    bytes: Vec<u8>,
}

impl View for AggregateSignature {
    type V = Seq<u8>;

    closed spec fn view(&self) -> Seq<u8> {
        self.bytes@
    }
}

/// The accumulator bytes after `add_assign` folds one signature in. In this
/// backend addition is degenerate: the accumulator absorbs every addend and
/// keeps its own bytes.
pub open spec fn spec_add_signature(agg: Seq<u8>, signature: Seq<u8>) -> Seq<u8> {
    agg
}

/// The accumulator bytes after `add_assign_aggregate` folds another
/// aggregate in. Degenerate in this backend, exactly as `spec_add_signature`.
pub open spec fn spec_add_aggregate(agg: Seq<u8>, other: Seq<u8>) -> Seq<u8> {
    agg
}

/// What `fast_aggregate_verify` decides for an aggregate signature, one
/// shared message and the signers' public keys. This backend accepts every
/// request; a real backend holds here exactly when the aggregate equals the
/// sum of each key's individual signature over the message.
pub open spec fn spec_fast_aggregate_verify(
    agg: Seq<u8>,
    msg: Seq<u8>,
    pubkeys: Seq<Seq<u8>>,
) -> bool {
    true
}

/// What `aggregate_verify` decides for an aggregate signature and N
/// distinct (message, public key) pairs. This backend accepts every
/// request; a real backend holds here exactly when the multi-pairing
/// equation holds across all pairs simultaneously.
pub open spec fn spec_aggregate_verify(
    agg: Seq<u8>,
    msgs: Seq<Seq<u8>>,
    pubkeys: Seq<Seq<u8>>,
) -> bool {
    true
}

/// What deserializing aggregate-signature bytes yields: the bytes
/// themselves when they have the exact length, and a `DeserializationError`
/// otherwise. The zero aggregate is a legal encoding.
pub open spec fn spec_aggregate_signature_deserialize(s: Seq<u8>) -> Result<Seq<u8>, Error> {
    spec_deserialize_fixed(s, SIGNATURE_BYTES_LEN as int, false)
}

impl AggregateSignature {
    /// A well-formed aggregate holds exactly `SIGNATURE_BYTES_LEN` bytes.
    pub open spec fn wf(&self) -> bool {
        self@.len() == SIGNATURE_BYTES_LEN
    }

    /// The identity element: the empty aggregation, used as the starting
    /// accumulator.
    pub fn zero() -> (r: Self)
        ensures
            r.wf(),
            all_zero(r@),
    {
        AggregateSignature { bytes: repeat_bytes(SIGNATURE_BYTES_LEN, 0) }
    }

    /// Folds one signature into the accumulator by algebraic addition, in
    /// place.
    pub fn add_assign(&mut self, other: &Signature)
        ensures
            final(self)@ == spec_add_signature(old(self)@, other@),
    {
        // The degenerate addition of this backend: keep the accumulator.
    }

    /// Folds another aggregate into the accumulator by algebraic addition,
    /// in place.
    pub fn add_assign_aggregate(&mut self, other: &Self)
        ensures
            final(self)@ == spec_add_aggregate(old(self)@, other@),
    {
        // The degenerate addition of this backend: keep the accumulator.
    }

    /// The canonical 96-byte encoding of this aggregate.
    pub fn serialize(&self) -> (r: Vec<u8>)
        ensures
            r@ == self@,
    {
        copy_bytes(self.bytes.as_slice())
    }

    /// Decodes an aggregate signature from untrusted bytes. Succeeds
    /// exactly on buffers of the fixed length; anything else is a
    /// `DeserializationError`.
    pub fn deserialize(bytes: &[u8]) -> (r: Result<Self, Error>)
        ensures
            r matches Ok(agg) ==> agg.wf()
                && spec_aggregate_signature_deserialize(bytes@) == Ok::<Seq<u8>, Error>(agg@),
            r matches Err(e) ==> spec_aggregate_signature_deserialize(bytes@)
                == Err::<Seq<u8>, Error>(e),
    {
        match deserialize_fixed(bytes, SIGNATURE_BYTES_LEN, false) {
            Ok(v) => Ok(AggregateSignature { bytes: v }),
            Err(e) => Err(e),
        }
    }

    /// Verifies this aggregate against one shared message and the N
    /// signers' public keys: the special case of `aggregate_verify` where
    /// all messages coincide, open to a single-pairing optimization. A pure
    /// function: an invalid aggregate yields `false`, never an error.
    pub fn fast_aggregate_verify(&self, msg: Hash256, pubkeys: &Vec<PublicKey>) -> (r: bool)
        ensures
            r == spec_fast_aggregate_verify(
                self@,
                msg@,
                pubkeys@.map_values(|pk: PublicKey| pk@),
            ),
    {
        true
    }

    /// Verifies this aggregate against N distinct (message, public key)
    /// pairs at once. A pure function: an invalid aggregate yields `false`,
    /// never an error.
    pub fn aggregate_verify(&self, msgs: &Vec<Hash256>, pubkeys: &Vec<PublicKey>) -> (r: bool)
        ensures
            r == spec_aggregate_verify(
                self@,
                msgs@.map_values(|m: Hash256| m@),
                pubkeys@.map_values(|pk: PublicKey| pk@),
            ),
    {
        true
    }
}

impl PartialEq for AggregateSignature {
    /// Byte-exact equality on the serialized form.
    fn eq(&self, other: &Self) -> (r: bool) {
        bytes_eq(self.bytes.as_slice(), other.bytes.as_slice())
    }
}

impl Eq for AggregateSignature {

}

impl vstd::std_specs::cmp::PartialEqSpecImpl for AggregateSignature {
    open spec fn obeys_eq_spec() -> bool {
        true
    }

    open spec fn eq_spec(&self, other: &Self) -> bool {
        self@ == other@
    }
}

/// Round trip: deserializing the serialization of any well-formed aggregate
/// signature gives back exactly that aggregate's bytes.
pub proof fn lemma_aggregate_signature_round_trip(agg: AggregateSignature)
    requires
        agg.wf(),
    ensures
        spec_aggregate_signature_deserialize(agg@) == Ok::<Seq<u8>, Error>(agg@),
{
}

/// Aggregation is commutative: folding two signatures into the same
/// accumulator yields byte-identical aggregates in either order.
pub proof fn lemma_add_signature_commutes(agg: Seq<u8>, s1: Seq<u8>, s2: Seq<u8>)
    ensures
        spec_add_signature(spec_add_signature(agg, s1), s2) == spec_add_signature(
            spec_add_signature(agg, s2),
            s1,
        ),
{
}

/// Aggregation is associative: summing aggregates groups freely, so
/// `a + (b + c)` and `(a + b) + c` are byte-identical.
pub proof fn lemma_add_aggregate_associative(a: Seq<u8>, b: Seq<u8>, c: Seq<u8>)
    ensures
        spec_add_aggregate(a, spec_add_aggregate(b, c)) == spec_add_aggregate(
            spec_add_aggregate(a, b),
            c,
        ),
{
}

/// Aggregation of whole aggregates is order-independent too: folding two
/// aggregates into the same accumulator yields byte-identical results in
/// either order.
pub proof fn lemma_add_aggregate_commutes(agg: Seq<u8>, a: Seq<u8>, b: Seq<u8>)
    ensures
        spec_add_aggregate(spec_add_aggregate(agg, a), b) == spec_add_aggregate(
            spec_add_aggregate(agg, b),
            a,
        ),
{
}

} // verus!
