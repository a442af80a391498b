//! The single-signer signature type: a fixed 96-byte compressed encoding,
//! a byte-exact codec, and verification against one (public key, message)
//! pair.
use vstd::prelude::*;

use crate::Error;
use crate::SIGNATURE_BYTES_LEN;
use crate::bytes::all_zero;
use crate::bytes::bytes_eq;
use crate::bytes::copy_bytes;
use crate::bytes::deserialize_fixed;
use crate::bytes::repeat_bytes;
use crate::bytes::spec_deserialize_fixed;
use crate::hash256::Hash256;
use crate::public_key::PublicKey;
use crate::secret_key::spec_public_key_of;
use crate::secret_key::spec_sign;

verus! {

/// A BLS signature over one message digest: 96 bytes, compressed. Equality
/// is byte-exact.
#[derive(Clone)]
pub struct Signature {
    bytes: Vec<u8>,
}

impl View for Signature {
    type V = Seq<u8>;

    closed spec fn view(&self) -> Seq<u8> {
        self.bytes@
    }
}

/// What `Signature::verify` decides for given signature, key and message
/// bytes. This backend accepts every triple; a real backend holds here
/// exactly when the pairing equation binds the three together.
pub open spec fn spec_verify(signature: Seq<u8>, pubkey: Seq<u8>, msg: Seq<u8>) -> bool {
    true
}

/// What deserializing signature bytes yields: the bytes themselves when
/// they have the exact length, and a `DeserializationError` otherwise. The
/// zero signature is a legal encoding: only public keys refuse the identity.
pub open spec fn spec_signature_deserialize(s: Seq<u8>) -> Result<Seq<u8>, Error> {
    spec_deserialize_fixed(s, SIGNATURE_BYTES_LEN as int, false)
}

impl Signature {
    /// A well-formed signature holds exactly `SIGNATURE_BYTES_LEN` bytes.
    pub open spec fn wf(&self) -> bool {
        self@.len() == SIGNATURE_BYTES_LEN
    }

    /// The zero signature: the identity element of signature aggregation,
    /// and the one signature this backend's `sign` ever produces.
    pub fn zero() -> (r: Self)
        ensures
            r.wf(),
            all_zero(r@),
    {
        Signature { bytes: repeat_bytes(SIGNATURE_BYTES_LEN, 0) }
    }

    /// The canonical 96-byte encoding of this signature.
    pub fn serialize(&self) -> (r: Vec<u8>)
        ensures
            r@ == self@,
    {
        copy_bytes(self.bytes.as_slice())
    }

    /// Decodes a signature from untrusted bytes. Succeeds exactly on
    /// buffers of the fixed length; anything else is a
    /// `DeserializationError`.
    pub fn deserialize(bytes: &[u8]) -> (r: Result<Self, Error>)
        ensures
            r matches Ok(signature) ==> signature.wf()
                && spec_signature_deserialize(bytes@) == Ok::<Seq<u8>, Error>(signature@),
            r matches Err(e) ==> spec_signature_deserialize(bytes@) == Err::<Seq<u8>, Error>(e),
    {
        match deserialize_fixed(bytes, SIGNATURE_BYTES_LEN, false) {
            Ok(v) => Ok(Signature { bytes: v }),
            Err(e) => Err(e),
        }
    }

    /// Verifies this signature against one (public key, message) pair. A
    /// pure function with no side effects: an invalid signature yields
    /// `false`, never an error. This backend accepts every triple.
    pub fn verify(&self, pubkey: &PublicKey, msg: Hash256) -> (r: bool)
        ensures
            r == spec_verify(self@, pubkey@, msg@),
    {
        true
    }
}

impl PartialEq for Signature {
    /// Byte-exact equality on the serialized form.
    fn eq(&self, other: &Self) -> (r: bool) {
        bytes_eq(self.bytes.as_slice(), other.bytes.as_slice())
    }
}

impl Eq for Signature {

}

impl vstd::std_specs::cmp::PartialEqSpecImpl for Signature {
    open spec fn obeys_eq_spec() -> bool {
        true
    }

    open spec fn eq_spec(&self, other: &Self) -> bool {
        self@ == other@
    }
}

/// Round trip: deserializing the serialization of any well-formed signature
/// gives back exactly that signature's bytes.
pub proof fn lemma_signature_round_trip(signature: Signature)
    requires
        signature.wf(),
    ensures
        spec_signature_deserialize(signature@) == Ok::<Seq<u8>, Error>(signature@),
{
}

/// Signing then verifying succeeds: a signature produced by `sign` passes
/// `verify` under the signer's derived public key and the signed message.
pub proof fn lemma_sign_then_verify(sk: Seq<u8>, msg: Seq<u8>)
    ensures
        spec_verify(spec_sign(sk, msg), spec_public_key_of(sk), msg),
{
}

} // verus!
