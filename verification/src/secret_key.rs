//! The secret key: a fixed 32-byte scalar, exclusively owned by its holder
//! and never serialized except explicitly. It derives the holder's public
//! key and signs message digests.
use vstd::prelude::*;

use crate::Error;
use crate::PUBLIC_KEY_BYTES_LEN;
use crate::SECRET_KEY_BYTES_LEN;
use crate::SIGNATURE_BYTES_LEN;
use crate::bytes::all_zero;
use crate::bytes::copy_bytes;
use crate::bytes::deserialize_fixed;
use crate::bytes::repeat_bytes;
use crate::bytes::spec_deserialize_fixed;
use crate::bytes::zero_seq;
use crate::hash256::Hash256;
use crate::public_key::PublicKey;
use crate::signature::Signature;

verus! {

/// A BLS secret key: 32 bytes. It has no equality operator and is only
/// serialized through the explicit `serialize` call.
#[derive(Clone)]
pub struct SecretKey {
    bytes: Vec<u8>,
}

impl View for SecretKey {
    type V = Seq<u8>;

    closed spec fn view(&self) -> Seq<u8> {
        self.bytes@
    }
}

/// The public key `public_key` derives from the given secret-key bytes. In
/// this backend every secret key maps to the identity public key.
pub open spec fn spec_public_key_of(sk: Seq<u8>) -> Seq<u8> {
    zero_seq(PUBLIC_KEY_BYTES_LEN as int)
}

/// The signature `sign` produces over the given secret-key and message
/// bytes. This backend always produces the canonical zero signature.
pub open spec fn spec_sign(sk: Seq<u8>, msg: Seq<u8>) -> Seq<u8> {
    zero_seq(SIGNATURE_BYTES_LEN as int)
}

/// What deserializing secret-key bytes yields: the bytes themselves when
/// they have the exact length, and a `DeserializationError` otherwise.
pub open spec fn spec_secret_key_deserialize(s: Seq<u8>) -> Result<Seq<u8>, Error> {
    spec_deserialize_fixed(s, SECRET_KEY_BYTES_LEN as int, false)
}

impl SecretKey {
    /// A well-formed secret key holds exactly `SECRET_KEY_BYTES_LEN` bytes.
    pub open spec fn wf(&self) -> bool {
        self@.len() == SECRET_KEY_BYTES_LEN
    }

    /// Draws a fresh key. The backend decides the entropy source; this
    /// deterministic backend always hands out the all-zero scalar.
    pub fn random() -> (r: Self)
        ensures
            r.wf(),
            all_zero(r@),
    {
        SecretKey { bytes: repeat_bytes(SECRET_KEY_BYTES_LEN, 0) }
    }

    /// Derives the public key: a pure, deterministic function of the secret
    /// key.
    pub fn public_key(&self) -> (r: PublicKey)
        ensures
            r.wf(),
            r@ == spec_public_key_of(self@),
    {
        let r = PublicKey::zero();
        proof {
            assert(r@ =~= spec_public_key_of(self@));
        }
        r
    }

    /// Signs a 32-byte message digest: deterministic in (secret, message).
    /// This backend always returns the canonical zero signature.
    pub fn sign(&self, msg: Hash256) -> (r: Signature)
        ensures
            r.wf(),
            r@ == spec_sign(self@, msg@),
    {
        let r = Signature::zero();
        proof {
            assert(r@ =~= spec_sign(self@, msg@));
        }
        r
    }

    /// The explicit 32-byte encoding of this key; the only way its bytes
    /// ever leave the holder.
    pub fn serialize(&self) -> (r: Vec<u8>)
        ensures
            r@ == self@,
    {
        copy_bytes(self.bytes.as_slice())
    }

    /// Decodes a secret key. Succeeds exactly on buffers of the fixed
    /// length; anything else is a `DeserializationError`.
    pub fn deserialize(bytes: &[u8]) -> (r: Result<Self, Error>)
        ensures
            r matches Ok(sk) ==> sk.wf()
                && spec_secret_key_deserialize(bytes@) == Ok::<Seq<u8>, Error>(sk@),
            r matches Err(e) ==> spec_secret_key_deserialize(bytes@) == Err::<Seq<u8>, Error>(e),
    {
        match deserialize_fixed(bytes, SECRET_KEY_BYTES_LEN, false) {
            Ok(v) => Ok(SecretKey { bytes: v }),
            Err(e) => Err(e),
        }
    }
}

/// Round trip: deserializing the serialization of any well-formed secret
/// key gives back exactly that key's bytes.
pub proof fn lemma_secret_key_round_trip(sk: SecretKey)
    requires
        sk.wf(),
    ensures
        spec_secret_key_deserialize(sk@) == Ok::<Seq<u8>, Error>(sk@),
{
}

} // verus!
