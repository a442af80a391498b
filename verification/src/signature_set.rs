//! Batch verification: a `SignatureSet` pairs one aggregate signature with
//! one-or-more (message, public keys) entries, and `verify_signature_sets`
//! decides a whole batch, observationally equal to verifying each set
//! independently and AND-ing the results.
use vstd::prelude::*;

use crate::aggregate_signature::AggregateSignature;
use crate::hash256::Hash256;
use crate::public_key::PublicKey;

verus! {

/// One entry of a verification request: a message digest together with the
/// public keys whose individual signatures over it were aggregated.
pub struct SignedMessage {
    /// The keys to be aggregated for this message.
    pub signing_keys: Vec<PublicKey>,
    /// The digest each of those keys is claimed to have signed.
    pub message: Hash256,
}

impl SignedMessage {
    /// Pairs a message digest with its claimed signing keys.
    pub fn new(signing_keys: Vec<PublicKey>, message: Hash256) -> (r: Self)
        ensures
            r.signing_keys == signing_keys,
            r.message == message,
    {
        SignedMessage { signing_keys, message }
    }
}

/// An ephemeral verification request: one aggregate signature and the
/// ordered, one-or-more (message, keys) entries it must cover.
pub struct SignatureSet {
    /// The aggregate signature under test.
    pub signature: AggregateSignature,
    /// The entries the signature must cover; a valid set has at least one.
    pub signed_messages: Vec<SignedMessage>,
}

/// What `is_valid` decides for one set. A set with no entries is invalid
/// outright; this backend accepts every non-empty request, while a real
/// backend additionally demands that the pairing equation hold.
pub open spec fn spec_signature_set_valid(set: SignatureSet) -> bool {
    set.signed_messages@.len() > 0
}

/// What `verify_signature_sets` decides for a batch: every set in it is
/// valid. Over zero sets this is vacuously true.
pub open spec fn spec_batch_valid(sets: Seq<SignatureSet>) -> bool {
    forall|i: int| 0 <= i < sets.len() ==> spec_signature_set_valid(sets[i])
}

impl SignatureSet {
    /// Builds a set from an aggregate signature and its entries. Validity
    /// demands at least one entry; a set built empty never verifies.
    pub fn new(signature: AggregateSignature, signed_messages: Vec<SignedMessage>) -> (r: Self)
        ensures
            r.signature == signature,
            r.signed_messages == signed_messages,
    {
        SignatureSet { signature, signed_messages }
    }

    /// The common single-entry request: one message, one signing key.
    pub fn single_pubkey(signature: AggregateSignature, pubkey: PublicKey, message: Hash256) -> (r:
        Self)
        ensures
            r.signature == signature,
            r.signed_messages@.len() == 1,
            r.signed_messages@[0].signing_keys@ == seq![pubkey],
            r.signed_messages@[0].message == message,
            spec_signature_set_valid(r),
    {
        let mut signing_keys: Vec<PublicKey> = Vec::new();
        signing_keys.push(pubkey);
        let mut signed_messages: Vec<SignedMessage> = Vec::new();
        signed_messages.push(SignedMessage::new(signing_keys, message));
        SignatureSet { signature, signed_messages }
    }

    /// A single-entry request where many keys signed the same message.
    pub fn multiple_pubkeys(
        signature: AggregateSignature,
        pubkeys: Vec<PublicKey>,
        message: Hash256,
    ) -> (r: Self)
        ensures
            r.signature == signature,
            r.signed_messages@.len() == 1,
            r.signed_messages@[0].signing_keys == pubkeys,
            r.signed_messages@[0].message == message,
            spec_signature_set_valid(r),
    {
        let mut signed_messages: Vec<SignedMessage> = Vec::new();
        signed_messages.push(SignedMessage::new(pubkeys, message));
        SignatureSet { signature, signed_messages }
    }

    /// Decides this one set: `false` for a set with no entries; otherwise a
    /// single entry goes through the one-message fast path and several
    /// entries go through the general multi-message check.
    pub fn is_valid(&self) -> (r: bool)
        ensures
            r == spec_signature_set_valid(*self),
    {
        if self.signed_messages.len() == 0 {
            return false;
        }
        if self.signed_messages.len() == 1 {
            let entry = &self.signed_messages[0];
            self.signature.fast_aggregate_verify(entry.message.clone(), &entry.signing_keys)
        } else {
            let mut msgs: Vec<Hash256> = Vec::new();
            let mut keys: Vec<PublicKey> = Vec::new();
            let mut i: usize = 0;
            while i < self.signed_messages.len()
                invariant
                    i <= self.signed_messages@.len(),
                decreases self.signed_messages@.len() - i,
            {
                let entry = &self.signed_messages[i];
                msgs.push(entry.message.clone());
                let mut j: usize = 0;
                while j < entry.signing_keys.len()
                    invariant
                        j <= entry.signing_keys@.len(),
                    decreases entry.signing_keys@.len() - j,
                {
                    keys.push(entry.signing_keys[j].clone());
                    j = j + 1;
                }
                i = i + 1;
            }
            self.signature.aggregate_verify(&msgs, &keys)
        }
    }
}

/// Decides a whole batch: `true` exactly when every set in the batch is
/// valid, equal to verifying each set independently and AND-ing the
/// results. Over zero sets the answer is vacuously `true`, so callers must
/// never treat an accidentally empty batch as evidence.
pub fn verify_signature_sets(signature_sets: &Vec<SignatureSet>) -> (r: bool)
    ensures
        r == spec_batch_valid(signature_sets@),
{
    let mut i: usize = 0;
    while i < signature_sets.len()
        invariant
            i <= signature_sets@.len(),
            forall|j: int| 0 <= j < i ==> spec_signature_set_valid(signature_sets@[j]),
        decreases signature_sets@.len() - i,
    {
        if !signature_sets[i].is_valid() {
            return false;
        }
        i = i + 1;
    }
    true
}

/// A batch of two sets decides exactly as the conjunction of the two sets
/// decided independently.
pub proof fn lemma_batch_of_two(a: SignatureSet, b: SignatureSet)
    ensures
        spec_batch_valid(seq![a, b]) <==> (spec_signature_set_valid(a) && spec_signature_set_valid(
            b,
        )),
{
    let sets = seq![a, b];
    assert(sets[0] == a);
    assert(sets[1] == b);
}

/// The empty batch verifies vacuously: an AND over zero sets is `true`.
pub proof fn lemma_empty_batch_valid()
    ensures
        spec_batch_valid(Seq::<SignatureSet>::empty()),
{
}

} // verus!
