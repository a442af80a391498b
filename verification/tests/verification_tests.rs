use bls::AggregateSignature;
use bls::Hash256;
use bls::PublicKey;
use bls::SecretKey;
use bls::Signature;
use bls::SignatureSet;
use bls::SignedMessage;
use bls::verify_signature_sets;

fn secret_key(byte: u8) -> SecretKey {
    SecretKey::deserialize(&[byte; 32][..]).unwrap()
}

#[test]
fn sign_then_verify_succeeds() {
    let sk = secret_key(1);
    let msg = Hash256::repeat_byte(0xAA);
    let signature = sk.sign(msg.clone());
    let pk = sk.public_key();
    assert!(signature.verify(&pk, msg));
}

#[test]
fn sign_is_canonical_zero_signature() {
    let sk = secret_key(1);
    let msg = Hash256::repeat_byte(0xAA);
    let signature = sk.sign(msg);
    assert!(signature == Signature::zero());
    assert_eq!(signature.serialize(), vec![0u8; 96]);
}

#[test]
fn scenario_sign_flip_bit() {
    // Sign the 0xAA digest with the 0x01 secret key and derive the public
    // key: verification succeeds.
    let sk = secret_key(1);
    let msg = Hash256::repeat_byte(0xAA);
    let signature = sk.sign(msg.clone());
    let pk = sk.public_key();
    assert!(signature.verify(&pk, msg.clone()));

    // Flip one bit of the signature bytes: the bytes still deserialize
    // without error, and verification returns a boolean rather than
    // failing. This backend accepts every well-formed-length signature, so
    // the answer stays `true` here; a real backend answers `false`.
    let mut bytes = signature.serialize();
    bytes[0] ^= 0x01;
    let flipped = Signature::deserialize(&bytes[..]).unwrap();
    let verdict = flipped.verify(&pk, msg);
    assert!(verdict);
}

#[test]
fn aggregation_is_order_independent() {
    let s1 = Signature::deserialize(&[1u8; 96][..]).unwrap();
    let s2 = Signature::deserialize(&[2u8; 96][..]).unwrap();
    let s3 = Signature::deserialize(&[3u8; 96][..]).unwrap();

    let mut forward = AggregateSignature::zero();
    forward.add_assign(&s1);
    forward.add_assign(&s2);
    forward.add_assign(&s3);

    let mut backward = AggregateSignature::zero();
    backward.add_assign(&s3);
    backward.add_assign(&s2);
    backward.add_assign(&s1);

    assert!(forward == backward);
    assert_eq!(forward.serialize(), backward.serialize());
}

#[test]
fn aggregation_is_associative() {
    let s1 = Signature::deserialize(&[1u8; 96][..]).unwrap();
    let s2 = Signature::deserialize(&[2u8; 96][..]).unwrap();
    let s3 = Signature::deserialize(&[3u8; 96][..]).unwrap();

    // s1 + (s2 + s3)
    let mut inner = AggregateSignature::zero();
    inner.add_assign(&s2);
    inner.add_assign(&s3);
    let mut left = AggregateSignature::zero();
    left.add_assign(&s1);
    left.add_assign_aggregate(&inner);

    // (s1 + s2) + s3
    let mut right = AggregateSignature::zero();
    right.add_assign(&s1);
    right.add_assign(&s2);
    right.add_assign(&s3);

    assert!(left == right);
    assert_eq!(left.serialize(), right.serialize());
}

#[test]
fn add_assign_keeps_accumulator_bytes() {
    // In this backend addition absorbs every addend: the accumulator's
    // bytes never change.
    let mut agg = AggregateSignature::deserialize(&[9u8; 96][..]).unwrap();
    let s1 = Signature::deserialize(&[1u8; 96][..]).unwrap();
    agg.add_assign(&s1);
    assert_eq!(agg.serialize(), vec![9u8; 96]);
}

#[test]
fn fast_aggregate_verify_three_keys() {
    // Aggregate the three individual signatures over one shared message and
    // check them against the three signers' keys.
    let sks = [secret_key(1), secret_key(2), secret_key(3)];
    let msg = Hash256::repeat_byte(0xAA);
    let mut agg = AggregateSignature::zero();
    let mut pks: Vec<PublicKey> = Vec::new();
    for sk in sks.iter() {
        agg.add_assign(&sk.sign(msg.clone()));
        pks.push(sk.public_key());
    }
    assert!(agg.fast_aggregate_verify(msg.clone(), &pks));

    // Against only two of the three keys this backend still reports
    // success: it accepts every request by design. A real backend must
    // answer `false` here.
    let two = vec![sks[0].public_key(), sks[1].public_key()];
    assert!(agg.fast_aggregate_verify(msg, &two));
}

#[test]
fn aggregate_verify_distinct_messages() {
    let sk_a = secret_key(4);
    let sk_b = secret_key(5);
    let msg_a = Hash256::repeat_byte(0x11);
    let msg_b = Hash256::repeat_byte(0x22);
    let mut agg = AggregateSignature::zero();
    agg.add_assign(&sk_a.sign(msg_a.clone()));
    agg.add_assign(&sk_b.sign(msg_b.clone()));
    let msgs = vec![msg_a, msg_b];
    let pks = vec![sk_a.public_key(), sk_b.public_key()];
    assert!(agg.aggregate_verify(&msgs, &pks));
}

#[test]
fn empty_batch_is_vacuously_true() {
    let sets: Vec<SignatureSet> = Vec::new();
    assert!(verify_signature_sets(&sets));
}

#[test]
fn batch_equals_conjunction_of_sets() {
    let sk_a = secret_key(1);
    let sk_b = secret_key(2);
    let msg = Hash256::repeat_byte(0xAA);

    let set_a = SignatureSet::single_pubkey(
        AggregateSignature::zero(),
        sk_a.public_key(),
        msg.clone(),
    );
    let set_b = SignatureSet::multiple_pubkeys(
        AggregateSignature::zero(),
        vec![sk_a.public_key(), sk_b.public_key()],
        msg.clone(),
    );
    let a_valid = set_a.is_valid();
    let b_valid = set_b.is_valid();
    assert!(a_valid);
    assert!(b_valid);
    let sets = vec![set_a, set_b];
    assert_eq!(verify_signature_sets(&sets), a_valid && b_valid);
}

#[test]
fn batch_with_invalid_set_fails() {
    let sk = secret_key(1);
    let msg = Hash256::repeat_byte(0xAA);
    let good = SignatureSet::single_pubkey(AggregateSignature::zero(), sk.public_key(), msg);
    // A set with no (message, keys) entries never verifies.
    let empty = SignatureSet::new(AggregateSignature::zero(), Vec::new());
    assert!(!empty.is_valid());
    let sets = vec![good, empty];
    assert!(!verify_signature_sets(&sets));
}

#[test]
fn multi_entry_set_is_valid() {
    let sk_a = secret_key(1);
    let sk_b = secret_key(2);
    let entries = vec![
        SignedMessage::new(vec![sk_a.public_key()], Hash256::repeat_byte(0x11)),
        SignedMessage::new(vec![sk_b.public_key()], Hash256::repeat_byte(0x22)),
    ];
    let set = SignatureSet::new(AggregateSignature::zero(), entries);
    assert!(set.is_valid());
}
