use bls::AggregatePublicKey;
use bls::AggregateSignature;
use bls::Error;
use bls::Hash256;
use bls::PublicKey;
use bls::SecretKey;
use bls::Signature;

#[test]
fn public_key_round_trip() {
    let bytes = [5u8; 48];
    let pk = PublicKey::deserialize(&bytes[..]).unwrap();
    assert_eq!(pk.serialize(), bytes.to_vec());
    let again = PublicKey::deserialize(&pk.serialize()[..]).unwrap();
    assert!(again == pk);
}

#[test]
fn public_key_wrong_length_rejected() {
    assert!(PublicKey::deserialize(&[5u8; 47][..]).is_err());
    assert!(PublicKey::deserialize(&[5u8; 49][..]).is_err());
    assert!(PublicKey::deserialize(&[][..]).is_err());
    assert!(matches!(
        PublicKey::deserialize(&[5u8; 96][..]),
        Err(Error::DeserializationError)
    ));
}

#[test]
fn public_key_identity_rejected() {
    assert!(matches!(
        PublicKey::deserialize(&[0u8; 48][..]),
        Err(Error::DeserializationError)
    ));
    // The identity key can be constructed, but its encoding never reads back.
    let zero = PublicKey::zero();
    assert_eq!(zero.serialize(), vec![0u8; 48]);
    assert!(PublicKey::deserialize(&zero.serialize()[..]).is_err());
}

#[test]
fn public_key_equality_is_byte_exact() {
    let a = PublicKey::deserialize(&[5u8; 48][..]).unwrap();
    let b = PublicKey::deserialize(&[5u8; 48][..]).unwrap();
    let c = PublicKey::deserialize(&[6u8; 48][..]).unwrap();
    assert!(a == b);
    assert!(a != c);
}

#[test]
fn aggregate_public_key_round_trip() {
    let bytes = [9u8; 48];
    let key = AggregatePublicKey::deserialize(&bytes[..]).unwrap();
    assert_eq!(key.serialize(), bytes.to_vec());
    let again = AggregatePublicKey::deserialize(&key.serialize()[..]).unwrap();
    assert!(again == key);
}

#[test]
fn aggregate_public_key_wrong_length_rejected() {
    assert!(AggregatePublicKey::deserialize(&[9u8; 47][..]).is_err());
    assert!(AggregatePublicKey::deserialize(&[9u8; 49][..]).is_err());
    assert!(AggregatePublicKey::deserialize(&[][..]).is_err());
}

#[test]
fn aggregate_public_key_identity_rejected() {
    assert!(matches!(
        AggregatePublicKey::deserialize(&[0u8; 48][..]),
        Err(Error::DeserializationError)
    ));
    assert_eq!(AggregatePublicKey::zero().serialize(), vec![0u8; 48]);
}

#[test]
fn signature_round_trip() {
    let bytes = [7u8; 96];
    let signature = Signature::deserialize(&bytes[..]).unwrap();
    assert_eq!(signature.serialize(), bytes.to_vec());
    let again = Signature::deserialize(&signature.serialize()[..]).unwrap();
    assert!(again == signature);
}

#[test]
fn signature_zero_encoding_is_legal() {
    // Unlike public keys, the zero signature is a legal encoding: it is the
    // aggregation identity and what this backend's `sign` produces.
    let zero = Signature::zero();
    assert_eq!(zero.serialize(), vec![0u8; 96]);
    let again = Signature::deserialize(&zero.serialize()[..]).unwrap();
    assert!(again == zero);
}

#[test]
fn signature_wrong_length_rejected() {
    assert!(Signature::deserialize(&[7u8; 95][..]).is_err());
    assert!(Signature::deserialize(&[7u8; 97][..]).is_err());
    assert!(Signature::deserialize(&[7u8; 48][..]).is_err());
    assert!(matches!(
        Signature::deserialize(&[][..]),
        Err(Error::DeserializationError)
    ));
}

#[test]
fn aggregate_signature_round_trip() {
    let bytes = [3u8; 96];
    let agg = AggregateSignature::deserialize(&bytes[..]).unwrap();
    assert_eq!(agg.serialize(), bytes.to_vec());
    let again = AggregateSignature::deserialize(&agg.serialize()[..]).unwrap();
    assert!(again == agg);
}

#[test]
fn aggregate_signature_wrong_length_rejected() {
    assert!(AggregateSignature::deserialize(&[3u8; 95][..]).is_err());
    assert!(AggregateSignature::deserialize(&[3u8; 97][..]).is_err());
    assert!(AggregateSignature::deserialize(&[][..]).is_err());
}

#[test]
fn secret_key_round_trip() {
    let bytes = [1u8; 32];
    let sk = SecretKey::deserialize(&bytes[..]).unwrap();
    assert_eq!(sk.serialize(), bytes.to_vec());
}

#[test]
fn secret_key_wrong_length_rejected() {
    assert!(SecretKey::deserialize(&[1u8; 31][..]).is_err());
    assert!(SecretKey::deserialize(&[1u8; 33][..]).is_err());
    assert!(matches!(
        SecretKey::deserialize(&[][..]),
        Err(Error::DeserializationError)
    ));
}

#[test]
fn secret_key_random_is_deterministic_zero() {
    // This backend's entropy source is the deterministic all-zero scalar.
    assert_eq!(SecretKey::random().serialize(), vec![0u8; 32]);
}

#[test]
fn hash256_repeat_byte_and_from_bytes() {
    let digest = Hash256::repeat_byte(0xAA);
    assert_eq!(digest.serialize(), vec![0xAAu8; 32]);
    let other = Hash256::from_bytes(&[0xAAu8; 32][..]).unwrap();
    assert_eq!(other.serialize(), digest.serialize());
    assert!(Hash256::from_bytes(&[0xAAu8; 31][..]).is_err());
    assert!(Hash256::from_bytes(&[0xAAu8; 33][..]).is_err());
}
