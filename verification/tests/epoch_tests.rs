use prism_da::digest::Digest;
use prism_da::epoch::EpochError;
use prism_da::epoch::FinalizedEpoch;
use prism_da::epoch::Proof;
use prism_da::keys::KeyAlgorithm;
use prism_da::keys::SigningKey;
use prism_da::keys::VerifyingKey;

fn make_epoch() -> FinalizedEpoch {
    FinalizedEpoch {
        height: 7,
        prev_commitment: Digest::new([1u8; 32]),
        current_commitment: Digest::new([2u8; 32]),
        proof: Proof { bytes: vec![5, 6, 7, 8] },
        signature: None,
    }
}

fn ed25519_key(seed: u8) -> SigningKey {
    SigningKey::from_algorithm_and_bytes(KeyAlgorithm::Ed25519, vec![seed; 32]).unwrap()
}

fn secp256k1_key(seed: u8) -> SigningKey {
    SigningKey::from_algorithm_and_bytes(KeyAlgorithm::Secp256k1, vec![seed; 32]).unwrap()
}

#[test]
fn signed_epoch_verifies_ed25519() {
    let key = ed25519_key(3);
    let mut epoch = make_epoch();
    assert!(epoch.insert_signature(&key).is_ok());
    assert_eq!(epoch.verify_signature(key.verifying_key()), Ok(()));
}

#[test]
fn signed_epoch_verifies_secp256k1() {
    let key = secp256k1_key(3);
    let mut epoch = make_epoch();
    assert!(epoch.insert_signature(&key).is_ok());
    assert_eq!(epoch.verify_signature(key.verifying_key()), Ok(()));
}

#[test]
fn insert_signature_leaves_other_fields_unchanged() {
    let key = ed25519_key(4);
    let mut epoch = make_epoch();
    epoch.insert_signature(&key).unwrap();
    assert_eq!(epoch.height, 7);
    assert_eq!(epoch.prev_commitment, Digest::new([1u8; 32]));
    assert_eq!(epoch.current_commitment, Digest::new([2u8; 32]));
    assert_eq!(epoch.proof.bytes, vec![5, 6, 7, 8]);
    let sig = epoch.signature.as_ref().unwrap();
    assert_eq!(sig.len(), 128);
    assert!(sig.bytes().all(|b| b.is_ascii_hexdigit()));
}

#[test]
fn tamper_height_fails() {
    let key = ed25519_key(5);
    let mut epoch = make_epoch();
    epoch.insert_signature(&key).unwrap();
    epoch.height = 8;
    assert_eq!(
        epoch.verify_signature(key.verifying_key()),
        Err(EpochError::CryptographicMismatch)
    );
}

#[test]
fn tamper_prev_commitment_fails() {
    let key = ed25519_key(5);
    let mut epoch = make_epoch();
    epoch.insert_signature(&key).unwrap();
    epoch.prev_commitment = Digest::new([9u8; 32]);
    assert_eq!(
        epoch.verify_signature(key.verifying_key()),
        Err(EpochError::CryptographicMismatch)
    );
}

#[test]
fn tamper_current_commitment_fails() {
    let key = secp256k1_key(5);
    let mut epoch = make_epoch();
    epoch.insert_signature(&key).unwrap();
    epoch.current_commitment = Digest::new([9u8; 32]);
    assert_eq!(
        epoch.verify_signature(key.verifying_key()),
        Err(EpochError::CryptographicMismatch)
    );
}

#[test]
fn tamper_proof_fails() {
    let key = ed25519_key(5);
    let mut epoch = make_epoch();
    epoch.insert_signature(&key).unwrap();
    epoch.proof = Proof { bytes: vec![5, 6, 7, 9] };
    assert_eq!(
        epoch.verify_signature(key.verifying_key()),
        Err(EpochError::CryptographicMismatch)
    );
}

#[test]
fn missing_signature_fails() {
    let key = ed25519_key(6);
    let epoch = make_epoch();
    assert_eq!(
        epoch.verify_signature(key.verifying_key()),
        Err(EpochError::MissingSignature)
    );
}

#[test]
fn non_hex_signature_fails() {
    let key = ed25519_key(6);
    let mut epoch = make_epoch();
    epoch.signature = Some(String::from("not-hex!"));
    assert_eq!(
        epoch.verify_signature(key.verifying_key()),
        Err(EpochError::SignatureDecodeError)
    );
    epoch.signature = Some(String::from("abc"));
    assert_eq!(
        epoch.verify_signature(key.verifying_key()),
        Err(EpochError::SignatureDecodeError)
    );
}

#[test]
fn wrong_length_signature_fails() {
    let key = ed25519_key(6);
    let mut epoch = make_epoch();
    epoch.signature = Some(String::from("abcd"));
    assert_eq!(
        epoch.verify_signature(key.verifying_key()),
        Err(EpochError::AlgorithmOrLengthMismatch)
    );
}

#[test]
fn out_of_range_secp256k1_signature_fails() {
    let key = secp256k1_key(6);
    let mut epoch = make_epoch();
    // 64 bytes, but both scalar halves lie above the curve order.
    epoch.signature = Some("f".repeat(128));
    assert_eq!(
        epoch.verify_signature(key.verifying_key()),
        Err(EpochError::AlgorithmOrLengthMismatch)
    );
}

#[test]
fn wrong_key_same_algorithm_fails() {
    let k1 = ed25519_key(7);
    let k2 = ed25519_key(8);
    let mut epoch = make_epoch();
    epoch.insert_signature(&k1).unwrap();
    assert_eq!(
        epoch.verify_signature(k2.verifying_key()),
        Err(EpochError::CryptographicMismatch)
    );
}

#[test]
fn wrong_algorithm_never_verifies() {
    let k1 = ed25519_key(7);
    let k2 = secp256k1_key(7);
    let mut epoch = make_epoch();
    epoch.insert_signature(&k1).unwrap();
    let r = epoch.verify_signature(k2.verifying_key());
    assert!(matches!(
        r,
        Err(EpochError::AlgorithmOrLengthMismatch) | Err(EpochError::CryptographicMismatch)
    ));
}

#[test]
fn concrete_scenario() {
    let k1 = ed25519_key(41);
    let k2 = ed25519_key(42);
    let mut epoch = FinalizedEpoch {
        height: 10,
        prev_commitment: Digest::new([0xd1; 32]),
        current_commitment: Digest::new([0xd2; 32]),
        proof: Proof { bytes: vec![9, 9, 9] },
        signature: None,
    };
    epoch.insert_signature(&k1).unwrap();
    let sig = epoch.signature.clone().unwrap();
    assert!(!sig.is_empty());
    assert!(sig.bytes().all(|b| b.is_ascii_hexdigit()));
    assert_eq!(epoch.verify_signature(k1.verifying_key()), Ok(()));
    assert!(epoch.verify_signature(k2.verifying_key()).is_err());
}

#[test]
fn signing_is_deterministic() {
    let key = ed25519_key(9);
    let mut e1 = make_epoch();
    let mut e2 = make_epoch();
    e1.insert_signature(&key).unwrap();
    e2.insert_signature(&key).unwrap();
    assert_eq!(e1.signature, e2.signature);
}

#[test]
fn signing_payload_exact() {
    let epoch = make_epoch();
    let mut expected: Vec<u8> = vec![7, 0, 0, 0, 0, 0, 0, 0];
    expected.extend_from_slice(&[1u8; 32]);
    expected.extend_from_slice(&[2u8; 32]);
    expected.extend_from_slice(&[4, 0, 0, 0, 0, 0, 0, 0]);
    expected.extend_from_slice(&[5, 6, 7, 8]);
    expected.push(0);
    assert_eq!(epoch.signing_payload(), expected);
}

#[test]
fn signing_payload_ignores_signature() {
    let mut epoch = make_epoch();
    let unsigned_payload = epoch.signing_payload();
    epoch.signature = Some(String::from("aa"));
    assert_eq!(epoch.signing_payload(), unsigned_payload);
}

#[test]
fn signing_key_rejects_bad_bytes() {
    assert!(SigningKey::from_algorithm_and_bytes(KeyAlgorithm::Ed25519, vec![1; 31]).is_none());
    assert!(
        SigningKey::from_algorithm_and_bytes(KeyAlgorithm::Secp256k1, vec![0; 32]).is_none()
    );
    assert!(SigningKey::from_algorithm_and_bytes(KeyAlgorithm::Secp256k1, vec![1; 32]).is_some());
}

#[test]
fn duplicate_preserves_value() {
    let key = ed25519_key(10);
    let mut epoch = make_epoch();
    epoch.insert_signature(&key).unwrap();
    let copy = epoch.duplicate();
    assert_eq!(copy.height, epoch.height);
    assert_eq!(copy.prev_commitment, epoch.prev_commitment);
    assert_eq!(copy.current_commitment, epoch.current_commitment);
    assert_eq!(copy.proof.bytes, epoch.proof.bytes);
    assert_eq!(copy.signature, epoch.signature);
    assert_eq!(copy.verify_signature(key.verifying_key()), Ok(()));
}

#[test]
fn verifying_key_from_bytes_matches_derived() {
    let key = ed25519_key(11);
    let derived = key.verifying_key();
    let rebuilt =
        VerifyingKey::from_algorithm_and_bytes(KeyAlgorithm::Ed25519, derived.key_bytes.clone())
            .unwrap();
    let mut epoch = make_epoch();
    epoch.insert_signature(&key).unwrap();
    assert_eq!(epoch.verify_signature(rebuilt), Ok(()));

    let k2 = secp256k1_key(11);
    let d2 = k2.verifying_key();
    let r2 =
        VerifyingKey::from_algorithm_and_bytes(KeyAlgorithm::Secp256k1, d2.key_bytes.clone())
            .unwrap();
    let mut e2 = make_epoch();
    e2.insert_signature(&k2).unwrap();
    assert_eq!(e2.verify_signature(r2), Ok(()));
}

#[test]
fn verifying_key_rejects_bad_bytes() {
    assert!(VerifyingKey::from_algorithm_and_bytes(KeyAlgorithm::Ed25519, vec![1; 31]).is_none());
    assert!(
        VerifyingKey::from_algorithm_and_bytes(KeyAlgorithm::Secp256k1, vec![0; 33]).is_none()
    );
}
