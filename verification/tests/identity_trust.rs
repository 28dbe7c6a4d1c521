use synchole::{
    AllowListTrustPolicy, DeviceId, DeviceIdentity, KeyAlgorithm, PublicKeyBytes,
    SecretKeyMaterial, SyncholeError, TrustPolicy, UserId,
};

fn identity(user: &str, device: &str) -> DeviceIdentity {
    DeviceIdentity {
        user_id: UserId::from(user),
        device_id: DeviceId::from(device),
        display_name: device.to_owned(),
        signing_key: PublicKeyBytes {
            algorithm: KeyAlgorithm::Ed25519,
            bytes: vec![7; 32],
        },
        encryption_key: PublicKeyBytes {
            algorithm: KeyAlgorithm::Ed25519,
            bytes: vec![8; 32],
        },
        created_at_ms: 42,
        expires_at_ms: None,
    }
}

fn identity_with_keys(user: &str, device: &str) -> DeviceIdentity {
    DeviceIdentity {
        user_id: UserId::from(user),
        device_id: DeviceId::from(device),
        display_name: device.to_owned(),
        signing_key: PublicKeyBytes {
            algorithm: KeyAlgorithm::Ed25519,
            bytes: vec![1; 32],
        },
        encryption_key: PublicKeyBytes {
            algorithm: KeyAlgorithm::Ed25519,
            bytes: vec![2; 32],
        },
        created_at_ms: 1,
        expires_at_ms: None,
    }
}

#[test]
fn allow_list_blocks_unenrolled_devices() {
    let local = identity("user", "phone");
    let remote = identity("user", "laptop");
    let policy = AllowListTrustPolicy::new(vec![DeviceId::from("tablet")]);

    assert!(policy.validate_peer(&local, &remote).is_err());
}

#[test]
fn rejects_peer_from_different_user() {
    let local = identity_with_keys("u1", "a");
    let remote = identity_with_keys("u2", "b");
    let policy = AllowListTrustPolicy::default();

    assert!(policy.validate_peer(&local, &remote).is_err());
}

#[test]
fn accepts_enrolled_peer() {
    let local = identity_with_keys("u1", "a");
    let remote = identity_with_keys("u1", "b");
    let policy = AllowListTrustPolicy::new(vec![DeviceId::from("b")]);

    assert!(policy.validate_peer(&local, &remote).is_ok());
}

#[test]
fn empty_allow_list_trusts_every_device_of_the_user() {
    let policy = AllowListTrustPolicy::default();
    assert!(policy
        .validate_peer(&identity("u", "a"), &identity("u", "anything"))
        .is_ok());
}

#[test]
fn trust_errors_name_the_reason() {
    let policy = AllowListTrustPolicy::new(vec![DeviceId::from("b")]);
    match policy.validate_peer(&identity("u1", "a"), &identity("u2", "b")) {
        Err(SyncholeError::PermissionDenied(m)) => assert_eq!(m, "peer belongs to a different user"),
        other => panic!("unexpected {other:?}"),
    }
    match policy.validate_peer(&identity("u1", "a"), &identity("u1", "c")) {
        Err(SyncholeError::PermissionDenied(m)) => assert_eq!(m, "peer device is not enrolled"),
        other => panic!("unexpected {other:?}"),
    }
}

#[test]
fn allow_list_insert_enrolls_device() {
    let mut policy = AllowListTrustPolicy::new(vec![DeviceId::from("b"), DeviceId::from("b")]);
    let local = identity("u", "a");
    assert!(policy.validate_peer(&local, &identity("u", "c")).is_err());
    policy.insert(DeviceId::from("c"));
    assert!(policy.validate_peer(&local, &identity("u", "c")).is_ok());
    assert!(policy.validate_peer(&local, &identity("u", "b")).is_ok());
}

#[test]
fn fingerprint_is_blake3_of_ids_and_keys() {
    let id = identity("user", "phone");
    let fp = id.fingerprint();
    let mut input = Vec::new();
    input.extend_from_slice(b"user");
    input.extend_from_slice(b"phone");
    input.extend_from_slice(&[7; 32]);
    input.extend_from_slice(&[8; 32]);
    assert_eq!(fp.as_bytes(), blake3::hash(&input).as_bytes());
    assert_eq!(fp.as_bytes().len(), 32);
    assert_ne!(fp.as_bytes(), &input[..32]);
    // another device yields another fingerprint
    assert_ne!(identity("user", "laptop").fingerprint(), fp);
}

#[test]
fn secret_key_material_exposes_its_bytes() {
    let secret = SecretKeyMaterial::new(vec![9, 8, 7]);
    assert_eq!(secret.expose_for_provider(), &[9, 8, 7]);
}

#[test]
fn cloned_secret_key_material_keeps_its_bytes() {
    let secret = SecretKeyMaterial::new(vec![1, 2, 3, 4]);
    let copy = secret.clone();
    drop(secret);
    assert_eq!(copy.expose_for_provider(), &[1, 2, 3, 4]);
}

#[test]
fn fingerprint_material_concatenates_ids_and_keys() {
    let id = identity("u", "d");
    let mut expected = b"ud".to_vec();
    expected.extend_from_slice(&[7; 32]);
    expected.extend_from_slice(&[8; 32]);
    assert_eq!(id.fingerprint_material(), expected);
    let unicode = identity("ü", "d");
    assert_eq!(&unicode.fingerprint_material()[..3], "üd".as_bytes());
}
