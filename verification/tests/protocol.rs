use frost_threshold::coordinator::Coordinator;
use frost_threshold::groupkey::GroupKeyMaterial;
use frost_threshold::groupkey::parse_group_key;
use frost_threshold::hexstr::decode_hex;
use frost_threshold::signer::{SignerError, SignerService};
use frost_threshold::signing::{run_dkg, threshold_sign, verify_signature, DkgOutput, VerifyError};
use frost_threshold::wire::{commitments_from_bytes, commitments_to_bytes, key_package_from_bytes, key_package_to_bytes};

fn must<T, E>(r: Result<T, E>) -> T {
    match r {
        Ok(t) => t,
        Err(_) => panic!("unexpected error"),
    }
}

fn verified(r: Result<bool, VerifyError>) -> bool {
    match r {
        Ok(b) => b,
        Err(_) => panic!("verification request was rejected"),
    }
}

fn dealt_group() -> (DkgOutput, GroupKeyMaterial, Vec<u8>) {
    let out = must(run_dkg(3, 2));
    let group = must(parse_group_key(
        &out.group_file.verifying_shares_hex,
        out.group_file.verifying_key_hex.as_slice(),
    ));
    let vk_bytes = decode_hex(out.group_file.verifying_key_hex.as_slice()).unwrap();
    (out, group, vk_bytes)
}

#[test]
fn dkg_writes_three_indexed_shares_and_derived_fields() {
    let (out, _, vk_bytes) = dealt_group();
    assert_eq!(out.shares.len(), 3);
    let ids: Vec<u16> = out.shares.iter().map(|s| s.0).collect();
    assert_eq!(ids, vec![1, 2, 3]);
    assert_eq!(vk_bytes.len(), 32);
    assert_eq!(out.group_file.public_key_hex, out.group_file.verifying_key_hex);
    // The base58 address decodes back to the verifying key bytes.
    let addr = out.group_file.address_base58.clone();
    assert_ne!(addr.as_bytes(), out.group_file.public_key_hex.as_slice());
    assert_eq!(bs58::decode(&addr).into_vec().unwrap(), vk_bytes);
}

#[test]
fn end_to_end_two_of_three_signing_run() {
    let (mut out, group, vk_bytes) = dealt_group();
    // Two signer services hold shares 1 and 2; share 3 stays uninvolved.
    let (id2, kp2) = out.shares.remove(1);
    let (id1, kp1) = out.shares.remove(0);
    let mut signer1 = SignerService::new(id1, kp1);
    let mut signer2 = SignerService::new(id2, kp2);

    let msg_hex = b"deadbeef".to_vec();
    let msg = decode_hex(msg_hex.as_slice()).unwrap();

    let mut coordinator = must(Coordinator::new(msg.clone(), 2));
    let r1 = must(signer1.request_commitment(msg_hex.as_slice()));
    let r2 = must(signer2.request_commitment(msg_hex.as_slice()));
    assert_eq!(r1.participant_id, b"0100".to_vec());
    assert_eq!(r2.participant_id, b"0200".to_vec());
    must(coordinator.record_commitment(r1.participant_id.as_slice(), r1.commitments));
    must(coordinator.record_commitment(r2.participant_id.as_slice(), r2.commitments));
    assert!(coordinator.commitments_complete());
    coordinator.build_package();

    let share1 = must(signer1.request_signature_share(coordinator.package()));
    let share2 = must(signer2.request_signature_share(coordinator.package()));
    must(coordinator.record_share(b"0100", share1));
    must(coordinator.record_share(b"0200", share2));

    let signature = must(coordinator.aggregate(&group));
    assert_eq!(signature.len(), 64);
    assert!(verified(verify_signature(&vk_bytes, &msg, &signature)));

    // A corrupted signature no longer verifies.
    let mut bad = signature.clone();
    bad[0] ^= 1;
    assert!(!verified(verify_signature(&vk_bytes, &msg, &bad)));
}

#[test]
fn any_two_of_three_shares_sign_and_verify() {
    let (out, group, vk_bytes) = dealt_group();
    let msg = vec![0xde, 0xad, 0xbe, 0xef];
    for (a, b) in [(0usize, 1usize), (0, 2), (1, 2)] {
        let (ida, kpa) = &out.shares[a];
        let (idb, kpb) = &out.shares[b];
        let sig = must(threshold_sign(*ida, kpa, *idb, kpb, &msg, &group));
        assert_eq!(sig.len(), 64);
        assert!(verified(verify_signature(&vk_bytes, &msg, &sig)));
    }
}

#[test]
fn commitment_requests_are_idempotent_until_signing() {
    let (mut out, _, _) = dealt_group();
    let (id1, kp1) = out.shares.remove(0);
    let mut signer = SignerService::new(id1, kp1);
    let msg_hex = b"deadbeef".to_vec();
    let first = must(signer.request_commitment(msg_hex.as_slice()));
    let second = must(signer.request_commitment(msg_hex.as_slice()));
    assert_eq!(
        must(commitments_to_bytes(&first.commitments)),
        must(commitments_to_bytes(&second.commitments))
    );
    // A different message reserves a different nonce.
    let other = must(signer.request_commitment(b"beef"));
    assert_ne!(
        must(commitments_to_bytes(&first.commitments)),
        must(commitments_to_bytes(&other.commitments))
    );
}

#[test]
fn nonce_is_single_use() {
    let (mut out, group, vk_bytes) = dealt_group();
    let (id2, kp2) = out.shares.remove(1);
    let (id1, kp1) = out.shares.remove(0);
    let mut signer1 = SignerService::new(id1, kp1);
    let mut signer2 = SignerService::new(id2, kp2);

    let msg_hex = b"deadbeef".to_vec();
    let msg = decode_hex(msg_hex.as_slice()).unwrap();
    let mut coordinator = must(Coordinator::new(msg.clone(), 2));
    let r1 = must(signer1.request_commitment(msg_hex.as_slice()));
    let r2 = must(signer2.request_commitment(msg_hex.as_slice()));
    must(coordinator.record_commitment(r1.participant_id.as_slice(), r1.commitments));
    must(coordinator.record_commitment(r2.participant_id.as_slice(), r2.commitments));
    coordinator.build_package();

    // First signing request succeeds and consumes the nonce.
    let share = signer1.request_signature_share(coordinator.package());
    assert!(share.is_ok());
    // The second one finds no nonce.
    match signer1.request_signature_share(coordinator.package()) {
        Err(SignerError::NonceNotFound) => {},
        other => panic!("expected NonceNotFound, got ok = {}", other.is_ok()),
    }
    // Completing the run with signer 2 still works.
    let share2 = must(signer2.request_signature_share(coordinator.package()));
    must(coordinator.record_share(b"0100", must(share)));
    must(coordinator.record_share(b"0200", share2));
    let signature = must(coordinator.aggregate(&group));
    assert!(verified(verify_signature(&vk_bytes, &msg, &signature)));
}

#[test]
fn signing_without_commitment_finds_no_nonce() {
    let (mut out, _, _) = dealt_group();
    let (id2, kp2) = out.shares.remove(1);
    let (id1, kp1) = out.shares.remove(0);
    let mut signer1 = SignerService::new(id1, kp1);
    let mut bystander = SignerService::new(id2, kp2);

    let msg_hex = b"deadbeef".to_vec();
    let msg = decode_hex(msg_hex.as_slice()).unwrap();
    let mut coordinator = must(Coordinator::new(msg, 2));
    let r1 = must(signer1.request_commitment(msg_hex.as_slice()));
    let copy = must(commitments_from_bytes(&must(commitments_to_bytes(&r1.commitments))));
    must(coordinator.record_commitment(r1.participant_id.as_slice(), r1.commitments));
    must(coordinator.record_commitment(b"0200", copy));
    coordinator.build_package();

    match bystander.request_signature_share(coordinator.package()) {
        Err(SignerError::NonceNotFound) => {},
        _ => panic!("expected NonceNotFound"),
    }
}

#[test]
fn malformed_commitment_request_is_rejected() {
    let (mut out, _, _) = dealt_group();
    let (id1, kp1) = out.shares.remove(0);
    let mut signer = SignerService::new(id1, kp1);
    match signer.request_commitment(b"zz") {
        Err(SignerError::InvalidHex) => {},
        _ => panic!("expected InvalidHex"),
    }
}

#[test]
fn coordinator_requires_two_signers() {
    match Coordinator::new(vec![0xde], 1) {
        Err(frost_threshold::coordinator::CoordError::TooFewSigners) => {},
        _ => panic!("expected TooFewSigners"),
    }
    match Coordinator::new(vec![0xde], 0) {
        Err(frost_threshold::coordinator::CoordError::TooFewSigners) => {},
        _ => panic!("expected TooFewSigners"),
    }
    assert!(Coordinator::new(vec![0xde], 2).is_ok());
}

#[test]
fn coordinator_rejects_unusable_identifiers() {
    let (mut out, _, _) = dealt_group();
    let (id1, kp1) = out.shares.remove(0);
    let mut signer = SignerService::new(id1, kp1);
    let r = must(signer.request_commitment(b"deadbeef"));
    let mut coordinator = must(Coordinator::new(vec![0xde, 0xad, 0xbe, 0xef], 2));
    match coordinator.record_commitment(b"0000", r.commitments) {
        Err(frost_threshold::coordinator::CoordError::BadIdentifier(_)) => {},
        _ => panic!("expected BadIdentifier"),
    }
}

#[test]
fn verify_signature_rejects_wrong_lengths() {
    let vk31 = vec![0u8; 31];
    let vk32 = vec![0u8; 32];
    let msg = vec![1u8];
    match verify_signature(&vk31, &msg, &vec![0u8; 64]) {
        Err(VerifyError::WrongKeyLength) => {},
        _ => panic!("expected WrongKeyLength"),
    }
    match verify_signature(&vk32, &msg, &vec![0u8; 63]) {
        Err(VerifyError::WrongSignatureLength) => {},
        _ => panic!("expected WrongSignatureLength"),
    }
}

#[test]
fn key_packages_survive_their_byte_encoding() {
    let (out, group, vk_bytes) = dealt_group();
    let bytes = must(key_package_to_bytes(&out.shares[0].1));
    let restored = must(key_package_from_bytes(&bytes));
    // The restored package still signs as participant 1.
    let msg = vec![0xab, 0xcd];
    let sig = must(threshold_sign(1, &restored, 2, &out.shares[1].1, &msg, &group));
    assert!(verified(verify_signature(&vk_bytes, &msg, &sig)));
}
