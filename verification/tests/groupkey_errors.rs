use frost_threshold::groupkey::{parse_group_key, GroupKeyCryptoError, GroupKeyError};
use frost_threshold::identifier::IdDecodeError;
use frost_threshold::signing::{run_dkg, threshold_sign, DkgError, SignError};

fn must<T, E>(r: Result<T, E>) -> T {
    match r {
        Ok(t) => t,
        Err(_) => panic!("unexpected error"),
    }
}

#[test]
fn group_key_parsing_rejects_bad_entries() {
    let good = vec![(b"0100".to_vec(), b"aabb".to_vec())];
    assert!(parse_group_key(&good, b"ccdd").is_ok());

    let bad_id = vec![(b"zz".to_vec(), b"aabb".to_vec())];
    match parse_group_key(&bad_id, b"ccdd") {
        Err(GroupKeyError::BadIdentifier(IdDecodeError::InvalidHex)) => {},
        _ => panic!("expected BadIdentifier(InvalidHex)"),
    }

    let short_id = vec![(b"01".to_vec(), b"aabb".to_vec())];
    match parse_group_key(&short_id, b"ccdd") {
        Err(GroupKeyError::BadIdentifier(IdDecodeError::TooShort)) => {},
        _ => panic!("expected BadIdentifier(TooShort)"),
    }

    let zero_id = vec![(b"0000".to_vec(), b"aabb".to_vec())];
    match parse_group_key(&zero_id, b"ccdd") {
        Err(GroupKeyError::BadIdentifier(IdDecodeError::ZeroIdentifier)) => {},
        _ => panic!("expected BadIdentifier(ZeroIdentifier)"),
    }

    let bad_share = vec![(b"0100".to_vec(), b"xy".to_vec())];
    match parse_group_key(&bad_share, b"ccdd") {
        Err(GroupKeyError::InvalidShareHex) => {},
        _ => panic!("expected InvalidShareHex"),
    }

    match parse_group_key(&good, b"not-hex") {
        Err(GroupKeyError::InvalidKeyHex) => {},
        _ => panic!("expected InvalidKeyHex"),
    }
}

#[test]
fn group_material_with_undecodable_points_is_rejected_by_the_primitive() {
    // Share bytes of the wrong size parse as hex but are no curve point.
    let stub = must(parse_group_key(&vec![(b"0100".to_vec(), b"aabb".to_vec())], b"ccdd"));
    match stub.to_public_key_package() {
        Err(GroupKeyCryptoError::Share(_)) => {},
        _ => panic!("expected a rejected verifying share"),
    }

    // Valid shares from a real run, but a truncated group key.
    let out = must(run_dkg(3, 2));
    let real = must(parse_group_key(
        &out.group_file.verifying_shares_hex,
        b"ccdd",
    ));
    match real.to_public_key_package() {
        Err(GroupKeyCryptoError::Key(_)) => {},
        _ => panic!("expected a rejected verifying key"),
    }
}

#[test]
fn dealer_rejects_unusable_parameters() {
    for (max, min) in [(3u16, 0u16), (3, 1), (1, 2), (0, 0), (2, 3)] {
        match run_dkg(max, min) {
            Err(DkgError::BadParameters) => {},
            _ => panic!("expected BadParameters for ({max},{min})"),
        }
    }
    assert!(run_dkg(2, 2).is_ok());
}

#[test]
fn local_signing_rejects_zero_and_duplicate_indices() {
    let out = must(run_dkg(3, 2));
    let group = must(parse_group_key(
        &out.group_file.verifying_shares_hex,
        out.group_file.verifying_key_hex.as_slice(),
    ));
    let msg = vec![1u8, 2, 3];
    match threshold_sign(0, &out.shares[0].1, 2, &out.shares[1].1, &msg, &group) {
        Err(SignError::ZeroIdentifier) => {},
        _ => panic!("expected ZeroIdentifier"),
    }
    match threshold_sign(1, &out.shares[0].1, 1, &out.shares[1].1, &msg, &group) {
        Err(SignError::DuplicateIdentifier) => {},
        _ => panic!("expected DuplicateIdentifier"),
    }
}
