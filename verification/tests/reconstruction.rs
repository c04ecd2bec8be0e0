use frost_threshold::hexstr::decode_hex;
use frost_threshold::reconstruct::{
    key_share_bytes, keypair_blob, reconstruct_generic, reconstruct_matched,
};
use frost_threshold::signing::run_dkg;
use frost_threshold::wire::{key_package_from_bytes, key_package_to_bytes};

fn must<T, E>(r: Result<T, E>) -> T {
    match r {
        Ok(t) => t,
        Err(_) => panic!("unexpected error"),
    }
}

#[test]
fn keypair_blob_is_secret_then_public() {
    let blob = keypair_blob(&vec![7u8; 32], &vec![9u8; 32]);
    assert_eq!(blob.len(), 64);
    assert!(blob[..32].iter().all(|&b| b == 7));
    assert!(blob[32..].iter().all(|&b| b == 9));
}

#[test]
fn matched_reconstruction_is_consistent_across_share_pairs() {
    let out = must(run_dkg(3, 2));
    let vk_bytes = decode_hex(out.group_file.verifying_key_hex.as_slice()).unwrap();
    let bytes: Vec<Vec<u8>> =
        out.shares.iter().map(|s| must(key_package_to_bytes(&s.1))).collect();
    let mut blobs: Vec<Vec<u8>> = Vec::new();
    for (a, b) in [(0usize, 1usize), (0, 2), (1, 2)] {
        let kpa = must(key_package_from_bytes(&bytes[a]));
        let kpb = must(key_package_from_bytes(&bytes[b]));
        let blob = must(reconstruct_matched(&vec![kpa, kpb]));
        assert_eq!(blob.len(), 64);
        // The derived public key equals the published group verifying key.
        assert_eq!(&blob[32..], vk_bytes.as_slice());
        blobs.push(blob);
    }
    // Every pair recovers the same signing scalar.
    assert_eq!(blobs[0], blobs[1]);
    assert_eq!(blobs[1], blobs[2]);
}

#[test]
fn generic_strategy_on_matched_shares_misses_the_group_key() {
    let out = must(run_dkg(3, 2));
    let vk_bytes = decode_hex(out.group_file.verifying_key_hex.as_slice()).unwrap();
    let s1 = key_share_bytes(&out.shares[0].1);
    let s2 = key_share_bytes(&out.shares[1].1);
    let generic = vec![(1u8, s1), (2u8, s2)];
    // The scheme-confusion hazard: recombining matched-DKG shares with the
    // generic strategy must not reproduce the group key.  Either the bytes
    // are not even a canonical scalar, or the derived public key differs.
    match reconstruct_generic(&generic) {
        Ok(blob) => {
            assert_eq!(blob.len(), 64);
            assert_ne!(&blob[32..], vk_bytes.as_slice());
        },
        Err(_) => {},
    }
}
