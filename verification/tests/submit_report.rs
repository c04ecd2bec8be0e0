use frost_threshold::submit::{extract_last_token, extract_signature};

#[test]
fn last_token_of_a_report() {
    assert_eq!(extract_last_token(b"Aggregated signature (hex): abcd\n"), b"abcd".to_vec());
    assert_eq!(extract_last_token(b"abcd"), b"abcd".to_vec());
    assert_eq!(extract_last_token(b"  \n\t"), Vec::<u8>::new());
    assert_eq!(extract_last_token(b""), Vec::<u8>::new());
    assert_eq!(extract_last_token(b"one two\tthree "), b"three".to_vec());
}

#[test]
fn signature_extraction_demands_sixty_four_hex_bytes() {
    let sig = [0x5au8; 64];
    let mut report = b"Aggregated signature (hex): ".to_vec();
    report.extend_from_slice(hex::encode(sig).as_bytes());
    report.push(b'\n');
    assert_eq!(extract_signature(&report), Some(sig.to_vec()));

    // Too short, not hex, or missing: rejected.
    assert_eq!(extract_signature(b"Aggregated signature (hex): abcd\n"), None);
    assert_eq!(extract_signature(b"Aggregated signature (hex): zz\n"), None);
    assert_eq!(extract_signature(b"   \n"), None);
}
