use frost_threshold::hexstr::{decode_hex, encode_hex};
use frost_threshold::identifier::{decode_identifier, encode_identifier, IdDecodeError};
use frost_threshold::coordinator::parse_endpoints;

#[test]
fn hex_encode_exact() {
    assert_eq!(encode_hex(&[0x00, 0xab, 0xff]), b"00abff".to_vec());
    assert_eq!(encode_hex(&[]), Vec::<u8>::new());
    assert_eq!(encode_hex(&[0xde, 0xad, 0xbe, 0xef]), b"deadbeef".to_vec());
}

#[test]
fn hex_encode_matches_reference_crate() {
    let data: Vec<u8> = (0u16..=255).map(|b| b as u8).collect();
    let ours = encode_hex(data.as_slice());
    assert_eq!(String::from_utf8(ours).unwrap(), hex::encode(&data));
}

#[test]
fn hex_decode_round_trip_and_rejects() {
    let data = vec![1u8, 2, 3, 250, 251, 252];
    let enc = encode_hex(data.as_slice());
    assert_eq!(decode_hex(enc.as_slice()), Some(data));
    // odd length
    assert_eq!(decode_hex(b"abc"), None);
    // non-digit
    assert_eq!(decode_hex(b"zz"), None);
    // upper case accepted
    assert_eq!(decode_hex(b"AB"), Some(vec![0xab]));
    assert_eq!(decode_hex(b"aB"), Some(vec![0xab]));
}

#[test]
fn identifier_encoding_is_two_byte_little_endian_hex() {
    assert_eq!(encode_identifier(1), b"0100".to_vec());
    assert_eq!(encode_identifier(2), b"0200".to_vec());
    assert_eq!(encode_identifier(258), b"0201".to_vec());
}

#[test]
fn identifier_round_trip_small_group() {
    for id in 1u16..=16 {
        let enc = encode_identifier(id);
        assert_eq!(decode_identifier(enc.as_slice()), Ok(id));
    }
}

#[test]
fn identifier_decode_accepts_longer_scalar_encodings() {
    // A peer may serialize the identifier as a full 32-byte scalar.
    let mut hex = b"0300".to_vec();
    hex.extend_from_slice(&[b'0'; 60]);
    assert_eq!(decode_identifier(hex.as_slice()), Ok(3));
}

#[test]
fn identifier_decode_errors() {
    assert_eq!(decode_identifier(b"zz"), Err(IdDecodeError::InvalidHex));
    assert_eq!(decode_identifier(b"01"), Err(IdDecodeError::TooShort));
    assert_eq!(decode_identifier(b"0000"), Err(IdDecodeError::ZeroIdentifier));
}

#[test]
fn endpoint_list_is_split_and_trimmed() {
    let r = parse_endpoints(b"http://127.0.0.1:3001, http://127.0.0.1:3002");
    assert_eq!(r.len(), 2);
    assert_eq!(r[0], b"http://127.0.0.1:3001".to_vec());
    assert_eq!(r[1], b"http://127.0.0.1:3002".to_vec());

    let r = parse_endpoints(b" ,, a ,\t b\r\n,");
    assert_eq!(r.len(), 2);
    assert_eq!(r[0], b"a".to_vec());
    assert_eq!(r[1], b"b".to_vec());

    let r = parse_endpoints(b"http://one");
    assert_eq!(r.len(), 1);

    let r = parse_endpoints(b"   ");
    assert_eq!(r.len(), 0);

    // An endpoint named twice counts once: the run needs distinct signers.
    let r = parse_endpoints(b"http://a, http://a ,http://b");
    assert_eq!(r.len(), 2);
    assert_eq!(r[0], b"http://a".to_vec());
    assert_eq!(r[1], b"http://b".to_vec());
}
