use frost_threshold::gf256::{combine_generic, gf_inverse, gf_multiply, GenericShareError};

#[test]
fn gf_multiplication_known_values() {
    assert_eq!(gf_multiply(0, 77), 0);
    assert_eq!(gf_multiply(77, 0), 0);
    assert_eq!(gf_multiply(1, 77), 77);
    assert_eq!(gf_multiply(2, 3), 6);
    // The classic AES worked example.
    assert_eq!(gf_multiply(0x57, 0x83), 0xc1);
    assert_eq!(gf_multiply(0x53, 0xca), 0x01);
}

#[test]
fn gf_inverse_really_inverts() {
    for a in 1u16..=255 {
        let a = a as u8;
        let inv = gf_inverse(a);
        assert_eq!(gf_multiply(a, inv), 1, "inverse failed for {}", a);
    }
}

/// Evaluate the degree-one polynomial s + a*x over GF(2^8).
fn poly(s: u8, a: u8, x: u8) -> u8 {
    s ^ gf_multiply(a, x)
}

#[test]
fn generic_combine_recovers_a_generic_split() {
    // Split two secret bytes with fixed degree-one polynomials, then
    // recombine from two and from three shares.
    let secret = [0x5a_u8, 0xc3];
    let coeff = [0x11_u8, 0x7e];
    let share_at = |x: u8| -> (u8, Vec<u8>) {
        (x, vec![poly(secret[0], coeff[0], x), poly(secret[1], coeff[1], x)])
    };
    let two = vec![share_at(1), share_at(2)];
    assert_eq!(combine_generic(&two), Ok(secret.to_vec()));
    let other_two = vec![share_at(3), share_at(5)];
    assert_eq!(combine_generic(&other_two), Ok(secret.to_vec()));
    let three = vec![share_at(1), share_at(2), share_at(3)];
    assert_eq!(combine_generic(&three), Ok(secret.to_vec()));
}

#[test]
fn generic_combine_rejects_bad_share_lists() {
    assert_eq!(
        combine_generic(&vec![(1, vec![1, 2, 3])]),
        Err(GenericShareError::TooFewShares)
    );
    assert_eq!(
        combine_generic(&vec![(1, vec![1]), (0, vec![2])]),
        Err(GenericShareError::ZeroIndex)
    );
    assert_eq!(
        combine_generic(&vec![(1, vec![1]), (1, vec![2])]),
        Err(GenericShareError::DuplicateIndex)
    );
    assert_eq!(
        combine_generic(&vec![(1, vec![1]), (2, vec![2, 3])]),
        Err(GenericShareError::LengthMismatch)
    );
}
