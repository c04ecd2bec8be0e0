//! Participant identifier wire codec.
//!
//! A participant identifier is a small positive integer, unique within the
//! group and never zero.  On the wire it travels as the hex of its 2-byte
//! little-endian value.  Decoding tolerates longer encodings (some peers
//! serialize the identifier as a full 32-byte scalar) by reading only the
//! first two decoded bytes, as long as the whole string is valid hex.

use vstd::prelude::*;
use crate::hexstr::{decode_hex, encode_hex, hex_decode_seq, hex_encode_seq, is_hex_seq, lemma_hex_round_trip};

verus! {

/// Why an identifier string was rejected.
#[derive(Clone, Copy, Debug, PartialEq, Eq, Structural)]
pub enum IdDecodeError {
    /// The string is not well-formed hex.
    InvalidHex,
    /// Fewer than two bytes were decoded.
    TooShort,
    /// The decoded value is zero, which no participant may use.
    ZeroIdentifier,
}

/// The two little-endian bytes of an identifier.
pub open spec fn id_le_bytes(id: u16) -> Seq<u8> {
    seq![(id % 256) as u8, (id / 256) as u8]
}

/// The wire encoding of an identifier: hex of its 2-byte little-endian value.
pub open spec fn spec_encode_id(id: u16) -> Seq<u8> {
    hex_encode_seq(id_le_bytes(id))
}

/// The identifier denoted by a wire string, or the reason it is rejected.
pub open spec fn spec_decode_id(s: Seq<u8>) -> Result<u16, IdDecodeError> {
    if !is_hex_seq(s) {
        Err(IdDecodeError::InvalidHex)
    } else if hex_decode_seq(s).len() < 2 {
        Err(IdDecodeError::TooShort)
    } else {
        let b = hex_decode_seq(s);
        let id = b[0] + 256 * b[1];
        if id == 0 {
            Err(IdDecodeError::ZeroIdentifier)
        } else {
            Ok(id as u16)
        }
    }
}

/// Encode an identifier for the wire.
pub fn encode_identifier(id: u16) -> (r: Vec<u8>)
    ensures
        r@ == spec_encode_id(id),
{
    let bytes: Vec<u8> = vec![(id % 256) as u8, (id / 256) as u8];
    let r = encode_hex(bytes.as_slice());
    proof {
        assert(bytes@ =~= id_le_bytes(id));
    }
    r
}

/// Decode an identifier from the wire; rejects bad hex, strings shorter than
/// two bytes, and the zero identifier.
pub fn decode_identifier(s: &[u8]) -> (r: Result<u16, IdDecodeError>)
    ensures
        r == spec_decode_id(s@),
{
    match decode_hex(s) {
        None => Err(IdDecodeError::InvalidHex),
        Some(bytes) => {
            if bytes.len() < 2 {
                Err(IdDecodeError::TooShort)
            } else {
                let id: u16 = bytes[0] as u16 + 256 * (bytes[1] as u16);
                if id == 0 {
                    Err(IdDecodeError::ZeroIdentifier)
                } else {
                    Ok(id)
                }
            }
        },
    }
}

/// Identifier round trip: decoding an encoded identifier yields it back,
/// for every nonzero identifier.
pub proof fn lemma_identifier_round_trip(id: u16)
    requires
        id >= 1,
    ensures
        spec_decode_id(spec_encode_id(id)) == Ok::<u16, IdDecodeError>(id),
{
    lemma_hex_round_trip(id_le_bytes(id));
    let b = hex_decode_seq(spec_encode_id(id));
    assert(b == id_le_bytes(id));
    assert(b[0] == id % 256 && b[1] == id / 256);
    assert(id % 256 + 256 * (id / 256) == id) by {
        vstd::arithmetic::div_mod::lemma_fundamental_div_mod(id as int, 256);
    }
}

} // verus!
