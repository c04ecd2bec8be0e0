//! Lower-case hexadecimal encoding and decoding over byte strings.
//!
//! Every wire and file format in this crate carries binary values as ASCII
//! hex.  Encoding always produces lower-case digits; decoding accepts both
//! cases, and fails on an odd length or a non-digit byte.

use vstd::prelude::*;

verus! {

/// The lower-case ASCII hex digit for a value below 16.
pub open spec fn hex_digit(v: u8) -> u8
    recommends
        v < 16,
{
    if v < 10 {
        (48 + v) as u8
    } else {
        (87 + v) as u8
    }
}

/// Whether an ASCII byte is a hex digit (either case).
pub open spec fn is_hex_digit(c: u8) -> bool {
    (48 <= c && c <= 57) || (97 <= c && c <= 102) || (65 <= c && c <= 70)
}

/// The value of an ASCII hex digit.
pub open spec fn hex_val(c: u8) -> u8
    recommends
        is_hex_digit(c),
{
    if 48 <= c && c <= 57 {
        (c - 48) as u8
    } else if 97 <= c && c <= 102 {
        (c - 87) as u8
    } else {
        (c - 55) as u8
    }
}

/// The hex encoding of a byte string: two lower-case digits per byte.
pub open spec fn hex_encode_seq(b: Seq<u8>) -> Seq<u8> {
    Seq::new(b.len() * 2, |i: int| if i % 2 == 0 {
        hex_digit((b[i / 2] / 16) as u8)
    } else {
        hex_digit((b[i / 2] % 16) as u8)
    })
}

/// Whether a byte string is a well-formed hex encoding: even length, digits only.
pub open spec fn is_hex_seq(s: Seq<u8>) -> bool {
    s.len() % 2 == 0 && (forall|i: int| 0 <= i < s.len() ==> is_hex_digit(s[i]))
}

/// The bytes denoted by a well-formed hex string.
pub open spec fn hex_decode_seq(s: Seq<u8>) -> Seq<u8>
    recommends
        is_hex_seq(s),
{
    Seq::new(s.len() / 2, |i: int| (hex_val(s[2 * i]) * 16 + hex_val(s[2 * i + 1])) as u8)
}

/// Exec mirror of [`hex_digit`].
fn hex_digit_exec(v: u8) -> (r: u8)
    requires
        v < 16,
    ensures
        r == hex_digit(v),
{
    if v < 10 {
        48 + v
    } else {
        87 + v
    }
}

/// Exec mirror of [`is_hex_digit`].
fn is_hex_digit_exec(c: u8) -> (r: bool)
    ensures
        r == is_hex_digit(c),
{
    (48 <= c && c <= 57) || (97 <= c && c <= 102) || (65 <= c && c <= 70)
}

/// Exec mirror of [`hex_val`].
fn hex_val_exec(c: u8) -> (r: u8)
    requires
        is_hex_digit(c),
    ensures
        r == hex_val(c),
        r < 16,
{
    if 48 <= c && c <= 57 {
        c - 48
    } else if 97 <= c && c <= 102 {
        c - 87
    } else {
        c - 55
    }
}

/// Encode a byte string as lower-case hex.
pub fn encode_hex(bytes: &[u8]) -> (r: Vec<u8>)
    ensures
        r@ == hex_encode_seq(bytes@),
{
    let mut out: Vec<u8> = Vec::new();
    let mut i: usize = 0;
    while i < bytes.len()
        invariant
            i <= bytes@.len(),
            out@ == hex_encode_seq(bytes@.take(i as int)),
        decreases bytes@.len() - i,
    {
        let b = bytes[i];
        out.push(hex_digit_exec(b / 16));
        out.push(hex_digit_exec(b % 16));
        i = i + 1;
        proof {
            assert(out@ =~= hex_encode_seq(bytes@.take(i as int)));
        }
    }
    proof {
        assert(bytes@.take(bytes@.len() as int) =~= bytes@);
    }
    out
}

/// Decode a hex string; `None` exactly when the input is not well-formed hex.
pub fn decode_hex(s: &[u8]) -> (r: Option<Vec<u8>>)
    ensures
        r is Some <==> is_hex_seq(s@),
        r is Some ==> r->0@ == hex_decode_seq(s@),
{
    if s.len() % 2 != 0 {
        return None;
    }
    let mut out: Vec<u8> = Vec::new();
    let mut i: usize = 0;
    while i < s.len()
        invariant
            i % 2 == 0,
            i <= s@.len(),
            s@.len() % 2 == 0,
            forall|j: int| 0 <= j < i ==> is_hex_digit(s@[j]),
            out@ == hex_decode_seq(s@.take(i as int)),
        decreases s@.len() - i,
    {
        let hi = s[i];
        let lo = s[i + 1];
        if !is_hex_digit_exec(hi) || !is_hex_digit_exec(lo) {
            return None;
        }
        out.push(hex_val_exec(hi) * 16 + hex_val_exec(lo));
        i = i + 2;
        proof {
            assert(out@ =~= hex_decode_seq(s@.take(i as int)));
        }
    }
    proof {
        assert(s@.take(s@.len() as int) =~= s@);
    }
    Some(out)
}

/// Decoding undoes encoding: the encoding of any byte string is well-formed
/// hex, and decoding it yields the original bytes.
pub proof fn lemma_hex_round_trip(b: Seq<u8>)
    ensures
        is_hex_seq(hex_encode_seq(b)),
        hex_decode_seq(hex_encode_seq(b)) == b,
{
    let e = hex_encode_seq(b);
    assert forall|i: int| 0 <= i < e.len() implies is_hex_digit(e[i]) by {
        lemma_digit_of_nibble(if i % 2 == 0 {
            (b[i / 2] / 16) as u8
        } else {
            (b[i / 2] % 16) as u8
        });
    }
    assert forall|i: int| 0 <= i < b.len() implies hex_decode_seq(e)[i] == b[i] by {
        let v = b[i];
        lemma_digit_of_nibble((v / 16) as u8);
        lemma_digit_of_nibble((v % 16) as u8);
        assert(e[2 * i] == hex_digit((v / 16) as u8));
        assert(e[2 * i + 1] == hex_digit((v % 16) as u8));
        assert(v / 16 * 16 + v % 16 == v) by {
            vstd::arithmetic::div_mod::lemma_fundamental_div_mod(v as int, 16);
        }
    }
    assert(hex_decode_seq(e) =~= b);
}

/// A hex digit of a value below 16 is a digit whose value is the original one.
proof fn lemma_digit_of_nibble(v: u8)
    requires
        v < 16,
    ensures
        is_hex_digit(hex_digit(v)),
        hex_val(hex_digit(v)) == v,
{
}

/// Byte-string equality.
pub(crate) fn bytes_eq(a: &[u8], b: &[u8]) -> (r: bool)
    ensures
        r == (a@ == b@),
{
    if a.len() != b.len() {
        return false;
    }
    let mut i: usize = 0;
    while i < a.len()
        invariant
            i <= a@.len(),
            a@.len() == b@.len(),
            forall|j: int| 0 <= j < i ==> a@[j] == b@[j],
        decreases a@.len() - i,
    {
        if a[i] != b[i] {
            return false;
        }
        i = i + 1;
    }
    proof {
        assert(a@ =~= b@);
    }
    true
}

} // verus!
