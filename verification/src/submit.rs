//! The transaction-submission adapter's own checks.
//!
//! Submitting a transfer attaches an aggregated signature produced by a
//! coordinator run to a prepared ledger transaction.  The ledger mechanics
//! stay outside; what belongs to this library is reading the signature out
//! of the coordinator's report — its last whitespace-separated token — and
//! holding it to the fixed 64-byte size before anything is attached.

use vstd::prelude::*;
use crate::coordinator::is_space;
use crate::hexstr::{decode_hex, hex_decode_seq, is_hex_seq};

verus! {

/// A byte string with its trailing whitespace dropped.
pub open spec fn drop_ws_back(s: Seq<u8>) -> Seq<u8>
    decreases s.len(),
{
    if s.len() > 0 && is_space(s.last()) {
        drop_ws_back(s.drop_last())
    } else {
        s
    }
}

/// The maximal whitespace-free suffix of a byte string.
pub open spec fn token_suffix(s: Seq<u8>) -> Seq<u8>
    decreases s.len(),
{
    if s.len() > 0 && !is_space(s.last()) {
        token_suffix(s.drop_last()).push(s.last())
    } else {
        Seq::empty()
    }
}

/// The last whitespace-separated token of a byte string; empty when the
/// string holds none.
pub open spec fn last_token(s: Seq<u8>) -> Seq<u8> {
    token_suffix(drop_ws_back(s))
}

/// The last whitespace-separated token of a report.
pub fn extract_last_token(s: &[u8]) -> (r: Vec<u8>)
    ensures
        r@ == last_token(s@),
{
    let mut end: usize = s.len();
    proof {
        assert(s@.take(s@.len() as int) =~= s@);
    }
    while end > 0 && (s[end - 1] == 32 || s[end - 1] == 9 || s[end - 1] == 10 || s[end - 1] == 13)
        invariant
            end <= s@.len(),
            drop_ws_back(s@) == drop_ws_back(s@.take(end as int)),
        decreases end,
    {
        proof {
            assert(s@.take(end as int).drop_last() =~= s@.take(end as int - 1));
        }
        end = end - 1;
    }
    let ghost t = s@.take(end as int);
    proof {
        assert(drop_ws_back(t) == t);
    }
    let mut start: usize = end;
    proof {
        assert(t.take(end as int) =~= t);
        assert(token_suffix(t) + t.subrange(end as int, end as int) =~= token_suffix(t));
    }
    while start > 0 && !(s[start - 1] == 32 || s[start - 1] == 9 || s[start - 1] == 10 || s[start
        - 1] == 13)
        invariant
            start <= end <= s@.len(),
            t == s@.take(end as int),
            token_suffix(t) == token_suffix(t.take(start as int)) + t.subrange(
                start as int,
                end as int,
            ),
        decreases start,
    {
        proof {
            let pre = t.take(start as int);
            assert(pre.drop_last() =~= t.take(start as int - 1));
            assert(pre.last() == t[start as int - 1]);
            assert(token_suffix(pre.drop_last()).push(pre.last()) + t.subrange(
                start as int,
                end as int,
            ) =~= token_suffix(pre.drop_last()) + t.subrange(start as int - 1, end as int));
        }
        start = start - 1;
    }
    proof {
        assert(token_suffix(t.take(start as int)) =~= Seq::<u8>::empty());
        assert(token_suffix(t) =~= t.subrange(start as int, end as int));
    }
    let mut out: Vec<u8> = Vec::new();
    let mut k: usize = start;
    while k < end
        invariant
            start <= k <= end <= s@.len(),
            out@ == s@.subrange(start as int, k as int),
        decreases end - k,
    {
        out.push(s[k]);
        k = k + 1;
        proof {
            assert(out@ =~= s@.subrange(start as int, k as int));
        }
    }
    proof {
        assert(t.subrange(start as int, end as int) =~= s@.subrange(start as int, end as int));
    }
    out
}

/// Read an aggregated signature out of a coordinator report: its last
/// token must be the hex of exactly 64 bytes.  Returns those bytes, or
/// nothing when the report carries no usable signature.
pub fn extract_signature(report: &[u8]) -> (r: Option<Vec<u8>>)
    ensures
        r is Some <==> last_token(report@).len() > 0 && is_hex_seq(last_token(report@))
            && hex_decode_seq(last_token(report@)).len() == 64,
        r is Some ==> r->0@ == hex_decode_seq(last_token(report@)),
{
    let token = extract_last_token(report);
    if token.len() == 0 {
        return None;
    }
    match decode_hex(token.as_slice()) {
        None => None,
        Some(bytes) => {
            if bytes.len() == 64 {
                Some(bytes)
            } else {
                None
            }
        },
    }
}

} // verus!
