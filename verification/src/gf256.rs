//! Arithmetic in GF(2^8) and byte-wise polynomial secret sharing.
//!
//! This is the generic reconstruction strategy: each share is an
//! (index, raw bytes) pair, and every byte position is recombined by
//! Lagrange interpolation at zero over the field of 256 elements (modulo
//! x^8 + x^4 + x^3 + x + 1, addition being xor).  The strategy recovers the
//! secret only when the splitting used the identical scheme; shares dealt by
//! the matched, identifier-aware scheme recombine to bytes that do not
//! reproduce the group key.

use vstd::prelude::*;

verus! {

/// Multiplication by x in GF(2^8).
pub open spec fn gf_xtime(a: u8) -> u8 {
    if a >= 128 {
        (((a - 128) * 2) as u8) ^ 0x1b
    } else {
        (a * 2) as u8
    }
}

/// The product in GF(2^8), by shift-and-add over the bits of `b`.
pub open spec fn gf_mul(a: u8, b: u8) -> u8
    decreases b,
{
    if b == 0 {
        0u8
    } else if b % 2 == 1 {
        gf_mul(gf_xtime(a), (b / 2) as u8) ^ a
    } else {
        gf_mul(gf_xtime(a), (b / 2) as u8)
    }
}

/// The `n`-th power in GF(2^8).
pub open spec fn gf_pow(a: u8, n: nat) -> u8
    decreases n,
{
    if n == 0 {
        1u8
    } else {
        gf_mul(gf_pow(a, (n - 1) as nat), a)
    }
}

/// The multiplicative inverse of a nonzero element, as its 254th power.
pub open spec fn gf_inv(a: u8) -> u8 {
    gf_pow(a, 254)
}

/// Exec mirror of [`gf_xtime`].
fn xtime(a: u8) -> (r: u8)
    ensures
        r == gf_xtime(a),
{
    if a >= 128 {
        ((a - 128) * 2) ^ 0x1b
    } else {
        a * 2
    }
}

/// Exec mirror of [`gf_mul`].
pub fn gf_multiply(a: u8, b: u8) -> (r: u8)
    ensures
        r == gf_mul(a, b),
{
    let mut acc: u8 = 0;
    let mut x: u8 = a;
    let mut y: u8 = b;
    proof {
        let ghost m = gf_mul(a, b);
        assert(0u8 ^ m == m) by (bit_vector);
    }
    while y != 0
        invariant
            acc ^ gf_mul(x, y) == gf_mul(a, b),
        decreases y,
    {
        let ghost g = gf_mul(gf_xtime(x), (y / 2) as u8);
        if y % 2 == 1 {
            proof {
                let ghost a0 = acc;
                let ghost x0 = x;
                assert((a0 ^ x0) ^ g == a0 ^ (g ^ x0)) by (bit_vector);
            }
            acc = acc ^ x;
        }
        x = xtime(x);
        y = y / 2;
    }
    proof {
        let ghost a1 = acc;
        assert(a1 ^ 0u8 == a1) by (bit_vector);
    }
    acc
}

/// Exec mirror of [`gf_inv`]: the 254th power of a nonzero element.
pub fn gf_inverse(a: u8) -> (r: u8)
    requires
        a != 0,
    ensures
        r == gf_inv(a),
{
    let mut r: u8 = 1;
    let mut k: usize = 0;
    while k < 254
        invariant
            k <= 254,
            r == gf_pow(a, k as nat),
        decreases 254 - k,
    {
        r = gf_multiply(r, a);
        k = k + 1;
    }
    r
}

/// The indices of a share list.
pub open spec fn share_indices(s: Seq<(u8, Seq<u8>)>) -> Seq<u8> {
    s.map_values(|p: (u8, Seq<u8>)| p.0)
}

/// The product, over the first `j` indices other than `i`, of
/// `x_j / (x_i + x_j)`: the partial Lagrange basis value at zero.
pub open spec fn lagrange_partial(xs: Seq<u8>, i: int, j: int) -> u8
    decreases j,
{
    if j <= 0 {
        1u8
    } else if j - 1 == i {
        lagrange_partial(xs, i, j - 1)
    } else {
        gf_mul(lagrange_partial(xs, i, j - 1), gf_mul(xs[j - 1], gf_inv(xs[i] ^ xs[j - 1])))
    }
}

/// The Lagrange basis coefficient at zero for share `i` among indices `xs`.
pub open spec fn lagrange_zero(xs: Seq<u8>, i: int) -> u8 {
    lagrange_partial(xs, i, xs.len() as int)
}

/// The xor, over the first `upto` shares, of each share's byte `k` scaled by
/// its Lagrange coefficient.
pub open spec fn combine_partial(s: Seq<(u8, Seq<u8>)>, k: int, upto: int) -> u8
    decreases upto,
{
    if upto <= 0 {
        0u8
    } else {
        combine_partial(s, k, upto - 1) ^ gf_mul(
            lagrange_zero(share_indices(s), upto - 1),
            s[upto - 1].1[k],
        )
    }
}

/// The recombined secret: every byte interpolated at zero over all shares.
pub open spec fn spec_combine(s: Seq<(u8, Seq<u8>)>, len: int) -> Seq<u8> {
    Seq::new(len as nat, |k: int| combine_partial(s, k, s.len() as int))
}

/// Whether a share list is usable: at least two shares, distinct nonzero
/// indices, and bytes of one common length.
pub open spec fn shares_ok(s: Seq<(u8, Seq<u8>)>) -> bool {
    &&& s.len() >= 2
    &&& forall|i: int| 0 <= i < s.len() ==> (#[trigger] s[i]).0 != 0
    &&& forall|i: int, j: int| 0 <= i < j < s.len() ==> (#[trigger] s[i]).0 != (#[trigger] s[j]).0
    &&& forall|i: int| 0 <= i < s.len() ==> (#[trigger] s[i]).1.len() == s[0].1.len()
}

/// The views of a share list.
pub open spec fn share_views(s: Seq<(u8, Vec<u8>)>) -> Seq<(u8, Seq<u8>)> {
    s.map_values(|p: (u8, Vec<u8>)| (p.0, p.1@))
}

/// Why a generic share list was rejected.
#[derive(Clone, Copy, Debug, PartialEq, Eq, Structural)]
pub enum GenericShareError {
    /// Fewer than two shares were given.
    TooFewShares,
    /// A share carries index zero, where the secret itself sits.
    ZeroIndex,
    /// Two shares carry the same index.
    DuplicateIndex,
    /// The shares do not all have the same length.
    LengthMismatch,
}

/// Recombine a secret from (index, bytes) shares by byte-wise Lagrange
/// interpolation at zero in GF(2^8).  Accepted exactly when the list is
/// usable; the result has the shares' common length.
pub fn combine_generic(shares: &Vec<(u8, Vec<u8>)>) -> (r: Result<Vec<u8>, GenericShareError>)
    ensures
        r is Ok <==> shares_ok(share_views(shares@)),
        r is Ok ==> r->Ok_0@ == spec_combine(
            share_views(shares@),
            shares@[0].1@.len() as int,
        ) && r->Ok_0@.len() == shares@[0].1@.len(),
{
    let ghost views = share_views(shares@);
    proof {
        assert(views.len() == shares@.len());
        assert(forall|i: int|
            0 <= i < shares@.len() ==> views[i] == (shares@[i].0, shares@[i].1@));
    }
    if shares.len() < 2 {
        return Err(GenericShareError::TooFewShares);
    }
    let n = shares.len();
    let secret_len = shares[0].1.len();

    let mut i: usize = 0;
    while i < n
        invariant
            n == shares@.len(),
            secret_len == shares@[0].1@.len(),
            views == share_views(shares@),
            forall|a: int| 0 <= a < n ==> #[trigger] views[a] == (shares@[a].0, shares@[a].1@),
            i <= n,
            forall|a: int| 0 <= a < i ==> (#[trigger] views[a]).0 != 0,
            forall|a: int, b: int| 0 <= a < b < i ==> (#[trigger] views[a]).0 != (
            #[trigger] views[b]).0,
            forall|a: int| 0 <= a < i ==> (#[trigger] views[a]).1.len() == views[0].1.len(),
        decreases n - i,
    {
        if shares[i].0 == 0 {
            proof {
                assert(views[i as int].0 == 0);
                assert(!shares_ok(views));
            }
            return Err(GenericShareError::ZeroIndex);
        }
        if shares[i].1.len() != secret_len {
            proof {
                assert(views[i as int].1.len() != views[0].1.len());
                assert(!shares_ok(views));
            }
            return Err(GenericShareError::LengthMismatch);
        }
        let mut j: usize = 0;
        while j < i
            invariant
                n == shares@.len(),
                views == share_views(shares@),
                forall|a: int| 0 <= a < n ==> #[trigger] views[a] == (shares@[a].0, shares@[a].1@),
                i < n,
                j <= i,
                forall|b: int| 0 <= b < j ==> (#[trigger] views[b]).0 != views[i as int].0,
            decreases i - j,
        {
            if shares[j].0 == shares[i].0 {
                proof {
                    assert(views[j as int].0 == views[i as int].0);
                    assert(!shares_ok(views));
                }
                return Err(GenericShareError::DuplicateIndex);
            }
            j = j + 1;
        }
        i = i + 1;
    }
    proof {
        assert(shares_ok(views));
    }

    // Lagrange coefficient of each share, interpolating at zero.
    let ghost xs = share_indices(views);
    proof {
        assert(xs.len() == views.len());
        assert(forall|a: int| 0 <= a < views.len() ==> xs[a] == views[a].0);
    }
    let mut lambdas: Vec<u8> = Vec::new();
    let mut i2: usize = 0;
    while i2 < n
        invariant
            n == shares@.len(),
            views == share_views(shares@),
            forall|a: int| 0 <= a < n ==> #[trigger] views[a] == (shares@[a].0, shares@[a].1@),
            xs == share_indices(views),
            forall|a: int| 0 <= a < n ==> #[trigger] xs[a] == views[a].0,
            shares_ok(views),
            i2 <= n,
            lambdas@.len() == i2,
            forall|a: int| 0 <= a < i2 ==> lambdas@[a] == lagrange_zero(xs, a),
        decreases n - i2,
    {
        let mut cur: u8 = 1;
        let mut j2: usize = 0;
        while j2 < n
            invariant
                n == shares@.len(),
                views == share_views(shares@),
                forall|a: int| 0 <= a < n ==> #[trigger] views[a] == (shares@[a].0, shares@[a].1@),
                xs == share_indices(views),
                forall|a: int| 0 <= a < n ==> #[trigger] xs[a] == views[a].0,
                shares_ok(views),
                i2 < n,
                j2 <= n,
                cur == lagrange_partial(xs, i2 as int, j2 as int),
            decreases n - j2,
        {
            if j2 != i2 {
                proof {
                    let xi = xs[i2 as int];
                    let xj = xs[j2 as int];
                    assert(xi != xj);
                    assert(xi != xj ==> (xi ^ xj) != 0u8) by (bit_vector);
                }
                let denom = shares[i2].0 ^ shares[j2].0;
                let inv = gf_inverse(denom);
                cur = gf_multiply(cur, gf_multiply(shares[j2].0, inv));
            }
            j2 = j2 + 1;
        }
        lambdas.push(cur);
        i2 = i2 + 1;
    }

    // Interpolate every byte position.
    let mut out: Vec<u8> = Vec::new();
    let mut k: usize = 0;
    while k < secret_len
        invariant
            n == shares@.len(),
            secret_len == shares@[0].1@.len(),
            views == share_views(shares@),
            forall|a: int| 0 <= a < n ==> #[trigger] views[a] == (shares@[a].0, shares@[a].1@),
            xs == share_indices(views),
            shares_ok(views),
            lambdas@.len() == n,
            forall|a: int| 0 <= a < n ==> lambdas@[a] == lagrange_zero(xs, a),
            k <= secret_len,
            out@.len() == k,
            forall|kk: int| 0 <= kk < k ==> out@[kk] == combine_partial(views, kk, n as int),
        decreases secret_len - k,
    {
        let mut acc: u8 = 0;
        let mut i3: usize = 0;
        while i3 < n
            invariant
                n == shares@.len(),
                secret_len == shares@[0].1@.len(),
                views == share_views(shares@),
                forall|a: int| 0 <= a < n ==> #[trigger] views[a] == (shares@[a].0, shares@[a].1@),
                xs == share_indices(views),
                shares_ok(views),
                lambdas@.len() == n,
                forall|a: int| 0 <= a < n ==> lambdas@[a] == lagrange_zero(xs, a),
                k < secret_len,
                i3 <= n,
                acc == combine_partial(views, k as int, i3 as int),
            decreases n - i3,
        {
            proof {
                assert(views[i3 as int].1.len() == views[0].1.len());
                assert(shares@[i3 as int].1@.len() == secret_len);
            }
            acc = acc ^ gf_multiply(lambdas[i3], shares[i3].1[k]);
            i3 = i3 + 1;
        }
        out.push(acc);
        k = k + 1;
    }
    proof {
        assert(out@ =~= spec_combine(views, secret_len as int));
    }
    Ok(out)
}

} // verus!
