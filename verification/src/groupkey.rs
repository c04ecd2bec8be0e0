//! The group public key file, as plain values.
//!
//! On disk the group key material is a mapping from hex identifier to hex
//! verifying-share bytes, plus the hex group verifying key (and derived
//! convenience fields).  Parsing decodes the hex and the identifiers; the
//! curve points themselves stay as bytes until the primitive consumes them.

use vstd::prelude::*;
use crate::hexstr::{decode_hex, hex_decode_seq, is_hex_seq};
use crate::identifier::{decode_identifier, spec_decode_id, IdDecodeError};
use crate::keyed::IdMap;
use crate::primitive::{
    decoded_verifying_key, group_package_of, key_point_decodes, public_key_package_new,
    share_point_decodes, verifying_key_deserialize, verifying_share_deserialize,
    verifying_share_of, PrimitiveError, PublicKeyPackage, VerifyingShare,
};

verus! {

/// Which part of the group key material the primitive rejected.
pub enum GroupKeyCryptoError {
    /// A verifying share is not a canonical curve point.
    Share(PrimitiveError),
    /// The group verifying key is not a canonical curve point.
    Key(PrimitiveError),
}

/// Why a group key file was rejected.
pub enum GroupKeyError {
    /// A verifying-share key is not a usable identifier.
    BadIdentifier(IdDecodeError),
    /// A verifying-share value is not well-formed hex.
    InvalidShareHex,
    /// The group verifying key is not well-formed hex.
    InvalidKeyHex,
}

/// Decoded group key material: verifying-share bytes per identifier, and the
/// group verifying key bytes.
pub struct GroupKeyMaterial {
    pub shares: IdMap<Vec<u8>>,
    pub verifying_key: Vec<u8>,
}

/// The views of a pair list.
pub open spec fn pair_views(s: Seq<(Vec<u8>, Vec<u8>)>) -> Seq<(Seq<u8>, Seq<u8>)> {
    s.map_values(|p: (Vec<u8>, Vec<u8>)| (p.0@, p.1@))
}

/// Whether every entry of a group key mapping decodes: a usable identifier
/// and well-formed share hex.
pub open spec fn entries_ok(s: Seq<(Seq<u8>, Seq<u8>)>) -> bool {
    forall|i: int| 0 <= i < s.len() ==> spec_decode_id(s[i].0) is Ok && is_hex_seq(s[i].1)
}

/// The share bytes the mapping assigns to an identifier; a later entry for
/// the same identifier wins, as in a map built by insertion.
pub open spec fn group_lookup(s: Seq<(Seq<u8>, Seq<u8>)>, id: u16) -> Option<Seq<u8>>
    decreases s.len(),
{
    if s.len() == 0 {
        None
    } else if spec_decode_id(s.last().0) == Ok::<u16, IdDecodeError>(id) {
        Some(hex_decode_seq(s.last().1))
    } else {
        group_lookup(s.drop_last(), id)
    }
}

impl GroupKeyMaterial {
    /// Well-formed: unique nonzero identifiers.
    pub open spec fn wf(&self) -> bool {
        self.shares.wf()
    }

    /// Whether the primitive accepts every stored point encoding: each
    /// verifying share and the group key.
    pub open spec fn decodes(&self) -> bool {
        &&& forall|i: int|
            0 <= i < self.shares@.len() ==> share_point_decodes(#[trigger] self.shares@[i].1@)
        &&& key_point_decodes(self.verifying_key@)
    }

    /// The public key package this material denotes, once every point
    /// decodes.
    pub open spec fn spec_package(&self) -> PublicKeyPackage {
        group_package_of(
            self.shares@.map_values(|p: (u16, Vec<u8>)| (p.0, verifying_share_of(p.1@))),
            decoded_verifying_key(self.verifying_key@),
        )
    }

    /// Hand the decoded material to the primitive: deserialize every
    /// verifying share and the group key, and assemble its public key
    /// package.  Accepted exactly when every stored point encoding decodes.
    pub fn to_public_key_package(&self) -> (r: Result<PublicKeyPackage, GroupKeyCryptoError>)
        requires
            self.wf(),
        ensures
            r is Ok <==> self.decodes(),
            r is Ok ==> r->Ok_0 == self.spec_package(),
    {
        let ghost mapped = self.shares@.map_values(
            |p: (u16, Vec<u8>)| (p.0, verifying_share_of(p.1@)),
        );
        let entries = self.shares.entries();
        let mut verifying_shares: Vec<(u16, VerifyingShare)> = Vec::new();
        let mut i: usize = 0;
        while i < entries.len()
            invariant
                i <= entries@.len(),
                self.wf(),
                entries@ == self.shares@,
                mapped == self.shares@.map_values(
                    |p: (u16, Vec<u8>)| (p.0, verifying_share_of(p.1@)),
                ),
                mapped.len() == entries@.len(),
                forall|j: int|
                    0 <= j < entries@.len() ==> #[trigger] mapped[j] == (
                    entries@[j].0,
                    verifying_share_of(entries@[j].1@),
                ),
                forall|j: int| 0 <= j < i ==> share_point_decodes(#[trigger] entries@[j].1@),
                verifying_shares@ == mapped.take(i as int),
                forall|j: int|
                    0 <= j < verifying_shares@.len() ==> #[trigger] verifying_shares@[j].0 != 0,
            decreases entries@.len() - i,
        {
            let share = match verifying_share_deserialize(&entries[i].1) {
                Err(e) => {
                    proof {
                        assert(!share_point_decodes(self.shares@[i as int].1@));
                    }
                    return Err(GroupKeyCryptoError::Share(e));
                },
                Ok(s) => s,
            };
            verifying_shares.push((entries[i].0, share));
            i = i + 1;
            proof {
                assert(verifying_shares@ =~= mapped.take(i as int));
            }
        }
        let vk = match verifying_key_deserialize(&self.verifying_key) {
            Err(e) => {
                return Err(GroupKeyCryptoError::Key(e));
            },
            Ok(k) => k,
        };
        proof {
            assert(verifying_shares@ =~= mapped);
        }
        Ok(public_key_package_new(&verifying_shares, &vk))
    }
}

/// Parse a group key file's mapping and verifying key out of their hex
/// renderings.  Accepted exactly when every mapping entry decodes and the
/// verifying key is well-formed hex; the identifier of each entry must
/// decode to a nonzero value at least two bytes long.
pub fn parse_group_key(entries: &Vec<(Vec<u8>, Vec<u8>)>, vk_hex: &[u8]) -> (r: Result<
    GroupKeyMaterial,
    GroupKeyError,
>)
    ensures
        r is Ok <==> entries_ok(pair_views(entries@)) && is_hex_seq(vk_hex@),
        r is Ok ==> {
            &&& r->Ok_0.wf()
            &&& r->Ok_0.verifying_key@ == hex_decode_seq(vk_hex@)
            &&& forall|id: u16|
                (#[trigger] r->Ok_0.shares.spec_get(id) is Some <==> group_lookup(
                    pair_views(entries@),
                    id,
                ) is Some) && (r->Ok_0.shares.spec_get(id) is Some
                    ==> r->Ok_0.shares.spec_get(id)->Some_0@ == group_lookup(
                    pair_views(entries@),
                    id,
                )->Some_0)
        },
        entries_ok(pair_views(entries@)) && !is_hex_seq(vk_hex@) ==> r is Err && r->Err_0
            is InvalidKeyHex,
        !entries_ok(pair_views(entries@)) ==> r is Err && (r->Err_0 is BadIdentifier || r->Err_0
            is InvalidShareHex),
{
    let ghost views = pair_views(entries@);
    let mut shares: IdMap<Vec<u8>> = IdMap::new();
    let mut i: usize = 0;
    while i < entries.len()
        invariant
            i <= entries@.len(),
            views == pair_views(entries@),
            views.len() == entries@.len(),
            forall|j: int| 0 <= j < entries@.len() ==> views[j] == (entries@[j].0@, entries@[j].1@),
            shares.wf(),
            forall|j: int| 0 <= j < i ==> spec_decode_id(views[j].0) is Ok && is_hex_seq(views[j].1),
            forall|id: u16|
                (#[trigger] shares.spec_get(id) is Some <==> group_lookup(
                    views.take(i as int),
                    id,
                ) is Some) && (shares.spec_get(id) is Some ==> shares.spec_get(id)->Some_0@
                    == group_lookup(views.take(i as int), id)->Some_0),
        decreases entries@.len() - i,
    {
        let id = match decode_identifier(entries[i].0.as_slice()) {
            Err(e) => {
                proof {
                    assert(!(spec_decode_id(views[i as int].0) is Ok));
                    assert(!entries_ok(views));
                }
                return Err(GroupKeyError::BadIdentifier(e));
            },
            Ok(id) => id,
        };
        let share_bytes = match decode_hex(entries[i].1.as_slice()) {
            None => {
                proof {
                    assert(!is_hex_seq(views[i as int].1));
                    assert(!entries_ok(views));
                }
                return Err(GroupKeyError::InvalidShareHex);
            },
            Some(b) => b,
        };
        shares.insert(id, share_bytes);
        i = i + 1;
        proof {
            let t = views.take(i as int);
            assert(t.drop_last() =~= views.take(i as int - 1));
            assert(t.last() == views[i as int - 1]);
            assert forall|k: u16|
                (#[trigger] shares.spec_get(k) is Some <==> group_lookup(t, k) is Some) && (
                shares.spec_get(k) is Some ==> shares.spec_get(k)->Some_0@ == group_lookup(
                    t,
                    k,
                )->Some_0) by {
                if k == id {
                } else {
                    assert(spec_decode_id(t.last().0) != Ok::<u16, IdDecodeError>(k));
                }
            }
        }
    }
    let verifying_key = match decode_hex(vk_hex) {
        None => {
            return Err(GroupKeyError::InvalidKeyHex);
        },
        Some(b) => b,
    };
    proof {
        assert(views.take(entries@.len() as int) =~= views);
        assert(entries_ok(views));
    }
    Ok(GroupKeyMaterial { shares, verifying_key })
}

} // verus!
