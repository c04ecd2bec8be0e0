//! The coordinator: drives the two-round protocol across signer services.
//!
//! The run is a state machine: `Idle`, then `CollectingCommitments` while
//! round-one responses arrive, a `BuildingPackage` barrier once every signer
//! has answered, `CollectingShares` while round-two responses arrive,
//! `Aggregating`, and finally `Done` or `Failed`.  Round two must never
//! begin before round one has completed for every signer in the run, because
//! each participant signs over the identical, final commitment set; the
//! barrier is a precondition of [`Coordinator::build_package`].  Any failure
//! is fatal to the whole run.
//!
//! Network transport stays outside: the caller performs each request and
//! hands the responses in.

use vstd::prelude::*;
use vstd::assert_by_contradiction;
use crate::hexstr::bytes_eq;
use crate::identifier::{decode_identifier, spec_decode_id, IdDecodeError};
use crate::keyed::IdMap;
use crate::groupkey::{GroupKeyCryptoError, GroupKeyMaterial};
use crate::primitive::{
    aggregate_of, aggregate_ok, frost_aggregate, package_message_of, signature_bytes_of,
    signature_encodable, signature_serialize, signing_package_new, PrimitiveError, SignatureShare,
    SigningCommitments, SigningPackage,
};

verus! {

/// Where a coordinator run stands.
pub enum CoordinatorPhase {
    /// Created, no response recorded yet.
    Idle,
    /// Round one: commitments are being collected.
    CollectingCommitments,
    /// The barrier between the rounds: the signing package is being built.
    BuildingPackage,
    /// Round two: signature shares are being collected.
    CollectingShares,
    /// All shares in; the primitive is combining them.
    Aggregating,
    /// The run produced a signature.
    Done,
    /// The run was aborted; nothing of it is reusable.
    Failed,
}

/// Why a coordinator run was aborted.
pub enum CoordError {
    /// Fewer than two signer endpoints were configured; checked before any
    /// network activity.
    TooFewSigners,
    /// A response carried an unusable participant identifier.
    BadIdentifier(IdDecodeError),
    /// A verifying share in the group key material was rejected.
    InvalidGroupShare(PrimitiveError),
    /// The group verifying key was rejected.
    InvalidGroupKey(PrimitiveError),
    /// The primitive rejected a share during aggregation.
    AggregationFailed(PrimitiveError),
    /// The aggregated signature could not be encoded.
    SignatureEncodingFailed(PrimitiveError),
}

/// One coordinator run over a fixed message and a fixed set of signers.
pub struct Coordinator {
    phase: CoordinatorPhase,
    message: Vec<u8>,
    signer_count: usize,
    pending_commitments: usize,
    commitments: IdMap<SigningCommitments>,
    package: Option<SigningPackage>,
    pending_shares: usize,
    shares: IdMap<SignatureShare>,
}

impl Coordinator {
    /// The phase of the run.
    pub closed spec fn phase(self) -> CoordinatorPhase {
        self.phase
    }

    /// The message the run signs.
    pub closed spec fn message_seq(self) -> Seq<u8> {
        self.message@
    }

    /// How many signers take part in the run.
    pub closed spec fn signer_count(self) -> usize {
        self.signer_count
    }

    /// How many round-one responses are still owed.
    pub closed spec fn pending_commitments(self) -> usize {
        self.pending_commitments
    }

    /// How many round-two responses are still owed.
    pub closed spec fn pending_shares(self) -> usize {
        self.pending_shares
    }

    /// The commitment set assembled so far.
    pub closed spec fn commitment_set(self) -> IdMap<SigningCommitments> {
        self.commitments
    }

    /// The share set assembled so far.
    pub closed spec fn share_set(self) -> IdMap<SignatureShare> {
        self.shares
    }

    /// The signing package, once built.
    pub closed spec fn package_opt(self) -> Option<SigningPackage> {
        self.package
    }

    /// Well-formed: collections keyed by unique nonzero identifiers, and a
    /// package over the run's message from the moment round two starts.
    pub open spec fn wf(self) -> bool {
        &&& self.commitment_set().wf()
        &&& self.share_set().wf()
        &&& (self.phase() is CollectingShares || self.phase() is Aggregating || self.phase()
            is Done ==> self.package_opt() is Some && package_message_of(
            self.package_opt()->Some_0,
        ) == self.message_seq())
    }

    /// Start a run over a message with a number of configured signers.
    /// Rejected outright, before any network activity, when fewer than two
    /// signers are configured.
    pub fn new(message: Vec<u8>, signer_count: usize) -> (r: Result<Coordinator, CoordError>)
        ensures
            signer_count < 2 <==> r is Err && r->Err_0 is TooFewSigners,
            r is Err ==> r->Err_0 is TooFewSigners,
            r is Ok ==> {
                &&& r->Ok_0.wf()
                &&& r->Ok_0.phase() is Idle
                &&& r->Ok_0.message_seq() == message@
                &&& r->Ok_0.signer_count() == signer_count
                &&& r->Ok_0.pending_commitments() == signer_count
                &&& r->Ok_0.commitment_set()@.len() == 0
                &&& r->Ok_0.share_set()@.len() == 0
            },
    {
        if signer_count < 2 {
            return Err(CoordError::TooFewSigners);
        }
        Ok(
            Coordinator {
                phase: CoordinatorPhase::Idle,
                message,
                signer_count,
                pending_commitments: signer_count,
                commitments: IdMap::new(),
                package: None,
                pending_shares: 0,
                shares: IdMap::new(),
            },
        )
    }

    /// Whether round one is complete and the barrier may be crossed.
    pub fn commitments_complete(&self) -> (r: bool)
        ensures
            r == (self.phase() is CollectingCommitments && self.pending_commitments() == 0),
    {
        match self.phase {
            CoordinatorPhase::CollectingCommitments => self.pending_commitments == 0,
            _ => false,
        }
    }

    /// Record one signer's round-one response: its wire identifier and its
    /// commitment.  An unusable identifier aborts the run.
    pub fn record_commitment(&mut self, id_hex: &[u8], c: SigningCommitments) -> (r: Result<
        (),
        CoordError,
    >)
        requires
            old(self).wf(),
            old(self).phase() is Idle || old(self).phase() is CollectingCommitments,
            old(self).pending_commitments() > 0,
        ensures
            final(self).wf(),
            final(self).message_seq() == old(self).message_seq(),
            final(self).signer_count() == old(self).signer_count(),
            spec_decode_id(id_hex@) is Err <==> r is Err,
            r is Err ==> r->Err_0 is BadIdentifier && final(self).phase() is Failed,
            r is Ok ==> {
                let id = spec_decode_id(id_hex@)->Ok_0;
                &&& final(self).phase() is CollectingCommitments
                &&& final(self).pending_commitments() == old(self).pending_commitments() - 1
                &&& final(self).commitment_set().spec_get(id) == Some(c)
                &&& forall|k: u16|
                    k != id ==> final(self).commitment_set().spec_get(k) == old(
                        self,
                    ).commitment_set().spec_get(k)
                &&& final(self).share_set() == old(self).share_set()
            },
    {
        let id = match decode_identifier(id_hex) {
            Err(e) => {
                self.phase = CoordinatorPhase::Failed;
                return Err(CoordError::BadIdentifier(e));
            },
            Ok(id) => id,
        };
        self.commitments.insert(id, c);
        self.pending_commitments = self.pending_commitments - 1;
        self.phase = CoordinatorPhase::CollectingCommitments;
        Ok(())
    }

    /// Cross the barrier: with every round-one response in, bundle the
    /// message and the complete commitment set into the signing package and
    /// open round two.  Requiring a completed round one keeps any signer
    /// from ever signing over a partial commitment set.
    pub fn build_package(&mut self)
        requires
            old(self).wf(),
            old(self).phase() is CollectingCommitments,
            old(self).pending_commitments() == 0,
        ensures
            final(self).wf(),
            final(self).phase() is CollectingShares,
            final(self).message_seq() == old(self).message_seq(),
            final(self).signer_count() == old(self).signer_count(),
            final(self).commitment_set() == old(self).commitment_set(),
            final(self).package_opt() is Some,
            package_message_of(final(self).package_opt()->Some_0) == old(self).message_seq(),
            final(self).pending_shares() == old(self).signer_count(),
            final(self).share_set()@.len() == 0,
    {
        self.phase = CoordinatorPhase::BuildingPackage;
        let package = signing_package_new(self.commitments.entries(), &self.message);
        self.package = Some(package);
        self.pending_shares = self.signer_count;
        self.shares = IdMap::new();
        self.phase = CoordinatorPhase::CollectingShares;
    }

    /// The signing package to distribute, unchanged, to every signer.
    pub fn package(&self) -> (r: &SigningPackage)
        requires
            self.wf(),
            self.phase() is CollectingShares,
        ensures
            Some(*r) == self.package_opt(),
            package_message_of(*r) == self.message_seq(),
    {
        match &self.package {
            Some(p) => p,
            None => vstd::pervasive::unreached(),
        }
    }

    /// Record one signer's round-two response: its wire identifier and its
    /// signature share.  An unusable identifier aborts the run.
    pub fn record_share(&mut self, id_hex: &[u8], share: SignatureShare) -> (r: Result<
        (),
        CoordError,
    >)
        requires
            old(self).wf(),
            old(self).phase() is CollectingShares,
            old(self).pending_shares() > 0,
        ensures
            final(self).wf(),
            final(self).message_seq() == old(self).message_seq(),
            final(self).signer_count() == old(self).signer_count(),
            spec_decode_id(id_hex@) is Err <==> r is Err,
            r is Err ==> r->Err_0 is BadIdentifier && final(self).phase() is Failed,
            r is Ok ==> {
                let id = spec_decode_id(id_hex@)->Ok_0;
                &&& final(self).phase() is CollectingShares
                &&& final(self).pending_shares() == old(self).pending_shares() - 1
                &&& final(self).package_opt() == old(self).package_opt()
                &&& final(self).share_set().spec_get(id) == Some(share)
                &&& forall|k: u16|
                    k != id ==> final(self).share_set().spec_get(k) == old(
                        self,
                    ).share_set().spec_get(k)
            },
    {
        let id = match decode_identifier(id_hex) {
            Err(e) => {
                self.phase = CoordinatorPhase::Failed;
                return Err(CoordError::BadIdentifier(e));
            },
            Ok(id) => id,
        };
        self.shares.insert(id, share);
        self.pending_shares = self.pending_shares - 1;
        Ok(())
    }

    /// With every share in, rebuild the group's public key package from the
    /// locally stored material and ask the primitive to aggregate.  Any
    /// invalid share aborts the whole run; the run succeeds exactly when the
    /// stored points decode, aggregation accepts the recorded shares over
    /// the built package, and the resulting signature has a wire encoding —
    /// which is then the returned 64 bytes.
    pub fn aggregate(&mut self, group: &GroupKeyMaterial) -> (r: Result<Vec<u8>, CoordError>)
        requires
            old(self).wf(),
            group.wf(),
            old(self).phase() is CollectingShares,
            old(self).pending_shares() == 0,
        ensures
            final(self).wf(),
            r is Ok <==> (group.decodes() && aggregate_ok(
                old(self).package_opt()->Some_0,
                old(self).share_set()@,
                group.spec_package(),
            ) && signature_encodable(
                aggregate_of(
                    old(self).package_opt()->Some_0,
                    old(self).share_set()@,
                    group.spec_package(),
                ),
            )),
            r is Ok ==> r->Ok_0@ == signature_bytes_of(
                aggregate_of(
                    old(self).package_opt()->Some_0,
                    old(self).share_set()@,
                    group.spec_package(),
                ),
            ) && r->Ok_0@.len() == 64,
            r is Ok ==> final(self).phase() is Done,
            r is Err ==> final(self).phase() is Failed,
    {
        self.phase = CoordinatorPhase::Aggregating;

        let pubkeys = match group.to_public_key_package() {
            Err(GroupKeyCryptoError::Share(e)) => {
                self.phase = CoordinatorPhase::Failed;
                return Err(CoordError::InvalidGroupShare(e));
            },
            Err(GroupKeyCryptoError::Key(e)) => {
                self.phase = CoordinatorPhase::Failed;
                return Err(CoordError::InvalidGroupKey(e));
            },
            Ok(p) => p,
        };

        let package = match &self.package {
            Some(p) => p,
            None => vstd::pervasive::unreached(),
        };
        let signature = match frost_aggregate(package, self.shares.entries(), &pubkeys) {
            Err(e) => {
                self.phase = CoordinatorPhase::Failed;
                return Err(CoordError::AggregationFailed(e));
            },
            Ok(s) => s,
        };
        let bytes = match signature_serialize(&signature) {
            Err(e) => {
                self.phase = CoordinatorPhase::Failed;
                return Err(CoordError::SignatureEncodingFailed(e));
            },
            Ok(b) => b,
        };
        self.phase = CoordinatorPhase::Done;
        Ok(bytes)
    }
}

/// Whether a byte is ASCII whitespace, as endpoint lists may carry around
/// their commas.
pub open spec fn is_space(c: u8) -> bool {
    c == 32 || c == 9 || c == 10 || c == 13
}

/// A byte string without its leading whitespace.
pub open spec fn trim_front(s: Seq<u8>) -> Seq<u8>
    decreases s.len(),
{
    if s.len() > 0 && is_space(s[0]) {
        trim_front(s.drop_first())
    } else {
        s
    }
}

/// A byte string without its trailing whitespace.
pub open spec fn trim_back(s: Seq<u8>) -> Seq<u8>
    decreases s.len(),
{
    if s.len() > 0 && is_space(s.last()) {
        trim_back(s.drop_last())
    } else {
        s
    }
}

/// A byte string without leading or trailing whitespace.
pub open spec fn trim_spaces(s: Seq<u8>) -> Seq<u8> {
    trim_back(trim_front(s))
}

/// Comma-splitting, carried by the piece being read and the pieces read.
pub open spec fn split_acc(s: Seq<u8>, cur: Seq<u8>, acc: Seq<Seq<u8>>) -> Seq<Seq<u8>>
    decreases s.len(),
{
    if s.len() == 0 {
        acc.push(cur)
    } else if s[0] == 44 {
        split_acc(s.drop_first(), Seq::empty(), acc.push(cur))
    } else {
        split_acc(s.drop_first(), cur.push(s[0]), acc)
    }
}

/// The pieces of a byte string between its commas.
pub open spec fn split_commas(s: Seq<u8>) -> Seq<Seq<u8>> {
    split_acc(s, Seq::empty(), Seq::empty())
}

/// The list with every repetition of an earlier element dropped.
pub open spec fn dedup_first(s: Seq<Seq<u8>>) -> Seq<Seq<u8>>
    decreases s.len(),
{
    if s.len() == 0 {
        s
    } else if s.drop_last().contains(s.last()) {
        dedup_first(s.drop_last())
    } else {
        dedup_first(s.drop_last()).push(s.last())
    }
}

/// The endpoints named by a comma-separated list: each piece trimmed, empty
/// pieces dropped, and only the first occurrence of an endpoint kept — the
/// run needs distinct signers.
pub open spec fn endpoint_list(s: Seq<u8>) -> Seq<Seq<u8>> {
    dedup_first(
        split_commas(s).map_values(|p: Seq<u8>| trim_spaces(p)).filter(|p: Seq<u8>| p.len() > 0),
    )
}

/// Membership in a pushed list is membership in the list or the pushed element.
proof fn lemma_contains_push(s: Seq<Seq<u8>>, y: Seq<u8>, x: Seq<u8>)
    ensures
        s.push(y).contains(x) <==> (s.contains(x) || x == y),
{
    if s.contains(x) {
        let i = choose|i: int| 0 <= i < s.len() && s[i] == x;
        assert(s.push(y)[i] == x);
    }
    if x == y {
        assert(s.push(y)[s.len() as int] == x);
    }
    if s.push(y).contains(x) && x != y {
        let i = choose|i: int| 0 <= i < s.push(y).len() && s.push(y)[i] == x;
        assert(s[i] == x);
    }
}

/// Dropping repetitions keeps exactly the elements.
proof fn lemma_dedup_contains(s: Seq<Seq<u8>>, x: Seq<u8>)
    ensures
        dedup_first(s).contains(x) <==> s.contains(x),
    decreases s.len(),
{
    if s.len() > 0 {
        lemma_dedup_contains(s.drop_last(), x);
        assert(s =~= s.drop_last().push(s.last()));
        lemma_contains_push(s.drop_last(), s.last(), x);
        if !s.drop_last().contains(s.last()) {
            lemma_contains_push(dedup_first(s.drop_last()), s.last(), x);
        }
    }
}

/// The views of a list of byte vectors.
pub open spec fn byte_views(s: Seq<Vec<u8>>) -> Seq<Seq<u8>> {
    s.map_values(|v: Vec<u8>| v@)
}

/// Strip leading and trailing ASCII whitespace.
fn trim_bytes(v: &[u8]) -> (r: Vec<u8>)
    ensures
        r@ == trim_spaces(v@),
{
    let mut start: usize = 0;
    let mut end: usize = v.len();
    proof {
        assert(v@.subrange(0, v@.len() as int) =~= v@);
    }
    while start < end && (v[start] == 32 || v[start] == 9 || v[start] == 10 || v[start] == 13)
        invariant
            start <= end <= v@.len(),
            trim_front(v@) == trim_front(v@.subrange(start as int, end as int)),
        decreases end - start,
    {
        proof {
            let sub = v@.subrange(start as int, end as int);
            assert(sub.drop_first() =~= v@.subrange(start as int + 1, end as int));
        }
        start = start + 1;
    }
    proof {
        let sub = v@.subrange(start as int, end as int);
        assert(trim_front(sub) == sub);
    }
    while end > start && (v[end - 1] == 32 || v[end - 1] == 9 || v[end - 1] == 10 || v[end - 1]
        == 13)
        invariant
            start <= end <= v@.len(),
            trim_spaces(v@) == trim_back(v@.subrange(start as int, end as int)),
        decreases end,
    {
        proof {
            let sub = v@.subrange(start as int, end as int);
            assert(sub.drop_last() =~= v@.subrange(start as int, end as int - 1));
        }
        end = end - 1;
    }
    proof {
        let sub = v@.subrange(start as int, end as int);
        assert(trim_back(sub) == sub);
    }
    let mut out: Vec<u8> = Vec::new();
    let mut k: usize = start;
    while k < end
        invariant
            start <= k <= end <= v@.len(),
            out@ == v@.subrange(start as int, k as int),
        decreases end - k,
    {
        out.push(v[k]);
        k = k + 1;
        proof {
            assert(out@ =~= v@.subrange(start as int, k as int));
        }
    }
    out
}

/// Whether a byte string stands in a list.
fn contains_bytes(v: &Vec<Vec<u8>>, x: &[u8]) -> (r: bool)
    ensures
        r == byte_views(v@).contains(x@),
{
    let mut i: usize = 0;
    while i < v.len()
        invariant
            i <= v@.len(),
            byte_views(v@).len() == v@.len(),
            forall|j: int| 0 <= j < v@.len() ==> #[trigger] byte_views(v@)[j] == v@[j]@,
            forall|j: int| 0 <= j < i ==> byte_views(v@)[j] != x@,
        decreases v@.len() - i,
    {
        if bytes_eq(v[i].as_slice(), x) {
            proof {
                assert(byte_views(v@)[i as int] == x@);
            }
            return true;
        }
        i = i + 1;
    }
    proof {
        assert_by_contradiction!(!byte_views(v@).contains(x@), {
            let j = choose|j: int| 0 <= j < byte_views(v@).len() && byte_views(v@)[j] == x@;
        });
    }
    false
}

/// Split a comma-separated endpoint list into its named endpoints, trimming
/// whitespace, dropping empty pieces, and keeping only the first occurrence
/// of an endpoint named twice.
pub fn parse_endpoints(s: &[u8]) -> (r: Vec<Vec<u8>>)
    ensures
        byte_views(r@) == endpoint_list(s@),
        forall|i: int, j: int| 0 <= i < j < r@.len() ==> r@[i]@ != r@[j]@,
{
    let mut pieces: Vec<Vec<u8>> = Vec::new();
    let mut cur: Vec<u8> = Vec::new();
    let mut i: usize = 0;
    proof {
        assert(s@.skip(0) =~= s@);
        assert(byte_views(pieces@) =~= Seq::<Seq<u8>>::empty());
    }
    while i < s.len()
        invariant
            i <= s@.len(),
            split_commas(s@) == split_acc(s@.skip(i as int), cur@, byte_views(pieces@)),
        decreases s@.len() - i,
    {
        let ghost pre_pieces = byte_views(pieces@);
        let ghost pre_cur = cur@;
        if s[i] == 44 {
            pieces.push(cur);
            cur = Vec::new();
            proof {
                assert(byte_views(pieces@) =~= pre_pieces.push(pre_cur));
            }
        } else {
            cur.push(s[i]);
        }
        i = i + 1;
        proof {
            assert(s@.skip(i as int - 1).drop_first() =~= s@.skip(i as int));
            assert(s@.skip(i as int - 1)[0] == s@[i as int - 1]);
        }
    }
    let ghost final_pieces = byte_views(pieces@);
    let ghost final_cur = cur@;
    pieces.push(cur);
    proof {
        assert(s@.skip(s@.len() as int) =~= Seq::<u8>::empty());
        assert(byte_views(pieces@) =~= final_pieces.push(final_cur));
        assert(byte_views(pieces@) == split_commas(s@));
    }

    let mut out: Vec<Vec<u8>> = Vec::new();
    let mut j: usize = 0;
    proof {
        reveal(Seq::filter);
        assert(byte_views(pieces@).take(0).map_values(|p: Seq<u8>| trim_spaces(p)) =~= Seq::<
            Seq<u8>,
        >::empty());
        assert(byte_views(out@) =~= Seq::<Seq<u8>>::empty());
    }
    while j < pieces.len()
        invariant
            j <= pieces@.len(),
            byte_views(pieces@) == split_commas(s@),
            byte_views(out@) == dedup_first(
                byte_views(pieces@).take(j as int).map_values(|p: Seq<u8>| trim_spaces(p)).filter(
                    |p: Seq<u8>| p.len() > 0,
                ),
            ),
            forall|a: int, b: int| 0 <= a < b < out@.len() ==> out@[a]@ != out@[b]@,
        decreases pieces@.len() - j,
    {
        let ghost pre_out = byte_views(out@);
        let t = trim_bytes(pieces[j].as_slice());
        let ghost tv = t@;
        let keep = t.len() > 0;
        let mut present = false;
        if keep {
            present = contains_bytes(&out, t.as_slice());
            if !present {
                out.push(t);
            }
        }
        j = j + 1;
        proof {
            reveal(Seq::filter);
            let mapped = byte_views(pieces@).take(j as int).map_values(
                |p: Seq<u8>| trim_spaces(p),
            );
            let mapped_pre = byte_views(pieces@).take(j as int - 1).map_values(
                |p: Seq<u8>| trim_spaces(p),
            );
            assert(mapped =~= mapped_pre.push(tv));
            assert(mapped.drop_last() =~= mapped_pre);
            let filtered_pre = mapped_pre.filter(|p: Seq<u8>| p.len() > 0);
            let filtered = mapped.filter(|p: Seq<u8>| p.len() > 0);
            if keep {
                assert(filtered =~= filtered_pre.push(tv));
                assert(filtered.drop_last() =~= filtered_pre);
                lemma_dedup_contains(filtered_pre, tv);
                if present {
                    assert(byte_views(out@) =~= dedup_first(filtered));
                } else {
                    assert(byte_views(out@) =~= pre_out.push(tv));
                    assert(byte_views(out@) =~= dedup_first(filtered));
                    assert forall|a: int, b: int|
                        0 <= a < b < out@.len() implies out@[a]@ != out@[b]@ by {
                        if b == out@.len() - 1 {
                            assert(byte_views(out@)[a] == out@[a]@);
                            if out@[a]@ == tv {
                                assert(pre_out[a] == tv);
                                assert(pre_out.contains(tv));
                            }
                        }
                    }
                }
            } else {
                assert(filtered =~= filtered_pre);
            }
        }
    }
    proof {
        assert(byte_views(pieces@).take(pieces@.len() as int) =~= byte_views(pieces@));
    }
    out
}

} // verus!
