//! The signer participant service: one key share and its nonce lifecycle.
//!
//! Per message, the signer's nonce state moves from absent, to reserved by
//! the first commitment request, to consumed by exactly one signing request.
//! A commitment request for a message whose nonce is already reserved
//! returns the stored commitment unchanged; a signing request for a message
//! without a reserved nonce is rejected.  Consuming the nonce before the
//! signature share is even attempted guarantees single use: nonce reuse
//! would leak the secret share.

use vstd::prelude::*;
use crate::hexstr::{bytes_eq, decode_hex, hex_decode_seq, is_hex_seq};
use crate::identifier::{encode_identifier, spec_encode_id};
use crate::primitive::{
    clone_commitments, commitment_of_nonces, frost_commit, frost_sign, package_message_of,
    share_of, sign_ok, signing_package_message, KeyPackage, PrimitiveError, SignatureShare,
    SigningCommitments, SigningNonces, SigningPackage,
};

verus! {

/// One reserved nonce: the single-use secret for one pending message,
/// together with the commitment that was handed out for it.
pub struct NonceEntry {
    pub message: Vec<u8>,
    pub nonces: SigningNonces,
    pub commitments: SigningCommitments,
}

/// Why a signer request was rejected.
pub enum SignerError {
    /// The request's message is not well-formed hex.
    InvalidHex,
    /// No nonce is reserved for the package's message; the caller must
    /// request a commitment first.
    NonceNotFound,
    /// The primitive rejected the signing package.
    SigningFailed(PrimitiveError),
}

/// What a commitment request returns: this signer's wire identifier and the
/// commitment reserved for the message.
pub struct CommitmentResponse {
    pub participant_id: Vec<u8>,
    pub commitments: SigningCommitments,
}

/// The entry reserved for a message, scanning from the front.
pub open spec fn find_msg(s: Seq<NonceEntry>, m: Seq<u8>) -> Option<NonceEntry>
    decreases s.len(),
{
    if s.len() == 0 {
        None
    } else if s[0].message@ == m {
        Some(s[0])
    } else {
        find_msg(s.drop_first(), m)
    }
}

/// Whether no two entries reserve the same message.
pub open spec fn unique_msgs(s: Seq<NonceEntry>) -> bool {
    forall|i: int, j: int| 0 <= i < j < s.len() ==> s[i].message@ != s[j].message@
}

/// If the first entry for a message stands at `i`, the scan finds it.
proof fn lemma_find_msg_at(s: Seq<NonceEntry>, m: Seq<u8>, i: int)
    requires
        0 <= i < s.len(),
        s[i].message@ == m,
        forall|j: int| 0 <= j < i ==> s[j].message@ != m,
    ensures
        find_msg(s, m) == Some(s[i]),
    decreases i,
{
    if i > 0 {
        lemma_find_msg_at(s.drop_first(), m, i - 1);
    }
}

/// If no entry reserves the message, the scan finds nothing.
proof fn lemma_find_msg_none(s: Seq<NonceEntry>, m: Seq<u8>)
    requires
        forall|j: int| 0 <= j < s.len() ==> s[j].message@ != m,
    ensures
        find_msg(s, m) is None,
    decreases s.len(),
{
    if s.len() > 0 {
        lemma_find_msg_none(s.drop_first(), m);
    }
}

/// Appending an entry leaves every other message's reservation in place and
/// reserves a fresh message with the appended entry.
proof fn lemma_find_msg_push(s: Seq<NonceEntry>, m: Seq<u8>, e: NonceEntry)
    ensures
        find_msg(s.push(e), m) == if find_msg(s, m) is Some {
            find_msg(s, m)
        } else if e.message@ == m {
            Some(e)
        } else {
            None::<NonceEntry>
        },
    decreases s.len(),
{
    if s.len() == 0 {
        assert(s.push(e).drop_first() =~= Seq::<NonceEntry>::empty());
    } else {
        assert(s.push(e).drop_first() =~= s.drop_first().push(e));
        lemma_find_msg_push(s.drop_first(), m, e);
    }
}

/// Removing the only entry for a message erases that reservation and no other.
proof fn lemma_find_msg_remove(s: Seq<NonceEntry>, i: int, m: Seq<u8>)
    requires
        0 <= i < s.len(),
        forall|j: int| 0 <= j < s.len() && j != i ==> s[j].message@ != s[i].message@,
    ensures
        find_msg(s.remove(i), m) == if m == s[i].message@ {
            None::<NonceEntry>
        } else {
            find_msg(s, m)
        },
    decreases i,
{
    let sr = s.remove(i);
    if i == 0 {
        assert(sr =~= s.drop_first());
        if m == s[0].message@ {
            lemma_find_msg_none(s.drop_first(), m);
        }
    } else {
        assert(sr.drop_first() =~= s.drop_first().remove(i - 1));
        lemma_find_msg_remove(s.drop_first(), i - 1, m);
    }
}

/// A long-lived signer process: one key share, one nonce store.
pub struct SignerService {
    id: u16,
    key_package: KeyPackage,
    entries: Vec<NonceEntry>,
}

impl SignerService {
    /// The reserved entries, in reservation order.
    pub closed spec fn entries_seq(self) -> Seq<NonceEntry> {
        self.entries@
    }

    /// This signer's nonzero participant identifier.
    pub closed spec fn participant(self) -> u16 {
        self.id
    }

    /// The key share this signer holds.
    pub closed spec fn key(self) -> KeyPackage {
        self.key_package
    }

    /// Well-formed: nonzero identifier, at most one reservation per message.
    pub open spec fn wf(self) -> bool {
        self.participant() != 0 && unique_msgs(self.entries_seq())
    }

    /// Whether a nonce is reserved for a message.
    pub open spec fn has_nonce(self, m: Seq<u8>) -> bool {
        find_msg(self.entries_seq(), m) is Some
    }

    /// The commitment reserved for a message.
    pub open spec fn commitment_for(self, m: Seq<u8>) -> SigningCommitments {
        find_msg(self.entries_seq(), m)->Some_0.commitments
    }

    /// A fresh signer with no reservations.
    pub fn new(id: u16, key_package: KeyPackage) -> (r: SignerService)
        requires
            id != 0,
        ensures
            r.wf(),
            r.participant() == id,
            r.key() == key_package,
            r.entries_seq().len() == 0,
    {
        SignerService { id, key_package, entries: Vec::new() }
    }

    /// The position of the entry for a message, if one is reserved.
    fn find_index(&self, m: &[u8]) -> (r: Option<usize>)
        ensures
            match r {
                Some(i) => i < self.entries_seq().len() && self.entries_seq()[i as int].message@
                    == m@ && (forall|j: int|
                    0 <= j < i ==> self.entries_seq()[j].message@ != m@),
                None => forall|j: int|
                    0 <= j < self.entries_seq().len() ==> self.entries_seq()[j].message@ != m@,
            },
    {
        let mut i: usize = 0;
        while i < self.entries.len()
            invariant
                i <= self.entries_seq().len(),
                forall|j: int| 0 <= j < i ==> self.entries_seq()[j].message@ != m@,
            decreases self.entries_seq().len() - i,
        {
            if bytes_eq(self.entries[i].message.as_slice(), m) {
                return Some(i);
            }
            i = i + 1;
        }
        None
    }
}

/// How one commitment request transforms the signer.  A request whose
/// message is not hex is rejected without a trace; a message with a live
/// reservation gets the stored commitment back, byte for byte; a fresh
/// message gets a new reservation whose commitment is returned.
pub open spec fn commitment_step(
    pre: SignerService,
    post: SignerService,
    msg_hex: Seq<u8>,
    r: Result<CommitmentResponse, SignerError>,
) -> bool {
    if !is_hex_seq(msg_hex) {
        &&& post == pre
        &&& r is Err
        &&& r->Err_0 is InvalidHex
    } else {
        let m = hex_decode_seq(msg_hex);
        &&& r is Ok
        &&& r->Ok_0.participant_id@ == spec_encode_id(pre.participant())
        &&& post.participant() == pre.participant()
        &&& post.key() == pre.key()
        &&& post.has_nonce(m)
        &&& r->Ok_0.commitments == post.commitment_for(m)
        &&& if pre.has_nonce(m) {
            &&& post == pre
            &&& r->Ok_0.commitments == pre.commitment_for(m)
        } else {
            &&& post.entries_seq().len() == pre.entries_seq().len() + 1
            &&& post.entries_seq() == pre.entries_seq().push(post.entries_seq().last())
            &&& post.entries_seq().last().message@ == m
            &&& post.entries_seq().last().commitments == commitment_of_nonces(
                post.entries_seq().last().nonces,
            )
            &&& forall|m2: Seq<u8>|
                m2 != m ==> find_msg(post.entries_seq(), m2) == find_msg(pre.entries_seq(), m2)
        }
    }
}

/// How one signing request transforms the signer.  Without a reservation
/// for the package's message the request is rejected untouched; with one,
/// the reservation is consumed before the primitive is consulted, so it is
/// gone whether or not a share comes back — and a returned share is exactly
/// the round-two signature over the package, computed with the consumed
/// reservation's nonces and the held key share.
pub open spec fn sign_step(
    pre: SignerService,
    post: SignerService,
    package: SigningPackage,
    r: Result<SignatureShare, SignerError>,
) -> bool {
    let m = package_message_of(package);
    &&& post.participant() == pre.participant()
    &&& post.key() == pre.key()
    &&& if !pre.has_nonce(m) {
        &&& post == pre
        &&& r is Err
        &&& r->Err_0 is NonceNotFound
    } else {
        let entry = find_msg(pre.entries_seq(), m)->Some_0;
        &&& !post.has_nonce(m)
        &&& post.entries_seq().len() == pre.entries_seq().len() - 1
        &&& forall|m2: Seq<u8>|
            m2 != m ==> find_msg(post.entries_seq(), m2) == find_msg(pre.entries_seq(), m2)
        &&& (r is Ok <==> sign_ok(package, entry.nonces, pre.key()))
        &&& (r is Ok ==> r->Ok_0 == share_of(package, entry.nonces, pre.key()))
        &&& (r is Err ==> r->Err_0 is SigningFailed)
    }
}

impl SignerService {
    /// Serve a commitment request: reserve a nonce for the message (or find
    /// the live reservation) and return this signer's identifier with the
    /// commitment.  Idempotent until a signing request consumes the nonce.
    pub fn request_commitment(&mut self, message_hex: &[u8]) -> (r: Result<
        CommitmentResponse,
        SignerError,
    >)
        requires
            old(self).wf(),
        ensures
            final(self).wf(),
            commitment_step(*old(self), *final(self), message_hex@, r),
    {
        let msg = match decode_hex(message_hex) {
            None => {
                return Err(SignerError::InvalidHex);
            },
            Some(m) => m,
        };
        match self.find_index(msg.as_slice()) {
            Some(i) => {
                proof {
                    lemma_find_msg_at(self.entries_seq(), msg@, i as int);
                }
                let c = clone_commitments(&self.entries[i].commitments);
                Ok(CommitmentResponse { participant_id: encode_identifier(self.id), commitments: c })
            },
            None => {
                proof {
                    lemma_find_msg_none(self.entries_seq(), msg@);
                }
                let ghost pre = self.entries_seq();
                let (nonces, commitments) = frost_commit(&self.key_package);
                let returned = clone_commitments(&commitments);
                let ghost m = msg@;
                self.entries.push(NonceEntry { message: msg, nonces, commitments });
                proof {
                    assert(self.entries_seq() =~= pre.push(self.entries_seq().last()));
                    lemma_find_msg_push(pre, m, self.entries_seq().last());
                    assert forall|m2: Seq<u8>| m2 != m implies find_msg(self.entries_seq(), m2)
                        == find_msg(pre, m2) by {
                        lemma_find_msg_push(pre, m2, self.entries_seq().last());
                    }
                }
                Ok(CommitmentResponse {
                    participant_id: encode_identifier(self.id),
                    commitments: returned,
                })
            },
        }
    }

    /// Serve a signing request: consume the reservation for the package's
    /// message and compute this participant's signature share.  Fails with
    /// `NonceNotFound` when no commitment request preceded it — in
    /// particular, when the nonce was already used once.
    pub fn request_signature_share(&mut self, package: &SigningPackage) -> (r: Result<
        SignatureShare,
        SignerError,
    >)
        requires
            old(self).wf(),
        ensures
            final(self).wf(),
            sign_step(*old(self), *final(self), *package, r),
    {
        let msg = signing_package_message(package);
        match self.find_index(msg.as_slice()) {
            None => {
                proof {
                    lemma_find_msg_none(self.entries_seq(), msg@);
                }
                Err(SignerError::NonceNotFound)
            },
            Some(i) => {
                proof {
                    lemma_find_msg_at(self.entries_seq(), msg@, i as int);
                }
                let ghost pre = self.entries_seq();
                let entry = self.entries.remove(i);
                proof {
                    lemma_find_msg_remove(pre, i as int, msg@);
                    assert forall|m2: Seq<u8>| m2 != msg@ implies find_msg(
                        self.entries_seq(),
                        m2,
                    ) == find_msg(pre, m2) by {
                        lemma_find_msg_remove(pre, i as int, m2);
                    }
                    assert forall|a: int, b: int|
                        0 <= a < b < self.entries_seq().len() implies self.entries_seq()[a].message@
                        != self.entries_seq()[b].message@ by {
                        assert(self.entries_seq()[a] == if a < i {
                            pre[a]
                        } else {
                            pre[a + 1]
                        });
                        assert(self.entries_seq()[b] == if b < i {
                            pre[b]
                        } else {
                            pre[b + 1]
                        });
                    }
                }
                match frost_sign(package, &entry.nonces, &self.key_package) {
                    Ok(share) => Ok(share),
                    Err(e) => Err(SignerError::SigningFailed(e)),
                }
            },
        }
    }
}

/// Nonce single use: once a signing request for a message has succeeded,
/// a second signing request for the same message is rejected with
/// `NonceNotFound` and changes nothing.
pub proof fn lemma_nonce_single_use(
    s0: SignerService,
    s1: SignerService,
    s2: SignerService,
    package: SigningPackage,
    r1: Result<SignatureShare, SignerError>,
    r2: Result<SignatureShare, SignerError>,
)
    requires
        sign_step(s0, s1, package, r1),
        r1 is Ok,
        sign_step(s1, s2, package, r2),
    ensures
        r2 is Err,
        r2->Err_0 is NonceNotFound,
        s2 == s1,
{
}

/// Commitment idempotency: two consecutive commitment requests for the same
/// message, with no intervening signing request, return the same commitment,
/// and the second changes nothing.
pub proof fn lemma_commitment_idempotent(
    s0: SignerService,
    s1: SignerService,
    s2: SignerService,
    msg_hex: Seq<u8>,
    r1: Result<CommitmentResponse, SignerError>,
    r2: Result<CommitmentResponse, SignerError>,
)
    requires
        commitment_step(s0, s1, msg_hex, r1),
        r1 is Ok,
        commitment_step(s1, s2, msg_hex, r2),
    ensures
        r2 is Ok,
        r2->Ok_0.commitments == r1->Ok_0.commitments,
        s2 == s1,
{
}

} // verus!
