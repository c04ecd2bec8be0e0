//! Trusted boundary to the threshold-cryptography primitive.
//!
//! Everything elliptic-curve shaped is delegated to `frost-ed25519` (and, for
//! plain signature checking, `ed25519-dalek`).  Each value of the primitive is
//! held opaquely in a single-field struct below; each wrapper makes exactly
//! the calls its doc comment names, and its contract states only what those
//! crates' sources show.  Participant keys in the pair vectors handed to the
//! map-taking wrappers must be nonzero, because
//! `frost_core::Identifier::try_from(u16)` accepts exactly the nonzero values.

use vstd::prelude::*;

verus! {

/// One participant's long-lived key share, as dealt at key generation.
#[verifier::external_body]
pub struct KeyPackage {
    inner: frost_ed25519::keys::KeyPackage,
}

/// The group's public key material: per-participant verifying shares and the
/// group verifying key.
#[verifier::external_body]
pub struct PublicKeyPackage {
    inner: frost_ed25519::keys::PublicKeyPackage,
}

/// A share as dealt, before validation into a [`KeyPackage`].
#[verifier::external_body]
pub struct SecretShare {
    inner: frost_ed25519::keys::SecretShare,
}

/// The secret single-use nonces behind one commitment.
#[verifier::external_body]
pub struct SigningNonces {
    inner: frost_ed25519::round1::SigningNonces,
}

/// A participant's public round-one commitment.
#[verifier::external_body]
pub struct SigningCommitments {
    inner: frost_ed25519::round1::SigningCommitments,
}

/// A participant's round-two share of the signature.
#[verifier::external_body]
pub struct SignatureShare {
    inner: frost_ed25519::round2::SignatureShare,
}

/// The round-two bundle every participant signs over: the message together
/// with the complete commitment set.
#[verifier::external_body]
pub struct SigningPackage {
    inner: frost_ed25519::SigningPackage,
}

/// A reconstructed signing scalar.
#[verifier::external_body]
pub struct SigningKey {
    inner: frost_ed25519::SigningKey,
}

/// The group verifying key.
#[verifier::external_body]
pub struct VerifyingKey {
    inner: frost_ed25519::VerifyingKey,
}

/// One participant's public verifying share.
#[verifier::external_body]
pub struct VerifyingShare {
    inner: frost_ed25519::keys::VerifyingShare,
}

/// An aggregated group signature.
#[verifier::external_body]
pub struct GroupSignature {
    inner: frost_ed25519::Signature,
}

/// An error reported by the primitive.
#[verifier::external_body]
pub struct PrimitiveError {
    inner: frost_ed25519::Error,
}

/// An error reported by the standalone Ed25519 verifier.
#[verifier::external_body]
pub struct VerifierError {
    inner: ed25519_dalek::SignatureError,
}

/// The message a signing package was built over.
pub uninterp spec fn package_message_of(p: SigningPackage) -> Seq<u8>;

/// The commitment that belongs to a set of signing nonces.
pub uninterp spec fn commitment_of_nonces(n: SigningNonces) -> SigningCommitments;

/// Whether round-two signing accepts a package, nonces and key share.
pub uninterp spec fn sign_ok(p: SigningPackage, n: SigningNonces, k: KeyPackage) -> bool;

/// The signature share round-two signing produces when it accepts.
pub uninterp spec fn share_of(p: SigningPackage, n: SigningNonces, k: KeyPackage) -> SignatureShare;

/// Whether aggregation accepts a package, a share list and the group keys.
pub uninterp spec fn aggregate_ok(
    p: SigningPackage,
    s: Seq<(u16, SignatureShare)>,
    k: PublicKeyPackage,
) -> bool;

/// The group signature aggregation produces when it accepts.
pub uninterp spec fn aggregate_of(
    p: SigningPackage,
    s: Seq<(u16, SignatureShare)>,
    k: PublicKeyPackage,
) -> GroupSignature;

/// Whether bytes are an accepted verifying-share encoding.
pub uninterp spec fn share_point_decodes(b: Seq<u8>) -> bool;

/// The verifying share decoded from accepted bytes.
pub uninterp spec fn verifying_share_of(b: Seq<u8>) -> VerifyingShare;

/// Whether bytes are an accepted group-verifying-key encoding.
pub uninterp spec fn key_point_decodes(b: Seq<u8>) -> bool;

/// The group verifying key decoded from accepted bytes.
pub uninterp spec fn decoded_verifying_key(b: Seq<u8>) -> VerifyingKey;

/// Whether a verifying key has a wire encoding (the identity point has none).
pub uninterp spec fn key_encodable(k: VerifyingKey) -> bool;

/// Whether an aggregated signature has a wire encoding.
pub uninterp spec fn signature_encodable(s: GroupSignature) -> bool;

/// The public key package assembled from verifying shares and a group key.
pub uninterp spec fn group_package_of(
    s: Seq<(u16, VerifyingShare)>,
    k: VerifyingKey,
) -> PublicKeyPackage;

/// The group verifying key stored in a public key package.
pub uninterp spec fn package_verifying_key(p: PublicKeyPackage) -> VerifyingKey;

/// Whether every entry of a public key package has a wire encoding.
pub uninterp spec fn package_entries_encodable(p: PublicKeyPackage) -> bool;

/// The per-participant entries of a public key package, each as its 32-byte
/// identifier scalar and 32-byte share point.
pub uninterp spec fn package_share_entries(p: PublicKeyPackage) -> Seq<(Seq<u8>, Seq<u8>)>;

/// Whether a dealt share passes the verification that packaging performs.
pub uninterp spec fn share_checks(s: SecretShare) -> bool;

/// Whether key reconstruction accepts a list of key packages.
pub uninterp spec fn reconstruct_ok(s: Seq<KeyPackage>) -> bool;

/// The signing scalar reconstruction recovers when it accepts.
pub uninterp spec fn reconstructed_key(s: Seq<KeyPackage>) -> SigningKey;

/// Whether bytes are an accepted signing-scalar encoding.
pub uninterp spec fn scalar_decodes(b: Seq<u8>) -> bool;

/// The signing scalar decoded from accepted bytes.
pub uninterp spec fn scalar_of(b: Seq<u8>) -> SigningKey;

/// Whether 32 bytes are an accepted Ed25519 public-key encoding.
pub uninterp spec fn ed25519_key_decodes(vk: Seq<u8>) -> bool;

/// The 64-byte wire form of an aggregated signature.
pub uninterp spec fn signature_bytes_of(s: GroupSignature) -> Seq<u8>;

/// The 32-byte wire form of a group verifying key.
pub uninterp spec fn verifying_key_bytes_of(k: VerifyingKey) -> Seq<u8>;

/// The 32-byte serialization of a reconstructed signing scalar.
pub uninterp spec fn signing_key_bytes_of(k: SigningKey) -> Seq<u8>;

/// The 32-byte serialization of the secret signing share inside a key package.
pub uninterp spec fn signing_share_bytes_of(kp: KeyPackage) -> Seq<u8>;

/// The verifying key that corresponds to a signing scalar.
pub uninterp spec fn derived_verifying_key(k: SigningKey) -> VerifyingKey;

/// Whether a 64-byte signature passes strict Ed25519 verification of a
/// message under a 32-byte public key.
pub uninterp spec fn ed25519_verifies(vk: Seq<u8>, msg: Seq<u8>, sig: Seq<u8>) -> bool;

/// The base58 rendering of a byte string.
pub uninterp spec fn base58_of(b: Seq<u8>) -> Seq<char>;

/// Relies on `frost_ed25519::round1::commit` (drawing a fresh nonce from the
/// operating-system RNG) applied to the key package's `signing_share`.  The
/// nonce is random, so nothing pins it; the returned commitment is the one
/// derived from the returned nonce (`SigningCommitments::from(&nonces)`).
#[verifier::external_body]
pub(crate) fn frost_commit(kp: &KeyPackage) -> (r: (SigningNonces, SigningCommitments))
    ensures
        r.1 == commitment_of_nonces(r.0),
{
    let (n, c) = frost_ed25519::round1::commit(kp.inner.signing_share(), &mut rand::rngs::OsRng);
    (SigningNonces { inner: n }, SigningCommitments { inner: c })
}

/// Relies on the derived `Clone` of `frost_core::round1::SigningCommitments`,
/// a field-for-field copy of a `Copy` type.
#[verifier::external_body]
pub(crate) fn clone_commitments(c: &SigningCommitments) -> (r: SigningCommitments)
    ensures
        r == *c,
{
    SigningCommitments { inner: c.inner.clone() }
}

/// Relies on `frost_core::SigningPackage::new`, which stores the given
/// message and commitment set verbatim, and on
/// `frost_core::Identifier::try_from(u16)`, which accepts every nonzero value.
#[verifier::external_body]
pub(crate) fn signing_package_new(
    commitments: &Vec<(u16, SigningCommitments)>,
    message: &Vec<u8>,
) -> (r: SigningPackage)
    requires
        forall|i: int| 0 <= i < commitments@.len() ==> commitments@[i].0 != 0,
    ensures
        package_message_of(r) == message@,
{
    let map: std::collections::BTreeMap<_, _> = commitments
        .iter()
        .map(|p| (frost_ed25519::Identifier::try_from(p.0).unwrap(), p.1.inner))
        .collect();
    SigningPackage { inner: frost_ed25519::SigningPackage::new(map, message.as_slice()) }
}

/// Relies on the `message` accessor of `frost_core::SigningPackage`, which
/// returns the stored message.
#[verifier::external_body]
pub(crate) fn signing_package_message(p: &SigningPackage) -> (r: Vec<u8>)
    ensures
        r@ == package_message_of(*p),
{
    p.inner.message().clone()
}

/// Relies on `frost_ed25519::round2::sign`: whether it accepts and what
/// share it produces are deterministic functions of the package, the nonces
/// and the key share (no randomness is drawn).
#[verifier::external_body]
pub(crate) fn frost_sign(
    package: &SigningPackage,
    nonces: &SigningNonces,
    key_package: &KeyPackage,
) -> (r: Result<SignatureShare, PrimitiveError>)
    ensures
        r is Ok <==> sign_ok(*package, *nonces, *key_package),
        r is Ok ==> r->Ok_0 == share_of(*package, *nonces, *key_package),
{
    match frost_ed25519::round2::sign(&package.inner, &nonces.inner, &key_package.inner) {
        Ok(s) => Ok(SignatureShare { inner: s }),
        Err(e) => Err(PrimitiveError { inner: e }),
    }
}

/// Relies on `frost_ed25519::aggregate`, which verifies each share and, if
/// all are valid, combines them into the group signature — a deterministic
/// function of package, shares and keys; and on
/// `frost_core::Identifier::try_from(u16)` for the nonzero keys.
#[verifier::external_body]
pub(crate) fn frost_aggregate(
    package: &SigningPackage,
    shares: &Vec<(u16, SignatureShare)>,
    pubkeys: &PublicKeyPackage,
) -> (r: Result<GroupSignature, PrimitiveError>)
    requires
        forall|i: int| 0 <= i < shares@.len() ==> shares@[i].0 != 0,
    ensures
        r is Ok <==> aggregate_ok(*package, shares@, *pubkeys),
        r is Ok ==> r->Ok_0 == aggregate_of(*package, shares@, *pubkeys),
{
    let map: std::collections::BTreeMap<_, _> = shares
        .iter()
        .map(|p| (frost_ed25519::Identifier::try_from(p.0).unwrap(), p.1.inner.clone()))
        .collect();
    match frost_ed25519::aggregate(&package.inner, &map, &pubkeys.inner) {
        Ok(s) => Ok(GroupSignature { inner: s }),
        Err(e) => Err(PrimitiveError { inner: e }),
    }
}

/// Relies on `frost_core::Signature::serialize`: for this ciphersuite the
/// wire form is the 32-byte `R` point followed by the 32-byte `z` scalar;
/// it fails exactly when the `R` point has no encoding (the identity).
#[verifier::external_body]
pub(crate) fn signature_serialize(sig: &GroupSignature) -> (r: Result<Vec<u8>, PrimitiveError>)
    ensures
        r is Ok <==> signature_encodable(*sig),
        r is Ok ==> r->Ok_0@ == signature_bytes_of(*sig) && r->Ok_0@.len() == 64,
{
    sig.inner.serialize().map_err(|e| PrimitiveError { inner: e })
}

/// Relies on `frost_core::keys::VerifyingShare::deserialize`, which accepts
/// exactly the canonical 32-byte encodings of non-identity curve points;
/// acceptance and the decoded share depend on the bytes alone.
#[verifier::external_body]
pub(crate) fn verifying_share_deserialize(b: &Vec<u8>) -> (r: Result<
    VerifyingShare,
    PrimitiveError,
>)
    ensures
        r is Ok <==> share_point_decodes(b@),
        r is Ok ==> r->Ok_0 == verifying_share_of(b@),
{
    match frost_ed25519::keys::VerifyingShare::deserialize(b.as_slice()) {
        Ok(s) => Ok(VerifyingShare { inner: s }),
        Err(e) => Err(PrimitiveError { inner: e }),
    }
}

/// Relies on `frost_core::VerifyingKey::deserialize`, which accepts exactly
/// the canonical 32-byte encodings of non-identity curve points; acceptance
/// and the decoded key depend on the bytes alone.
#[verifier::external_body]
pub(crate) fn verifying_key_deserialize(b: &Vec<u8>) -> (r: Result<VerifyingKey, PrimitiveError>)
    ensures
        r is Ok <==> key_point_decodes(b@),
        r is Ok ==> r->Ok_0 == decoded_verifying_key(b@),
{
    match frost_ed25519::VerifyingKey::deserialize(b.as_slice()) {
        Ok(k) => Ok(VerifyingKey { inner: k }),
        Err(e) => Err(PrimitiveError { inner: e }),
    }
}

/// Relies on `frost_core::VerifyingKey::serialize`: a 32-byte compressed
/// point for this ciphersuite, refused exactly for the identity point.
#[verifier::external_body]
pub(crate) fn verifying_key_serialize(k: &VerifyingKey) -> (r: Result<Vec<u8>, PrimitiveError>)
    ensures
        r is Ok <==> key_encodable(*k),
        r is Ok ==> r->Ok_0@ == verifying_key_bytes_of(*k) && r->Ok_0@.len() == 32,
{
    k.inner.serialize().map_err(|e| PrimitiveError { inner: e })
}

/// Relies on `frost_core::keys::PublicKeyPackage::new`, which stores the
/// verifying shares and group key verbatim, and on
/// `frost_core::Identifier::try_from(u16)` for the nonzero keys.  The
/// minimum-signer count is left unset, as the on-disk format predates it.
#[verifier::external_body]
pub(crate) fn public_key_package_new(
    shares: &Vec<(u16, VerifyingShare)>,
    vk: &VerifyingKey,
) -> (r: PublicKeyPackage)
    requires
        forall|i: int| 0 <= i < shares@.len() ==> shares@[i].0 != 0,
    ensures
        r == group_package_of(shares@, *vk),
{
    let map: std::collections::BTreeMap<_, _> = shares
        .iter()
        .map(|p| (frost_ed25519::Identifier::try_from(p.0).unwrap(), p.1.inner))
        .collect();
    PublicKeyPackage { inner: frost_ed25519::keys::PublicKeyPackage::new(map, vk.inner, None) }
}

/// Relies on the `verifying_key` accessor of
/// `frost_core::keys::PublicKeyPackage`, which returns the stored group key.
#[verifier::external_body]
pub(crate) fn public_key_package_verifying_key(p: &PublicKeyPackage) -> (r: VerifyingKey)
    ensures
        r == package_verifying_key(*p),
{
    VerifyingKey { inner: *p.inner.verifying_key() }
}

/// Relies on the `verifying_shares` accessor of
/// `frost_core::keys::PublicKeyPackage` together with
/// `Identifier::serialize` (infallible) and `VerifyingShare::serialize`
/// (refused exactly for an identity point): each entry is returned as its
/// 32-byte identifier scalar and 32-byte share point, a deterministic
/// rendering of the package.
#[verifier::external_body]
pub(crate) fn public_key_package_share_bytes(p: &PublicKeyPackage) -> (r: Result<
    Vec<(Vec<u8>, Vec<u8>)>,
    PrimitiveError,
>)
    ensures
        r is Ok <==> package_entries_encodable(*p),
        r is Ok ==> {
            &&& r->Ok_0@.len() == package_share_entries(*p).len()
            &&& forall|i: int|
                0 <= i < r->Ok_0@.len() ==> r->Ok_0@[i].0@ == package_share_entries(*p)[i].0
                    && r->Ok_0@[i].1@ == package_share_entries(*p)[i].1
                    && r->Ok_0@[i].0@.len() == 32 && r->Ok_0@[i].1@.len() == 32
        },
{
    let mut out = Vec::new();
    for (id, share) in p.inner.verifying_shares().iter() {
        let sb = share.serialize().map_err(|e| PrimitiveError { inner: e })?;
        out.push((id.serialize(), sb));
    }
    Ok(out)
}

/// Relies on `frost_ed25519::keys::generate_with_dealer` with the default
/// identifier list: it rejects exactly the parameters outside
/// `2 <= min_signers <= max_signers` (the default identifiers are distinct
/// and nonzero, and no other step of dealing can fail), and on success deals
/// one secret share per participant, for identifiers 1 through `max_signers`
/// in ascending order, drawing randomness from the operating-system RNG.
/// Every dealt share passes its own verification, because the dealer derives
/// the commitment from the very polynomial it evaluates and commits to at
/// least two coefficients; and the dealt package stores one verifying share
/// per participant.
#[verifier::external_body]
pub(crate) fn generate_with_dealer(max_signers: u16, min_signers: u16) -> (r: Result<
    (Vec<SecretShare>, PublicKeyPackage),
    PrimitiveError,
>)
    ensures
        r is Ok <==> (2 <= min_signers && min_signers <= max_signers),
        r is Ok ==> {
            &&& r->Ok_0.0@.len() == max_signers
            &&& forall|i: int| 0 <= i < r->Ok_0.0@.len() ==> share_checks(#[trigger] r->Ok_0.0@[i])
            &&& package_share_entries(r->Ok_0.1).len() == max_signers
        },
{
    match frost_ed25519::keys::generate_with_dealer(
        max_signers,
        min_signers,
        frost_ed25519::keys::IdentifierList::Default,
        rand::rngs::OsRng,
    ) {
        Ok((shares, pubkeys)) => Ok((
            shares.into_values().map(|s| SecretShare { inner: s }).collect(),
            PublicKeyPackage { inner: pubkeys },
        )),
        Err(e) => Err(PrimitiveError { inner: e }),
    }
}

/// Relies on `KeyPackage::try_from(SecretShare)`, which validates the share
/// against its commitment and packages it for signing; acceptance depends on
/// the share alone.
#[verifier::external_body]
pub(crate) fn key_package_from_secret_share(s: &SecretShare) -> (r: Result<
    KeyPackage,
    PrimitiveError,
>)
    ensures
        r is Ok <==> share_checks(*s),
{
    match frost_ed25519::keys::KeyPackage::try_from(s.inner.clone()) {
        Ok(kp) => Ok(KeyPackage { inner: kp }),
        Err(e) => Err(PrimitiveError { inner: e }),
    }
}

/// Relies on `frost_ed25519::keys::reconstruct`, the identifier-aware
/// Lagrange combination: a deterministic function of the key packages,
/// rejecting exactly an empty list, fewer packages than their stored
/// threshold, or a duplicated identifier.
#[verifier::external_body]
pub(crate) fn frost_reconstruct(shares: &Vec<KeyPackage>) -> (r: Result<
    SigningKey,
    PrimitiveError,
>)
    ensures
        r is Ok <==> reconstruct_ok(shares@),
        r is Ok ==> r->Ok_0 == reconstructed_key(shares@),
{
    let inner: Vec<frost_ed25519::keys::KeyPackage> =
        shares.iter().map(|k| k.inner.clone()).collect();
    match frost_ed25519::keys::reconstruct(inner.as_slice()) {
        Ok(k) => Ok(SigningKey { inner: k }),
        Err(e) => Err(PrimitiveError { inner: e }),
    }
}

/// Relies on `frost_core::SigningKey::serialize`: the 32-byte little-endian
/// scalar encoding.
#[verifier::external_body]
pub(crate) fn signing_key_serialize(k: &SigningKey) -> (r: Vec<u8>)
    ensures
        r@ == signing_key_bytes_of(*k),
        r@.len() == 32,
{
    k.inner.serialize()
}

/// Relies on the `signing_share` accessor of `frost_core::keys::KeyPackage`
/// and `SigningShare::serialize`: the 32-byte little-endian scalar encoding
/// of the secret share.
#[verifier::external_body]
pub(crate) fn key_package_share_bytes(kp: &KeyPackage) -> (r: Vec<u8>)
    ensures
        r@ == signing_share_bytes_of(*kp),
        r@.len() == 32,
{
    kp.inner.signing_share().serialize()
}

/// Relies on `frost_core::SigningKey::deserialize`, which accepts exactly
/// the canonical 32-byte little-endian encodings of nonzero scalars;
/// acceptance and the decoded scalar depend on the bytes alone.
#[verifier::external_body]
pub(crate) fn signing_key_deserialize(b: &Vec<u8>) -> (r: Result<SigningKey, PrimitiveError>)
    ensures
        r is Ok <==> scalar_decodes(b@),
        r is Ok ==> r->Ok_0 == scalar_of(b@),
{
    match frost_ed25519::SigningKey::deserialize(b.as_slice()) {
        Ok(k) => Ok(SigningKey { inner: k }),
        Err(e) => Err(PrimitiveError { inner: e }),
    }
}

/// Relies on `VerifyingKey::from(&SigningKey)`, which derives the public key
/// of a signing scalar.
#[verifier::external_body]
pub(crate) fn verifying_key_of(k: &SigningKey) -> (r: VerifyingKey)
    ensures
        r == derived_verifying_key(*k),
{
    VerifyingKey { inner: frost_ed25519::VerifyingKey::from(&k.inner) }
}

/// Relies on `ed25519_dalek::VerifyingKey::from_bytes` (accepts canonical
/// point encodings), `ed25519::Signature::from_bytes` (infallible), and
/// `ed25519_dalek::VerifyingKey::verify_strict`, whose verdict is a
/// deterministic function of key, message and signature.  A malformed key is
/// the error; a failing verification is `Ok(false)`.
#[verifier::external_body]
pub(crate) fn dalek_verify(vk_bytes: &Vec<u8>, msg: &Vec<u8>, sig_bytes: &Vec<u8>) -> (r: Result<
    bool,
    VerifierError,
>)
    requires
        vk_bytes@.len() == 32,
        sig_bytes@.len() == 64,
    ensures
        r is Ok <==> ed25519_key_decodes(vk_bytes@),
        r is Ok ==> r->Ok_0 == ed25519_verifies(vk_bytes@, msg@, sig_bytes@),
{
    let vk = match ed25519_dalek::VerifyingKey::from_bytes(vk_bytes.as_slice().try_into().unwrap())
    {
        Ok(k) => k,
        Err(e) => {
            return Err(VerifierError { inner: e });
        },
    };
    let sig = ed25519_dalek::Signature::from_bytes(sig_bytes.as_slice().try_into().unwrap());
    Ok(vk.verify_strict(msg.as_slice(), &sig).is_ok())
}

/// Relies on `bs58::encode`, whose rendering depends on the input bytes alone.
#[verifier::external_body]
pub(crate) fn bs58_encode(b: &Vec<u8>) -> (r: String)
    ensures
        r@ == base58_of(b@),
{
    bs58::encode(b.as_slice()).into_string()
}

/// Relies on the `Debug` rendering of `frost_core::Error`, for diagnostics
/// only; nothing is stated of the text.
#[verifier::external_body]
pub fn primitive_error_text(e: &PrimitiveError) -> String {
    format!("{:?}", e.inner)
}

/// Relies on `frost_core::keys::KeyPackage::serialize`, the primitive's own
/// byte encoding of a key package.
#[verifier::external_body]
pub(crate) fn key_package_serialize(kp: &KeyPackage) -> (r: Result<Vec<u8>, PrimitiveError>) {
    kp.inner.serialize().map_err(|e| PrimitiveError { inner: e })
}

/// Relies on `frost_core::keys::KeyPackage::deserialize`, which accepts
/// exactly the primitive's own byte encoding of a key package.
#[verifier::external_body]
pub(crate) fn key_package_deserialize(b: &Vec<u8>) -> (r: Result<KeyPackage, PrimitiveError>) {
    match frost_ed25519::keys::KeyPackage::deserialize(b.as_slice()) {
        Ok(kp) => Ok(KeyPackage { inner: kp }),
        Err(e) => Err(PrimitiveError { inner: e }),
    }
}

/// Relies on `frost_core::round1::SigningCommitments::serialize`, the
/// primitive's own byte encoding of a commitment.
#[verifier::external_body]
pub(crate) fn commitments_serialize(c: &SigningCommitments) -> (r: Result<
    Vec<u8>,
    PrimitiveError,
>) {
    c.inner.serialize().map_err(|e| PrimitiveError { inner: e })
}

/// Relies on `frost_core::round1::SigningCommitments::deserialize`, which
/// accepts exactly the primitive's own byte encoding of a commitment.
#[verifier::external_body]
pub(crate) fn commitments_deserialize(b: &Vec<u8>) -> (r: Result<
    SigningCommitments,
    PrimitiveError,
>) {
    match frost_ed25519::round1::SigningCommitments::deserialize(b.as_slice()) {
        Ok(c) => Ok(SigningCommitments { inner: c }),
        Err(e) => Err(PrimitiveError { inner: e }),
    }
}

/// Relies on `frost_core::SigningPackage::serialize`, the primitive's own
/// byte encoding of a signing package.
#[verifier::external_body]
pub(crate) fn signing_package_serialize(p: &SigningPackage) -> (r: Result<
    Vec<u8>,
    PrimitiveError,
>) {
    p.inner.serialize().map_err(|e| PrimitiveError { inner: e })
}

/// Relies on `frost_core::SigningPackage::deserialize`, which accepts exactly
/// the primitive's own byte encoding of a signing package.
#[verifier::external_body]
pub(crate) fn signing_package_deserialize(b: &Vec<u8>) -> (r: Result<
    SigningPackage,
    PrimitiveError,
>) {
    match frost_ed25519::SigningPackage::deserialize(b.as_slice()) {
        Ok(p) => Ok(SigningPackage { inner: p }),
        Err(e) => Err(PrimitiveError { inner: e }),
    }
}

/// Relies on `frost_core::round2::SignatureShare::serialize`, the primitive's
/// own byte encoding of a signature share.
#[verifier::external_body]
pub(crate) fn signature_share_serialize(s: &SignatureShare) -> (r: Vec<u8>) {
    s.inner.serialize()
}

/// Relies on `frost_core::round2::SignatureShare::deserialize`, which accepts
/// exactly the primitive's own byte encoding of a signature share.
#[verifier::external_body]
pub(crate) fn signature_share_deserialize(b: &Vec<u8>) -> (r: Result<
    SignatureShare,
    PrimitiveError,
>) {
    match frost_ed25519::round2::SignatureShare::deserialize(b.as_slice()) {
        Ok(s) => Ok(SignatureShare { inner: s }),
        Err(e) => Err(PrimitiveError { inner: e }),
    }
}

} // verus!
