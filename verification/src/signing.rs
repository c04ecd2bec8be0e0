//! Whole-protocol flows run by one process: trusted-dealer key generation,
//! local two-share threshold signing, and signature verification.

use vstd::prelude::*;
use crate::groupkey::{GroupKeyCryptoError, GroupKeyMaterial};
use crate::hexstr::{encode_hex, hex_decode_seq, hex_encode_seq, lemma_hex_round_trip};
use crate::keyed::IdMap;
use crate::primitive::{
    base58_of, bs58_encode, ed25519_key_decodes, ed25519_verifies, dalek_verify, frost_aggregate,
    frost_commit, frost_sign, generate_with_dealer, key_package_from_secret_share,
    package_share_entries, package_verifying_key, public_key_package_share_bytes,
    public_key_package_verifying_key, signature_serialize, signing_package_new,
    verifying_key_bytes_of, verifying_key_serialize, KeyPackage, PrimitiveError,
    PublicKeyPackage, SignatureShare, SigningCommitments, VerifierError,
};

verus! {

/// Why a local signing run failed.
pub enum SignError {
    /// A share file carries participant index zero, which no participant may
    /// use.
    ZeroIdentifier,
    /// The two share files carry the same participant index.
    DuplicateIdentifier,
    /// The primitive rejected a commitment, share or package.
    Primitive(PrimitiveError),
    /// The group key material was rejected by the primitive.
    GroupKey(GroupKeyCryptoError),
}

/// Sign a message locally with two key shares, as offline tooling does:
/// round one and round two for both participants in one process, then
/// aggregation against the stored group key material.  Returns the 64-byte
/// signature.  The identifier checks and the group key material are settled
/// before any nonce is drawn; the remaining outcomes turn on the freshly
/// drawn nonces, so they are pinned per call, not per input.
pub fn threshold_sign(
    id1: u16,
    kp1: &KeyPackage,
    id2: u16,
    kp2: &KeyPackage,
    message: &Vec<u8>,
    group: &GroupKeyMaterial,
) -> (r: Result<Vec<u8>, SignError>)
    requires
        group.wf(),
    ensures
        (r is Err && r->Err_0 is ZeroIdentifier) <==> (id1 == 0 || id2 == 0),
        (r is Err && r->Err_0 is DuplicateIdentifier) <==> (id1 != 0 && id2 != 0 && id1 == id2),
        (r is Err && r->Err_0 is GroupKey) <==> (id1 != 0 && id2 != 0 && id1 != id2
            && !group.decodes()),
        r is Ok ==> r->Ok_0@.len() == 64,
{
    if id1 == 0 || id2 == 0 {
        return Err(SignError::ZeroIdentifier);
    }
    if id1 == id2 {
        return Err(SignError::DuplicateIdentifier);
    }
    let pubkeys = match group.to_public_key_package() {
        Err(e) => {
            return Err(SignError::GroupKey(e));
        },
        Ok(p) => p,
    };

    let (nonces1, commitments1) = frost_commit(kp1);
    let (nonces2, commitments2) = frost_commit(kp2);

    let mut commitment_set: IdMap<SigningCommitments> = IdMap::new();
    commitment_set.insert(id1, commitments1);
    commitment_set.insert(id2, commitments2);
    let package = signing_package_new(commitment_set.entries(), message);

    let share1 = match frost_sign(&package, &nonces1, kp1) {
        Err(e) => {
            return Err(SignError::Primitive(e));
        },
        Ok(s) => s,
    };
    let share2 = match frost_sign(&package, &nonces2, kp2) {
        Err(e) => {
            return Err(SignError::Primitive(e));
        },
        Ok(s) => s,
    };

    let mut share_set: IdMap<SignatureShare> = IdMap::new();
    share_set.insert(id1, share1);
    share_set.insert(id2, share2);

    let signature = match frost_aggregate(&package, share_set.entries(), &pubkeys) {
        Err(e) => {
            return Err(SignError::Primitive(e));
        },
        Ok(s) => s,
    };
    match signature_serialize(&signature) {
        Err(e) => Err(SignError::Primitive(e)),
        Ok(bytes) => Ok(bytes),
    }
}

/// Why a verification request was rejected (as opposed to the signature
/// merely failing to verify).
pub enum VerifyError {
    /// The public key is not 32 bytes long.
    WrongKeyLength,
    /// The signature is not 64 bytes long.
    WrongSignatureLength,
    /// The public key bytes are not a canonical curve point.
    MalformedKey(VerifierError),
}

/// Check a 64-byte signature over a message against a 32-byte group public
/// key, by strict Ed25519 verification.  A verdict is owed on every input
/// with the right lengths and a decodable key; a failing verification is the
/// verdict `false`, not an error.
pub fn verify_signature(vk: &Vec<u8>, message: &Vec<u8>, signature: &Vec<u8>) -> (r: Result<
    bool,
    VerifyError,
>)
    ensures
        r is Ok <==> (vk@.len() == 32 && signature@.len() == 64 && ed25519_key_decodes(vk@)),
        vk@.len() != 32 <==> r is Err && r->Err_0 is WrongKeyLength,
        vk@.len() == 32 && signature@.len() != 64 <==> r is Err && r->Err_0
            is WrongSignatureLength,
        (r is Err && r->Err_0 is MalformedKey) <==> (vk@.len() == 32 && signature@.len() == 64
            && !ed25519_key_decodes(vk@)),
        r is Ok ==> r->Ok_0 == ed25519_verifies(vk@, message@, signature@),
{
    if vk.len() != 32 {
        return Err(VerifyError::WrongKeyLength);
    }
    if signature.len() != 64 {
        return Err(VerifyError::WrongSignatureLength);
    }
    match dalek_verify(vk, message, signature) {
        Err(e) => Err(VerifyError::MalformedKey(e)),
        Ok(b) => Ok(b),
    }
}

/// The group public key file's content, ready to be written out: the
/// verifying-share mapping and the verifying key as hex, with the derived
/// convenience fields.
pub struct GroupFileData {
    /// Hex identifier mapped to hex verifying-share bytes.
    pub verifying_shares_hex: Vec<(Vec<u8>, Vec<u8>)>,
    /// The group verifying key, hex.
    pub verifying_key_hex: Vec<u8>,
    /// The same key again, under the conventional field name.
    pub public_key_hex: Vec<u8>,
    /// The key's base58 address rendering.
    pub address_base58: String,
}

/// Everything one dealer run produces: the per-participant key packages,
/// indexed 1 through `n` in identifier order, the primitive's public key
/// package, and the group file content.
pub struct DkgOutput {
    pub shares: Vec<(u16, KeyPackage)>,
    pub public_key_package: PublicKeyPackage,
    pub group_file: GroupFileData,
}

/// Why a dealer run failed.
pub enum DkgError {
    /// The parameters were rejected: a usable run needs
    /// `2 <= min_signers <= max_signers`.
    BadParameters,
    /// The primitive could not encode a dealt point.
    Primitive(PrimitiveError),
}

/// Run trusted-dealer key generation for `max_signers` participants with
/// threshold `min_signers` and derive the on-disk shapes.  The parameters
/// are rejected exactly when `2 <= min_signers <= max_signers` fails, before
/// anything is dealt; on success the group file carries one hex entry per
/// dealt verifying share and the hex and base58 renderings of the dealt
/// group key.
pub fn run_dkg(max_signers: u16, min_signers: u16) -> (r: Result<DkgOutput, DkgError>)
    ensures
        (r is Err && r->Err_0 is BadParameters) <==> !(2 <= min_signers && min_signers
            <= max_signers),
        r is Ok ==> {
            let out = r->Ok_0;
            &&& out.shares@.len() == max_signers
            &&& forall|j: int| 0 <= j < out.shares@.len() ==> #[trigger] out.shares@[j].0 == j + 1
            &&& out.group_file.verifying_shares_hex@.len() == max_signers
            &&& package_share_entries(out.public_key_package).len() == max_signers
            &&& forall|j: int|
                0 <= j < out.group_file.verifying_shares_hex@.len() ==> {
                    let entry = #[trigger] out.group_file.verifying_shares_hex@[j];
                    &&& entry.0@ == hex_encode_seq(
                        package_share_entries(out.public_key_package)[j].0,
                    )
                    &&& entry.1@ == hex_encode_seq(
                        package_share_entries(out.public_key_package)[j].1,
                    )
                    &&& entry.0@.len() == 64
                    &&& entry.1@.len() == 64
                }
            &&& out.group_file.verifying_key_hex@ == hex_encode_seq(
                verifying_key_bytes_of(package_verifying_key(out.public_key_package)),
            )
            &&& out.group_file.verifying_key_hex@.len() == 64
            &&& out.group_file.public_key_hex@ == out.group_file.verifying_key_hex@
            &&& out.group_file.address_base58@ == base58_of(
                hex_decode_seq(out.group_file.verifying_key_hex@),
            )
        },
{
    let (secret_shares, public_key_package) = match generate_with_dealer(max_signers, min_signers) {
        Err(_) => {
            return Err(DkgError::BadParameters);
        },
        Ok(p) => p,
    };

    let mut shares: Vec<(u16, KeyPackage)> = Vec::new();
    let mut i: usize = 0;
    while i < secret_shares.len()
        invariant
            2 <= min_signers && min_signers <= max_signers,
            i <= secret_shares@.len(),
            secret_shares@.len() == max_signers,
            shares@.len() == i,
            forall|j: int| 0 <= j < i ==> #[trigger] shares@[j].0 == j + 1,
        decreases secret_shares@.len() - i,
    {
        let kp = match key_package_from_secret_share(&secret_shares[i]) {
            Err(e) => {
                return Err(DkgError::Primitive(e));
            },
            Ok(kp) => kp,
        };
        shares.push(((i as u16) + 1, kp));
        i = i + 1;
    }

    let share_bytes = match public_key_package_share_bytes(&public_key_package) {
        Err(e) => {
            return Err(DkgError::Primitive(e));
        },
        Ok(v) => v,
    };
    let mut verifying_shares_hex: Vec<(Vec<u8>, Vec<u8>)> = Vec::new();
    let mut j: usize = 0;
    while j < share_bytes.len()
        invariant
            j <= share_bytes@.len(),
            share_bytes@.len() == package_share_entries(public_key_package).len(),
            forall|k: int|
                0 <= k < share_bytes@.len() ==> (#[trigger] share_bytes@[k]).0@
                    == package_share_entries(public_key_package)[k].0 && share_bytes@[k].1@
                    == package_share_entries(public_key_package)[k].1 && share_bytes@[k].0@.len()
                    == 32 && share_bytes@[k].1@.len() == 32,
            verifying_shares_hex@.len() == j,
            forall|k: int|
                0 <= k < j ==> {
                    let entry = #[trigger] verifying_shares_hex@[k];
                    &&& entry.0@ == hex_encode_seq(package_share_entries(public_key_package)[k].0)
                    &&& entry.1@ == hex_encode_seq(package_share_entries(public_key_package)[k].1)
                    &&& entry.0@.len() == 64
                    &&& entry.1@.len() == 64
                },
        decreases share_bytes@.len() - j,
    {
        let id_hex = encode_hex(share_bytes[j].0.as_slice());
        let share_hex = encode_hex(share_bytes[j].1.as_slice());
        verifying_shares_hex.push((id_hex, share_hex));
        j = j + 1;
    }

    let vk = public_key_package_verifying_key(&public_key_package);
    let vk_bytes = match verifying_key_serialize(&vk) {
        Err(e) => {
            return Err(DkgError::Primitive(e));
        },
        Ok(b) => b,
    };
    let verifying_key_hex = encode_hex(vk_bytes.as_slice());
    let public_key_hex = encode_hex(vk_bytes.as_slice());
    let address_base58 = bs58_encode(&vk_bytes);
    proof {
        lemma_hex_round_trip(vk_bytes@);
        assert(hex_encode_seq(vk_bytes@).len() == 64);
    }

    Ok(
        DkgOutput {
            shares,
            public_key_package,
            group_file: GroupFileData {
                verifying_shares_hex,
                verifying_key_hex,
                public_key_hex,
                address_base58,
            },
        },
    )
}

} // verus!
