//! Key reconstruction: combining stored key shares back into a raw signing
//! scalar, for offline tooling that needs a plain keypair.
//!
//! Two mutually incompatible strategies exist and must be chosen explicitly
//! by deployment, never inferred from the shape of the material:
//!
//! * the matched strategy uses the primitive's identifier-aware Lagrange
//!   combination over key packages exactly as dealt — the only strategy that
//!   reproduces the original signing scalar and its group public key;
//! * the generic strategy (see [`crate::gf256`]) treats each share as an
//!   (index, raw bytes) pair under byte-wise polynomial secret sharing over
//!   an independent field.  Applied to shares dealt by the matched scheme it
//!   yields structurally valid bytes that do not reproduce the correct
//!   public key — a silent mismatch, not a crash.
//!
//! The output is a fixed 64-byte keypair blob: the 32-byte secret scalar
//! followed by its 32-byte derived public key.

use vstd::prelude::*;
use crate::gf256::{combine_generic, spec_combine, share_views, shares_ok, GenericShareError};
use crate::primitive::{
    derived_verifying_key, frost_reconstruct, key_encodable, reconstruct_ok, reconstructed_key,
    scalar_decodes, scalar_of, signing_key_bytes_of, signing_key_deserialize,
    signing_key_serialize, signing_share_bytes_of, verifying_key_bytes_of, verifying_key_of,
    verifying_key_serialize, KeyPackage, PrimitiveError, SigningKey,
};

verus! {

/// Which reconstruction scheme a deployment has chosen.
pub enum ReconstructionStrategy {
    /// The primitive's identifier-aware Lagrange combination.
    Matched,
    /// Byte-wise polynomial secret sharing over an independent field.
    GenericSecretSharing,
}

/// Why reconstruction failed.
pub enum ReconstructError {
    /// The primitive rejected the shares.
    Primitive(PrimitiveError),
    /// The generic share list was unusable.
    Shares(GenericShareError),
}

/// Concatenate a 32-byte secret scalar and its 32-byte public key into the
/// fixed 64-byte keypair blob.
pub fn keypair_blob(sk: &Vec<u8>, pk: &Vec<u8>) -> (r: Vec<u8>)
    requires
        sk@.len() == 32,
        pk@.len() == 32,
    ensures
        r@ == sk@ + pk@,
        r@.len() == 64,
{
    let mut out: Vec<u8> = Vec::new();
    let mut i: usize = 0;
    while i < sk.len()
        invariant
            i <= sk@.len(),
            out@ == sk@.take(i as int),
        decreases sk@.len() - i,
    {
        out.push(sk[i]);
        i = i + 1;
    }
    proof {
        assert(out@ =~= sk@);
    }
    let mut j: usize = 0;
    while j < pk.len()
        invariant
            j <= pk@.len(),
            out@ == sk@ + pk@.take(j as int),
        decreases pk@.len() - j,
    {
        out.push(pk[j]);
        j = j + 1;
        proof {
            assert(out@ =~= sk@ + pk@.take(j as int));
        }
    }
    proof {
        assert(out@ =~= sk@ + pk@);
    }
    out
}

/// The 64-byte keypair blob of a signing scalar: its serialization followed
/// by its derived public key's.  Owed whenever the derived key has a wire
/// encoding.
pub fn signing_key_blob(key: &SigningKey) -> (r: Result<Vec<u8>, PrimitiveError>)
    ensures
        r is Ok <==> key_encodable(derived_verifying_key(*key)),
        r is Ok ==> r->Ok_0@ == signing_key_bytes_of(*key) + verifying_key_bytes_of(
            derived_verifying_key(*key),
        ) && r->Ok_0@.len() == 64,
{
    let sk_bytes = signing_key_serialize(key);
    let vk = verifying_key_of(key);
    let pk_bytes = match verifying_key_serialize(&vk) {
        Err(e) => {
            return Err(e);
        },
        Ok(b) => b,
    };
    Ok(keypair_blob(&sk_bytes, &pk_bytes))
}

/// Matched reconstruction: recover the signing scalar from at least the
/// threshold number of key packages, as dealt, and return its 64-byte
/// keypair blob.  Succeeds exactly when the primitive's combination accepts
/// the packages and the recovered scalar's public key has a wire encoding.
pub fn reconstruct_matched(shares: &Vec<KeyPackage>) -> (r: Result<Vec<u8>, ReconstructError>)
    ensures
        r is Ok <==> (reconstruct_ok(shares@) && key_encodable(
            derived_verifying_key(reconstructed_key(shares@)),
        )),
        r is Ok ==> r->Ok_0@ == signing_key_bytes_of(reconstructed_key(shares@))
            + verifying_key_bytes_of(derived_verifying_key(reconstructed_key(shares@)))
            && r->Ok_0@.len() == 64,
{
    let key = match frost_reconstruct(shares) {
        Err(e) => {
            return Err(ReconstructError::Primitive(e));
        },
        Ok(k) => k,
    };
    match signing_key_blob(&key) {
        Err(e) => Err(ReconstructError::Primitive(e)),
        Ok(blob) => Ok(blob),
    }
}

/// The raw 32-byte secret share inside a key package, as offline tooling
/// reads it when treating dealt shares as generic (index, bytes) pairs.
pub fn key_share_bytes(kp: &KeyPackage) -> (r: Vec<u8>)
    ensures
        r@ == signing_share_bytes_of(*kp),
        r@.len() == 32,
{
    crate::primitive::key_package_share_bytes(kp)
}

/// Generic reconstruction: recombine the raw share bytes under byte-wise
/// polynomial secret sharing, read the result as a signing scalar, and
/// return its 64-byte keypair blob.  On a usable share list it succeeds
/// exactly when the recombined bytes decode as a scalar whose public key has
/// a wire encoding.  Correct only when the splitting used the identical
/// generic scheme; on shares dealt by the matched scheme the blob's public
/// key does not match the group's.
pub fn reconstruct_generic(shares: &Vec<(u8, Vec<u8>)>) -> (r: Result<Vec<u8>, ReconstructError>)
    ensures
        !shares_ok(share_views(shares@)) <==> r is Err && r->Err_0 is Shares,
        shares_ok(share_views(shares@)) ==> {
            let combined = spec_combine(share_views(shares@), shares@[0].1@.len() as int);
            &&& (r is Ok <==> scalar_decodes(combined) && key_encodable(
                derived_verifying_key(scalar_of(combined)),
            ))
            &&& (r is Ok ==> r->Ok_0@ == signing_key_bytes_of(scalar_of(combined))
                + verifying_key_bytes_of(derived_verifying_key(scalar_of(combined))))
        },
        r is Ok ==> r->Ok_0@.len() == 64,
{
    let secret = match combine_generic(shares) {
        Err(e) => {
            return Err(ReconstructError::Shares(e));
        },
        Ok(s) => s,
    };
    let key = match signing_key_deserialize(&secret) {
        Err(e) => {
            return Err(ReconstructError::Primitive(e));
        },
        Ok(k) => k,
    };
    match signing_key_blob(&key) {
        Err(e) => Err(ReconstructError::Primitive(e)),
        Ok(blob) => Ok(blob),
    }
}

} // verus!
