//! Byte-level codecs for the values that cross a process boundary.
//!
//! Share files and the signer wire protocol carry key packages,
//! commitments, signing packages and signature shares in the primitive's
//! own serialization (hex-armored by the caller, see [`crate::hexstr`]).
//! These functions move between those bytes and the opaque values.

use vstd::prelude::*;
use crate::primitive::{
    commitments_deserialize, commitments_serialize, key_package_deserialize,
    key_package_serialize, signature_share_deserialize, signature_share_serialize,
    signing_package_deserialize, signing_package_serialize, KeyPackage, PrimitiveError,
    SignatureShare, SigningCommitments, SigningPackage,
};

verus! {

/// A key package in the primitive's byte encoding, for a share file.
pub fn key_package_to_bytes(kp: &KeyPackage) -> Result<Vec<u8>, PrimitiveError> {
    key_package_serialize(kp)
}

/// The key package a share file holds.
pub fn key_package_from_bytes(b: &Vec<u8>) -> Result<KeyPackage, PrimitiveError> {
    key_package_deserialize(b)
}

/// A commitment in the primitive's byte encoding, for a round-one response.
pub fn commitments_to_bytes(c: &SigningCommitments) -> Result<Vec<u8>, PrimitiveError> {
    commitments_serialize(c)
}

/// The commitment a round-one response carries.
pub fn commitments_from_bytes(b: &Vec<u8>) -> Result<SigningCommitments, PrimitiveError> {
    commitments_deserialize(b)
}

/// A signing package in the primitive's byte encoding, for a round-two
/// request.
pub fn signing_package_to_bytes(p: &SigningPackage) -> Result<Vec<u8>, PrimitiveError> {
    signing_package_serialize(p)
}

/// The signing package a round-two request carries.
pub fn signing_package_from_bytes(b: &Vec<u8>) -> Result<SigningPackage, PrimitiveError> {
    signing_package_deserialize(b)
}

/// A signature share in the primitive's byte encoding, for a round-two
/// response.
pub fn signature_share_to_bytes(s: &SignatureShare) -> Vec<u8> {
    signature_share_serialize(s)
}

/// The signature share a round-two response carries.
pub fn signature_share_from_bytes(b: &Vec<u8>) -> Result<SignatureShare, PrimitiveError> {
    signature_share_deserialize(b)
}

} // verus!
