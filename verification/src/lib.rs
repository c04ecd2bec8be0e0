//! Threshold Ed25519 signing built on the FROST two-round protocol.
//!
//! A group of `n` parties jointly controls one Ed25519 public key; any `t`
//! of them can produce a signature by running two rounds through a
//! coordinator, while no single process ever holds the whole private key.
//! This crate holds the protocol state and decision logic: the signer's
//! single-use nonce lifecycle, the coordinator's two-round state machine,
//! the participant-identifier wire codec, the on-disk key-material shapes,
//! and the two key-reconstruction strategies.  Network and file plumbing
//! stay outside; the elliptic-curve work is delegated to `frost-ed25519`
//! behind a small set of trusted declarations.

pub mod coordinator;
pub mod gf256;
pub mod groupkey;
pub mod hexstr;
pub mod identifier;
pub mod keyed;
pub mod primitive;
pub mod reconstruct;
pub mod signer;
pub mod signing;
pub mod submit;
pub mod wire;
