//! The cryptographic configuration a verifier is instantiated with.
//!
//! The hash construction, the commitment scheme, the VRF primitive, the
//! Merkle membership and non-membership primitives and the domain-separation
//! tags all live behind this trait: they are external collaborators of the
//! history verifier, supplied by the caller.  The verified core never looks
//! inside a proof blob; it only sequences these checks and enforces the
//! structural rules of a history proof.

use crate::types::{
    AkdLabel, AkdValue, AzksValue, Digest, MembershipProof, NonMembershipProof, VerificationError,
    VersionFreshness,
};
use vstd::prelude::*;

verus! {

/// Capability bundle of one cryptographic configuration.  Distinct
/// configurations are not interchangeable at runtime; a verifier is
/// instantiated with one of them at compile time.
pub trait Configuration {
    /// The fixed commitment sentinel placed at a (label, version, Stale)
    /// leaf when that version is superseded.
    fn stale_azks_value() -> AzksValue;

    /// Checks the VRF-derived (label, freshness, version) leaf exists in
    /// the tree with root `root_hash`, taking the leaf payload on faith.
    fn verify_existence(
        vrf_public_key: &[u8],
        root_hash: Digest,
        label: &AkdLabel,
        freshness: VersionFreshness,
        version: u64,
        vrf_proof: &[u8],
        proof: &MembershipProof,
    ) -> Result<(), VerificationError>;

    /// As [`Configuration::verify_existence`], and additionally recomputes
    /// the leaf commitment from `value` and `commitment_nonce` and checks
    /// the leaf commits to it at `epoch`.
    fn verify_existence_with_val(
        vrf_public_key: &[u8],
        root_hash: Digest,
        label: &AkdLabel,
        value: &AkdValue,
        epoch: u64,
        commitment_nonce: &[u8],
        freshness: VersionFreshness,
        version: u64,
        vrf_proof: &[u8],
        proof: &MembershipProof,
    ) -> Result<(), VerificationError>;

    /// As [`Configuration::verify_existence`], with a caller-supplied leaf
    /// commitment checked at `epoch`.
    fn verify_existence_with_commitment(
        vrf_public_key: &[u8],
        root_hash: Digest,
        label: &AkdLabel,
        commitment: AzksValue,
        epoch: u64,
        freshness: VersionFreshness,
        version: u64,
        vrf_proof: &[u8],
        proof: &MembershipProof,
    ) -> Result<(), VerificationError>;

    /// Checks the VRF-derived (label, freshness, version) leaf is absent
    /// from the tree with root `root_hash`.
    fn verify_nonexistence(
        vrf_public_key: &[u8],
        root_hash: Digest,
        label: &AkdLabel,
        freshness: VersionFreshness,
        version: u64,
        vrf_proof: &[u8],
        proof: &NonMembershipProof,
    ) -> Result<(), VerificationError>;
}

} // verus!
