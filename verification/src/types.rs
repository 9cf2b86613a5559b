//! Core data model of the verifier: labels, values, proof containers and
//! the error surface.  All proof blobs are opaque byte strings; they are
//! checked by the cryptographic primitives behind the
//! [`crate::configuration::Configuration`] trait, never inspected here.

use vstd::prelude::*;

verus! {

/// Output width of the configured hash function, in bytes.
pub type Digest = [u8; 32];

/// Opaque byte string identifying a user of the directory.
#[derive(Debug, Clone)]
pub struct AkdLabel(pub Vec<u8>);

impl View for AkdLabel {
    type V = Seq<u8>;

    open spec fn view(&self) -> Seq<u8> {
        self.0@
    }
}

/// Opaque byte string stored for a label at one version.
#[derive(Debug, Clone)]
pub struct AkdValue(pub Vec<u8>);

impl View for AkdValue {
    type V = Seq<u8>;

    open spec fn view(&self) -> Seq<u8> {
        self.0@
    }
}

/// The byte pattern standing for a redacted ("tombstoned") value: the
/// empty byte string.
pub open spec fn tombstone() -> Seq<u8> {
    Seq::<u8>::empty()
}

/// Whether a stored value is the tombstone sentinel.
pub fn is_tombstone(value: &AkdValue) -> (r: bool)
    ensures
        r == (value@ == tombstone()),
{
    proof {
        if value@.len() == 0 {
            assert(value@ =~= tombstone());
        }
    }
    value.0.len() == 0
}

/// Copies a byte string.
pub fn clone_bytes(bytes: &Vec<u8>) -> (r: Vec<u8>)
    ensures
        r@ == bytes@,
{
    let mut r: Vec<u8> = Vec::new();
    let mut i: usize = 0;
    while i < bytes.len()
        invariant
            i <= bytes@.len(),
            r@ == bytes@.take(i as int),
        decreases bytes@.len() - i,
    {
        r.push(bytes[i]);
        proof {
            assert(bytes@.take(i + 1) =~= bytes@.take(i as int).push(bytes@[i as int]));
        }
        i = i + 1;
    }
    proof {
        assert(bytes@.take(bytes@.len() as int) =~= bytes@);
    }
    r
}

/// Compares two byte strings for equality.
pub fn bytes_equal(a: &Vec<u8>, b: &Vec<u8>) -> (r: bool)
    ensures
        r == (a@ == b@),
{
    if a.len() != b.len() {
        return false;
    }
    let mut i: usize = 0;
    while i < a.len()
        invariant
            a@.len() == b@.len(),
            i <= a@.len(),
            forall|j: int| 0 <= j < i ==> a@[j] == b@[j],
        decreases a@.len() - i,
    {
        if a[i] != b[i] {
            return false;
        }
        i = i + 1;
    }
    proof {
        assert(a@ =~= b@);
    }
    true
}

/// Copies a stored value byte for byte.
pub fn clone_value(value: &AkdValue) -> (r: AkdValue)
    ensures
        r@ == value@,
{
    AkdValue(clone_bytes(&value.0))
}

/// Commitment payload placed at a leaf of the append-only tree.
#[derive(Debug, Clone, Copy)]
pub struct AzksValue(pub Digest);

/// Whether a (label, version) leaf is the one introducing the version or
/// the one recording that the version was later superseded.
#[derive(Debug, Clone, Copy, PartialEq, Eq, Structural)]
pub enum VersionFreshness {
    /// The leaf introduced the version.
    Fresh,
    /// The leaf recorded that the version was superseded.
    Stale,
}

/// Opaque membership proof, verified by the external Merkle primitive.
#[derive(Debug, Clone)]
pub struct MembershipProof(pub Vec<u8>);

/// Opaque non-membership proof, verified by the external Merkle primitive.
#[derive(Debug, Clone)]
pub struct NonMembershipProof(pub Vec<u8>);

/// The sub-proof for one claimed version of a label's history.
#[derive(Debug, Clone)]
pub struct UpdateProof {
    /// Epoch at which this version was introduced.
    pub epoch: u64,
    /// The version this sub-proof speaks of.
    pub version: u64,
    /// The committed value (possibly the tombstone sentinel).
    pub value: AkdValue,
    /// VRF proof for the (label, Fresh, version) leaf derivation.
    pub existence_vrf_proof: Vec<u8>,
    /// Membership proof for the (label, Fresh, version) leaf.
    pub existence_proof: MembershipProof,
    /// VRF proof for the previous version's stale leaf; present iff version > 1.
    pub previous_version_vrf_proof: Option<Vec<u8>>,
    /// Membership proof for the previous version's stale leaf; present iff version > 1.
    pub previous_version_proof: Option<MembershipProof>,
    /// Blinder binding the value to the leaf commitment.
    pub commitment_nonce: Vec<u8>,
}

/// Legacy history proof: updates plus "until-marker" and "future-marker"
/// non-existence proofs.
#[derive(Debug, Clone)]
pub struct HistoryProof {
    /// One sub-proof per claimed version, newest first.
    pub update_proofs: Vec<UpdateProof>,
    /// VRF proofs for each version strictly between the newest version and
    /// the next power of two.
    pub until_marker_vrf_proofs: Vec<Vec<u8>>,
    /// Non-membership proofs matching `until_marker_vrf_proofs`.
    pub non_existence_until_marker_proofs: Vec<NonMembershipProof>,
    /// VRF proofs for each power-of-two version up to the current epoch.
    pub future_marker_vrf_proofs: Vec<Vec<u8>>,
    /// Non-membership proofs matching `future_marker_vrf_proofs`.
    pub non_existence_of_future_marker_proofs: Vec<NonMembershipProof>,
}

/// Current history proof: updates plus past-marker existence proofs and
/// future-marker non-existence proofs.
#[derive(Debug, Clone)]
pub struct HistoryProofV2 {
    /// One sub-proof per claimed version, newest first.
    pub update_proofs: Vec<UpdateProof>,
    /// VRF proofs for the power-of-two versions within the claimed range.
    pub past_marker_vrf_proofs: Vec<Vec<u8>>,
    /// Membership proofs matching `past_marker_vrf_proofs`.
    pub existence_of_past_marker_proofs: Vec<MembershipProof>,
    /// VRF proofs for the power-of-two versions above the claimed range.
    pub future_marker_vrf_proofs: Vec<Vec<u8>>,
    /// Non-membership proofs matching `future_marker_vrf_proofs`.
    pub non_existence_of_future_marker_proofs: Vec<NonMembershipProof>,
}

/// What a successfully verified update claims: the value of the label at
/// `version`, committed at `epoch`.
#[derive(Debug, Clone)]
pub struct VerifyResult {
    /// Epoch of the verified update.
    pub epoch: u64,
    /// Version of the verified update.
    pub version: u64,
    /// Value committed at that version.
    pub value: AkdValue,
}

/// Everything that can go wrong while verifying a proof bundle.
#[derive(Debug, Clone)]
pub enum VerificationError {
    /// A structural, monotonicity, count, range or policy violation of the
    /// history proof itself.
    HistoryProof(String),
    /// The VRF proof of a leaf derivation did not verify.
    VrfInvalid,
    /// A membership proof did not verify.
    MembershipInvalid,
    /// A non-membership proof did not verify.
    NonMembershipInvalid,
    /// A leaf commitment did not match the claimed value.
    CommitmentMismatch,
}

} // verus!
