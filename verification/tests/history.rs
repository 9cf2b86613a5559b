//! End-to-end tests of the history proof verifiers, run against a small
//! test configuration whose primitives check proof blobs byte for byte:
//! a VRF proof must restate (freshness, version, label), a membership or
//! non-membership proof must restate the root hash, and a value
//! commitment is its nonce.

use akd::configuration::Configuration;
use akd::history::{
    key_history_verify, key_history_verify_v2, HistoryParams, HistoryVerificationParams,
};
use akd::types::{
    AkdLabel, AkdValue, AzksValue, Digest, HistoryProof, HistoryProofV2, MembershipProof,
    NonMembershipProof, UpdateProof, VerificationError, VersionFreshness,
};

const STALE_SENTINEL: [u8; 32] = [7u8; 32];

struct TestConfig;

fn vrf_bytes(label: &AkdLabel, freshness: VersionFreshness, version: u64) -> Vec<u8> {
    let mut v = Vec::new();
    v.push(match freshness {
        VersionFreshness::Fresh => 0u8,
        VersionFreshness::Stale => 1u8,
    });
    v.extend_from_slice(&version.to_be_bytes());
    v.extend_from_slice(&label.0);
    v
}

impl Configuration for TestConfig {
    fn stale_azks_value() -> AzksValue {
        AzksValue(STALE_SENTINEL)
    }

    fn verify_existence(
        _vrf_public_key: &[u8],
        root_hash: Digest,
        label: &AkdLabel,
        freshness: VersionFreshness,
        version: u64,
        vrf_proof: &[u8],
        proof: &MembershipProof,
    ) -> Result<(), VerificationError> {
        if vrf_proof != vrf_bytes(label, freshness, version).as_slice() {
            return Err(VerificationError::VrfInvalid);
        }
        if proof.0.as_slice() != root_hash.as_slice() {
            return Err(VerificationError::MembershipInvalid);
        }
        Ok(())
    }

    fn verify_existence_with_val(
        vrf_public_key: &[u8],
        root_hash: Digest,
        label: &AkdLabel,
        value: &AkdValue,
        _epoch: u64,
        commitment_nonce: &[u8],
        freshness: VersionFreshness,
        version: u64,
        vrf_proof: &[u8],
        proof: &MembershipProof,
    ) -> Result<(), VerificationError> {
        Self::verify_existence(
            vrf_public_key,
            root_hash,
            label,
            freshness,
            version,
            vrf_proof,
            proof,
        )?;
        if commitment_nonce != value.0.as_slice() {
            return Err(VerificationError::CommitmentMismatch);
        }
        Ok(())
    }

    fn verify_existence_with_commitment(
        vrf_public_key: &[u8],
        root_hash: Digest,
        label: &AkdLabel,
        commitment: AzksValue,
        _epoch: u64,
        freshness: VersionFreshness,
        version: u64,
        vrf_proof: &[u8],
        proof: &MembershipProof,
    ) -> Result<(), VerificationError> {
        Self::verify_existence(
            vrf_public_key,
            root_hash,
            label,
            freshness,
            version,
            vrf_proof,
            proof,
        )?;
        if commitment.0 != STALE_SENTINEL {
            return Err(VerificationError::CommitmentMismatch);
        }
        Ok(())
    }

    fn verify_nonexistence(
        _vrf_public_key: &[u8],
        root_hash: Digest,
        label: &AkdLabel,
        freshness: VersionFreshness,
        version: u64,
        vrf_proof: &[u8],
        proof: &NonMembershipProof,
    ) -> Result<(), VerificationError> {
        if vrf_proof != vrf_bytes(label, freshness, version).as_slice() {
            return Err(VerificationError::VrfInvalid);
        }
        if proof.0.as_slice() != root_hash.as_slice() {
            return Err(VerificationError::NonMembershipInvalid);
        }
        Ok(())
    }
}

fn root() -> Digest {
    [42u8; 32]
}

fn label() -> AkdLabel {
    AkdLabel(vec![0x41])
}

fn make_update(label: &AkdLabel, version: u64, epoch: u64, value: &[u8]) -> UpdateProof {
    UpdateProof {
        epoch,
        version,
        value: AkdValue(value.to_vec()),
        existence_vrf_proof: vrf_bytes(label, VersionFreshness::Fresh, version),
        existence_proof: MembershipProof(root().to_vec()),
        previous_version_vrf_proof: if version > 1 {
            Some(vrf_bytes(label, VersionFreshness::Stale, version - 1))
        } else {
            None
        },
        previous_version_proof: if version > 1 {
            Some(MembershipProof(root().to_vec()))
        } else {
            None
        },
        commitment_nonce: value.to_vec(),
    }
}

fn make_proof_v2(
    label: &AkdLabel,
    updates: Vec<UpdateProof>,
    past: &[u64],
    future: &[u64],
) -> HistoryProofV2 {
    HistoryProofV2 {
        update_proofs: updates,
        past_marker_vrf_proofs: past
            .iter()
            .map(|v| vrf_bytes(label, VersionFreshness::Fresh, *v))
            .collect(),
        existence_of_past_marker_proofs: past
            .iter()
            .map(|_| MembershipProof(root().to_vec()))
            .collect(),
        future_marker_vrf_proofs: future
            .iter()
            .map(|v| vrf_bytes(label, VersionFreshness::Fresh, *v))
            .collect(),
        non_existence_of_future_marker_proofs: future
            .iter()
            .map(|_| NonMembershipProof(root().to_vec()))
            .collect(),
    }
}

fn complete() -> HistoryVerificationParams {
    HistoryVerificationParams::Default {
        historyParams: HistoryParams::Complete,
    }
}

fn most_recent(n: usize) -> HistoryVerificationParams {
    HistoryVerificationParams::Default {
        historyParams: HistoryParams::MostRecent(n),
    }
}

#[test]
fn single_fresh_insertion_verifies() {
    let label = label();
    let proof = make_proof_v2(&label, vec![make_update(&label, 1, 1, b"v")], &[1], &[]);
    let results =
        key_history_verify_v2::<TestConfig>(b"pk", root(), 1, label, proof, complete()).unwrap();
    assert_eq!(results.len(), 1);
    assert_eq!(results[0].epoch, 1);
    assert_eq!(results[0].version, 1);
    assert_eq!(results[0].value.0, b"v".to_vec());
}

#[test]
fn three_update_complete_history_verifies() {
    let label = label();
    let updates = vec![
        make_update(&label, 3, 5, b"c"),
        make_update(&label, 2, 3, b"b"),
        make_update(&label, 1, 2, b"a"),
    ];
    let proof = make_proof_v2(&label, updates, &[1, 2], &[4]);
    let results =
        key_history_verify_v2::<TestConfig>(b"pk", root(), 5, label, proof, complete()).unwrap();
    assert_eq!(results.len(), 3);
    assert_eq!(results[0].version, 3);
    assert_eq!(results[1].version, 2);
    assert_eq!(results[2].version, 1);
    assert_eq!(results[0].value.0, b"c".to_vec());
    assert_eq!(results[2].value.0, b"a".to_vec());
}

#[test]
fn most_recent_truncation_accepted() {
    let label = label();
    let updates = vec![
        make_update(&label, 5, 9, b"e"),
        make_update(&label, 4, 7, b"d"),
    ];
    let proof = make_proof_v2(&label, updates, &[4], &[8]);
    let results =
        key_history_verify_v2::<TestConfig>(b"pk", root(), 10, label, proof, most_recent(2))
            .unwrap();
    assert_eq!(results.len(), 2);
}

#[test]
fn most_recent_shorter_run_must_start_at_one() {
    let label = label();
    let updates = vec![
        make_update(&label, 4, 9, b"d"),
        make_update(&label, 3, 7, b"c"),
    ];
    let proof = make_proof_v2(&label, updates, &[4], &[8]);
    let err = key_history_verify_v2::<TestConfig>(b"pk", root(), 10, label, proof, most_recent(5))
        .unwrap_err();
    assert!(matches!(err, VerificationError::HistoryProof(_)));
}

#[test]
fn most_recent_overflow_rejected() {
    let label = label();
    let updates = vec![
        make_update(&label, 2, 3, b"b"),
        make_update(&label, 1, 2, b"a"),
    ];
    let proof = make_proof_v2(&label, updates, &[1, 2], &[4]);
    let err = key_history_verify_v2::<TestConfig>(b"pk", root(), 5, label, proof, most_recent(1))
        .unwrap_err();
    assert!(matches!(err, VerificationError::HistoryProof(_)));
}

#[test]
fn version_skip_rejected() {
    let label = label();
    let updates = vec![
        make_update(&label, 3, 5, b"c"),
        make_update(&label, 1, 2, b"a"),
    ];
    let proof = make_proof_v2(&label, updates, &[1, 2], &[4]);
    let err = key_history_verify_v2::<TestConfig>(b"pk", root(), 5, label, proof, complete())
        .unwrap_err();
    assert!(matches!(err, VerificationError::HistoryProof(_)));
}

#[test]
fn swapped_updates_rejected() {
    let label = label();
    let updates = vec![
        make_update(&label, 2, 3, b"b"),
        make_update(&label, 3, 5, b"c"),
        make_update(&label, 1, 2, b"a"),
    ];
    let proof = make_proof_v2(&label, updates, &[1, 2], &[4]);
    let err = key_history_verify_v2::<TestConfig>(b"pk", root(), 5, label, proof, complete())
        .unwrap_err();
    assert!(matches!(err, VerificationError::HistoryProof(_)));
}

#[test]
fn tombstone_tolerated_only_when_opted_in() {
    let label = label();
    let tombstoned = UpdateProof {
        epoch: 1,
        version: 1,
        value: AkdValue(Vec::new()),
        existence_vrf_proof: vrf_bytes(&label, VersionFreshness::Fresh, 1),
        existence_proof: MembershipProof(root().to_vec()),
        previous_version_vrf_proof: None,
        previous_version_proof: None,
        commitment_nonce: b"real".to_vec(),
    };
    let allow = HistoryVerificationParams::AllowMissingValues {
        historyParams: HistoryParams::Complete,
    };
    let proof = make_proof_v2(&label, vec![tombstoned.clone()], &[1], &[]);
    let results =
        key_history_verify_v2::<TestConfig>(b"pk", root(), 1, label.clone(), proof, allow)
            .unwrap();
    assert_eq!(results.len(), 1);
    assert_eq!(results[0].value.0, Vec::<u8>::new());

    let proof = make_proof_v2(&label, vec![tombstoned], &[1], &[]);
    let err = key_history_verify_v2::<TestConfig>(b"pk", root(), 1, label, proof, complete())
        .unwrap_err();
    assert!(matches!(err, VerificationError::CommitmentMismatch));
}

#[test]
fn epoch_increase_rejected() {
    let label = label();
    let updates = vec![
        make_update(&label, 2, 3, b"b"),
        make_update(&label, 1, 5, b"a"),
    ];
    let proof = make_proof_v2(&label, updates, &[1, 2], &[4]);
    let err = key_history_verify_v2::<TestConfig>(b"pk", root(), 5, label, proof, complete())
        .unwrap_err();
    assert!(matches!(err, VerificationError::HistoryProof(_)));
}

#[test]
fn mutated_vrf_proof_rejected() {
    let label = label();
    let mut update = make_update(&label, 1, 1, b"v");
    update.existence_vrf_proof[0] ^= 0xff;
    let proof = make_proof_v2(&label, vec![update], &[1], &[]);
    let err = key_history_verify_v2::<TestConfig>(b"pk", root(), 1, label, proof, complete())
        .unwrap_err();
    assert!(matches!(err, VerificationError::VrfInvalid));
}

#[test]
fn mutated_membership_proof_rejected() {
    let label = label();
    let mut update = make_update(&label, 1, 1, b"v");
    update.existence_proof.0[3] ^= 0x01;
    let proof = make_proof_v2(&label, vec![update], &[1], &[]);
    let err = key_history_verify_v2::<TestConfig>(b"pk", root(), 1, label, proof, complete())
        .unwrap_err();
    assert!(matches!(err, VerificationError::MembershipInvalid));
}

#[test]
fn mutated_value_rejected() {
    let label = label();
    let mut update = make_update(&label, 1, 1, b"v");
    update.value.0[0] ^= 0x01;
    let proof = make_proof_v2(&label, vec![update], &[1], &[]);
    let err = key_history_verify_v2::<TestConfig>(b"pk", root(), 1, label, proof, complete())
        .unwrap_err();
    assert!(matches!(err, VerificationError::CommitmentMismatch));
}

#[test]
fn missing_previous_version_proofs_rejected() {
    let label = label();
    let mut newest = make_update(&label, 2, 3, b"b");
    newest.previous_version_proof = None;
    newest.previous_version_vrf_proof = None;
    let updates = vec![newest, make_update(&label, 1, 2, b"a")];
    let proof = make_proof_v2(&label, updates, &[1, 2], &[4]);
    let err = key_history_verify_v2::<TestConfig>(b"pk", root(), 5, label, proof, complete())
        .unwrap_err();
    assert!(matches!(err, VerificationError::HistoryProof(_)));
}

#[test]
fn past_marker_count_mismatch_rejected() {
    let label = label();
    let updates = vec![
        make_update(&label, 3, 5, b"c"),
        make_update(&label, 2, 3, b"b"),
        make_update(&label, 1, 2, b"a"),
    ];
    let proof = make_proof_v2(&label, updates, &[1], &[4]);
    let err = key_history_verify_v2::<TestConfig>(b"pk", root(), 5, label, proof, complete())
        .unwrap_err();
    assert!(matches!(err, VerificationError::HistoryProof(_)));
}

#[test]
fn start_version_zero_rejected() {
    let label = label();
    let updates = vec![
        make_update(&label, 1, 2, b"a"),
        make_update(&label, 0, 1, b"z"),
    ];
    let proof = make_proof_v2(&label, updates, &[1], &[2, 4]);
    let err = key_history_verify_v2::<TestConfig>(b"pk", root(), 5, label, proof, complete())
        .unwrap_err();
    assert!(matches!(err, VerificationError::HistoryProof(_)));
}

#[test]
fn end_version_above_epoch_rejected() {
    let label = label();
    let updates = vec![
        make_update(&label, 3, 5, b"c"),
        make_update(&label, 2, 3, b"b"),
        make_update(&label, 1, 2, b"a"),
    ];
    let proof = make_proof_v2(&label, updates, &[1, 2], &[]);
    let err = key_history_verify_v2::<TestConfig>(b"pk", root(), 2, label, proof, complete())
        .unwrap_err();
    assert!(matches!(err, VerificationError::HistoryProof(_)));
}

#[test]
fn empty_proof_rejected() {
    let label = label();
    let proof = make_proof_v2(&label, Vec::new(), &[], &[]);
    let err = key_history_verify_v2::<TestConfig>(b"pk", root(), 5, label, proof, complete())
        .unwrap_err();
    assert!(matches!(err, VerificationError::HistoryProof(_)));
}

#[test]
fn verification_is_repeatable() {
    let label = label();
    let updates = vec![
        make_update(&label, 3, 5, b"c"),
        make_update(&label, 2, 3, b"b"),
        make_update(&label, 1, 2, b"a"),
    ];
    let proof = make_proof_v2(&label, updates, &[1, 2], &[4]);
    let first = key_history_verify_v2::<TestConfig>(
        b"pk",
        root(),
        5,
        label.clone(),
        proof.clone(),
        complete(),
    )
    .unwrap();
    let second =
        key_history_verify_v2::<TestConfig>(b"pk", root(), 5, label, proof, complete()).unwrap();
    assert_eq!(first.len(), second.len());
    for (a, b) in first.iter().zip(second.iter()) {
        assert_eq!(a.epoch, b.epoch);
        assert_eq!(a.version, b.version);
        assert_eq!(a.value.0, b.value.0);
    }
}

fn make_proof_v1(
    label: &AkdLabel,
    updates: Vec<UpdateProof>,
    until: &[u64],
    future: &[u64],
) -> HistoryProof {
    HistoryProof {
        update_proofs: updates,
        until_marker_vrf_proofs: until
            .iter()
            .map(|v| vrf_bytes(label, VersionFreshness::Fresh, *v))
            .collect(),
        non_existence_until_marker_proofs: until
            .iter()
            .map(|_| NonMembershipProof(root().to_vec()))
            .collect(),
        future_marker_vrf_proofs: future
            .iter()
            .map(|v| vrf_bytes(label, VersionFreshness::Fresh, *v))
            .collect(),
        non_existence_of_future_marker_proofs: future
            .iter()
            .map(|_| NonMembershipProof(root().to_vec()))
            .collect(),
    }
}

#[test]
fn legacy_three_update_history_verifies() {
    let label = label();
    let updates = vec![
        make_update(&label, 3, 5, b"c"),
        make_update(&label, 2, 3, b"b"),
        make_update(&label, 1, 2, b"a"),
    ];
    // Newest version 3: no version sits strictly between 3 and 4, and the
    // powers of two up to epoch 5 above it are 4 alone.
    let proof = make_proof_v1(&label, updates, &[], &[4]);
    let results =
        key_history_verify::<TestConfig>(b"pk", root(), 5, label, proof, complete()).unwrap();
    assert_eq!(results.len(), 3);
    assert_eq!(results[0].version, 3);
    assert_eq!(results[2].version, 1);
}

#[test]
fn legacy_until_marker_gap_verifies() {
    let label = label();
    let updates = vec![
        make_update(&label, 5, 6, b"e"),
        make_update(&label, 4, 5, b"d"),
        make_update(&label, 3, 4, b"c"),
        make_update(&label, 2, 3, b"b"),
        make_update(&label, 1, 2, b"a"),
    ];
    // Newest version 5: versions 6 and 7 sit strictly between 5 and 8,
    // and 8 is the one power of two up to epoch 9 above version 5.
    let proof = make_proof_v1(&label, updates, &[6, 7], &[8]);
    let results =
        key_history_verify::<TestConfig>(b"pk", root(), 9, label, proof, complete()).unwrap();
    assert_eq!(results.len(), 5);
}

#[test]
fn legacy_version_skip_rejected() {
    let label = label();
    let updates = vec![
        make_update(&label, 3, 5, b"c"),
        make_update(&label, 1, 2, b"a"),
    ];
    let proof = make_proof_v1(&label, updates, &[], &[4]);
    let err = key_history_verify::<TestConfig>(b"pk", root(), 5, label, proof, complete())
        .unwrap_err();
    assert!(matches!(err, VerificationError::HistoryProof(_)));
}

#[test]
fn legacy_until_marker_count_mismatch_rejected() {
    let label = label();
    let updates = vec![
        make_update(&label, 5, 6, b"e"),
        make_update(&label, 4, 5, b"d"),
        make_update(&label, 3, 4, b"c"),
        make_update(&label, 2, 3, b"b"),
        make_update(&label, 1, 2, b"a"),
    ];
    let proof = make_proof_v1(&label, updates, &[6], &[8]);
    let err = key_history_verify::<TestConfig>(b"pk", root(), 9, label, proof, complete())
        .unwrap_err();
    assert!(matches!(err, VerificationError::HistoryProof(_)));
}

#[test]
fn complete_history_must_start_at_one() {
    let label = label();
    let updates = vec![
        make_update(&label, 3, 5, b"c"),
        make_update(&label, 2, 3, b"b"),
    ];
    let proof = make_proof_v2(&label, updates, &[2], &[4]);
    let err = key_history_verify_v2::<TestConfig>(b"pk", root(), 5, label, proof, complete())
        .unwrap_err();
    assert!(matches!(err, VerificationError::HistoryProof(_)));
}

#[test]
fn corrupted_future_marker_proof_rejected() {
    let label = label();
    let updates = vec![
        make_update(&label, 3, 5, b"c"),
        make_update(&label, 2, 3, b"b"),
        make_update(&label, 1, 2, b"a"),
    ];
    let mut proof = make_proof_v2(&label, updates, &[1, 2], &[4]);
    proof.non_existence_of_future_marker_proofs[0].0[0] ^= 0x01;
    let err = key_history_verify_v2::<TestConfig>(b"pk", root(), 5, label, proof, complete())
        .unwrap_err();
    assert!(matches!(err, VerificationError::HistoryProof(_)));
}

#[test]
fn corrupted_past_marker_proof_rejected() {
    let label = label();
    let updates = vec![
        make_update(&label, 3, 5, b"c"),
        make_update(&label, 2, 3, b"b"),
        make_update(&label, 1, 2, b"a"),
    ];
    let mut proof = make_proof_v2(&label, updates, &[1, 2], &[4]);
    proof.existence_of_past_marker_proofs[1].0[0] ^= 0x01;
    let err = key_history_verify_v2::<TestConfig>(b"pk", root(), 5, label, proof, complete())
        .unwrap_err();
    assert!(matches!(err, VerificationError::MembershipInvalid));
}

#[test]
fn default_params_ask_for_a_complete_history() {
    let label = label();
    let proof = make_proof_v2(&label, vec![make_update(&label, 1, 1, b"v")], &[1], &[]);
    let results = key_history_verify_v2::<TestConfig>(
        b"pk",
        root(),
        1,
        label,
        proof,
        HistoryVerificationParams::default(),
    )
    .unwrap();
    assert_eq!(results.len(), 1);
    assert!(matches!(HistoryParams::default(), HistoryParams::Complete));
}
