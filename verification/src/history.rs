//! Verification of key-history proofs.
//!
//! A history proof claims that the entire update history of a label up to
//! some epoch is exactly a run of (version, epoch, value) entries.  The
//! verifier checks the run structurally (non-empty, consecutive descending
//! versions, non-increasing epochs, version range within the epoch), checks
//! every claimed update through the configuration's cryptographic
//! primitives, and walks the power-of-two marker skeleton so that silently
//! omitted tail updates are detected.

use crate::configuration::Configuration;
use crate::types::{
    clone_value, is_tombstone, AkdLabel, Digest, HistoryProof, HistoryProofV2, UpdateProof,
    VerificationError, VerifyResult, VersionFreshness,
};
use vstd::arithmetic::power2::pow2;
use vstd::prelude::*;

verus! {

/// How much of a label's history the server was asked to return.
#[derive(Copy, Clone, Debug)]
pub enum HistoryParams {
    /// The complete history of the label.
    Complete,
    /// Up to the most recent N updates of the label.
    MostRecent(usize),
}

impl Default for HistoryParams {
    /// By default, a complete history.
    fn default() -> (r: Self)
        ensures
            r is Complete,
    {
        Self::Complete
    }
}

/// How history proof verification proceeds.
#[allow(non_snake_case)]
#[derive(Copy, Clone)]
pub enum HistoryVerificationParams {
    /// No customization to the verification procedure.
    Default { historyParams: HistoryParams },
    /// Tolerates missing (tombstoned) values instead of checking that
    /// their hash matches the leaf commitment.
    AllowMissingValues { historyParams: HistoryParams },
}

impl Default for HistoryVerificationParams {
    fn default() -> (r: Self)
        ensures
            r is Default && spec_history_params(r) is Complete,
    {
        Self::Default { historyParams: HistoryParams::Complete }
    }
}

/// The history parameters carried by either variant.
pub open spec fn spec_history_params(params: HistoryVerificationParams) -> HistoryParams {
    match params {
        HistoryVerificationParams::Default { historyParams } => historyParams,
        HistoryVerificationParams::AllowMissingValues { historyParams } => historyParams,
    }
}

/// The update proofs cover a consecutive, strictly decreasing run of
/// versions, newest first.
pub open spec fn versions_consecutive(ups: Seq<UpdateProof>) -> bool {
    forall|i: int|
        1 <= i < ups.len() ==> (#[trigger] ups[i].version) + 1 == ups[i - 1].version
}

/// Walking the updates newest first, epochs never increase.
pub open spec fn epochs_nonincreasing(ups: Seq<UpdateProof>) -> bool {
    forall|i: int| 1 <= i < ups.len() ==> (#[trigger] ups[i].epoch) <= ups[i - 1].epoch
}

/// A verification report restates exactly the update it verified.
pub open spec fn result_reports_update(r: VerifyResult, u: UpdateProof) -> bool {
    r.epoch == u.epoch && r.version == u.version && r.value@ == u.value@
}

/// The report list restates the updates one for one, in input order.
pub open spec fn results_report_updates(rs: Seq<VerifyResult>, ups: Seq<UpdateProof>) -> bool {
    rs.len() == ups.len() && forall|i: int|
        0 <= i < ups.len() ==> result_reports_update(#[trigger] rs[i], ups[i])
}

/// Both sub-proofs for the previous version's stale leaf are present.
pub open spec fn previous_version_proofs_present(u: UpdateProof) -> bool {
    u.previous_version_vrf_proof is Some && u.previous_version_proof is Some
}

/// In a consecutive descending run, the version at index `i` is determined
/// by the first version.
pub proof fn lemma_consecutive_version_at(ups: Seq<UpdateProof>, i: int)
    requires
        versions_consecutive(ups),
        0 <= i < ups.len(),
    ensures
        ups[i].version == ups[0].version - i,
    decreases i,
{
    if i > 0 {
        lemma_consecutive_version_at(ups, i - 1);
    }
}

/// Checks that the update proofs cover a consecutive run of decreasing
/// versions, newest first.
fn updates_consecutive(update_proofs: &Vec<UpdateProof>) -> (r: bool)
    ensures
        r == versions_consecutive(update_proofs@),
{
    let num_proofs = update_proofs.len();
    let mut count: usize = 1;
    while count < num_proofs
        invariant
            1 <= count || num_proofs == 0,
            count <= num_proofs || num_proofs == 0,
            num_proofs == update_proofs@.len(),
            forall|i: int|
                1 <= i < count ==> (#[trigger] update_proofs@[i].version) + 1 == update_proofs@[i
                    - 1].version,
        decreases num_proofs - count,
    {
        let v = update_proofs[count].version;
        let prev = update_proofs[count - 1].version;
        if !(v < prev && prev - v == 1) {
            return false;
        }
        count = count + 1;
    }
    true
}

/// The history parameters allow a run of `num_proofs` updates starting at
/// `start_version`: a complete history must start at version 1, and a
/// most-recent window must not overflow and must start at 1 whenever it
/// returned fewer updates than asked for.
pub open spec fn history_params_allow(
    params: HistoryParams,
    num_proofs: nat,
    start_version: u64,
) -> bool {
    match params {
        HistoryParams::Complete => start_version == 1,
        HistoryParams::MostRecent(n) => num_proofs <= n && (num_proofs < n ==> start_version == 1),
    }
}

/// Every structural demand on a current-flavour history proof: a
/// non-empty consecutive descending run of positive versions not exceeding
/// the current epoch, a start version the history parameters allow, and
/// marker proof sequences whose lengths match the marker skeleton of the
/// claimed version range.
pub open spec fn v2_structure_ok(
    current_epoch: u64,
    proof: HistoryProofV2,
    params: HistoryParams,
) -> bool {
    let ups = proof.update_proofs@;
    let start = ups[ups.len() - 1].version;
    let end = ups[0].version;
    &&& ups.len() > 0
    &&& versions_consecutive(ups)
    &&& start >= 1
    &&& end <= current_epoch
    &&& history_params_allow(params, ups.len(), start)
    &&& proof.past_marker_vrf_proofs@.len() == crate::utils::past_marker_seq(
        start as nat,
        end as nat,
    ).len()
    &&& proof.existence_of_past_marker_proofs@.len() == crate::utils::past_marker_seq(
        start as nat,
        end as nat,
    ).len()
    &&& proof.future_marker_vrf_proofs@.len() == crate::utils::future_marker_seq(
        end as nat,
        current_epoch as nat,
    ).len()
    &&& proof.non_existence_of_future_marker_proofs@.len() == crate::utils::future_marker_seq(
        end as nat,
        current_epoch as nat,
    ).len()
}

/// Performs every structural check of a current-flavour history proof and
/// enumerates the marker versions its range must cover.  Succeeds exactly
/// on structurally sound proofs; no cryptographic check happens here.
pub fn verify_with_history_params(
    current_epoch: u64,
    akd_label: &AkdLabel,
    proof: &HistoryProofV2,
    params: HistoryParams,
) -> (r: Result<(Vec<u64>, Vec<u64>), VerificationError>)
    ensures
        r is Ok <==> v2_structure_ok(current_epoch, *proof, params),
        r is Ok ==> ({
            let ups = proof.update_proofs@;
            &&& r->Ok_0.0@ == crate::utils::past_marker_seq(
                ups[ups.len() - 1].version as nat,
                ups[0].version as nat,
            )
            &&& r->Ok_0.1@ == crate::utils::future_marker_seq(
                ups[0].version as nat,
                current_epoch as nat,
            )
        }),
        r is Err ==> r->Err_0 is HistoryProof,
{
    let num_proofs = proof.update_proofs.len();

    // Make sure the update proofs are non-empty.
    if num_proofs == 0 {
        return Err(
            VerificationError::HistoryProof(
                "No update proofs included in the proof".to_owned(),
            ),
        );
    }

    // Check that the sent proofs are for a consecutive run of decreasing
    // versions.
    if !updates_consecutive(&proof.update_proofs) {
        return Err(
            VerificationError::HistoryProof(
                "Update proofs should be ordered consecutively and in decreasing order".to_owned(),
            ),
        );
    }

    proof {
        assert forall|i: int|
            0 <= i < proof.update_proofs@.len() implies (#[trigger] proof.update_proofs@[i].version)
            == proof.update_proofs@[0].version - i by {
            lemma_consecutive_version_at(proof.update_proofs@, i);
        }
    }

    let mut start_version: u64 = proof.update_proofs[0].version;
    let mut end_version: u64 = proof.update_proofs[0].version;
    let mut k: usize = 0;
    while k < num_proofs
        invariant
            num_proofs == proof.update_proofs@.len(),
            1 <= num_proofs,
            k <= num_proofs,
            forall|i: int|
                0 <= i < proof.update_proofs@.len() ==> (#[trigger] proof.update_proofs@[i].version)
                    == proof.update_proofs@[0].version - i,
            end_version == proof.update_proofs@[0].version,
            start_version == (if k <= 1 {
                proof.update_proofs@[0].version as int
            } else {
                proof.update_proofs@[0].version - (k - 1)
            }),
        decreases num_proofs - k,
    {
        let v = proof.update_proofs[k].version;
        if v < start_version {
            start_version = v;
        }
        if v > end_version {
            end_version = v;
        }
        k = k + 1;
    }
    proof {
        assert(start_version == proof.update_proofs@[num_proofs - 1].version);
    }

    if start_version == 0 {
        return Err(
            VerificationError::HistoryProof(
                "Computed start version for the key history should be non-zero".to_owned(),
            ),
        );
    }

    if end_version > current_epoch {
        return Err(
            VerificationError::HistoryProof(
                "Computed end version for the key history should not exceed current epoch".to_owned(),
            ),
        );
    }

    match params {
        HistoryParams::Complete => {
            // A complete history must start at version 1.
            if start_version != 1 {
                return Err(
                    VerificationError::HistoryProof(
                        "Expected start version to be 1 given that it is a complete history".to_owned(),
                    ),
                );
            }
        },
        HistoryParams::MostRecent(recency) => {
            if num_proofs < recency {
                // Fewer updates than the window: the whole history was
                // necessarily returned, so it must start at version 1.
                if start_version != 1 {
                    return Err(
                        VerificationError::HistoryProof(
                            "Expected start version to be 1 given that the number of proofs returned was less than the recency parameter".to_owned(),
                        ),
                    );
                }
            } else if num_proofs > recency {
                return Err(
                    VerificationError::HistoryProof(
                        "Expected at most as many update proofs as the recency parameter".to_owned(),
                    ),
                );
            }
        },
    }

    let (past_marker_versions, future_marker_versions) = crate::utils::get_marker_versions(
        start_version,
        end_version,
        current_epoch,
    );

    // Check for the expected number of past marker proofs.
    if past_marker_versions.len() != proof.past_marker_vrf_proofs.len() {
        return Err(
            VerificationError::HistoryProof(
                "Expected as many past marker VRF proofs as past marker versions".to_owned(),
            ),
        );
    }
    if proof.past_marker_vrf_proofs.len() != proof.existence_of_past_marker_proofs.len() {
        return Err(
            VerificationError::HistoryProof(
                "Expected equal numbers of past marker VRF and existence proofs".to_owned(),
            ),
        );
    }

    // Check for the expected number of future marker proofs.
    if future_marker_versions.len() != proof.future_marker_vrf_proofs.len() {
        return Err(
            VerificationError::HistoryProof(
                "Expected as many future marker VRF proofs as future marker versions".to_owned(),
            ),
        );
    }
    if proof.future_marker_vrf_proofs.len() != proof.non_existence_of_future_marker_proofs.len() {
        return Err(
            VerificationError::HistoryProof(
                "Expected equal numbers of future marker VRF and non-existence proofs".to_owned(),
            ),
        );
    }

    Ok((past_marker_versions, future_marker_versions))
}

/// Verifies a single update proof: the current version's existence (with
/// its committed value, unless a tolerated tombstone), and, for versions
/// past the first, the stale leaf of the immediately preceding version at
/// the same epoch.
pub fn verify_single_update_proof<TC: Configuration>(
    root_hash: Digest,
    vrf_public_key: &[u8],
    update_proof: &UpdateProof,
    akd_label: &AkdLabel,
    params: HistoryVerificationParams,
) -> (r: Result<VerifyResult, VerificationError>)
    ensures
        r is Ok ==> result_reports_update(r->Ok_0, *update_proof),
        r is Ok && update_proof.version > 1 ==> previous_version_proofs_present(*update_proof),
{
    let tombstoned = match params {
        HistoryVerificationParams::AllowMissingValues { .. } => is_tombstone(&update_proof.value),
        HistoryVerificationParams::Default { .. } => false,
    };

    if tombstoned {
        // A tombstone was encountered: take the leaf payload at face
        // value, since the real value is not available.
        match TC::verify_existence(
            vrf_public_key,
            root_hash,
            akd_label,
            VersionFreshness::Fresh,
            update_proof.version,
            update_proof.existence_vrf_proof.as_slice(),
            &update_proof.existence_proof,
        ) {
            Ok(u) => u,
            Err(e) => {
                return Err(e);
            },
        }
    } else {
        // No tombstone: hash the value found and compare it to the leaf
        // commitment of the existence proof.
        match TC::verify_existence_with_val(
            vrf_public_key,
            root_hash,
            akd_label,
            &update_proof.value,
            update_proof.epoch,
            update_proof.commitment_nonce.as_slice(),
            VersionFreshness::Fresh,
            update_proof.version,
            update_proof.existence_vrf_proof.as_slice(),
            &update_proof.existence_proof,
        ) {
            Ok(u) => u,
            Err(e) => {
                return Err(e);
            },
        }
    }

    let verify_result = VerifyResult {
        epoch: update_proof.epoch,
        version: update_proof.version,
        value: clone_value(&update_proof.value),
    };

    if update_proof.version <= 1 {
        // There is no previous version to check.
        return Ok(verify_result);
    }

    // Verify the membership proof for the stale leaf of the previous
    // version, recorded at the epoch of this update's insertion.
    let previous_version_proof = match &update_proof.previous_version_proof {
        Some(p) => p,
        None => {
            return Err(
                VerificationError::HistoryProof(
                    "Missing membership proof for previous version".to_owned(),
                ),
            );
        },
    };
    let previous_version_vrf_proof = match &update_proof.previous_version_vrf_proof {
        Some(p) => p,
        None => {
            return Err(
                VerificationError::HistoryProof(
                    "Missing VRF proof for previous version".to_owned(),
                ),
            );
        },
    };

    match TC::verify_existence_with_commitment(
        vrf_public_key,
        root_hash,
        akd_label,
        TC::stale_azks_value(),
        update_proof.epoch,
        VersionFreshness::Stale,
        update_proof.version - 1,
        previous_version_vrf_proof.as_slice(),
        previous_version_proof,
    ) {
        Ok(u) => u,
        Err(e) => {
            return Err(e);
        },
    }

    Ok(verify_result)
}

/// Verifies a current-flavour key history proof against a trusted root
/// hash and VRF public key.  On success the returned reports restate the
/// claimed updates one for one, in input order; the proof is then known to
/// be structurally sound and every cryptographic sub-check passed.
pub fn key_history_verify_v2<TC: Configuration>(
    vrf_public_key: &[u8],
    root_hash: Digest,
    current_epoch: u64,
    akd_label: AkdLabel,
    proof: HistoryProofV2,
    verification_params: HistoryVerificationParams,
) -> (r: Result<Vec<VerifyResult>, VerificationError>)
    ensures
        r is Ok ==> ({
            let ups = proof.update_proofs@;
            &&& v2_structure_ok(current_epoch, proof, spec_history_params(verification_params))
            &&& epochs_nonincreasing(ups)
            &&& results_report_updates(r->Ok_0@, ups)
            &&& forall|i: int|
                0 <= i < ups.len() && (#[trigger] ups[i].version) > 1
                    ==> previous_version_proofs_present(ups[i])
        }),
        !v2_structure_ok(current_epoch, proof, spec_history_params(verification_params)) ==> r
            is Err && r->Err_0 is HistoryProof,
{
    let mut results: Vec<VerifyResult> = Vec::new();

    let params = match verification_params {
        HistoryVerificationParams::Default { historyParams } => historyParams,
        HistoryVerificationParams::AllowMissingValues { historyParams } => historyParams,
    };

    let (past_marker_versions, future_marker_versions) = match verify_with_history_params(
        current_epoch,
        &akd_label,
        &proof,
        params,
    ) {
        Ok(p) => p,
        Err(e) => {
            return Err(e);
        },
    };

    // Verify all individual update proofs.
    let num_proofs = proof.update_proofs.len();
    let mut previous_update_epoch: Option<u64> = None;
    let mut idx: usize = 0;
    while idx < num_proofs
        invariant
            v2_structure_ok(current_epoch, proof, spec_history_params(verification_params)),
            num_proofs == proof.update_proofs@.len(),
            idx <= num_proofs,
            results_report_updates(results@, proof.update_proofs@.take(idx as int)),
            forall|i: int|
                1 <= i < idx ==> (#[trigger] proof.update_proofs@[i].epoch) <= proof.update_proofs@[
                    i - 1].epoch,
            idx > 0 ==> previous_update_epoch is Some && previous_update_epoch->0
                == proof.update_proofs@[idx - 1].epoch,
            forall|i: int|
                0 <= i < idx && (#[trigger] proof.update_proofs@[i].version) > 1
                    ==> previous_version_proofs_present(proof.update_proofs@[i]),
        decreases num_proofs - idx,
    {
        let update_proof = &proof.update_proofs[idx];
        match previous_update_epoch {
            Some(prev) => {
                // Make sure this epoch is not more than the previous epoch
                // checked.
                if update_proof.epoch > prev {
                    return Err(
                        VerificationError::HistoryProof(
                            "Version numbers for updates are decreasing, but their corresponding epochs are not decreasing".to_owned(),
                        ),
                    );
                }
            },
            None => {},
        }
        previous_update_epoch = Some(update_proof.epoch);
        let result = match verify_single_update_proof::<TC>(
            root_hash,
            vrf_public_key,
            update_proof,
            &akd_label,
            verification_params,
        ) {
            Ok(res) => res,
            Err(e) => {
                return Err(e);
            },
        };
        results.push(result);
        proof {
            assert(proof.update_proofs@.take(idx + 1) =~= proof.update_proofs@.take(
                idx as int,
            ).push(proof.update_proofs@[idx as int]));
        }
        idx = idx + 1;
    }

    // Verify the VRFs and existence proofs of the past markers.
    let mut i: usize = 0;
    while i < past_marker_versions.len()
        invariant
            v2_structure_ok(current_epoch, proof, spec_history_params(verification_params)),
            past_marker_versions@.len() <= proof.past_marker_vrf_proofs@.len(),
            past_marker_versions@.len() <= proof.existence_of_past_marker_proofs@.len(),
        decreases past_marker_versions@.len() - i,
    {
        match TC::verify_existence(
            vrf_public_key,
            root_hash,
            &akd_label,
            VersionFreshness::Fresh,
            past_marker_versions[i],
            proof.past_marker_vrf_proofs[i].as_slice(),
            &proof.existence_of_past_marker_proofs[i],
        ) {
            Ok(u) => u,
            Err(e) => {
                return Err(e);
            },
        }
        i = i + 1;
    }

    // Verify the VRFs and non-membership proofs of the future markers.
    let mut j: usize = 0;
    while j < future_marker_versions.len()
        invariant
            v2_structure_ok(current_epoch, proof, spec_history_params(verification_params)),
            future_marker_versions@.len() <= proof.future_marker_vrf_proofs@.len(),
            future_marker_versions@.len() <= proof.non_existence_of_future_marker_proofs@.len(),
        decreases future_marker_versions@.len() - j,
    {
        match TC::verify_nonexistence(
            vrf_public_key,
            root_hash,
            &akd_label,
            VersionFreshness::Fresh,
            future_marker_versions[j],
            proof.future_marker_vrf_proofs[j].as_slice(),
            &proof.non_existence_of_future_marker_proofs[j],
        ) {
            Ok(u) => u,
            Err(_e) => {
                return Err(
                    VerificationError::HistoryProof(
                        "Non-existence of future marker proof does not verify".to_owned(),
                    ),
                );
            },
        }
        j = j + 1;
    }

    proof {
        assert(proof.update_proofs@.take(num_proofs as int) =~= proof.update_proofs@);
    }
    Ok(results)
}

/// The marker proof sequences of a legacy history proof have the lengths
/// the claimed newest version and the current epoch dictate: one
/// non-existence proof per version strictly between the newest version and
/// the next power of two, and one per power-of-two exponent from there up
/// to the current epoch's largest.
pub open spec fn v1_marker_counts_ok(
    proof: HistoryProof,
    last_version: u64,
    current_epoch: u64,
) -> bool {
    let next = crate::utils::marker_exp(last_version as nat) + 1;
    let fin = crate::utils::marker_exp(current_epoch as nat);
    &&& proof.until_marker_vrf_proofs@.len() == pow2(next) - last_version - 1
    &&& proof.non_existence_until_marker_proofs@.len() == proof.until_marker_vrf_proofs@.len()
    &&& proof.future_marker_vrf_proofs@.len() == fin + 1 - next
    &&& proof.non_existence_of_future_marker_proofs@.len() == proof.future_marker_vrf_proofs@.len()
}

/// Verifies a legacy key history proof against a trusted root hash and
/// VRF public key.  Kept for backward compatibility; new callers should
/// use [`key_history_verify_v2`].  Versions must be positive and must not
/// exceed the current epoch; the machine word width also caps them below
/// `2^63`, since the marker walk computes the power of two above the
/// newest version.
pub fn key_history_verify<TC: Configuration>(
    vrf_public_key: &[u8],
    root_hash: Digest,
    current_epoch: u64,
    akd_label: AkdLabel,
    proof: HistoryProof,
    params: HistoryVerificationParams,
) -> (r: Result<Vec<VerifyResult>, VerificationError>)
    requires
        forall|i: int|
            0 <= i < proof.update_proofs@.len() ==> 1 <= (#[trigger] proof.update_proofs@[i].version),
        forall|i: int|
            0 <= i < proof.update_proofs@.len() ==> (#[trigger] proof.update_proofs@[i].version)
                <= current_epoch,
        forall|i: int|
            0 <= i < proof.update_proofs@.len() ==> (#[trigger] proof.update_proofs@[i].version)
                < 0x8000000000000000,
    ensures
        r is Ok ==> ({
            let ups = proof.update_proofs@;
            &&& ups.len() > 0
            &&& versions_consecutive(ups)
            &&& epochs_nonincreasing(ups)
            &&& v1_marker_counts_ok(proof, ups[0].version, current_epoch)
            &&& results_report_updates(r->Ok_0@, ups)
            &&& forall|i: int|
                0 <= i < ups.len() && (#[trigger] ups[i].version) > 1
                    ==> previous_version_proofs_present(ups[i])
        }),
        (proof.update_proofs@.len() == 0 || !versions_consecutive(proof.update_proofs@)) ==> r
            is Err && r->Err_0 is HistoryProof,
{
    let mut results: Vec<VerifyResult> = Vec::new();
    let mut last_version: u64 = 0;

    let num_proofs = proof.update_proofs.len();

    // Make sure the update proofs are non-empty.
    if num_proofs == 0 {
        return Err(
            VerificationError::HistoryProof(
                "No update proofs included in the proof".to_owned(),
            ),
        );
    }

    // Check that the sent proofs are for a consecutive run of decreasing
    // versions.
    if !updates_consecutive(&proof.update_proofs) {
        return Err(
            VerificationError::HistoryProof(
                "Update proofs should be ordered consecutively and in decreasing order".to_owned(),
            ),
        );
    }

    proof {
        assert forall|i: int|
            0 <= i < proof.update_proofs@.len() implies (#[trigger] proof.update_proofs@[i].version)
            == proof.update_proofs@[0].version - i by {
            lemma_consecutive_version_at(proof.update_proofs@, i);
        }
    }

    // Verify all individual update proofs, tracking the newest version.
    let mut previous_update_epoch: Option<u64> = None;
    let mut idx: usize = 0;
    while idx < num_proofs
        invariant
            num_proofs == proof.update_proofs@.len(),
            1 <= num_proofs,
            idx <= num_proofs,
            versions_consecutive(proof.update_proofs@),
            forall|i: int|
                0 <= i < proof.update_proofs@.len() ==> (#[trigger] proof.update_proofs@[i].version)
                    == proof.update_proofs@[0].version - i,
            forall|i: int|
                0 <= i < proof.update_proofs@.len() ==> 1 <= (
                #[trigger] proof.update_proofs@[i].version),
            last_version == if idx == 0 {
                0u64
            } else {
                proof.update_proofs@[0].version
            },
            results_report_updates(results@, proof.update_proofs@.take(idx as int)),
            forall|i: int|
                1 <= i < idx ==> (#[trigger] proof.update_proofs@[i].epoch) <= proof.update_proofs@[
                    i - 1].epoch,
            idx > 0 ==> previous_update_epoch is Some && previous_update_epoch->0
                == proof.update_proofs@[idx - 1].epoch,
            forall|i: int|
                0 <= i < idx && (#[trigger] proof.update_proofs@[i].version) > 1
                    ==> previous_version_proofs_present(proof.update_proofs@[i]),
        decreases num_proofs - idx,
    {
        let update_proof = &proof.update_proofs[idx];

        // Track the highest version sent among the update proofs.
        if update_proof.version > last_version {
            last_version = update_proof.version;
        }

        match previous_update_epoch {
            Some(prev) => {
                // Make sure this epoch is not more than the previous epoch
                // checked.
                if update_proof.epoch > prev {
                    return Err(
                        VerificationError::HistoryProof(
                            "Version numbers for updates are decreasing, but their corresponding epochs are not decreasing".to_owned(),
                        ),
                    );
                }
            },
            None => {},
        }
        previous_update_epoch = Some(update_proof.epoch);
        let result = match verify_single_update_proof::<TC>(
            root_hash,
            vrf_public_key,
            update_proof,
            &akd_label,
            params,
        ) {
            Ok(res) => res,
            Err(e) => {
                return Err(e);
            },
        };
        results.push(result);
        proof {
            assert(proof.update_proofs@.take(idx + 1) =~= proof.update_proofs@.take(
                idx as int,
            ).push(proof.update_proofs@[idx as int]));
        }
        idx = idx + 1;
    }

    // The least and greatest marker exponents for the newest version.
    proof {
        crate::utils::lemma_marker_exp_bounds(last_version as nat);
        crate::utils::lemma_marker_exp_monotone(last_version as nat, current_epoch as nat);
        vstd::arithmetic::power2::lemma2_to64_rest();
        if crate::utils::marker_exp(last_version as nat) >= 63 {
            crate::utils::lemma_pow2_le(63, crate::utils::marker_exp(last_version as nat));
        }
    }
    let next_marker = crate::utils::get_marker_version_log2(last_version) + 1;
    let final_marker = crate::utils::get_marker_version_log2(current_epoch);
    let next_marker_version = crate::utils::pow2_u64(next_marker);

    // Check for the expected number of until-marker proofs.
    let expected_num_until_marker_proofs = next_marker_version - last_version - 1;
    if expected_num_until_marker_proofs != proof.until_marker_vrf_proofs.len() as u64 {
        return Err(
            VerificationError::HistoryProof(
                "Expected a non-existence proof per version up to the next marker".to_owned(),
            ),
        );
    }
    if proof.until_marker_vrf_proofs.len() != proof.non_existence_until_marker_proofs.len() {
        return Err(
            VerificationError::HistoryProof(
                "Expected equal numbers of until-marker VRF and non-existence proofs".to_owned(),
            ),
        );
    }

    // Verify the non-existence of every version between the newest one
    // and the next marker.
    let mut version: u64 = last_version + 1;
    let mut i: usize = 0;
    while version < next_marker_version
        invariant
            last_version + 1 <= version <= next_marker_version,
            i == version - (last_version + 1),
            proof.until_marker_vrf_proofs@.len() == next_marker_version - last_version - 1,
            proof.non_existence_until_marker_proofs@.len() == proof.until_marker_vrf_proofs@.len(),
        decreases next_marker_version - version,
    {
        match TC::verify_nonexistence(
            vrf_public_key,
            root_hash,
            &akd_label,
            VersionFreshness::Fresh,
            version,
            proof.until_marker_vrf_proofs[i].as_slice(),
            &proof.non_existence_until_marker_proofs[i],
        ) {
            Ok(u) => u,
            Err(_e) => {
                return Err(
                    VerificationError::HistoryProof(
                        "Non-existence proof of the versions up to the next marker does not verify".to_owned(),
                    ),
                );
            },
        }
        version = version + 1;
        i = i + 1;
    }

    // Check for the expected number of future-marker proofs.
    let expected_num_future_marker_proofs = final_marker + 1 - next_marker;
    if expected_num_future_marker_proofs != proof.future_marker_vrf_proofs.len() as u64 {
        return Err(
            VerificationError::HistoryProof(
                "Expected a non-existence proof per marker up to the current epoch".to_owned(),
            ),
        );
    }
    if proof.future_marker_vrf_proofs.len() != proof.non_existence_of_future_marker_proofs.len() {
        return Err(
            VerificationError::HistoryProof(
                "Expected equal numbers of future-marker VRF and non-existence proofs".to_owned(),
            ),
        );
    }

    // Verify the VRFs and non-membership proofs of the future markers.
    let mut pow_exp: u64 = next_marker;
    let mut j: usize = 0;
    while pow_exp < final_marker + 1
        invariant
            next_marker <= pow_exp <= final_marker + 1,
            final_marker <= 63,
            j == pow_exp - next_marker,
            proof.future_marker_vrf_proofs@.len() == final_marker + 1 - next_marker,
            proof.non_existence_of_future_marker_proofs@.len()
                == proof.future_marker_vrf_proofs@.len(),
        decreases final_marker + 1 - pow_exp,
    {
        let marker_version = crate::utils::pow2_u64(pow_exp);
        match TC::verify_nonexistence(
            vrf_public_key,
            root_hash,
            &akd_label,
            VersionFreshness::Fresh,
            marker_version,
            proof.future_marker_vrf_proofs[j].as_slice(),
            &proof.non_existence_of_future_marker_proofs[j],
        ) {
            Ok(u) => u,
            Err(_e) => {
                return Err(
                    VerificationError::HistoryProof(
                        "Non-existence of future marker proof does not verify".to_owned(),
                    ),
                );
            },
        }
        pow_exp = pow_exp + 1;
        j = j + 1;
    }

    proof {
        assert(proof.update_proofs@.take(num_proofs as int) =~= proof.update_proofs@);
    }
    Ok(results)
}

/// Law: removing any interior update from a run of consecutive
/// decreasing versions leaves a run that is no longer consecutive, so the
/// verifiers reject a history proof with an interior update dropped.
/// Dropping the first or last update instead changes the claimed version
/// range, and with it the marker skeleton the proof must cover.
pub proof fn lemma_remove_interior_update_breaks_run(ups: Seq<UpdateProof>, i: int)
    requires
        versions_consecutive(ups),
        0 < i < ups.len() - 1,
    ensures
        !versions_consecutive(ups.remove(i)),
{
    let removed = ups.remove(i);
    assert(removed[i] == ups[i + 1]);
    assert(removed[i - 1] == ups[i - 1]);
    assert(ups[i].version + 1 == ups[i - 1].version);
    assert(ups[i + 1].version + 1 == ups[i].version);
    assert(!(removed[i].version + 1 == removed[i - 1].version));
}

/// Law: exchanging any two distinct updates of a run of consecutive
/// decreasing versions leaves a run that is no longer consecutive, so the
/// verifiers reject a history proof with two updates swapped.
pub proof fn lemma_swap_updates_breaks_run(ups: Seq<UpdateProof>, i: int, j: int)
    requires
        versions_consecutive(ups),
        0 <= i < j < ups.len(),
    ensures
        !versions_consecutive(ups.update(i, ups[j]).update(j, ups[i])),
{
    let swapped = ups.update(i, ups[j]).update(j, ups[i]);
    lemma_consecutive_version_at(ups, i);
    lemma_consecutive_version_at(ups, j);
    lemma_consecutive_version_at(ups, i + 1);
    if j == i + 1 {
        assert(swapped[i] == ups[j]);
        assert(swapped[i + 1] == ups[i]);
        assert(!(swapped[i + 1].version + 1 == swapped[i].version));
    } else {
        assert(swapped[i] == ups[j]);
        assert(swapped[i + 1] == ups[i + 1]);
        assert(!(swapped[i + 1].version + 1 == swapped[i].version));
    }
}

/// Law: a current-flavour history proof with an interior update dropped
/// no longer satisfies the verifier's structural demands, so
/// [`key_history_verify_v2`] rejects it.
pub proof fn lemma_remove_interior_update_rejected(
    current_epoch: u64,
    proof: HistoryProofV2,
    tampered: HistoryProofV2,
    params: HistoryParams,
    i: int,
)
    requires
        versions_consecutive(proof.update_proofs@),
        0 < i < proof.update_proofs@.len() - 1,
        tampered.update_proofs@ == proof.update_proofs@.remove(i),
    ensures
        !v2_structure_ok(current_epoch, tampered, params),
{
    lemma_remove_interior_update_breaks_run(proof.update_proofs@, i);
}

/// Law: a current-flavour history proof with two updates exchanged no
/// longer satisfies the verifier's structural demands, so
/// [`key_history_verify_v2`] rejects it.
pub proof fn lemma_swap_updates_rejected(
    current_epoch: u64,
    proof: HistoryProofV2,
    tampered: HistoryProofV2,
    params: HistoryParams,
    i: int,
    j: int,
)
    requires
        versions_consecutive(proof.update_proofs@),
        0 <= i < j < proof.update_proofs@.len(),
        tampered.update_proofs@ == proof.update_proofs@.update(i, proof.update_proofs@[j]).update(
            j,
            proof.update_proofs@[i],
        ),
    ensures
        !v2_structure_ok(current_epoch, tampered, params),
{
    lemma_swap_updates_breaks_run(proof.update_proofs@, i, j);
}

} // verus!
