//! Marker-version algebra: the power-of-two skeleton that a history proof
//! must cover.  For every published version equal to a power of two up to a
//! label's highest version the directory commits a fresh existence proof,
//! and for every power of two strictly between that highest version and
//! the current epoch a fresh non-existence proof; enumerating both sets
//! lets the verifier detect silently omitted tail updates.

use vstd::arithmetic::power2::{
    lemma2_to64, lemma2_to64_rest, lemma_pow2_strictly_increases, lemma_pow2_unfold, pow2,
};
use vstd::bits::{lemma_u64_pow2_no_overflow, lemma_u64_shl_is_mul};
use vstd::prelude::*;

verus! {

/// Floor of the base-2 logarithm: the exponent of the largest power of two
/// not exceeding `v`.
pub open spec fn marker_exp(v: nat) -> nat
    recommends
        v >= 1,
    decreases v,
{
    if v <= 1 {
        0
    } else {
        1 + marker_exp(v / 2)
    }
}

/// A marker version is a version that is an exact power of two.
pub open spec fn is_marker_version(v: nat) -> bool {
    v >= 1 && pow2(marker_exp(v)) == v
}

/// The powers of two with exponents in `[lo, hi)`, ascending.
pub open spec fn exp_seq(lo: nat, hi: nat) -> Seq<u64> {
    Seq::new(if hi >= lo { (hi - lo) as nat } else { 0 }, |k: int| (pow2((lo + k) as nat) as u64))
}

/// Every power of two `p` with `start <= p <= end`, ascending.
pub open spec fn past_marker_seq(start: nat, end: nat) -> Seq<u64>
    recommends
        1 <= start <= end,
{
    let s = marker_exp(start);
    let e = marker_exp(end);
    if pow2(s) >= start {
        exp_seq(s, e + 1)
    } else {
        exp_seq(s + 1, e + 1)
    }
}

/// Every power of two `p` with `end < p <= epoch`, ascending.
pub open spec fn future_marker_seq(end: nat, epoch: nat) -> Seq<u64>
    recommends
        1 <= end <= epoch,
{
    exp_seq(marker_exp(end) + 1, marker_exp(epoch) + 1)
}

/// `pow2(marker_exp(v))` brackets `v` from below, `pow2(marker_exp(v) + 1)`
/// from above.
pub proof fn lemma_marker_exp_bounds(v: nat)
    requires
        v >= 1,
    ensures
        pow2(marker_exp(v)) <= v < pow2(marker_exp(v) + 1),
    decreases v,
{
    if v <= 1 {
        lemma2_to64();
    } else {
        lemma_marker_exp_bounds(v / 2);
        lemma_pow2_unfold(marker_exp(v));
        lemma_pow2_unfold(marker_exp(v) + 1);
    }
}

/// Powers of two are non-decreasing in the exponent.
pub proof fn lemma_pow2_le(e1: nat, e2: nat)
    requires
        e1 <= e2,
    ensures
        pow2(e1) <= pow2(e2),
{
    if e1 < e2 {
        lemma_pow2_strictly_increases(e1, e2);
    }
}

/// The exponent bracketing `v` between consecutive powers of two is unique.
pub proof fn lemma_marker_exp_unique(v: nat, e: nat)
    requires
        v >= 1,
        pow2(e) <= v < pow2(e + 1),
    ensures
        marker_exp(v) == e,
{
    lemma_marker_exp_bounds(v);
    if marker_exp(v) < e {
        lemma_pow2_le(marker_exp(v) + 1, e);
    }
    if e < marker_exp(v) {
        lemma_pow2_le(e + 1, marker_exp(v));
    }
}

/// `marker_exp` is monotone.
pub proof fn lemma_marker_exp_monotone(v: nat, w: nat)
    requires
        1 <= v <= w,
    ensures
        marker_exp(v) <= marker_exp(w),
{
    lemma_marker_exp_bounds(v);
    lemma_marker_exp_bounds(w);
    if marker_exp(w) < marker_exp(v) {
        lemma_pow2_le(marker_exp(w) + 1, marker_exp(v));
    }
}

/// The exponent of a 64-bit version fits in six bits.
pub proof fn lemma_marker_exp_le_63(v: u64)
    requires
        v >= 1,
    ensures
        marker_exp(v as nat) <= 63,
{
    lemma_marker_exp_bounds(v as nat);
    lemma2_to64_rest();
    if marker_exp(v as nat) > 63 {
        lemma_pow2_le(64, marker_exp(v as nat));
    }
}

/// The exponent of the largest power of two not exceeding `version`.
pub fn get_marker_version_log2(version: u64) -> (r: u64)
    requires
        version >= 1,
    ensures
        r as nat == marker_exp(version as nat),
        r <= 63,
{
    proof {
        lemma_marker_exp_le_63(version);
    }
    let mut x: u64 = version;
    let mut e: u64 = 0;
    while x >= 2
        invariant
            1 <= x <= version,
            e + marker_exp(x as nat) == marker_exp(version as nat),
            marker_exp(version as nat) <= 63,
        decreases x,
    {
        x = x / 2;
        e = e + 1;
    }
    e
}

/// `2^exp` as a machine word.
pub fn pow2_u64(exp: u64) -> (r: u64)
    requires
        exp <= 63,
    ensures
        r as nat == pow2(exp as nat),
        r >= 1,
{
    proof {
        lemma_u64_pow2_no_overflow(exp as nat);
        lemma_u64_shl_is_mul(1u64, exp);
    }
    1u64 << exp
}

/// Enumerates the past markers (powers of two within `[start_version,
/// end_version]`) and the future markers (powers of two within
/// `(end_version, epoch]`), both ascending.
pub fn get_marker_versions(start_version: u64, end_version: u64, epoch: u64) -> (r: (
    Vec<u64>,
    Vec<u64>,
))
    requires
        1 <= start_version,
        start_version <= end_version,
        end_version <= epoch,
    ensures
        r.0@ == past_marker_seq(start_version as nat, end_version as nat),
        r.1@ == future_marker_seq(end_version as nat, epoch as nat),
{
    let start_marker = get_marker_version_log2(start_version);
    let end_marker = get_marker_version_log2(end_version);
    let final_marker = get_marker_version_log2(epoch);

    proof {
        lemma_marker_exp_monotone(start_version as nat, end_version as nat);
        lemma_marker_exp_monotone(end_version as nat, epoch as nat);
        lemma_marker_exp_bounds(start_version as nat);
        lemma_marker_exp_bounds(end_version as nat);
        lemma_marker_exp_bounds(epoch as nat);
    }
    let ghost first: nat = if pow2(start_marker as nat) >= start_version as nat {
        start_marker as nat
    } else {
        start_marker as nat + 1
    };

    let mut past_marker_versions: Vec<u64> = Vec::new();
    let mut i: u64 = start_marker;
    while i <= end_marker
        invariant
            start_marker as nat == marker_exp(start_version as nat),
            start_marker <= end_marker <= 63,
            first == (if pow2(start_marker as nat) >= start_version as nat {
                start_marker as nat
            } else {
                start_marker as nat + 1
            }),
            pow2(start_marker as nat) <= start_version as nat,
            (start_version as nat) < pow2(start_marker as nat + 1),
            start_marker <= i <= end_marker + 1,
            past_marker_versions@ == exp_seq(
                first,
                if i as nat >= first {
                    i as nat
                } else {
                    first
                },
            ),
        decreases end_marker + 1 - i,
    {
        let m = pow2_u64(i);
        if m >= start_version {
            proof {
                if i as nat > start_marker as nat {
                    lemma_pow2_le(start_marker as nat + 1, i as nat);
                }
                assert(i as nat >= first);
                assert(exp_seq(first, i as nat + 1) =~= exp_seq(first, i as nat).push(m));
            }
            past_marker_versions.push(m);
        } else {
            proof {
                assert(i == start_marker) by {
                    if i as nat > start_marker as nat {
                        lemma_pow2_le(start_marker as nat + 1, i as nat);
                    }
                };
                assert(first == i as nat + 1);
            }
        }
        i = i + 1;
    }

    let mut future_marker_versions: Vec<u64> = Vec::new();
    let mut j: u64 = end_marker + 1;
    while j <= final_marker
        invariant
            end_marker as nat == marker_exp(end_version as nat),
            end_marker <= final_marker <= 63,
            end_marker + 1 <= j <= final_marker + 1,
            future_marker_versions@ == exp_seq(end_marker as nat + 1, j as nat),
        decreases final_marker + 1 - j,
    {
        let m = pow2_u64(j);
        proof {
            assert(exp_seq(end_marker as nat + 1, j as nat + 1) =~= exp_seq(
                end_marker as nat + 1,
                j as nat,
            ).push(m));
        }
        future_marker_versions.push(m);
        j = j + 1;
    }

    proof {
        assert(past_marker_versions@ == past_marker_seq(
            start_version as nat,
            end_version as nat,
        ));
        assert(future_marker_versions@ == future_marker_seq(end_version as nat, epoch as nat));
    }
    (past_marker_versions, future_marker_versions)
}

/// `marker_exp` inverts `pow2`.
pub proof fn lemma_marker_exp_pow2(e: nat)
    ensures
        marker_exp(pow2(e)) == e,
{
    vstd::arithmetic::power2::lemma_pow2_pos(e);
    lemma_pow2_strictly_increases(e, e + 1);
    lemma_marker_exp_unique(pow2(e), e);
}

/// Law: the past and future marker sequences partition the powers of two
/// between the start version and the current epoch at the end version:
/// the past markers are exactly the powers of two within
/// `[start_version, end_version]`, and the future markers exactly those
/// within `(end_version, epoch]`.
pub proof fn lemma_marker_versions_partition(start_version: u64, end_version: u64, epoch: u64)
    requires
        1 <= start_version,
        start_version <= end_version,
        end_version <= epoch,
    ensures
        forall|m: u64|
            #[trigger] past_marker_seq(start_version as nat, end_version as nat).contains(m) <==> (
            is_marker_version(m as nat) && start_version <= m && m <= end_version),
        forall|m: u64|
            #[trigger] future_marker_seq(end_version as nat, epoch as nat).contains(m) <==> (
            is_marker_version(m as nat) && end_version < m && m <= epoch),
{
    let s = marker_exp(start_version as nat);
    let e = marker_exp(end_version as nat);
    let f = marker_exp(epoch as nat);
    lemma_marker_exp_bounds(start_version as nat);
    lemma_marker_exp_bounds(end_version as nat);
    lemma_marker_exp_bounds(epoch as nat);
    lemma_marker_exp_monotone(start_version as nat, end_version as nat);
    lemma_marker_exp_monotone(end_version as nat, epoch as nat);
    lemma_marker_exp_le_63(start_version);
    lemma_marker_exp_le_63(end_version);
    lemma_marker_exp_le_63(epoch);
    lemma2_to64_rest();
    let first = if pow2(s) >= start_version as nat {
        s
    } else {
        s + 1
    };
    let past = past_marker_seq(start_version as nat, end_version as nat);
    let future = future_marker_seq(end_version as nat, epoch as nat);

    assert forall|m: u64|
        #[trigger] past.contains(m) <==> (is_marker_version(m as nat) && start_version <= m && m
            <= end_version) by {
        if past.contains(m) {
            let k = choose|k: int| 0 <= k < past.len() && past[k] == m;
            let t = (first + k) as nat;
            lemma_pow2_le(t, 63);
            assert(m as nat == pow2(t));
            lemma_marker_exp_pow2(t);
            lemma_pow2_le(first, t);
            lemma_pow2_le(t, e);
            if pow2(s) < start_version as nat {
                lemma_pow2_le(s + 1, t);
            }
        }
        if is_marker_version(m as nat) && start_version <= m && m <= end_version {
            let t = marker_exp(m as nat);
            lemma_marker_exp_monotone(start_version as nat, m as nat);
            lemma_marker_exp_monotone(m as nat, end_version as nat);
            if pow2(s) < start_version as nat && t == s {
                assert(pow2(t) == m as nat);
                assert(false);
            }
            assert(first <= t <= e);
            lemma_pow2_le(t, 63);
            assert(past[t - first] == m);
            assert(past.contains(m));
        }
    }

    assert forall|m: u64|
        #[trigger] future.contains(m) <==> (is_marker_version(m as nat) && end_version < m && m
            <= epoch) by {
        if future.contains(m) {
            let k = choose|k: int| 0 <= k < future.len() && future[k] == m;
            let t = ((e + 1) + k) as nat;
            lemma_pow2_le(t, 63);
            assert(m as nat == pow2(t));
            lemma_marker_exp_pow2(t);
            lemma_pow2_le(e + 1, t);
            lemma_pow2_le(t, f);
        }
        if is_marker_version(m as nat) && end_version < m && m <= epoch {
            let t = marker_exp(m as nat);
            lemma_marker_exp_monotone(m as nat, epoch as nat);
            if t <= e {
                lemma_pow2_le(t, e);
                assert(pow2(t) == m as nat);
                assert(false);
            }
            assert(e + 1 <= t <= f);
            lemma_pow2_le(t, 63);
            assert(future[t - (e + 1)] == m);
            assert(future.contains(m));
        }
    }
}

} // verus!
