//! Fixed-point scores. A score, a reputation or a multiplier is a whole
//! number of millionths: `1_000_000` stands for 1.0.

use vstd::prelude::*;

verus! {

/// The score 1.0.
pub const SCORE_ONE: u64 = 1_000_000;

/// The smallest authenticity score with which a proof is admitted: 0.7.
pub const ADMISSION_THRESHOLD: u64 = 700_000;

/// The rolling average after one more sample: 95 parts of the old value and
/// 5 parts of the sample, rounded down to a whole millionth.
pub open spec fn decayed_average(old_value: nat, sample: nat) -> nat {
    (95 * old_value + 5 * sample) / 100
}

/// `score` limited to the range from 0.0 to 1.0.
pub open spec fn clamp_score(score: nat) -> nat {
    if score > SCORE_ONE {
        SCORE_ONE as nat
    } else {
        score
    }
}

/// The rolling average stays between its two inputs, and so within any
/// range that holds both.
pub proof fn lemma_decayed_average_bounds(old_value: nat, sample: nat)
    ensures
        old_value <= sample ==> old_value <= decayed_average(old_value, sample) <= sample,
        sample <= old_value ==> sample <= decayed_average(old_value, sample) <= old_value,
{
}

/// Moves the rolling average `old_value` towards `sample`.
pub fn decay_towards(old_value: u64, sample: u64) -> (average: u64)
    ensures
        average == decayed_average(old_value as nat, sample as nat),
{
    proof {
        lemma_decayed_average_bounds(old_value as nat, sample as nat);
    }
    let weighted: u128 = 95 * (old_value as u128) + 5 * (sample as u128);
    (weighted / 100) as u64
}

/// Limits `score` to the range from 0.0 to 1.0.
pub fn clamp_to_unit(score: u64) -> (clamped: u64)
    ensures
        clamped == clamp_score(score as nat),
        clamped <= SCORE_ONE,
{
    if score > SCORE_ONE {
        SCORE_ONE
    } else {
        score
    }
}

} // verus!
