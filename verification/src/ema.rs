//! The truncating integer exponential moving average that a task keeps over
//! the elapsed times of its UDF executions.
//!
//! The first sample replaces the initial zero average outright; every later
//! sample moves the average towards itself by the smoothing factor
//! `2 / (executions + 1)`, where `executions` counts the samples already
//! seen. The arithmetic is integer arithmetic throughout and the quotient is
//! truncated towards zero — a deliberate compatibility choice, not an
//! accuracy guarantee.

use vstd::arithmetic::div_mod::{
    lemma_div_is_ordered_by_denominator, lemma_div_multiples_vanish, lemma_div_pos_is_pos,
};
use vstd::prelude::*;

verus! {

/// The average after one more sample: `avg` is the current average, `sample`
/// the new elapsed time, and `executions` how many samples were seen before
/// this one. Truncation towards zero is written out as a case split on the
/// sign of `sample - avg`, so both quotients are quotients of non-negative
/// integers.
pub open spec fn ema_step(avg: u64, sample: u64, executions: int) -> u64 {
    if executions == 0 {
        sample
    } else if sample >= avg {
        (avg + 2 * (sample - avg) / (executions + 1)) as u64
    } else {
        (avg - 2 * (avg - sample) / (executions + 1)) as u64
    }
}

/// The average after a whole run of samples, oldest first, starting from the
/// zero average of a fresh task.
pub open spec fn ema_of(samples: Seq<u64>) -> u64
    decreases samples.len(),
{
    if samples.len() == 0 {
        0u64
    } else {
        ema_step(ema_of(samples.drop_last()), samples.last(), samples.len() - 1)
    }
}

/// Halving or better: a quotient `2 * d / e` with `e >= 2` never exceeds `d`,
/// so one EMA step never overshoots the new sample.
pub proof fn lemma_scaled_diff_bounded(d: int, e: int)
    requires
        0 <= d,
        2 <= e,
    ensures
        0 <= 2 * d / e <= d,
{
    lemma_div_pos_is_pos(2 * d, e);
    lemma_div_is_ordered_by_denominator(2 * d, 2, e);
    lemma_div_multiples_vanish(d, 2);
}

/// One EMA step lands between the old average and the new sample, so the
/// average always fits the same machine word as the samples.
pub proof fn lemma_ema_step_bounds(avg: u64, sample: u64, executions: int)
    requires
        executions >= 0,
    ensures
        ema_step(avg, sample, executions) >= if avg <= sample {
            avg
        } else {
            sample
        },
        ema_step(avg, sample, executions) <= if avg <= sample {
            sample
        } else {
            avg
        },
{
    if executions > 0 {
        if sample >= avg {
            lemma_scaled_diff_bounded(sample - avg, executions + 1);
        } else {
            lemma_scaled_diff_bounded(avg - sample, executions + 1);
        }
    }
}

/// The recurrence the tracker follows: the average after a run of samples
/// plus one more is one [`ema_step`] from the average after the run, counting
/// the run's length as the executions seen so far.
pub proof fn lemma_ema_recurrence(samples: Seq<u64>, sample: u64)
    ensures
        ema_of(samples.push(sample)) == ema_step(ema_of(samples), sample, samples.len() as int),
{
    assert(samples.push(sample).drop_last() =~= samples);
}

/// The average is a fixed point under constant input: after any non-empty
/// run of identical samples it equals that sample.
pub proof fn lemma_ema_constant(samples: Seq<u64>, c: u64)
    requires
        samples.len() >= 1,
        forall|i: int| 0 <= i < samples.len() ==> samples[i] == c,
    ensures
        ema_of(samples) == c,
    decreases samples.len(),
{
    if samples.len() == 1 {
        assert(ema_of(samples.drop_last()) == 0);
    } else {
        let front = samples.drop_last();
        assert(forall|i: int| 0 <= i < front.len() ==> front[i] == c);
        lemma_ema_constant(front, c);
        assert(2 * (c - c) / (samples.len() - 1 + 1) == 0);
    }
}

/// One step of the average, computed in executable code. Widening to a
/// double-width intermediate keeps the scaled difference from overflowing.
pub fn ema_update(avg: u64, sample: u64, executions: u64) -> (r: u64)
    ensures
        r == ema_step(avg, sample, executions as int),
{
    if executions == 0 {
        sample
    } else if sample >= avg {
        let d: u128 = (sample - avg) as u128;
        let q: u128 = 2 * d / (executions as u128 + 1);
        proof {
            lemma_scaled_diff_bounded(d as int, executions as int + 1);
        }
        avg + (q as u64)
    } else {
        let d: u128 = (avg - sample) as u128;
        let q: u128 = 2 * d / (executions as u128 + 1);
        proof {
            lemma_scaled_diff_bounded(d as int, executions as int + 1);
        }
        avg - (q as u64)
    }
}

} // verus!
