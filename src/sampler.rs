//! The probabilistic sampler: lets a call run with probability
//! `per_time / estimated_per_time`, without keeping any state.
use rand::Rng;
use vstd::prelude::*;

verus! {

/// Relies on `rand::thread_rng` and `Rng::gen_range`: a uniformly drawn
/// integer in `0..bound`. `gen_range` panics on an empty range, hence
/// `bound > 0`.
#[verifier::external_body]
fn draw_below(bound: u32) -> (r: u32)
    requires
        bound > 0,
    ensures
        r < bound,
{
    rand::thread_rng().gen_range(0..bound)
}

/// The size of the range a draw is taken from: `estimated_per_time / per_time`
/// with integer division, and at least one, so that an estimate under the
/// target always runs. `None` when `per_time` is zero: such a call never runs.
pub fn sample_range(per_time: u32, estimated_per_time: u32) -> (r: Option<u32>)
    ensures
        per_time == 0 ==> r is None,
        per_time > 0 ==> r == Some(
            if estimated_per_time / per_time >= 1 {
                (estimated_per_time / per_time) as u32
            } else {
                1u32
            },
        ),
        r matches Some(n) ==> n >= 1,
{
    if per_time == 0 {
        None
    } else {
        let factor = estimated_per_time / per_time;
        if factor >= 1 {
            Some(factor)
        } else {
            Some(1)
        }
    }
}

/// Whether a draw lets the call run, and with what argument.
pub open spec fn sample_fires_spec(per_time: u32, draw: u32) -> Option<u32> {
    if per_time > 0 && draw == 0 {
        Some(per_time)
    } else {
        None
    }
}

/// Decides a call from a draw: it runs, with `per_time` handed to the action,
/// exactly when the draw is zero and `per_time` is not.
pub fn sample_fires(per_time: u32, draw: u32) -> (r: Option<u32>)
    ensures
        r == sample_fires_spec(per_time, draw),
{
    if per_time > 0 && draw == 0 {
        Some(per_time)
    } else {
        None
    }
}

/// Of the draws in the range that `sample_range` gives, exactly one, zero,
/// lets the call run: each call runs with probability one over the range's size.
pub proof fn lemma_one_draw_fires(per_time: u32, range: u32)
    requires
        per_time > 0,
        range >= 1,
    ensures
        forall|d: u32|
            d < range ==> ((#[trigger] sample_fires_spec(per_time, d)) is Some <==> d == 0),
        exists|d: u32| d < range && sample_fires_spec(per_time, d) is Some,
{
    assert(0u32 < range && sample_fires_spec(per_time, 0u32) is Some);
}

/// Runs `f` with `per_time` on average `per_time` times out of
/// `estimated_per_time` calls: with a zero `per_time` never, with an estimate
/// under `per_time` always.
pub fn per_time<F>(per_time: u32, estimated_per_time: u32, mut f: F)
    where
        F: FnMut(u32),
    requires
        f.requires((per_time,)),
{
    if let Some(range) = sample_range(per_time, estimated_per_time) {
        let draw = draw_below(range);
        if let Some(arg) = sample_fires(per_time, draw) {
            f(arg);
        }
    }
}

} // verus!
