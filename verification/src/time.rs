//! Time translation: mapping raw simulation time to a logical cycle index
//! and detecting cycle-boundary crossings.
//!
//! The cycle index is always recomputed from the raw simulation time, so
//! there is a single source of truth and no independent edge-counting
//! state that could drift.

use vstd::prelude::*;
use vstd::arithmetic::div_mod::lemma_div_is_ordered;

use crate::CYCLE_PERIOD;

verus! {

/// The logical cycle index of a raw simulation time: floor division by
/// the cycle period; fractional sub-cycle time is truncated, never rounded.
pub open spec fn spec_cycle_of(sim_time: u64) -> int {
    sim_time as int / CYCLE_PERIOD as int
}

/// Translates a raw simulation time into its logical cycle index.
pub fn cycle_of(sim_time: u64) -> (cycle: u64)
    ensures
        cycle == spec_cycle_of(sim_time),
{
    sim_time / CYCLE_PERIOD
}

/// True exactly when the cycle counter advanced between two observations
/// of the simulation time: this is the sole mechanism for detecting that
/// a new cycle has begun, so a second call within the same cycle reports
/// no boundary.
pub fn is_cycle_boundary(prev_time: u64, cur_time: u64) -> (crossed: bool)
    ensures
        crossed == (spec_cycle_of(prev_time) != spec_cycle_of(cur_time)),
{
    cycle_of(prev_time) != cycle_of(cur_time)
}

/// The cycle index never decreases as simulation time advances.
pub proof fn lemma_cycle_of_monotonic(t1: u64, t2: u64)
    requires
        t1 <= t2,
    ensures
        spec_cycle_of(t1) <= spec_cycle_of(t2),
{
    lemma_div_is_ordered(t1 as int, t2 as int, CYCLE_PERIOD as int);
}

} // verus!
