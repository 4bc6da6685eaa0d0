//! Co-simulation bridge: translates the simulator's raw time base into
//! logical clock cycles and drives the simulated interface signals on
//! behalf of a device emulator, one cycle at a time.

use vstd::prelude::*;

mod sequencer;
mod signal;
mod time;

pub use sequencer::BridgeError;
pub use sequencer::DeviceEmulator;
pub use sequencer::DispatchOutcome;
pub use sequencer::DispatchPhase;
pub use sequencer::Sequencer;
pub use sequencer::SignalWrite;
pub use sequencer::last_write_to;
pub use sequencer::writes_valid;
pub use signal::SignalDriver;
pub use signal::fits;
pub use time::cycle_of;
pub use time::is_cycle_boundary;
pub use time::lemma_cycle_of_monotonic;
pub use time::spec_cycle_of;

verus! {

/// How many simulation time units make one logical cycle.
///
/// This value must match the period the simulator's test-bench template
/// uses to schedule clock ticks; if the two disagree, cycle-boundary
/// detection silently diverges. See `period_matches` for an optional
/// runtime handshake.
pub const CYCLE_PERIOD: u64 = 20000;

/// Runtime handshake against the configuration contract: the simulator
/// reports the period its clock generator uses, and the bridge confirms
/// that it matches `CYCLE_PERIOD`.
pub fn period_matches(reported_period: u64) -> (ok: bool)
    ensures
        ok == (reported_period == CYCLE_PERIOD),
{
    reported_period == CYCLE_PERIOD
}

/// Relies on svdpi::get_time: the current simulation time in the
/// simulator's native time units, read through the simulator's
/// foreign-call interface. The value depends on the state of the running
/// simulation, so nothing is promised of it; the simulator's contract
/// (non-decreasing time) is enforced where the bridge observes successive
/// values, not assumed here.
#[verifier::external_body]
fn sim_time() -> u64 {
    svdpi::get_time()
}

/// The logical cycle index of the present moment: the simulator's current
/// time, translated by `cycle_of`. Queries the simulator afresh on every
/// call, so the cycle index is always derived from the single source of
/// truth.
pub fn get_t() -> (cycle: u64)
    ensures
        cycle <= u64::MAX as int / CYCLE_PERIOD as int,
{
    let now = sim_time();
    proof {
        lemma_cycle_of_monotonic(now, u64::MAX);
    }
    cycle_of(now)
}

} // verus!
