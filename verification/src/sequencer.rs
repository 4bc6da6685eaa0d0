//! Dispatch sequencing: the state machine the simulator's foreign-call
//! entry points drive.
//!
//! Each invocation consults the time translation to decide whether a new
//! logical cycle has begun. If not, the invocation is a no-op. If so, the
//! sequencer samples the committed signal values, hands them to the device
//! emulator for one cycle step, then commits the writes the emulator
//! requested — Sample, Step, Drive, in that exact order, completed
//! synchronously before control returns to the simulator.

use vstd::prelude::*;

use crate::signal::SignalDriver;
use crate::signal::fits;
use crate::time::is_cycle_boundary;
use crate::time::spec_cycle_of;

verus! {

/// Where in one logical cycle the sequencer currently is. `AwaitEdge` is
/// both the initial state and the resting state between invocations; the
/// other three are passed through, in order, within a single
/// boundary-crossing invocation.
#[derive(Clone, Copy, Debug, PartialEq, Eq, Structural)]
pub enum DispatchPhase {
    AwaitEdge,
    SampleInputs,
    StepEmulator,
    DriveOutputs,
}

/// An unrecoverable fault surfaced by a dispatch invocation. None of these
/// are retried: a simulation tick cannot be safely replayed once signals
/// may already have been sampled, so the host must stop rather than guess.
#[derive(Clone, Copy, Debug, PartialEq, Eq, Structural)]
pub enum BridgeError {
    /// The simulator delivered an earlier time than it had before: a
    /// violation of its own call discipline.
    TimeRegression,
    /// The device emulator reported an unrecoverable fault from its step.
    EmulatorFault,
    /// The device emulator asked to drive a signal that was never declared:
    /// a programming error, never silently ignored.
    UnknownSignal { id: usize },
    /// The device emulator asked to drive a value that does not fit the
    /// signal's declared width.
    ValueTooWide { id: usize, value: u64 },
}

/// One signal write requested by the device emulator during its step.
#[derive(Clone, Copy, Debug, PartialEq, Eq, Structural)]
pub struct SignalWrite {
    pub id: usize,
    pub value: u64,
}

/// The behavioural model being driven: one call advances it by one logical
/// cycle. It receives this cycle's sampled input values and returns the
/// signal writes it wants driven, or a fault it considers unrecoverable.
/// It sees only the values passed in and out, never the signal state
/// itself.
pub trait DeviceEmulator {
    fn step(&mut self, sampled_inputs: &Vec<u64>) -> Result<Vec<SignalWrite>, ()>;
}

/// The value the last of these writes gives to the signal `id`, if any:
/// later writes overwrite earlier ones to the same signal.
pub open spec fn last_write_to(writes: Seq<SignalWrite>, id: int) -> Option<u64>
    decreases writes.len(),
{
    if writes.len() == 0 {
        None
    } else if writes.last().id == id {
        Some(writes.last().value)
    } else {
        last_write_to(writes.drop_last(), id)
    }
}

/// Every write names a declared signal and fits its declared width.
pub open spec fn writes_valid(writes: Seq<SignalWrite>, widths: Seq<u64>) -> bool {
    forall|k: int|
        0 <= k < writes.len() ==> (#[trigger] writes[k]).id < widths.len() && fits(
            writes[k].value,
            widths[writes[k].id as int],
        )
}

proof fn lemma_last_write_push(writes: Seq<SignalWrite>, w: SignalWrite, id: int)
    ensures
        last_write_to(writes.push(w), id) == (if w.id == id {
            Some(w.value)
        } else {
            last_write_to(writes, id)
        }),
{
    assert(writes.push(w).drop_last() =~= writes);
}

/// The state machine invoked by the simulator's foreign-call entry points.
/// It owns the signal state and the last observed simulation time; the
/// cycle index itself is always recomputed from the time, never stored.
pub struct Sequencer {
    /// The signal state this sequencer drives and samples.
    pub signals: SignalDriver,
    /// The simulation time observed by the previous invocation.
    pub last_time: u64,
    /// Where in the logical cycle the sequencer is. At rest this is
    /// `AwaitEdge`; any other value means a dispatch died mid-cycle and
    /// the bridge must not be driven further.
    pub phase: DispatchPhase,
}

/// What one dispatch invocation did.
#[derive(Debug)]
pub enum DispatchOutcome {
    /// No cycle boundary was crossed: the invocation changed nothing.
    Idle,
    /// A full cycle ran: `sampled` holds the input values handed to the
    /// emulator, `writes` the writes it requested (now committed), and
    /// `phases` the phases passed through, in execution order.
    Cycled { sampled: Vec<u64>, writes: Vec<SignalWrite>, phases: Vec<DispatchPhase> },
}

impl Sequencer {
    /// At rest: signal state well-formed, no write left staged, and the
    /// phase back at `AwaitEdge`.
    pub open spec fn wf(&self) -> bool {
        &&& self.signals.wf()
        &&& self.signals.nothing_staged()
        &&& self.phase is AwaitEdge
    }

    /// A sequencer at simulation start: time zero observed, awaiting the
    /// first edge.
    pub fn new(signals: SignalDriver) -> (sequencer: Sequencer)
        requires
            signals.wf(),
            signals.nothing_staged(),
        ensures
            sequencer.wf(),
            sequencer.signals == signals,
            sequencer.last_time == 0u64,
    {
        Sequencer { signals, last_time: 0, phase: DispatchPhase::AwaitEdge }
    }

    /// One foreign-call invocation from the simulator.
    ///
    /// If the simulation time went backwards, the invocation reports the
    /// contract breach and touches nothing. If no cycle boundary was
    /// crossed since the last observation, the invocation is a no-op apart
    /// from recording the time — calling in twice at the same time does no
    /// further work. If a boundary was crossed, the sequencer samples the
    /// committed signal values, steps the emulator once with them, then
    /// commits the emulator's writes, and only then returns: Sample, Step,
    /// Drive, synchronously, in that order.
    #[verifier::loop_isolation(false)]
    pub fn dispatch<E: DeviceEmulator>(&mut self, emulator: &mut E, cur_time: u64) -> (outcome:
        Result<DispatchOutcome, BridgeError>)
        requires
            old(self).wf(),
        ensures
            final(self).signals.widths@ == old(self).signals.widths@,
            (outcome == Err::<DispatchOutcome, BridgeError>(BridgeError::TimeRegression)) == (
            cur_time < old(self).last_time),
            cur_time < old(self).last_time ==> (final(self).signals == old(self).signals && final(self).last_time == old(self).last_time && final(self).phase == old(self).phase),
            cur_time >= old(self).last_time ==> final(self).last_time == cur_time,
            (outcome == Ok::<DispatchOutcome, BridgeError>(DispatchOutcome::Idle)) == (cur_time
                >= old(self).last_time && spec_cycle_of(cur_time) == spec_cycle_of(
                old(self).last_time,
            )),
            outcome == Ok::<DispatchOutcome, BridgeError>(DispatchOutcome::Idle) ==> (final(self).signals == old(self).signals && final(self).phase == old(self).phase),
            outcome matches Ok(DispatchOutcome::Cycled { sampled, writes, phases }) ==> ({
                &&& spec_cycle_of(cur_time) != spec_cycle_of(old(self).last_time)
                &&& cur_time > old(self).last_time
                &&& sampled@ == old(self).signals.committed@
                &&& writes_valid(writes@, old(self).signals.widths@)
                &&& phases@ == seq![
                    DispatchPhase::SampleInputs,
                    DispatchPhase::StepEmulator,
                    DispatchPhase::DriveOutputs,
                ]
                &&& final(self).wf()
                &&& final(self).signals.committed@.len() == old(self).signals.committed@.len()
                &&& forall|i: int|
                    0 <= i < old(self).signals.committed@.len()
                        ==> final(self).signals.committed@[i] == (match last_write_to(writes@, i) {
                        Some(v) => v,
                        None => old(self).signals.committed@[i],
                    })
            }),
            outcome == Err::<DispatchOutcome, BridgeError>(BridgeError::EmulatorFault) ==> ({
                &&& spec_cycle_of(cur_time) != spec_cycle_of(old(self).last_time)
                &&& final(self).signals == old(self).signals
                &&& final(self).phase is StepEmulator
            }),
            outcome matches Err(BridgeError::UnknownSignal { id }) ==> ({
                &&& spec_cycle_of(cur_time) != spec_cycle_of(old(self).last_time)
                &&& id >= old(self).signals.spec_len()
                &&& final(self).signals == old(self).signals
                &&& final(self).phase is DriveOutputs
            }),
            outcome matches Err(BridgeError::ValueTooWide { id, value }) ==> ({
                &&& spec_cycle_of(cur_time) != spec_cycle_of(old(self).last_time)
                &&& id < old(self).signals.spec_len()
                &&& !fits(value, old(self).signals.widths@[id as int])
                &&& final(self).signals == old(self).signals
                &&& final(self).phase is DriveOutputs
            }),
    {
        if cur_time < self.last_time {
            return Err(BridgeError::TimeRegression);
        }
        let crossed = is_cycle_boundary(self.last_time, cur_time);
        self.last_time = cur_time;
        if !crossed {
            return Ok(DispatchOutcome::Idle);
        }
        let ghost orig_signals = self.signals;

        // Sample: capture the committed value of every signal.
        self.phase = DispatchPhase::SampleInputs;
        let sampled = self.signals.sample_all();

        // Step: advance the emulator one cycle on the sampled inputs.
        self.phase = DispatchPhase::StepEmulator;
        let writes = match emulator.step(&sampled) {
            Ok(writes) => writes,
            Err(()) => {
                return Err(BridgeError::EmulatorFault);
            },
        };

        // Drive: validate every requested write, then stage and commit the
        // whole batch, making it visible to the next cycle's sample.
        self.phase = DispatchPhase::DriveOutputs;
        let write_count = writes.len();
        for k in 0..write_count
            invariant
                write_count == writes@.len(),
                self.signals == orig_signals,
                self.last_time == cur_time,
                self.phase is DriveOutputs,
                orig_signals.wf(),
                forall|j: int|
                    0 <= j < k ==> (#[trigger] writes@[j]).id < orig_signals.widths@.len() && fits(
                        writes@[j].value,
                        orig_signals.widths@[writes@[j].id as int],
                    ),
        {
            let write = writes[k];
            if !self.signals.has_signal(write.id) {
                return Err(BridgeError::UnknownSignal { id: write.id });
            }
            if !self.signals.value_fits(write.id, write.value) {
                return Err(BridgeError::ValueTooWide { id: write.id, value: write.value });
            }
        }
        for k in 0..write_count
            invariant
                write_count == writes@.len(),
                writes_valid(writes@, orig_signals.widths@),
                self.last_time == cur_time,
                self.phase is DriveOutputs,
                self.signals.wf(),
                self.signals.widths@ == orig_signals.widths@,
                self.signals.committed@ == orig_signals.committed@,
                self.signals.staged@.len() == orig_signals.staged@.len(),
                forall|j: int|
                    0 <= j < self.signals.spec_len() ==> #[trigger] self.signals.staged@[j]
                        == last_write_to(writes@.take(k as int), j),
        {
            let write = writes[k];
            self.signals.write(write.id, write.value);
            proof {
                assert(writes@.take(k as int + 1) =~= writes@.take(k as int).push(
                    writes@[k as int],
                ));
                assert forall|j: int| 0 <= j < self.signals.spec_len() implies #[trigger] self
                    .signals.staged@[j] == last_write_to(writes@.take(k as int + 1), j) by {
                    lemma_last_write_push(writes@.take(k as int), writes@[k as int], j);
                }
            }
        }
        proof {
            assert(writes@.take(write_count as int) =~= writes@);
        }
        self.signals.commit();
        self.phase = DispatchPhase::AwaitEdge;

        let mut phases: Vec<DispatchPhase> = Vec::new();
        phases.push(DispatchPhase::SampleInputs);
        phases.push(DispatchPhase::StepEmulator);
        phases.push(DispatchPhase::DriveOutputs);
        proof {
            assert(phases@ =~= seq![
                DispatchPhase::SampleInputs,
                DispatchPhase::StepEmulator,
                DispatchPhase::DriveOutputs,
            ]);
        }
        Ok(DispatchOutcome::Cycled { sampled, writes, phases })
    }
}

} // verus!
