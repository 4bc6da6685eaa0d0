use cosim_bridge::BridgeError;
use cosim_bridge::DeviceEmulator;
use cosim_bridge::DispatchOutcome;
use cosim_bridge::DispatchPhase;
use cosim_bridge::Sequencer;
use cosim_bridge::SignalDriver;
use cosim_bridge::SignalWrite;

/// An instrumented emulator stub: counts its steps, records every sampled
/// input vector it was handed, and answers with a scripted result.
struct StubEmulator {
    steps: usize,
    seen_inputs: Vec<Vec<u64>>,
    writes: Vec<SignalWrite>,
    fail: bool,
}

impl StubEmulator {
    fn quiet() -> StubEmulator {
        StubEmulator { steps: 0, seen_inputs: Vec::new(), writes: Vec::new(), fail: false }
    }

    fn writing(writes: Vec<SignalWrite>) -> StubEmulator {
        StubEmulator { steps: 0, seen_inputs: Vec::new(), writes, fail: false }
    }

    fn failing() -> StubEmulator {
        StubEmulator { steps: 0, seen_inputs: Vec::new(), writes: Vec::new(), fail: true }
    }
}

impl DeviceEmulator for StubEmulator {
    fn step(&mut self, sampled_inputs: &Vec<u64>) -> Result<Vec<SignalWrite>, ()> {
        self.steps += 1;
        self.seen_inputs.push(sampled_inputs.clone());
        if self.fail {
            Err(())
        } else {
            Ok(self.writes.clone())
        }
    }
}

fn one_signal_sequencer(width: u64) -> (Sequencer, usize) {
    let mut driver = SignalDriver::new();
    let id = driver.declare_signal(width);
    (Sequencer::new(driver), id)
}

#[test]
fn sub_cycle_invocations_are_idle() {
    let (mut sequencer, _id) = one_signal_sequencer(8);
    let mut emulator = StubEmulator::quiet();
    for t in [0u64, 100, 5000, 19999] {
        let outcome = sequencer.dispatch(&mut emulator, t).unwrap();
        assert!(matches!(outcome, DispatchOutcome::Idle), "time {}", t);
    }
    assert_eq!(emulator.steps, 0, "no boundary was crossed, so no step");
    assert_eq!(sequencer.phase, DispatchPhase::AwaitEdge);
}

#[test]
fn same_time_twice_is_idempotent() {
    let (mut sequencer, id) = one_signal_sequencer(8);
    let mut emulator = StubEmulator::writing(vec![SignalWrite { id, value: 42 }]);

    let first = sequencer.dispatch(&mut emulator, 20000).unwrap();
    assert!(matches!(first, DispatchOutcome::Cycled { .. }));
    assert_eq!(emulator.steps, 1);
    assert_eq!(sequencer.signals.read(id), 42);

    let second = sequencer.dispatch(&mut emulator, 20000).unwrap();
    assert!(matches!(second, DispatchOutcome::Idle));
    assert_eq!(emulator.steps, 1, "no second step for the same time");
    assert_eq!(sequencer.signals.read(id), 42, "no additional signal writes");
}

#[test]
fn boundary_crossing_runs_sample_step_drive_in_order() {
    let (mut sequencer, id) = one_signal_sequencer(8);
    let mut emulator = StubEmulator::writing(vec![SignalWrite { id, value: 7 }]);

    let outcome = sequencer.dispatch(&mut emulator, 20000).unwrap();
    match outcome {
        DispatchOutcome::Cycled { sampled, writes, phases } => {
            assert_eq!(
                phases,
                vec![
                    DispatchPhase::SampleInputs,
                    DispatchPhase::StepEmulator,
                    DispatchPhase::DriveOutputs,
                ]
            );
            assert_eq!(sampled, vec![0], "sampled before any drive");
            assert_eq!(writes, vec![SignalWrite { id, value: 7 }]);
        },
        DispatchOutcome::Idle => panic!("boundary crossing must run a cycle"),
    }
    assert_eq!(emulator.seen_inputs, vec![vec![0]]);
    assert_eq!(sequencer.signals.read(id), 7, "write committed at drive phase");
    assert_eq!(sequencer.phase, DispatchPhase::AwaitEdge);
}

#[test]
fn step_writes_are_invisible_before_the_next_drive() {
    let (mut sequencer, id) = one_signal_sequencer(16);
    let mut emulator = StubEmulator::writing(vec![SignalWrite { id, value: 0x55 }]);

    sequencer.dispatch(&mut emulator, 20000).unwrap();
    // The emulator wrote 0x55 during the first cycle's step; it becomes
    // visible only to the next cycle's sample.
    let outcome = sequencer.dispatch(&mut emulator, 40000).unwrap();
    match outcome {
        DispatchOutcome::Cycled { sampled, .. } => assert_eq!(sampled, vec![0x55]),
        DispatchOutcome::Idle => panic!("boundary crossing must run a cycle"),
    }
    assert_eq!(emulator.seen_inputs, vec![vec![0], vec![0x55]]);
}

#[test]
fn last_write_wins_within_one_step() {
    let (mut sequencer, id) = one_signal_sequencer(8);
    let mut emulator = StubEmulator::writing(vec![
        SignalWrite { id, value: 1 },
        SignalWrite { id, value: 2 },
    ]);
    sequencer.dispatch(&mut emulator, 20000).unwrap();
    assert_eq!(sequencer.signals.read(id), 2);
}

#[test]
fn decreasing_time_is_a_fatal_contract_violation() {
    let (mut sequencer, id) = one_signal_sequencer(8);
    let mut emulator = StubEmulator::quiet();

    assert!(sequencer.dispatch(&mut emulator, 100).is_ok());
    let outcome = sequencer.dispatch(&mut emulator, 50);
    assert_eq!(outcome.unwrap_err(), BridgeError::TimeRegression);
    assert_eq!(emulator.steps, 0);
    assert_eq!(sequencer.signals.read(id), 0, "nothing proceeded silently");
}

#[test]
fn emulator_fault_is_fatal_and_drives_nothing() {
    let (mut sequencer, id) = one_signal_sequencer(8);
    let mut emulator = StubEmulator::failing();

    let outcome = sequencer.dispatch(&mut emulator, 20000);
    assert_eq!(outcome.unwrap_err(), BridgeError::EmulatorFault);
    assert_eq!(emulator.steps, 1);
    assert_eq!(sequencer.signals.read(id), 0);
    assert_eq!(sequencer.phase, DispatchPhase::StepEmulator, "died mid-cycle");
}

#[test]
fn write_to_unknown_signal_fails_fast() {
    let (mut sequencer, id) = one_signal_sequencer(8);
    let mut emulator = StubEmulator::writing(vec![SignalWrite { id: 5, value: 1 }]);

    let outcome = sequencer.dispatch(&mut emulator, 20000);
    assert_eq!(outcome.unwrap_err(), BridgeError::UnknownSignal { id: 5 });
    assert_eq!(sequencer.signals.read(id), 0, "no partial drive");
}

#[test]
fn write_wider_than_declared_fails_fast() {
    let (mut sequencer, id) = one_signal_sequencer(4);
    let mut emulator = StubEmulator::writing(vec![SignalWrite { id, value: 16 }]);

    let outcome = sequencer.dispatch(&mut emulator, 20000);
    assert_eq!(outcome.unwrap_err(), BridgeError::ValueTooWide { id, value: 16 });
    assert_eq!(sequencer.signals.read(id), 0);
}

#[test]
fn cycles_are_driven_by_cycle_index_not_call_count() {
    let (mut sequencer, id) = one_signal_sequencer(32);
    let mut emulator = StubEmulator::writing(vec![SignalWrite { id, value: 9 }]);

    // Many sub-cycle callbacks, then a jump over several cycles: exactly
    // one step per boundary crossing, however the calls are spaced.
    for t in [0u64, 1, 2, 19999] {
        sequencer.dispatch(&mut emulator, t).unwrap();
    }
    assert_eq!(emulator.steps, 0);
    sequencer.dispatch(&mut emulator, 20000).unwrap();
    assert_eq!(emulator.steps, 1);
    sequencer.dispatch(&mut emulator, 100000).unwrap();
    assert_eq!(emulator.steps, 2, "one invocation, one step, even across a jump");
}
