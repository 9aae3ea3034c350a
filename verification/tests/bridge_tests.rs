use sarus_bridge::buffer::SlotWrite;
use sarus_bridge::errors::BoundaryError;
use sarus_bridge::errors::CompilePhase;
use sarus_bridge::machine::Bridge;
use sarus_bridge::machine::CompileOutcome;
use sarus_bridge::machine::MachineState;

#[test]
fn new_bridge_is_idle_with_zeroed_buffer() {
    let bridge = Bridge::new(4);
    assert_eq!(bridge.current_state(), MachineState::Idle);
    assert!(bridge.current_routine().is_none());
    assert_eq!(bridge.current_error_text(), "");
    for i in 0..4 {
        assert_eq!(bridge.read_slot(i).unwrap(), 0);
    }
    assert_eq!(bridge.read_slot(4), Err(BoundaryError::BoundsError));
}

#[test]
fn successful_compile_installs_routine() {
    let mut bridge = Bridge::new(4);
    bridge.apply_compile(CompileOutcome::Success { addr: 0x1000 }).unwrap();
    assert_eq!(bridge.current_state(), MachineState::Ready);
    let rh = bridge.current_routine().unwrap();
    assert_eq!(rh.addr, 0x1000);
    assert_eq!(rh.version, 1);
    assert_eq!(bridge.current_error_text(), "");
}

#[test]
fn failed_compile_discards_routine_and_reports_diagnostic() {
    let mut bridge = Bridge::new(4);
    bridge.write_slot(2, 5.5f64.to_bits()).unwrap();
    bridge.apply_compile(CompileOutcome::Success { addr: 0x1000 }).unwrap();
    bridge.apply_compile(CompileOutcome::Failure {
        phase: CompilePhase::TypeError,
        diagnostic: "mismatched types in line 3".to_owned(),
    }).unwrap();
    assert_eq!(bridge.current_state(), MachineState::Failed);
    assert!(bridge.current_routine().is_none());
    assert_eq!(bridge.current_error_text(), "mismatched types in line 3");
    // the state buffer persists across the failed recompile unmodified
    assert_eq!(f64::from_bits(bridge.read_slot(2).unwrap()), 5.5);
    // a frame while failed invokes nothing
    let routine = bridge.begin_frame().unwrap();
    assert!(routine.is_none());
    bridge.end_frame().unwrap();
}

#[test]
fn latest_compile_wins() {
    let mut bridge = Bridge::new(4);
    bridge.apply_compile(CompileOutcome::Success { addr: 0x1000 }).unwrap();
    let first = bridge.begin_frame().unwrap().unwrap();
    bridge.end_frame().unwrap();
    bridge.apply_compile(CompileOutcome::Success { addr: 0x2000 }).unwrap();
    let second = bridge.begin_frame().unwrap().unwrap();
    bridge.end_frame().unwrap();
    assert_eq!(first.addr, 0x1000);
    assert_eq!(second.addr, 0x2000);
    assert_eq!(second.version, 2);
    assert_ne!(first, second);
}

#[test]
fn compile_inside_frame_is_rejected() {
    let mut bridge = Bridge::new(4);
    bridge.apply_compile(CompileOutcome::Success { addr: 0x1000 }).unwrap();
    let routine = bridge.begin_frame().unwrap().unwrap();
    // a compile cannot complete inside the frame: the running frame keeps its routine
    let r = bridge.apply_compile(CompileOutcome::Success { addr: 0x2000 });
    assert_eq!(r, Err(BoundaryError::PreconditionViolation));
    assert_eq!(bridge.current_routine().unwrap(), routine);
    bridge.end_frame().unwrap();
}

#[test]
fn frame_windows_are_not_reentrant() {
    let mut bridge = Bridge::new(4);
    bridge.begin_frame().unwrap();
    assert_eq!(bridge.begin_frame(), Err(BoundaryError::PreconditionViolation));
    bridge.end_frame().unwrap();
    assert_eq!(bridge.end_frame(), Err(BoundaryError::PreconditionViolation));
}

#[test]
fn invocation_effect_is_deterministic() {
    let transcript = vec![
        SlotWrite { slot: 0, bits: 1.5f64.to_bits() },
        SlotWrite { slot: 3, bits: 2.5f64.to_bits() },
        SlotWrite { slot: 0, bits: 4.5f64.to_bits() },
    ];
    let mut first_run: Vec<u64> = Vec::new();
    let mut second_run: Vec<u64> = Vec::new();
    for run in [&mut first_run, &mut second_run] {
        let mut bridge = Bridge::new(4);
        bridge.begin_frame().unwrap();
        bridge.invoke_writes(&transcript).unwrap();
        bridge.end_frame().unwrap();
        for i in 0..4 {
            run.push(bridge.read_slot(i).unwrap());
        }
    }
    assert_eq!(first_run, second_run);
    assert_eq!(f64::from_bits(first_run[0]), 4.5);
    assert_eq!(f64::from_bits(first_run[3]), 2.5);
    assert_eq!(first_run[1], 0);
}

#[test]
fn out_of_bounds_write_is_reported_and_stops_the_transcript() {
    let mut bridge = Bridge::new(2);
    bridge.begin_frame().unwrap();
    let transcript = vec![
        SlotWrite { slot: 0, bits: 1.0f64.to_bits() },
        SlotWrite { slot: 5, bits: 2.0f64.to_bits() },
        SlotWrite { slot: 1, bits: 3.0f64.to_bits() },
    ];
    assert_eq!(bridge.invoke_writes(&transcript), Err(BoundaryError::BoundsError));
    bridge.end_frame().unwrap();
    // the write before the fault applied; the one after it did not
    assert_eq!(f64::from_bits(bridge.read_slot(0).unwrap()), 1.0);
    assert_eq!(bridge.read_slot(1).unwrap(), 0);
}

#[test]
fn writes_outside_a_frame_are_rejected() {
    let mut bridge = Bridge::new(2);
    let transcript = vec![SlotWrite { slot: 0, bits: 1 }];
    assert_eq!(bridge.invoke_writes(&transcript), Err(BoundaryError::PreconditionViolation));
    assert_eq!(bridge.read_slot(0).unwrap(), 0);
}

#[test]
fn recorded_fault_is_exposed_not_swallowed() {
    let mut bridge = Bridge::new(2);
    assert!(bridge.current_fault().is_none());
    bridge.record_fault(BoundaryError::BoundsError);
    assert_eq!(bridge.current_fault(), Some(BoundaryError::BoundsError));
    // the next compile attempt replaces the error surface
    bridge.apply_compile(CompileOutcome::Success { addr: 0x1 }).unwrap();
    assert!(bridge.current_fault().is_none());
}
