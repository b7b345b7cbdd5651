use codequest_judge::error::SandboxError;
use codequest_judge::meter::{to_megabytes, MemoryMeter, BYTES_PER_MB};
use codequest_judge::model::{Limits, TerminationReason};
use codequest_judge::outcome::{
    classify, conclude, end_of_failure, report, Observation, RunEnd, TrapKind,
};

#[test]
fn megabytes_round_up() {
    assert_eq!(to_megabytes(0), 0);
    assert_eq!(to_megabytes(1), 1);
    assert_eq!(to_megabytes(65_536), 1);
    assert_eq!(to_megabytes(1_048_576), 1);
    assert_eq!(to_megabytes(1_048_577), 2);
    assert_eq!(to_megabytes(5 * BYTES_PER_MB), 5);
    assert_eq!(to_megabytes(u64::MAX), 17_592_186_044_416);
}

#[test]
fn new_meter_has_granted_nothing() {
    let m = MemoryMeter::new(16);
    assert_eq!(m.ceiling_bytes(), 16_777_216);
    assert_eq!(m.peak_bytes(), 0);
    assert!(!m.was_denied());
}

#[test]
fn ceiling_is_held_at_the_maximum() {
    assert_eq!(MemoryMeter::new(u64::MAX).ceiling_bytes(), u64::MAX);
    assert_eq!(MemoryMeter::new(17_592_186_044_416).ceiling_bytes(), u64::MAX);
    assert_eq!(
        MemoryMeter::new(17_592_186_044_415).ceiling_bytes(),
        17_592_186_044_415 * 1_048_576
    );
    assert_eq!(MemoryMeter::new(0).ceiling_bytes(), 0);
}

#[test]
fn requests_up_to_the_ceiling_are_granted() {
    let mut m = MemoryMeter::new(1);
    assert!(m.request(65_536, None));
    assert_eq!(m.peak_bytes(), 65_536);
    assert!(m.request(1_048_576, None));
    assert_eq!(m.peak_bytes(), 1_048_576);
    assert!(!m.was_denied());
}

#[test]
fn a_request_above_the_ceiling_is_denied_and_remembered() {
    let mut m = MemoryMeter::new(1);
    assert!(m.request(65_536, None));
    assert!(!m.request(1_048_577, None));
    assert!(m.was_denied());
    assert_eq!(m.peak_bytes(), 65_536);
    // a later, smaller request is granted; the denial stays on record
    assert!(m.request(131_072, None));
    assert!(m.was_denied());
    assert_eq!(m.peak_bytes(), 131_072);
}

#[test]
fn a_smaller_request_does_not_lower_the_peak() {
    let mut m = MemoryMeter::new(4);
    assert!(m.request(2_000_000, None));
    assert!(m.request(1_000_000, None));
    assert_eq!(m.peak_bytes(), 2_000_000);
}

#[test]
fn the_memorys_own_maximum_is_respected_without_a_denial() {
    let mut m = MemoryMeter::new(4);
    assert!(!m.request(200_000, Some(131_072)));
    assert!(!m.was_denied());
    assert_eq!(m.peak_bytes(), 0);
    assert!(m.request(131_072, Some(131_072)));
    assert_eq!(m.peak_bytes(), 131_072);
}

#[test]
fn zero_ceiling_denies_everything_but_nothing() {
    let mut m = MemoryMeter::new(0);
    assert!(m.request(0, None));
    assert!(!m.was_denied());
    assert!(!m.request(1, None));
    assert!(m.was_denied());
}

#[test]
fn denial_comes_first() {
    assert_eq!(classify(RunEnd::Returned, true, 1, 1000), TerminationReason::MemoryDenied);
    assert_eq!(
        classify(RunEnd::Trapped(TrapKind::OutOfFuel), true, 5000, 1000),
        TerminationReason::MemoryDenied
    );
    assert_eq!(classify(RunEnd::Failed, true, 1, 1000), TerminationReason::MemoryDenied);
}

#[test]
fn fuel_comes_before_the_wall_clock() {
    assert_eq!(
        classify(RunEnd::Trapped(TrapKind::OutOfFuel), false, 5000, 1000),
        TerminationReason::FuelExhausted
    );
    assert_eq!(
        classify(RunEnd::Trapped(TrapKind::OutOfFuel), false, 1, 1000),
        TerminationReason::FuelExhausted
    );
}

#[test]
fn wall_clock_by_interrupt_or_by_measured_time() {
    assert_eq!(
        classify(RunEnd::Trapped(TrapKind::Interrupt), false, 1, 1000),
        TerminationReason::WallClockExceeded
    );
    assert_eq!(classify(RunEnd::Returned, false, 1001, 1000), TerminationReason::WallClockExceeded);
    assert_eq!(classify(RunEnd::Exited(0), false, 1001, 1000), TerminationReason::WallClockExceeded);
    assert_eq!(classify(RunEnd::Exited(1), false, 1001, 1000), TerminationReason::WallClockExceeded);
    assert_eq!(
        classify(RunEnd::Trapped(TrapKind::Other), false, 1001, 1000),
        TerminationReason::WallClockExceeded
    );
    assert_eq!(classify(RunEnd::Failed, false, 1001, 1000), TerminationReason::WallClockExceeded);
}

#[test]
fn completion_and_faults() {
    assert_eq!(classify(RunEnd::Returned, false, 1000, 1000), TerminationReason::Completed);
    assert_eq!(classify(RunEnd::Exited(0), false, 0, 0), TerminationReason::Completed);
    assert_eq!(classify(RunEnd::Exited(1), false, 1, 1000), TerminationReason::Faulted);
    assert_eq!(classify(RunEnd::Exited(-1), false, 1, 1000), TerminationReason::Faulted);
    assert_eq!(classify(RunEnd::Trapped(TrapKind::Other), false, 1, 1000), TerminationReason::Faulted);
    assert_eq!(classify(RunEnd::Failed, false, 1, 1000), TerminationReason::Faulted);
}

#[test]
fn report_carries_what_was_observed() {
    let limits = Limits { wall_clock_ms: 1000, cpu_fuel_units: 10, memory_mb: 16 };
    let r = conclude(
        "out".to_string(),
        "err".to_string(),
        12,
        3 * 1_048_576 + 1,
        false,
        RunEnd::Exited(0),
        &limits,
    );
    assert_eq!(r.stdout, "out");
    assert_eq!(r.stderr, "err");
    assert_eq!(r.execution_time_ms, 12);
    assert_eq!(r.memory_used_mb, 4);
    assert_eq!(r.termination, TerminationReason::Completed);
}

fn seen(end: RunEnd, denied: bool, start_failure: Option<&str>) -> Observation {
    Observation {
        stdout: "out".to_string(),
        stderr: "err".to_string(),
        elapsed_ms: 12,
        peak_bytes: 65_536,
        denied,
        end,
        start_failure: start_failure.map(|s| s.to_string()),
    }
}

fn usual() -> Limits {
    Limits { wall_clock_ms: 1000, cpu_fuel_units: 10, memory_mb: 16 }
}

#[test]
fn a_program_that_could_not_be_started_is_a_host_error() {
    match report(seen(RunEnd::Failed, false, Some("unknown import")), None, &usual()) {
        Err(SandboxError::Host(reason)) => assert_eq!(reason, "unknown import"),
        other => panic!("unexpected: {:?}", other),
    }
}

#[test]
fn a_start_that_failed_for_want_of_memory_is_reported_as_denied() {
    let r = report(seen(RunEnd::Failed, true, Some("memory minimum size")), None, &usual())
        .expect("report");
    assert_eq!(r.termination, TerminationReason::MemoryDenied);
    assert_eq!(r.memory_used_mb, 1);
}

#[test]
fn the_adapters_exit_status_means_the_source_did_not_compile() {
    match report(seen(RunEnd::Exited(2), false, None), Some(2), &usual()) {
        Err(SandboxError::Compilation(text)) => assert_eq!(text, "err"),
        other => panic!("unexpected: {:?}", other),
    }
}

#[test]
fn other_endings_are_reports() {
    let r = report(seen(RunEnd::Exited(2), false, None), Some(3), &usual()).expect("report");
    assert_eq!(r.termination, TerminationReason::Faulted);
    let r = report(seen(RunEnd::Exited(2), false, None), None, &usual()).expect("report");
    assert_eq!(r.termination, TerminationReason::Faulted);
    let r = report(seen(RunEnd::Exited(0), false, None), Some(0), &usual()).expect("report");
    assert_eq!(r.termination, TerminationReason::Completed);
    let r = report(seen(RunEnd::Returned, false, None), Some(2), &usual()).expect("report");
    assert_eq!(r.termination, TerminationReason::Completed);
    assert_eq!((r.stdout.as_str(), r.stderr.as_str()), ("out", "err"));
    assert_eq!((r.execution_time_ms, r.memory_used_mb), (12, 1));
}

#[test]
fn a_limit_is_reported_before_a_failure_to_compile() {
    // the status matches, but the run was denied memory
    let r = report(seen(RunEnd::Exited(2), true, None), Some(2), &usual()).expect("report");
    assert_eq!(r.termination, TerminationReason::MemoryDenied);
    // the status matches, but the run took longer than its budget
    let mut slow = seen(RunEnd::Exited(2), false, None);
    slow.elapsed_ms = 1001;
    let r = report(slow, Some(2), &usual()).expect("report");
    assert_eq!(r.termination, TerminationReason::WallClockExceeded);
}

#[test]
fn a_trap_is_told_before_an_exit() {
    assert_eq!(
        end_of_failure(Some(TrapKind::OutOfFuel), Some(3)),
        RunEnd::Trapped(TrapKind::OutOfFuel)
    );
    assert_eq!(end_of_failure(Some(TrapKind::Other), None), RunEnd::Trapped(TrapKind::Other));
    assert_eq!(
        end_of_failure(Some(TrapKind::Interrupt), Some(0)),
        RunEnd::Trapped(TrapKind::Interrupt)
    );
}

#[test]
fn an_exit_keeps_its_status_and_anything_else_is_a_failure() {
    assert_eq!(end_of_failure(None, Some(0)), RunEnd::Exited(0));
    assert_eq!(end_of_failure(None, Some(3)), RunEnd::Exited(3));
    assert_eq!(end_of_failure(None, Some(-1)), RunEnd::Exited(-1));
    assert_eq!(end_of_failure(None, None), RunEnd::Failed);
}
