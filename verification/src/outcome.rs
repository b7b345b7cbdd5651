//! From the raw end of a run to its report.

use crate::error::SandboxError;
use crate::meter::{megabytes, to_megabytes};
use crate::model::{ExecutionResult, ExecutionView, Limits, TerminationReason};
use vstd::prelude::*;

verus! {

/// The traps the host tells apart.
#[derive(Clone, Copy, Debug, PartialEq, Eq, Structural)]
pub enum TrapKind {
    /// The fuel budget was used up.
    OutOfFuel,
    /// The engine interrupted the run at its deadline.
    Interrupt,
    /// Any other trap: a fault of the program.
    Other,
}

/// How the call into the hosted program ended.
#[derive(Clone, Copy, Debug, PartialEq, Eq, Structural)]
pub enum RunEnd {
    /// The entry point returned.
    Returned,
    /// The program asked to exit with this status.
    Exited(i32),
    /// Execution was halted by a trap.
    Trapped(TrapKind),
    /// The call failed in some other way.
    Failed,
}

/// How a call that failed ended, from what the inspection of its error gave:
/// a trap if the error holds one; otherwise an exit if it holds an exit
/// status; otherwise a failure of another kind.
pub open spec fn failed_end(trap: Option<TrapKind>, exit_status: Option<i32>) -> RunEnd {
    match trap {
        Some(kind) => RunEnd::Trapped(kind),
        None => match exit_status {
            Some(status) => RunEnd::Exited(status),
            None => RunEnd::Failed,
        },
    }
}

/// Decides how a call that failed ended.
pub fn end_of_failure(trap: Option<TrapKind>, exit_status: Option<i32>) -> (end: RunEnd)
    ensures
        end == failed_end(trap, exit_status),
{
    match trap {
        Some(kind) => RunEnd::Trapped(kind),
        None => match exit_status {
            Some(status) => RunEnd::Exited(status),
            None => RunEnd::Failed,
        },
    }
}

/// Why a run ended, from what was observed of it. A denied allocation is
/// reported before anything else; then fuel exhaustion; then the wall clock,
/// whether the engine interrupted the run or the run is found to have taken
/// longer than its budget; a run that returned or exited with status 0
/// completed; everything else is a fault of the program.
pub open spec fn termination_of(end: RunEnd, denied: bool, elapsed_ms: u64, wall_clock_ms: u64)
    -> TerminationReason {
    if denied {
        TerminationReason::MemoryDenied
    } else if end == RunEnd::Trapped(TrapKind::OutOfFuel) {
        TerminationReason::FuelExhausted
    } else if end == RunEnd::Trapped(TrapKind::Interrupt) || elapsed_ms > wall_clock_ms {
        TerminationReason::WallClockExceeded
    } else if end == RunEnd::Returned || end == RunEnd::Exited(0) {
        TerminationReason::Completed
    } else {
        TerminationReason::Faulted
    }
}

/// The report of a run: its two output streams as captured, the measured
/// time, the peak memory rounded up to whole mebibytes, and the reason it
/// ended.
pub open spec fn concluded(
    stdout: Seq<char>,
    stderr: Seq<char>,
    elapsed_ms: u64,
    peak_bytes: u64,
    denied: bool,
    end: RunEnd,
    limits: Limits,
) -> ExecutionView {
    ExecutionView {
        stdout,
        stderr,
        execution_time_ms: elapsed_ms,
        memory_used_mb: megabytes(peak_bytes),
        termination: termination_of(end, denied, elapsed_ms, limits.wall_clock_ms),
    }
}

/// Whether the way a run ended is the adapter's sign that the source did
/// not compile: the program exited with the status the adapter names.
pub open spec fn signals_compile_failure(end: RunEnd, status: Option<i32>) -> bool {
    end matches RunEnd::Exited(code) && status == Some(code)
}

/// What was observed of one attempt to run a program.
#[derive(Debug)]
pub struct Observation {
    /// What the program wrote to its output stream.
    pub stdout: String,
    /// What the program wrote to its error stream.
    pub stderr: String,
    /// The measured wall time.
    pub elapsed_ms: u64,
    /// The largest size its memory was granted.
    pub peak_bytes: u64,
    /// Whether an allocation was denied.
    pub denied: bool,
    /// How the attempt ended.
    pub end: RunEnd,
    /// The engine's complaint, if the program could not be started.
    pub start_failure: Option<String>,
}

/// Decides why a run ended.
pub fn classify(end: RunEnd, denied: bool, elapsed_ms: u64, wall_clock_ms: u64) -> (reason:
    TerminationReason)
    ensures
        reason == termination_of(end, denied, elapsed_ms, wall_clock_ms),
{
    if denied {
        return TerminationReason::MemoryDenied;
    }
    match end {
        RunEnd::Trapped(TrapKind::OutOfFuel) => TerminationReason::FuelExhausted,
        RunEnd::Trapped(TrapKind::Interrupt) => TerminationReason::WallClockExceeded,
        RunEnd::Returned => {
            if elapsed_ms > wall_clock_ms {
                TerminationReason::WallClockExceeded
            } else {
                TerminationReason::Completed
            }
        },
        RunEnd::Exited(status) => {
            if elapsed_ms > wall_clock_ms {
                TerminationReason::WallClockExceeded
            } else if status == 0 {
                TerminationReason::Completed
            } else {
                TerminationReason::Faulted
            }
        },
        _ => {
            if elapsed_ms > wall_clock_ms {
                TerminationReason::WallClockExceeded
            } else {
                TerminationReason::Faulted
            }
        },
    }
}

/// Builds the report of a run from what was observed of it.
pub fn conclude(
    stdout: String,
    stderr: String,
    elapsed_ms: u64,
    peak_bytes: u64,
    denied: bool,
    end: RunEnd,
    limits: &Limits,
) -> (report: ExecutionResult)
    ensures
        report@ == concluded(stdout@, stderr@, elapsed_ms, peak_bytes, denied, end, *limits),
{
    ExecutionResult {
        stdout,
        stderr,
        execution_time_ms: elapsed_ms,
        memory_used_mb: to_megabytes(peak_bytes),
        termination: classify(end, denied, elapsed_ms, limits.wall_clock_ms),
    }
}

/// Turns what was observed of an attempt into what the host returns.
///
/// A program that could not be started is a host error, unless the start
/// failed because the memory it asks for at the outset was denied. A run
/// that counts as a fault and ended with the adapter's sign for a source that
/// did not compile is a compilation error, which carries the error stream.
/// Everything else is a report.
pub fn report(seen: Observation, compile_failure_status: Option<i32>, limits: &Limits) -> (r:
    Result<ExecutionResult, SandboxError>)
    ensures
        !seen.denied && seen.start_failure is Some ==> r == Err::<ExecutionResult, SandboxError>(
            SandboxError::Host(seen.start_failure->Some_0),
        ),
        !(!seen.denied && seen.start_failure is Some) && signals_compile_failure(
            seen.end,
            compile_failure_status,
        ) && termination_of(seen.end, seen.denied, seen.elapsed_ms, limits.wall_clock_ms)
            == TerminationReason::Faulted ==> (r matches Err(SandboxError::Compilation(text))
            && text@ == seen.stderr@),
        !(!seen.denied && seen.start_failure is Some) && !(signals_compile_failure(
            seen.end,
            compile_failure_status,
        ) && termination_of(seen.end, seen.denied, seen.elapsed_ms, limits.wall_clock_ms)
            == TerminationReason::Faulted) ==> (r matches Ok(run) && run@ == concluded(
            seen.stdout@,
            seen.stderr@,
            seen.elapsed_ms,
            seen.peak_bytes,
            seen.denied,
            seen.end,
            *limits,
        )),
{
    let Observation { stdout, stderr, elapsed_ms, peak_bytes, denied, end, start_failure } = seen;
    if !denied {
        if let Some(reason) = start_failure {
            return Err(SandboxError::Host(reason));
        }
    }
    let run = conclude(stdout, stderr, elapsed_ms, peak_bytes, denied, end, limits);
    let signalled = match (end, compile_failure_status) {
        (RunEnd::Exited(code), Some(status)) => code == status,
        _ => false,
    };
    if signalled && run.termination == TerminationReason::Faulted {
        Err(SandboxError::Compilation(run.stderr))
    } else {
        Ok(run)
    }
}

} // verus!
