//! What is handed to the engine for one run, and what is made of the
//! engine's answers.

use crate::error::SandboxError;
use crate::model::Limits;
use crate::outcome::{Observation, RunEnd, TrapKind, end_of_failure, failed_end};
use crate::wasm::MAX_DEADLINE_TICKS;
use vstd::prelude::*;

verus! {

/// Milliseconds that one tick of the host's clock stands for. Whoever embeds
/// the host calls `WasmRunner::tick` once per tick, from a thread of its own:
/// a run holds the thread that started it until it ends.
pub const TICK_MS: u64 = 10;

/// The texts of a sequence of strings, in order.
pub open spec fn texts(strings: Seq<String>) -> Seq<Seq<char>> {
    Seq::new(strings.len(), |i: int| strings[i]@)
}

/// What the engine is given for one run.
#[derive(Debug)]
pub struct RunPlan {
    /// The fuel the store starts with.
    pub fuel: u64,
    /// The number of ticks after which the run is interrupted.
    pub deadline_ticks: u64,
    /// The memory ceiling, in mebibytes, that the meter is made with.
    pub memory_mb: u64,
    /// The program's argument list.
    pub argv: Vec<String>,
}

/// Lays down what the engine is given for a run of `code` under `limits`:
/// the whole fuel budget; a deadline of one tick more than the whole ticks
/// in the wall-clock budget; the memory ceiling as it is; and as argument
/// list the adapter's arguments followed by the program's source.
pub fn plan_run(limits: &Limits, arguments: &Vec<String>, code: &str) -> (plan: RunPlan)
    ensures
        plan.fuel == limits.cpu_fuel_units,
        plan.deadline_ticks == limits.wall_clock_ms / TICK_MS + 1,
        plan.deadline_ticks <= MAX_DEADLINE_TICKS,
        plan.memory_mb == limits.memory_mb,
        plan.argv@.len() == arguments@.len() + 1,
        texts(plan.argv@) == texts(arguments@).push(code@),
{
    let mut argv: Vec<String> = Vec::new();
    let mut k: usize = 0;
    while k < arguments.len()
        invariant
            k <= arguments@.len(),
            argv@.len() == k,
            forall|j: int| 0 <= j < k ==> (#[trigger] argv@[j])@ == arguments@[j]@,
        decreases arguments@.len() - k,
    {
        argv.push(arguments[k].clone());
        k = k + 1;
    }
    argv.push(code.to_owned());
    assert(texts(argv@) =~= texts(arguments@).push(code@));
    RunPlan {
        fuel: limits.cpu_fuel_units,
        deadline_ticks: limits.wall_clock_ms / TICK_MS + 1,
        memory_mb: limits.memory_mb,
        argv,
    }
}

/// What the inspection of an error of the engine gave.
#[derive(Debug)]
pub struct Failure {
    /// The trap the error holds, if it holds one.
    pub trap: Option<TrapKind>,
    /// The exit status the error holds, if it holds one.
    pub exit_status: Option<i32>,
    /// The error as text.
    pub message: String,
}

/// How far an attempt to run a program got.
#[derive(Debug)]
pub enum Attempt {
    /// The engine did not accept the fuel budget; nothing was started.
    NotPrepared(String),
    /// The runtime module could not be instantiated.
    NotInstantiated(Failure),
    /// The runtime module was instantiated, but exports no entry point.
    NoEntryPoint,
    /// The entry point was called and returned.
    Returned,
    /// The entry point was called and the call failed.
    CallFailed(Failure),
}

/// What the memory meter of a run shows once the run is over.
#[derive(Clone, Copy, Debug)]
pub struct MeterReading {
    /// The ceiling of the meter that was installed.
    pub installed_bytes: u64,
    /// The ceiling of the meter that came back.
    pub ceiling_bytes: u64,
    /// The largest size granted.
    pub peak_bytes: u64,
    /// Whether an allocation was denied.
    pub denied: bool,
}

/// The error text for a runtime module without an entry point.
pub open spec fn no_entry_point_text() -> Seq<char> {
    "the runtime module exports no `_start` function"@
}

/// The error text for a store whose meter is not the one installed.
pub open spec fn foreign_meter_text() -> Seq<char> {
    "the store's memory meter is not the one installed"@
}

/// How an attempt ended.
pub open spec fn end_of(attempt: Attempt) -> RunEnd {
    match attempt {
        Attempt::NotPrepared(_) => RunEnd::Failed,
        Attempt::NotInstantiated(failure) => failed_end(failure.trap, failure.exit_status),
        Attempt::NoEntryPoint => RunEnd::Failed,
        Attempt::Returned => RunEnd::Returned,
        Attempt::CallFailed(failure) => failed_end(failure.trap, failure.exit_status),
    }
}

/// The engine's complaint, where the program could not be started: the
/// text of an instantiation error that is neither a trap nor an exit.
pub open spec fn start_failure_of(attempt: Attempt) -> Option<Seq<char>> {
    match attempt {
        Attempt::NotInstantiated(failure) => if failed_end(failure.trap, failure.exit_status)
            == RunEnd::Failed {
            Some(failure.message@)
        } else {
            None
        },
        _ => None,
    }
}

/// The host error, if any, that an attempt comes to before anything is
/// observed of a run: the engine's refusal of the fuel budget, a runtime
/// module without an entry point, or a meter that is not the one installed.
pub open spec fn host_fault_of(attempt: Attempt, reading: MeterReading) -> Option<Seq<char>> {
    match attempt {
        Attempt::NotPrepared(reason) => Some(reason@),
        Attempt::NoEntryPoint => Some(no_entry_point_text()),
        _ => if reading.ceiling_bytes != reading.installed_bytes {
            Some(foreign_meter_text())
        } else {
            None
        },
    }
}

/// Puts together what was observed of an attempt, or the host error it
/// comes to. See [`host_fault_of`], [`end_of`] and [`start_failure_of`]; the
/// two streams, the measured time and the meter's figures are carried over
/// as they are.
pub fn observe(
    attempt: Attempt,
    reading: MeterReading,
    stdout: String,
    stderr: String,
    elapsed_ms: u64,
) -> (r: Result<Observation, SandboxError>)
    ensures
        match host_fault_of(attempt, reading) {
            Some(text) => r matches Err(SandboxError::Host(reason)) && reason@ == text,
            None => r matches Ok(seen) && {
                &&& seen.stdout@ == stdout@
                &&& seen.stderr@ == stderr@
                &&& seen.elapsed_ms == elapsed_ms
                &&& seen.peak_bytes == reading.peak_bytes
                &&& seen.denied == reading.denied
                &&& seen.end == end_of(attempt)
                &&& match seen.start_failure {
                    Some(reason) => start_failure_of(attempt) == Some(reason@),
                    None => start_failure_of(attempt) is None,
                }
            },
        },
{
    let (end, start_failure) = match attempt {
        Attempt::NotPrepared(reason) => {
            return Err(SandboxError::Host(reason));
        },
        Attempt::NoEntryPoint => {
            return Err(
                SandboxError::Host("the runtime module exports no `_start` function".to_owned()),
            );
        },
        Attempt::Returned => (RunEnd::Returned, None),
        Attempt::CallFailed(failure) => (
            end_of_failure(failure.trap, failure.exit_status),
            None,
        ),
        Attempt::NotInstantiated(failure) => {
            let end = end_of_failure(failure.trap, failure.exit_status);
            match end {
                RunEnd::Failed => (end, Some(failure.message)),
                _ => (end, None),
            }
        },
    };
    if reading.ceiling_bytes != reading.installed_bytes {
        return Err(
            SandboxError::Host("the store's memory meter is not the one installed".to_owned()),
        );
    }
    Ok(
        Observation {
            stdout,
            stderr,
            elapsed_ms,
            peak_bytes: reading.peak_bytes,
            denied: reading.denied,
            end,
            start_failure,
        },
    )
}

} // verus!
