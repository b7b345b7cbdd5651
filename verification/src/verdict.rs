//! The closed set of judgments and how one is derived from scored results.

use crate::model::{CaseView, FaultKind};
use vstd::prelude::*;

verus! {

/// The final categorical judgment of a submission against its test suite.
#[derive(Clone, Copy, Debug, PartialEq, Eq, Structural)]
pub enum Verdict {
    Accepted,
    WrongAnswer,
    TimeLimitExceeded,
    MemoryLimitExceeded,
    RuntimeError,
    CompilationError,
}

impl Verdict {
    /// The human-readable name of the verdict.
    pub open spec fn label(self) -> Seq<char> {
        match self {
            Verdict::Accepted => "Accepted"@,
            Verdict::WrongAnswer => "Wrong Answer"@,
            Verdict::TimeLimitExceeded => "Time Limit Exceeded"@,
            Verdict::MemoryLimitExceeded => "Memory Limit Exceeded"@,
            Verdict::RuntimeError => "Runtime Error"@,
            Verdict::CompilationError => "Compilation Error"@,
        }
    }

    /// Renders the verdict as text.
    pub fn to_string(&self) -> (s: String)
        ensures
            s@ == self.label(),
    {
        match self {
            Verdict::Accepted => "Accepted".to_owned(),
            Verdict::WrongAnswer => "Wrong Answer".to_owned(),
            Verdict::TimeLimitExceeded => "Time Limit Exceeded".to_owned(),
            Verdict::MemoryLimitExceeded => "Memory Limit Exceeded".to_owned(),
            Verdict::RuntimeError => "Runtime Error".to_owned(),
            Verdict::CompilationError => "Compilation Error".to_owned(),
        }
    }
}

/// The case records that its source failed to compile.
pub open spec fn carries_compilation_failure(r: CaseView) -> bool {
    r.error matches Some(e) && e.kind == FaultKind::Compilation
}

/// The case records a fault of the running program.
pub open spec fn carries_runtime_fault(r: CaseView) -> bool {
    r.error matches Some(e) && e.kind == FaultKind::Runtime
}

/// The case ran longer than `time_limit_ms`, or was stopped by its fuel or
/// wall-clock budget.
pub open spec fn exceeds_time(r: CaseView, time_limit_ms: u64) -> bool {
    ||| r.execution_time_ms > time_limit_ms
    ||| r.error matches Some(e) && (e.kind == FaultKind::FuelExhausted || e.kind
        == FaultKind::WallClockExceeded)
}

/// The case used more than `memory_limit_mb`, or had an allocation denied.
pub open spec fn exceeds_memory(r: CaseView, memory_limit_mb: u64) -> bool {
    ||| r.memory_used_mb > memory_limit_mb
    ||| r.error matches Some(e) && e.kind == FaultKind::MemoryDenied
}

/// The case passed and has no failure on record. A result that carries a
/// failure does not count as passed, whatever its flag says.
pub open spec fn passed_cleanly(r: CaseView) -> bool {
    r.passed && r.error is None
}

/// The verdict of a whole result set. The rules are tried in order over all
/// results and the first that applies wins: a compilation failure anywhere,
/// then a runtime fault anywhere, then a case over time, then a case over
/// memory; with none of these, `Accepted` if every case passed with no
/// failure on record and `WrongAnswer` otherwise.
pub open spec fn verdict_of(results: Seq<CaseView>, time_limit_ms: u64, memory_limit_mb: u64)
    -> Verdict {
    if exists|i: int| 0 <= i < results.len() && carries_compilation_failure(#[trigger] results[i]) {
        Verdict::CompilationError
    } else if exists|i: int| 0 <= i < results.len() && carries_runtime_fault(#[trigger] results[i]) {
        Verdict::RuntimeError
    } else if exists|i: int|
        0 <= i < results.len() && exceeds_time(#[trigger] results[i], time_limit_ms) {
        Verdict::TimeLimitExceeded
    } else if exists|i: int|
        0 <= i < results.len() && exceeds_memory(#[trigger] results[i], memory_limit_mb) {
        Verdict::MemoryLimitExceeded
    } else if forall|i: int| 0 <= i < results.len() ==> passed_cleanly(#[trigger] results[i]) {
        Verdict::Accepted
    } else {
        Verdict::WrongAnswer
    }
}

/// The sum of the wall times of all results.
pub open spec fn total_time(results: Seq<CaseView>) -> nat
    decreases results.len(),
{
    if results.len() == 0 {
        0
    } else {
        total_time(results.drop_last()) + results.last().execution_time_ms as nat
    }
}

/// The largest memory figure among the results; 0 when there are none.
pub open spec fn peak_memory(results: Seq<CaseView>) -> nat
    decreases results.len(),
{
    if results.len() == 0 {
        0
    } else {
        let before = peak_memory(results.drop_last());
        let here = results.last().memory_used_mb as nat;
        if here > before {
            here
        } else {
            before
        }
    }
}

/// `n` as a `u64`, held at `u64::MAX` when it does not fit.
pub open spec fn saturated(n: nat) -> u64 {
    if n > u64::MAX {
        u64::MAX
    } else {
        n as u64
    }
}

/// `peak_memory` is an upper bound of every figure and, unless the sequence
/// is empty, is the figure of one of the results.
pub proof fn lemma_peak_memory_is_max(results: Seq<CaseView>)
    ensures
        forall|i: int|
            0 <= i < results.len() ==> (#[trigger] results[i]).memory_used_mb <= peak_memory(
                results,
            ),
        results.len() > 0 ==> exists|i: int|
            0 <= i < results.len() && (#[trigger] results[i]).memory_used_mb == peak_memory(
                results,
            ),
        results.len() == 0 ==> peak_memory(results) == 0,
        peak_memory(results) <= u64::MAX,
    decreases results.len(),
{
    if results.len() > 0 {
        let front = results.drop_last();
        lemma_peak_memory_is_max(front);
        assert forall|i: int| 0 <= i < results.len() implies (
        #[trigger] results[i]).memory_used_mb <= peak_memory(results) by {
            if i < front.len() {
                assert(front[i] == results[i]);
            }
        }
        if front.len() > 0 && peak_memory(results) == peak_memory(front) {
            let w = choose|i: int|
                0 <= i < front.len() && (#[trigger] front[i]).memory_used_mb == peak_memory(front);
            assert(results[w] == front[w]);
        } else {
            assert(results[results.len() - 1].memory_used_mb == peak_memory(results));
        }
    }
}

} // verus!
