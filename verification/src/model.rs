//! The data that flows through one evaluation, and its mathematical views.

use vstd::prelude::*;

verus! {

/// One test case of a problem: what the program reads and what it must print.
#[derive(Clone, Debug)]
pub struct TestCase {
    pub input: String,
    pub expected_output: String,
}

/// View of a [`TestCase`].
pub struct TestCaseView {
    pub input: Seq<char>,
    pub expected_output: Seq<char>,
}

impl View for TestCase {
    type V = TestCaseView;

    open spec fn view(&self) -> TestCaseView {
        TestCaseView { input: self.input@, expected_output: self.expected_output@ }
    }
}

/// The budgets of one sandboxed run.
#[derive(Clone, Copy, Debug, PartialEq, Eq, Structural)]
pub struct Limits {
    /// Wall-clock budget in milliseconds.
    pub wall_clock_ms: u64,
    /// Budget of metered computation, in fuel units.
    pub cpu_fuel_units: u64,
    /// Ceiling on linear memory, in mebibytes.
    pub memory_mb: u64,
}

/// What an evaluation does once a test case has failed.
#[derive(Clone, Copy, Debug, PartialEq, Eq, Structural)]
pub enum FailurePolicy {
    /// Every test case is run, so that the caller gets the diagnostics of
    /// each. This is the default.
    RunAll,
    /// The cases that have not been run when a case fails are not run.
    StopOnFirstFailure,
}

/// Why a sandboxed run ended.
#[derive(Clone, Copy, Debug, PartialEq, Eq, Structural)]
pub enum TerminationReason {
    /// The program ran to its end and reported success.
    Completed,
    /// The fuel budget ran out.
    FuelExhausted,
    /// An allocation request above the memory ceiling was denied.
    MemoryDenied,
    /// The wall-clock budget ran out.
    WallClockExceeded,
    /// The program trapped or exited abnormally.
    Faulted,
}

/// What one sandboxed run produced.
#[derive(Clone, Debug)]
pub struct ExecutionResult {
    pub stdout: String,
    pub stderr: String,
    pub execution_time_ms: u64,
    pub memory_used_mb: u64,
    pub termination: TerminationReason,
}

/// View of an [`ExecutionResult`].
pub struct ExecutionView {
    pub stdout: Seq<char>,
    pub stderr: Seq<char>,
    pub execution_time_ms: u64,
    pub memory_used_mb: u64,
    pub termination: TerminationReason,
}

impl View for ExecutionResult {
    type V = ExecutionView;

    open spec fn view(&self) -> ExecutionView {
        ExecutionView {
            stdout: self.stdout@,
            stderr: self.stderr@,
            execution_time_ms: self.execution_time_ms,
            memory_used_mb: self.memory_used_mb,
            termination: self.termination,
        }
    }
}

/// The kind of failure recorded against one test case.
#[derive(Clone, Copy, Debug, PartialEq, Eq, Structural)]
pub enum FaultKind {
    /// The source did not compile; nothing was executed.
    Compilation,
    /// The program started and then trapped or exited abnormally.
    Runtime,
    /// The run was stopped because its fuel ran out.
    FuelExhausted,
    /// The run was stopped because its wall-clock budget ran out.
    WallClockExceeded,
    /// The run asked for more memory than its ceiling allows.
    MemoryDenied,
    /// The case was not run, because an earlier case had failed and the
    /// evaluation was told to stop at the first failure.
    NotRun,
}

/// A failure recorded against one test case.
#[derive(Clone, Debug)]
pub struct CaseError {
    pub kind: FaultKind,
    pub message: String,
}

/// View of a [`CaseError`].
pub struct CaseErrorView {
    pub kind: FaultKind,
    pub message: Seq<char>,
}

impl View for CaseError {
    type V = CaseErrorView;

    open spec fn view(&self) -> CaseErrorView {
        CaseErrorView { kind: self.kind, message: self.message@ }
    }
}

/// The scored outcome of one test case.
#[derive(Clone, Debug)]
pub struct TestCaseResult {
    pub passed: bool,
    pub expected_output: String,
    pub actual_output: String,
    pub execution_time_ms: u64,
    pub memory_used_mb: u64,
    pub error: Option<CaseError>,
}

/// View of a [`TestCaseResult`].
pub struct CaseView {
    pub passed: bool,
    pub expected_output: Seq<char>,
    pub actual_output: Seq<char>,
    pub execution_time_ms: u64,
    pub memory_used_mb: u64,
    pub error: Option<CaseErrorView>,
}

impl View for TestCaseResult {
    type V = CaseView;

    open spec fn view(&self) -> CaseView {
        CaseView {
            passed: self.passed,
            expected_output: self.expected_output@,
            actual_output: self.actual_output@,
            execution_time_ms: self.execution_time_ms,
            memory_used_mb: self.memory_used_mb,
            error: match self.error {
                Some(e) => Some(e@),
                None => None,
            },
        }
    }
}

/// The views of a sequence of test cases, in order.
pub open spec fn case_views(cases: Seq<TestCase>) -> Seq<TestCaseView> {
    Seq::new(cases.len(), |i: int| cases[i]@)
}

/// The views of a sequence of scored results, in order.
pub open spec fn result_views(results: Seq<TestCaseResult>) -> Seq<CaseView> {
    Seq::new(results.len(), |i: int| results[i]@)
}

} // verus!
