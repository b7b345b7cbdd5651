//! The output comparator and the verdict engine.

use crate::model::{
    CaseError, CaseErrorView, CaseView, ExecutionResult, ExecutionView, FaultKind, TerminationReason,
    TestCase, TestCaseResult, TestCaseView, result_views,
};
use crate::text::{normalize, trimmed};
use crate::verdict::{
    Verdict, carries_compilation_failure, carries_runtime_fault, exceeds_memory, exceeds_time,
    lemma_peak_memory_is_max, passed_cleanly, peak_memory, saturated, total_time, verdict_of,
};
use vstd::prelude::*;

verus! {

/// The aggregate judgment of one submission.
#[derive(Clone, Debug)]
pub struct JudgeResult {
    pub verdict: Verdict,
    pub execution_time_ms: u64,
    pub memory_used_mb: u64,
    pub test_results: Vec<TestCaseResult>,
}

/// View of a [`JudgeResult`].
pub struct JudgeView {
    pub verdict: Verdict,
    pub execution_time_ms: u64,
    pub memory_used_mb: u64,
    pub test_results: Seq<CaseView>,
}

impl View for JudgeResult {
    type V = JudgeView;

    open spec fn view(&self) -> JudgeView {
        JudgeView {
            verdict: self.verdict,
            execution_time_ms: self.execution_time_ms,
            memory_used_mb: self.memory_used_mb,
            test_results: result_views(self.test_results@),
        }
    }
}

/// What comparing one expected output with one actual output yields.
#[derive(Clone, Debug)]
pub struct Comparison {
    pub passed: bool,
    pub normalized_expected: String,
    pub normalized_actual: String,
}

/// Two outputs match when their normal forms are the same text.
pub open spec fn outputs_match(expected: Seq<char>, actual: Seq<char>) -> bool {
    trimmed(expected) == trimmed(actual)
}

/// The failure, if any, that a termination reason records against a case.
pub open spec fn fault_of(reason: TerminationReason) -> Option<FaultKind> {
    match reason {
        TerminationReason::Completed => None,
        TerminationReason::FuelExhausted => Some(FaultKind::FuelExhausted),
        TerminationReason::MemoryDenied => Some(FaultKind::MemoryDenied),
        TerminationReason::WallClockExceeded => Some(FaultKind::WallClockExceeded),
        TerminationReason::Faulted => Some(FaultKind::Runtime),
    }
}

/// The scored result of a case whose program was run. The case passes when
/// the run completed and its standard output matches the expected output;
/// timing and memory are carried over unchanged; a run that did not complete
/// records its failure together with the run's error stream.
pub open spec fn scored(case: TestCaseView, run: ExecutionView) -> CaseView {
    CaseView {
        passed: run.termination == TerminationReason::Completed && outputs_match(
            case.expected_output,
            run.stdout,
        ),
        expected_output: case.expected_output,
        actual_output: run.stdout,
        execution_time_ms: run.execution_time_ms,
        memory_used_mb: run.memory_used_mb,
        error: match fault_of(run.termination) {
            Some(kind) => Some(CaseErrorView { kind, message: run.stderr }),
            None => None,
        },
    }
}

/// The scored result of a case whose source did not compile: nothing ran, so
/// there is no output and no resource use.
pub open spec fn compile_failure(case: TestCaseView, diagnostics: Seq<char>) -> CaseView {
    CaseView {
        passed: false,
        expected_output: case.expected_output,
        actual_output: Seq::empty(),
        execution_time_ms: 0,
        memory_used_mb: 0,
        error: Some(CaseErrorView { kind: FaultKind::Compilation, message: diagnostics }),
    }
}

/// The result recorded for a case that was not run.
pub open spec fn not_run(case: TestCaseView) -> CaseView {
    CaseView {
        passed: false,
        expected_output: case.expected_output,
        actual_output: Seq::empty(),
        execution_time_ms: 0,
        memory_used_mb: 0,
        error: Some(CaseErrorView { kind: FaultKind::NotRun, message: Seq::empty() }),
    }
}

/// The result recorded for a case whose run was still under way when the
/// time for the whole submission ran out: the scoring of a run that printed
/// nothing and was stopped by the wall clock.
pub open spec fn expired(case: TestCaseView) -> CaseView {
    scored(
        case,
        ExecutionView {
            stdout: Seq::empty(),
            stderr: Seq::empty(),
            execution_time_ms: 0,
            memory_used_mb: 0,
            termination: TerminationReason::WallClockExceeded,
        },
    )
}

/// The judgment of a result set under the given limits: the verdict by
/// precedence, the summed wall time (held at `u64::MAX` if the sum does not
/// fit), the largest memory figure, and the results themselves in order.
pub open spec fn judged(results: Seq<CaseView>, time_limit_ms: u64, memory_limit_mb: u64)
    -> JudgeView {
    JudgeView {
        verdict: verdict_of(results, time_limit_ms, memory_limit_mb),
        execution_time_ms: saturated(total_time(results)),
        memory_used_mb: peak_memory(results) as u64,
        test_results: results,
    }
}

/// The kind of failure a result carries, if any.
fn fault_kind(r: &TestCaseResult) -> (k: Option<FaultKind>)
    ensures
        k == match r@.error {
            Some(e) => Some(e.kind),
            None => None,
        },
{
    match &r.error {
        Some(e) => Some(e.kind),
        None => None,
    }
}

/// Scores submissions: compares outputs and reduces scored test cases to a
/// verdict.
pub struct Judge;

impl Judge {
    pub fn new() -> (j: Self) {
        Judge
    }

    /// Compares an expected output with an actual one and hands back both
    /// normal forms.
    pub fn compare(&self, expected: &str, actual: &str) -> (c: Comparison)
        ensures
            c.passed == outputs_match(expected@, actual@),
            c.normalized_expected@ == trimmed(expected@),
            c.normalized_actual@ == trimmed(actual@),
    {
        let normalized_expected = normalize(expected);
        let normalized_actual = normalize(actual);
        let passed = normalized_expected == normalized_actual;
        Comparison { passed, normalized_expected, normalized_actual }
    }

    /// Whether `actual` matches `expected` once both are normalized.
    pub fn evaluate_output(&self, expected: &str, actual: &str) -> (passed: bool)
        ensures
            passed == outputs_match(expected@, actual@),
    {
        let expected_normalized = normalize(expected);
        let actual_normalized = normalize(actual);
        expected_normalized == actual_normalized
    }

    /// Scores one test case from the run of the program on its input.
    pub fn score_execution(&self, case: &TestCase, run: ExecutionResult) -> (r: TestCaseResult)
        ensures
            r@ == scored(case@, run@),
    {
        let matches = self.evaluate_output(case.expected_output.as_str(), run.stdout.as_str());
        let (passed, error) = match run.termination {
            TerminationReason::Completed => (matches, None),
            TerminationReason::FuelExhausted => (
                false,
                Some(CaseError { kind: FaultKind::FuelExhausted, message: run.stderr }),
            ),
            TerminationReason::MemoryDenied => (
                false,
                Some(CaseError { kind: FaultKind::MemoryDenied, message: run.stderr }),
            ),
            TerminationReason::WallClockExceeded => (
                false,
                Some(CaseError { kind: FaultKind::WallClockExceeded, message: run.stderr }),
            ),
            TerminationReason::Faulted => (
                false,
                Some(CaseError { kind: FaultKind::Runtime, message: run.stderr }),
            ),
        };
        TestCaseResult {
            passed,
            expected_output: case.expected_output.clone(),
            actual_output: run.stdout,
            execution_time_ms: run.execution_time_ms,
            memory_used_mb: run.memory_used_mb,
            error,
        }
    }

    /// Scores one test case whose source was rejected before it could run.
    pub fn score_compile_failure(&self, case: &TestCase, diagnostics: String) -> (r: TestCaseResult)
        ensures
            r@ == compile_failure(case@, diagnostics@),
    {
        TestCaseResult {
            passed: false,
            expected_output: case.expected_output.clone(),
            actual_output: String::new(),
            execution_time_ms: 0,
            memory_used_mb: 0,
            error: Some(CaseError { kind: FaultKind::Compilation, message: diagnostics }),
        }
    }

    /// The result of a case that is not run.
    pub fn score_not_run(&self, case: &TestCase) -> (r: TestCaseResult)
        ensures
            r@ == not_run(case@),
    {
        TestCaseResult {
            passed: false,
            expected_output: case.expected_output.clone(),
            actual_output: String::new(),
            execution_time_ms: 0,
            memory_used_mb: 0,
            error: Some(CaseError { kind: FaultKind::NotRun, message: String::new() }),
        }
    }

    /// The result of a case whose run was cut off when the time for the
    /// whole submission ran out.
    pub fn score_expired(&self, case: &TestCase) -> (r: TestCaseResult)
        ensures
            r@ == expired(case@),
    {
        TestCaseResult {
            passed: false,
            expected_output: case.expected_output.clone(),
            actual_output: String::new(),
            execution_time_ms: 0,
            memory_used_mb: 0,
            error: Some(CaseError { kind: FaultKind::WallClockExceeded, message: String::new() }),
        }
    }

    /// Reduces a result set to its verdict. Every result is looked at; the
    /// precedence of the rules, not the position of a case, decides.
    pub fn determine_verdict(
        &self,
        test_results: &[TestCaseResult],
        time_limit_ms: u64,
        memory_limit_mb: u64,
    ) -> (v: Verdict)
        ensures
            v == verdict_of(result_views(test_results@), time_limit_ms, memory_limit_mb),
    {
        let ghost views = result_views(test_results@);
        let n = test_results.len();
        let mut compilation = false;
        let mut runtime = false;
        let mut over_time = false;
        let mut over_memory = false;
        let mut all_passed = true;
        let mut i: usize = 0;
        while i < n
            invariant
                n == test_results@.len(),
                views == result_views(test_results@),
                i <= n,
                compilation <==> exists|j: int|
                    0 <= j < i && carries_compilation_failure(#[trigger] views[j]),
                runtime <==> exists|j: int| 0 <= j < i && carries_runtime_fault(#[trigger] views[j]),
                over_time <==> exists|j: int|
                    0 <= j < i && exceeds_time(#[trigger] views[j], time_limit_ms),
                over_memory <==> exists|j: int|
                    0 <= j < i && exceeds_memory(#[trigger] views[j], memory_limit_mb),
                all_passed <==> forall|j: int| 0 <= j < i ==> passed_cleanly(#[trigger] views[j]),
            decreases n - i,
        {
            let r = &test_results[i];
            assert(views[i as int] == r@);
            let kind = fault_kind(r);
            match kind {
                Some(FaultKind::Compilation) => {
                    compilation = true;
                },
                Some(FaultKind::Runtime) => {
                    runtime = true;
                },
                Some(FaultKind::FuelExhausted) => {
                    over_time = true;
                },
                Some(FaultKind::WallClockExceeded) => {
                    over_time = true;
                },
                Some(FaultKind::MemoryDenied) => {
                    over_memory = true;
                },
                Some(FaultKind::NotRun) => {},
                None => {},
            }
            if r.execution_time_ms > time_limit_ms {
                over_time = true;
            }
            if r.memory_used_mb > memory_limit_mb {
                over_memory = true;
            }
            if !r.passed || kind.is_some() {
                all_passed = false;
            }
            i = i + 1;
        }
        if compilation {
            Verdict::CompilationError
        } else if runtime {
            Verdict::RuntimeError
        } else if over_time {
            Verdict::TimeLimitExceeded
        } else if over_memory {
            Verdict::MemoryLimitExceeded
        } else if all_passed {
            Verdict::Accepted
        } else {
            Verdict::WrongAnswer
        }
    }

    /// Judges a submission from the scored results of all its test cases.
    pub fn judge_submission(
        &self,
        test_results: Vec<TestCaseResult>,
        time_limit_ms: u64,
        memory_limit_mb: u64,
    ) -> (r: JudgeResult)
        ensures
            r@ == judged(result_views(test_results@), time_limit_ms, memory_limit_mb),
            r.test_results@ == test_results@,
    {
        let verdict = self.determine_verdict(
            test_results.as_slice(),
            time_limit_ms,
            memory_limit_mb,
        );
        let ghost views = result_views(test_results@);
        let n = test_results.len();
        let mut total_time_ms: u64 = 0;
        let mut max_memory: u64 = 0;
        let mut i: usize = 0;
        while i < n
            invariant
                n == test_results@.len(),
                views == result_views(test_results@),
                i <= n,
                total_time_ms == saturated(total_time(views.take(i as int))),
                max_memory == peak_memory(views.take(i as int)),
            decreases n - i,
        {
            let r = &test_results[i];
            proof {
                let next = views.take(i + 1);
                assert(next.drop_last() =~= views.take(i as int));
                assert(next.last() == r@);
            }
            total_time_ms = total_time_ms.saturating_add(r.execution_time_ms);
            if r.memory_used_mb > max_memory {
                max_memory = r.memory_used_mb;
            }
            i = i + 1;
        }
        proof {
            assert(views.take(n as int) =~= views);
            lemma_peak_memory_is_max(views);
        }
        JudgeResult {
            verdict,
            execution_time_ms: total_time_ms,
            memory_used_mb: max_memory,
            test_results,
        }
    }
}

} // verus!
