//! The evaluation of a submission: every test case is run and scored, then
//! the scored set is reduced to one judgment.

use crate::error::{ConfigurationError, SandboxError};
use crate::judge::{Judge, JudgeResult, compile_failure, judged, not_run, scored};
use crate::model::{
    CaseView, ExecutionResult, ExecutionView, FailurePolicy, Limits, TestCase, TestCaseResult,
    TestCaseView, case_views, result_views,
};
use crate::submission::{Phase, Step, Submission, all_recorded, completed};
use crate::wasm::{lowercase, to_lowercase};
use crate::wasm_runner::WasmRunner;
use vstd::pervasive::unreached;
use vstd::prelude::*;

verus! {

/// The views of a sequence of run reports, in order.
pub open spec fn run_views(runs: Seq<ExecutionResult>) -> Seq<ExecutionView> {
    Seq::new(runs.len(), |i: int| runs[i]@)
}

/// `r` is a scored result of `case`: the scoring of some run of the program
/// on that case, or the record that the source did not compile.
pub open spec fn is_result_for(case: TestCaseView, r: CaseView) -> bool {
    ||| exists|run: ExecutionView| r == #[trigger] scored(case, run)
    ||| exists|diagnostics: Seq<char>| r == #[trigger] compile_failure(case, diagnostics)
}

/// Whether a result before position `i` did not pass.
pub open spec fn failed_before(results: Seq<CaseView>, i: int) -> bool {
    exists|j: int| 0 <= j < i && j < results.len() && !(#[trigger] results[j]).passed
}

/// Whether `results` are results of `cases` as the policy asks: each is a
/// result of the case at its position, except that under
/// `StopOnFirstFailure` the cases after the first one that did not pass are
/// recorded as not run.
pub open spec fn follows_policy(
    policy: FailurePolicy,
    cases: Seq<TestCaseView>,
    results: Seq<CaseView>,
) -> bool {
    forall|i: int|
        0 <= i < cases.len() ==> if policy == FailurePolicy::StopOnFirstFailure && failed_before(
            results,
            i,
        ) {
            #[trigger] results[i] == not_run(cases[i])
        } else {
            is_result_for(cases[i], results[i])
        }
}

/// Each case scored from the run at the same position.
pub open spec fn scored_all(cases: Seq<TestCaseView>, runs: Seq<ExecutionView>) -> Seq<CaseView>
    recommends
        cases.len() == runs.len(),
{
    Seq::new(cases.len(), |i: int| scored(cases[i], runs[i]))
}

/// What an evaluation may return when the tests are `cases` and programs
/// are looked up under `key`.
///
/// If no runtime is loaded under the key, the evaluation fails with the
/// configuration error that says so. Otherwise it never fails with a
/// configuration error, and with no test cases it succeeds with the
/// judgment of no results. A source that does not compile is no error of the
/// evaluation: it is recorded in the results. A judgment holds one result
/// per test case, in the order of the cases, each a result of its own case
/// as the policy asks and none with a memory figure above the ceiling, and
/// is the judgment of exactly these results under the limits.
pub open spec fn evaluation_allowed(
    runner: &WasmRunner,
    key: Seq<char>,
    language: Seq<char>,
    cases: Seq<TestCaseView>,
    limits: Limits,
    policy: FailurePolicy,
    r: Result<JudgeResult, SandboxError>,
) -> bool {
    &&& !runner.registered(key) ==> (r matches Err(
        SandboxError::Configuration(ConfigurationError::UnknownLanguage(l)),
    ) && l@ == language)
    &&& runner.registered(key) && !runner.has_runtime(key) ==> (r matches Err(
        SandboxError::Configuration(ConfigurationError::MissingRuntime(l)),
    ) && l@ == language)
    &&& runner.has_runtime(key) ==> !(r matches Err(SandboxError::Configuration(_)))
    &&& runner.has_runtime(key) && cases.len() == 0 ==> (r matches Ok(judgment) && judgment@
        == judged(Seq::empty(), limits.wall_clock_ms, limits.memory_mb))
    &&& !(r matches Err(SandboxError::Compilation(_)))
    &&& r matches Ok(judgment) ==> {
        &&& judgment@.test_results.len() == cases.len()
        &&& follows_policy(policy, cases, judgment@.test_results)
        &&& forall|i: int|
            0 <= i < cases.len() ==> (#[trigger] judgment@.test_results[i]).memory_used_mb
                <= limits.memory_mb
        &&& judgment@ == judged(judgment@.test_results, limits.wall_clock_ms, limits.memory_mb)
    }
}

/// A copy of the test cases.
fn copy_cases(cases: &Vec<TestCase>) -> (out: Vec<TestCase>)
    ensures
        case_views(out@) == case_views(cases@),
{
    let mut out: Vec<TestCase> = Vec::new();
    let mut i: usize = 0;
    while i < cases.len()
        invariant
            i <= cases@.len(),
            out@.len() == i,
            forall|j: int| 0 <= j < i ==> (#[trigger] out@[j])@ == cases@[j]@,
        decreases cases@.len() - i,
    {
        let case = &cases[i];
        out.push(
            TestCase { input: case.input.clone(), expected_output: case.expected_output.clone() },
        );
        i = i + 1;
    }
    assert(case_views(out@) =~= case_views(cases@));
    out
}

/// The result that an outcome settles a case with: the scoring of a report,
/// or the record of a source that did not compile. A host or configuration
/// error settles nothing.
spec fn settled_result(case: TestCaseView, outcome: Result<ExecutionResult, SandboxError>)
    -> Option<CaseView> {
    match outcome {
        Ok(report) => Some(scored(case, report@)),
        Err(SandboxError::Compilation(diagnostics)) => Some(compile_failure(case, diagnostics@)),
        Err(_) => None,
    }
}

/// Whether a slot holds a result that an evaluation keeps for `case`: a
/// result of that case, with a memory figure within the ceiling, and one
/// that passed where the evaluation stops at the first failure.
spec fn is_kept(slot: Option<CaseView>, case: TestCaseView, limits: Limits, policy: FailurePolicy)
    -> bool {
    slot matches Some(r) && (is_result_for(case, r) && r.memory_used_mb <= limits.memory_mb && (
    policy == FailurePolicy::StopOnFirstFailure ==> r.passed))
}

/// Whether exactly the first `i` cases are settled, each with a result that
/// the evaluation keeps.
spec fn settled_up_to(
    recorded: Seq<Option<CaseView>>,
    cases: Seq<TestCaseView>,
    limits: Limits,
    policy: FailurePolicy,
    i: int,
) -> bool {
    &&& recorded.len() == cases.len()
    &&& forall|j: int| 0 <= j < i ==> is_kept(#[trigger] recorded[j], cases[j], limits, policy)
    &&& forall|j: int| i <= j < recorded.len() ==> (#[trigger] recorded[j]) is None
}

/// Where recording `r` for the case `i` closes the submission, the results
/// it is judged on are results of the cases as the policy asks.
proof fn lemma_closing_follows_policy(
    recorded: Seq<Option<CaseView>>,
    cases: Seq<TestCaseView>,
    limits: Limits,
    policy: FailurePolicy,
    i: int,
    r: CaseView,
)
    requires
        settled_up_to(recorded, cases, limits, policy, i),
        0 <= i < cases.len(),
        is_result_for(cases[i], r),
        r.memory_used_mb <= limits.memory_mb,
        all_recorded(recorded.update(i, Some(r))) || (policy == FailurePolicy::StopOnFirstFailure
            && !r.passed),
    ensures
        completed(recorded.update(i, Some(r)), cases, false).len() == cases.len(),
        follows_policy(policy, cases, completed(recorded.update(i, Some(r)), cases, false)),
        forall|k: int|
            0 <= k < cases.len() ==> (#[trigger] completed(
                recorded.update(i, Some(r)),
                cases,
                false,
            )[k]).memory_used_mb <= limits.memory_mb,
{
    let now = recorded.update(i, Some(r));
    let results = completed(now, cases, false);
    assert forall|k: int| 0 <= k < cases.len() implies (if k < i {
        is_kept(recorded[k], cases[k], limits, policy) && #[trigger] results[k]
            == recorded[k]->Some_0
    } else if k == i {
        results[k] == r
    } else {
        now[k] is None && results[k] == not_run(cases[k])
    }) by {
        if k > i {
            assert(recorded[k] is None);
            if all_recorded(now) {
                assert(now[k] is Some);
            }
        }
    }
    assert forall|k: int| 0 <= k < cases.len() implies if policy
        == FailurePolicy::StopOnFirstFailure && failed_before(results, k) {
        #[trigger] results[k] == not_run(cases[k])
    } else {
        is_result_for(cases[k], results[k])
    } by {
        if policy == FailurePolicy::StopOnFirstFailure && failed_before(results, k) {
            let w = choose|j: int| 0 <= j < k && j < results.len() && !(#[trigger] results[j]).passed;
            if w < i {
                assert(is_kept(recorded[w], cases[w], limits, policy));
            }
        } else if k > i {
            assert(now[k] is None);
            assert(!results[i].passed);
            assert(failed_before(results, k));
        }
    }
}

/// Where recording `r` for the case `i` leaves the submission running, one
/// more case is settled and at least one is still open.
proof fn lemma_going_on_settles_one_more(
    recorded: Seq<Option<CaseView>>,
    cases: Seq<TestCaseView>,
    limits: Limits,
    policy: FailurePolicy,
    i: int,
    r: CaseView,
)
    requires
        settled_up_to(recorded, cases, limits, policy, i),
        0 <= i < cases.len(),
        is_result_for(cases[i], r),
        r.memory_used_mb <= limits.memory_mb,
        !(all_recorded(recorded.update(i, Some(r))) || (policy
            == FailurePolicy::StopOnFirstFailure && !r.passed)),
    ensures
        settled_up_to(recorded.update(i, Some(r)), cases, limits, policy, i + 1),
        i + 1 < cases.len(),
{
    let now = recorded.update(i, Some(r));
    let open = choose|k: int| 0 <= k < now.len() && !((#[trigger] now[k]) is Some);
    if open < i {
        assert(is_kept(recorded[open], cases[open], limits, policy));
    }
    assert forall|j: int| 0 <= j < i + 1 implies is_kept(
        #[trigger] now[j],
        cases[j],
        limits,
        policy,
    ) by {
        if j < i {
            assert(is_kept(recorded[j], cases[j], limits, policy));
        }
    }
    assert forall|j: int| i + 1 <= j < now.len() implies (#[trigger] now[j]) is None by {
        assert(recorded[j] is None);
    }
}

impl Judge {
    /// Judges `code`, a program in `language`, against `test_cases` under
    /// `limits`. Every test case is run in a sandbox of its own and scored;
    /// no case is skipped because another failed. Language ids are matched
    /// without regard to case. See [`evaluation_allowed`] for what comes
    /// back.
    ///
    /// The cases are run one after another on the calling thread. Fuel
    /// bounds each run; the wall-clock budget stops a run only where the
    /// embedder calls [`WasmRunner::tick`] from another thread while the
    /// evaluation is under way. Without ticks a run that took longer than
    /// its budget is found out, and recorded as such, once it has ended.
    pub fn evaluate(
        &self,
        runner: &WasmRunner,
        code: &str,
        language: &str,
        test_cases: &Vec<TestCase>,
        limits: &Limits,
    ) -> (r: Result<JudgeResult, SandboxError>)
        ensures
            evaluation_allowed(
                runner,
                lowercase(language@),
                language@,
                case_views(test_cases@),
                *limits,
                FailurePolicy::RunAll,
                r,
            ),
    {
        let key = to_lowercase(language);
        self.evaluate_registered(
            runner,
            code,
            key.as_str(),
            language,
            test_cases,
            limits,
            FailurePolicy::RunAll,
        )
    }

    /// Like [`Judge::evaluate`], under the given policy. Under
    /// `StopOnFirstFailure` the cases after the first one that does not pass
    /// are not run and are recorded as such.
    pub fn evaluate_with_policy(
        &self,
        runner: &WasmRunner,
        code: &str,
        language: &str,
        test_cases: &Vec<TestCase>,
        limits: &Limits,
        policy: FailurePolicy,
    ) -> (r: Result<JudgeResult, SandboxError>)
        ensures
            evaluation_allowed(
                runner,
                lowercase(language@),
                language@,
                case_views(test_cases@),
                *limits,
                policy,
                r,
            ),
    {
        let key = to_lowercase(language);
        self.evaluate_registered(runner, code, key.as_str(), language, test_cases, limits, policy)
    }

    /// Judges `code` with the adapter registered under `key`; `language` is
    /// the id as the caller wrote it, used in error texts.
    pub fn evaluate_registered(
        &self,
        runner: &WasmRunner,
        code: &str,
        key: &str,
        language: &str,
        test_cases: &Vec<TestCase>,
        limits: &Limits,
        policy: FailurePolicy,
    ) -> (r: Result<JudgeResult, SandboxError>)
        ensures
            evaluation_allowed(
                runner,
                key@,
                language@,
                case_views(test_cases@),
                *limits,
                policy,
                r,
            ),
    {
        match runner.check_runnable(key, language) {
            Ok(()) => {},
            Err(e) => {
                return Err(SandboxError::Configuration(e));
            },
        }
        let ghost cases = case_views(test_cases@);
        let n = test_cases.len();
        let mut submission = Submission::new(copy_cases(test_cases), *limits, policy);
        match submission.start() {
            Step::Await => {},
            Step::Judged(judgment) => {
                return Ok(judgment);
            },
            _ => {
                return unreached();
            },
        }
        let mut i: usize = 0;
        loop
            invariant
                n == test_cases@.len(),
                cases == case_views(test_cases@),
                runner.has_runtime(key@),
                i < n,
                submission.phase() == Phase::Running,
                submission.cases() == cases,
                submission.limits() == *limits,
                submission.policy() == policy,
                submission.retried().len() == n,
                settled_up_to(submission.recorded(), cases, *limits, policy, i as int),
            decreases
                    n - i,
                    (if submission.retried()[i as int] {
                        0int
                    } else {
                        1int
                    }),
        {
            let outcome = runner.run_registered(
                code,
                key,
                language,
                test_cases[i].input.as_str(),
                limits,
            );
            let ghost recorded = submission.recorded();
            let ghost settled = settled_result(cases[i as int], outcome);
            proof {
                assert(recorded[i as int] is None);
                if settled is Some {
                    let scored_now = settled->Some_0;
                    assert(is_result_for(cases[i as int], scored_now));
                    if all_recorded(recorded.update(i as int, Some(scored_now))) || (policy
                        == FailurePolicy::StopOnFirstFailure && !scored_now.passed) {
                        lemma_closing_follows_policy(
                            recorded,
                            cases,
                            *limits,
                            policy,
                            i as int,
                            scored_now,
                        );
                    } else {
                        lemma_going_on_settles_one_more(
                            recorded,
                            cases,
                            *limits,
                            policy,
                            i as int,
                            scored_now,
                        );
                    }
                }
            }
            match submission.record(i, outcome) {
                Step::Await => {
                    i = i + 1;
                },
                Step::Retry { index: _, delay_ms: _ } => {},
                Step::Judged(judgment) => {
                    return Ok(judgment);
                },
                Step::Failed(e) => {
                    return Err(e);
                },
                Step::Ignored => {
                    return unreached();
                },
            }
        }
    }

    /// Judges a submission from the reports of its runs, one per test case
    /// and in the order of the cases. Returns `None` when the number of
    /// reports differs from the number of cases.
    pub fn judge_executions(
        &self,
        test_cases: &Vec<TestCase>,
        runs: Vec<ExecutionResult>,
        limits: &Limits,
    ) -> (r: Option<JudgeResult>)
        ensures
            r is Some <==> runs@.len() == test_cases@.len(),
            r matches Some(judgment) ==> judgment@ == judged(
                scored_all(case_views(test_cases@), run_views(runs@)),
                limits.wall_clock_ms,
                limits.memory_mb,
            ),
    {
        let n = test_cases.len();
        if runs.len() != n {
            return None;
        }
        let ghost cases = case_views(test_cases@);
        let ghost reports = run_views(runs@);
        let ghost given = runs@;
        let mut results: Vec<TestCaseResult> = Vec::new();
        let mut i: usize = 0;
        for report in it: runs
            invariant
                n == test_cases@.len(),
                cases == case_views(test_cases@),
                reports == run_views(given),
                it.seq() == given,
                given.len() == n,
                i == it.index(),
                results@.len() == i,
                forall|j: int|
                    0 <= j < i ==> (#[trigger] results@[j])@ == scored(cases[j], reports[j]),
        {
            let result = self.score_execution(&test_cases[i], report);
            results.push(result);
            i = i + 1;
        }
        assert(result_views(results@) =~= scored_all(cases, reports));
        Some(self.judge_submission(results, limits.wall_clock_ms, limits.memory_mb))
    }
}

} // verus!
