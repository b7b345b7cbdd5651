//! Laws of the comparator, of scoring and of the verdict engine.

use crate::error::SandboxError;
use crate::evaluation::{evaluation_allowed, follows_policy, is_result_for, scored_all};
use crate::judge::{JudgeResult, judged, not_run, outputs_match, scored};
use crate::model::{
    CaseView, ExecutionView, FailurePolicy, FaultKind, Limits, TerminationReason, TestCaseView,
};
use crate::outcome::{
    Observation, RunEnd, TrapKind, concluded, signals_compile_failure, termination_of,
};
use crate::submission::{Phase, Submission, completed};
use crate::text::{is_whitespace, trim_end, trim_start, trimmed};
use crate::verdict::{
    Verdict, carries_compilation_failure, carries_runtime_fault, exceeds_memory, exceeds_time,
    passed_cleanly, verdict_of,
};
use crate::wasm_runner::WasmRunner;
use vstd::prelude::*;

verus! {

/// A judgment holds exactly one result per test case, and the result at each
/// position belongs to the test case at that position.
pub proof fn lemma_one_result_per_case_in_order(
    runner: &WasmRunner,
    key: Seq<char>,
    language: Seq<char>,
    cases: Seq<TestCaseView>,
    limits: Limits,
    policy: FailurePolicy,
    r: Result<JudgeResult, SandboxError>,
)
    requires
        evaluation_allowed(runner, key, language, cases, limits, policy, r),
        r is Ok,
    ensures
        r->Ok_0@.test_results.len() == cases.len(),
        forall|i: int|
            0 <= i < cases.len() ==> (#[trigger] r->Ok_0@.test_results[i]).expected_output
                == cases[i].expected_output,
{
    let results = r->Ok_0@.test_results;
    assert(follows_policy(policy, cases, results));
    assert forall|i: int| 0 <= i < cases.len() implies (#[trigger] results[i]).expected_output
        == cases[i].expected_output by {
        assert(results[i] == not_run(cases[i]) || is_result_for(cases[i], results[i]));
    }
}

/// When every case is run, each result is the scoring of a run of its own
/// case or the record that the source did not compile: none is made up, and
/// none is left out because another case failed.
pub proof fn lemma_run_all_scores_every_case(
    runner: &WasmRunner,
    key: Seq<char>,
    language: Seq<char>,
    cases: Seq<TestCaseView>,
    limits: Limits,
    r: Result<JudgeResult, SandboxError>,
)
    requires
        evaluation_allowed(runner, key, language, cases, limits, FailurePolicy::RunAll, r),
        r is Ok,
    ensures
        forall|i: int|
            0 <= i < cases.len() ==> is_result_for(cases[i], #[trigger] r->Ok_0@.test_results[i]),
{
    let results = r->Ok_0@.test_results;
    assert(follows_policy(FailurePolicy::RunAll, cases, results));
}

/// Scoring reports against cases keeps their number and their order.
pub proof fn lemma_scoring_keeps_order(cases: Seq<TestCaseView>, runs: Seq<ExecutionView>)
    requires
        cases.len() == runs.len(),
    ensures
        scored_all(cases, runs).len() == cases.len(),
        forall|i: int|
            0 <= i < cases.len() ==> (#[trigger] scored_all(cases, runs)[i]) == scored(
                cases[i],
                runs[i],
            ),
        judged(scored_all(cases, runs), 0, 0).test_results.len() == cases.len(),
{
}

/// A compilation failure anywhere decides the verdict, whatever else the
/// results hold.
pub proof fn lemma_compilation_failure_decides(
    results: Seq<CaseView>,
    time_limit_ms: u64,
    memory_limit_mb: u64,
    at: int,
)
    requires
        0 <= at < results.len(),
        carries_compilation_failure(results[at]),
    ensures
        verdict_of(results, time_limit_ms, memory_limit_mb) == Verdict::CompilationError,
{
}

/// With no compilation failure among the results, a runtime fault anywhere
/// yields `RuntimeError`: never `WrongAnswer`, however many cases printed
/// the wrong output, and never a limit verdict.
pub proof fn lemma_runtime_fault_outranks_the_rest(
    results: Seq<CaseView>,
    time_limit_ms: u64,
    memory_limit_mb: u64,
    at: int,
)
    requires
        0 <= at < results.len(),
        carries_runtime_fault(results[at]),
        forall|i: int| 0 <= i < results.len() ==> !carries_compilation_failure(#[trigger] results[i]),
    ensures
        verdict_of(results, time_limit_ms, memory_limit_mb) == Verdict::RuntimeError,
{
}

/// With no compilation failure and no runtime fault, a case over time yields
/// `TimeLimitExceeded`.
pub proof fn lemma_time_outranks_memory_and_answers(
    results: Seq<CaseView>,
    time_limit_ms: u64,
    memory_limit_mb: u64,
    at: int,
)
    requires
        0 <= at < results.len(),
        exceeds_time(results[at], time_limit_ms),
        forall|i: int| 0 <= i < results.len() ==> !carries_compilation_failure(#[trigger] results[i]),
        forall|i: int| 0 <= i < results.len() ==> !carries_runtime_fault(#[trigger] results[i]),
    ensures
        verdict_of(results, time_limit_ms, memory_limit_mb) == Verdict::TimeLimitExceeded,
{
}

/// With no failure of a higher rank, a case over memory yields
/// `MemoryLimitExceeded`.
pub proof fn lemma_memory_outranks_answers(
    results: Seq<CaseView>,
    time_limit_ms: u64,
    memory_limit_mb: u64,
    at: int,
)
    requires
        0 <= at < results.len(),
        exceeds_memory(results[at], memory_limit_mb),
        forall|i: int| 0 <= i < results.len() ==> !carries_compilation_failure(#[trigger] results[i]),
        forall|i: int| 0 <= i < results.len() ==> !carries_runtime_fault(#[trigger] results[i]),
        forall|i: int| 0 <= i < results.len() ==> !exceeds_time(#[trigger] results[i], time_limit_ms),
    ensures
        verdict_of(results, time_limit_ms, memory_limit_mb) == Verdict::MemoryLimitExceeded,
{
}

/// The verdict is `Accepted` exactly when every case passed, with no
/// failure on record, and none is over a limit.
pub proof fn lemma_accepted_means_all_clean(
    results: Seq<CaseView>,
    time_limit_ms: u64,
    memory_limit_mb: u64,
)
    ensures
        verdict_of(results, time_limit_ms, memory_limit_mb) == Verdict::Accepted <==> forall|
            i: int,
        |
            0 <= i < results.len() ==> {
                &&& (#[trigger] results[i]).passed
                &&& results[i].error is None
                &&& results[i].execution_time_ms <= time_limit_ms
                &&& results[i].memory_used_mb <= memory_limit_mb
            },
{
}

/// How high a result stands in the order of the rules: a compilation
/// failure stands highest, then a runtime fault, then a case over time, then
/// a case over memory, then a case that did not pass; a clean result stands
/// lowest.
pub open spec fn standing(r: CaseView, time_limit_ms: u64, memory_limit_mb: u64) -> int {
    if carries_compilation_failure(r) {
        5
    } else if carries_runtime_fault(r) {
        4
    } else if exceeds_time(r, time_limit_ms) {
        3
    } else if exceeds_memory(r, memory_limit_mb) {
        2
    } else if !passed_cleanly(r) {
        1
    } else {
        0
    }
}

/// The standing that a verdict speaks of.
pub open spec fn weight(v: Verdict) -> int {
    match v {
        Verdict::CompilationError => 5,
        Verdict::RuntimeError => 4,
        Verdict::TimeLimitExceeded => 3,
        Verdict::MemoryLimitExceeded => 2,
        Verdict::WrongAnswer => 1,
        Verdict::Accepted => 0,
    }
}

/// Whether `among` holds a result that stands at least as high as `r`.
#[verifier::opaque]
pub open spec fn matched(
    r: CaseView,
    among: Seq<CaseView>,
    time_limit_ms: u64,
    memory_limit_mb: u64,
) -> bool {
    exists|j: int|
        0 <= j < among.len() && standing(#[trigger] among[j], time_limit_ms, memory_limit_mb)
            >= standing(r, time_limit_ms, memory_limit_mb)
}

/// The verdict speaks of the result that stands highest: no result stands
/// higher than the verdict says, and unless there are no results one stands
/// exactly there.
pub proof fn lemma_verdict_is_the_highest_standing(
    results: Seq<CaseView>,
    time_limit_ms: u64,
    memory_limit_mb: u64,
)
    ensures
        forall|i: int|
            0 <= i < results.len() ==> standing(
                #[trigger] results[i],
                time_limit_ms,
                memory_limit_mb,
            ) <= weight(verdict_of(results, time_limit_ms, memory_limit_mb)),
        results.len() > 0 ==> exists|i: int|
            0 <= i < results.len() && standing(
                #[trigger] results[i],
                time_limit_ms,
                memory_limit_mb,
            ) == weight(verdict_of(results, time_limit_ms, memory_limit_mb)),
        results.len() == 0 ==> verdict_of(results, time_limit_ms, memory_limit_mb)
            == Verdict::Accepted,
{
    if results.len() > 0 {
        let at = match verdict_of(results, time_limit_ms, memory_limit_mb) {
            Verdict::CompilationError => choose|i: int|
                0 <= i < results.len() && carries_compilation_failure(#[trigger] results[i]),
            Verdict::RuntimeError => choose|i: int|
                0 <= i < results.len() && carries_runtime_fault(#[trigger] results[i]),
            Verdict::TimeLimitExceeded => choose|i: int|
                0 <= i < results.len() && exceeds_time(#[trigger] results[i], time_limit_ms),
            Verdict::MemoryLimitExceeded => choose|i: int|
                0 <= i < results.len() && exceeds_memory(#[trigger] results[i], memory_limit_mb),
            Verdict::WrongAnswer => choose|i: int|
                0 <= i < results.len() && !passed_cleanly(#[trigger] results[i]),
            Verdict::Accepted => 0,
        };
        assert(standing(results[at], time_limit_ms, memory_limit_mb) == weight(
            verdict_of(results, time_limit_ms, memory_limit_mb),
        ));
    }
}

/// Two result sets in which every result of the one is matched in the other
/// by a result that stands at least as high have the same verdict.
pub proof fn lemma_matched_results_share_the_verdict(
    a: Seq<CaseView>,
    b: Seq<CaseView>,
    time_limit_ms: u64,
    memory_limit_mb: u64,
)
    requires
        forall|i: int|
            0 <= i < a.len() ==> matched(#[trigger] a[i], b, time_limit_ms, memory_limit_mb),
        forall|i: int|
            0 <= i < b.len() ==> matched(#[trigger] b[i], a, time_limit_ms, memory_limit_mb),
    ensures
        verdict_of(a, time_limit_ms, memory_limit_mb) == verdict_of(
            b,
            time_limit_ms,
            memory_limit_mb,
        ),
{
    reveal(matched);
    lemma_verdict_is_the_highest_standing(a, time_limit_ms, memory_limit_mb);
    lemma_verdict_is_the_highest_standing(b, time_limit_ms, memory_limit_mb);
    let va = verdict_of(a, time_limit_ms, memory_limit_mb);
    let vb = verdict_of(b, time_limit_ms, memory_limit_mb);
    if a.len() > 0 {
        let top = choose|i: int|
            0 <= i < a.len() && standing(#[trigger] a[i], time_limit_ms, memory_limit_mb)
                == weight(va);
        assert(matched(a[top], b, time_limit_ms, memory_limit_mb));
    }
    if b.len() > 0 {
        let top = choose|i: int|
            0 <= i < b.len() && standing(#[trigger] b[i], time_limit_ms, memory_limit_mb)
                == weight(vb);
        assert(matched(b[top], a, time_limit_ms, memory_limit_mb));
    }
    assert(weight(va) == weight(vb));
}

/// The verdict does not depend on the order of the results: swapping two of
/// them leaves it as it was.
pub proof fn lemma_verdict_ignores_order(
    results: Seq<CaseView>,
    time_limit_ms: u64,
    memory_limit_mb: u64,
    a: int,
    b: int,
)
    requires
        0 <= a < results.len(),
        0 <= b < results.len(),
    ensures
        verdict_of(results.update(a, results[b]).update(b, results[a]), time_limit_ms, memory_limit_mb)
            == verdict_of(results, time_limit_ms, memory_limit_mb),
{
    let swapped = results.update(a, results[b]).update(b, results[a]);
    let to = |i: int|
        if i == a {
            b
        } else if i == b {
            a
        } else {
            i
        };
    assert forall|i: int| 0 <= i < results.len() implies #[trigger] swapped[i] == results[to(i)]
        && results[i] == swapped[to(i)] by {}
    assert forall|i: int| 0 <= i < results.len() implies matched(
        #[trigger] results[i],
        swapped,
        time_limit_ms,
        memory_limit_mb,
    ) by {
        reveal(matched);
        assert(swapped[to(i)] == results[i]);
    }
    assert forall|i: int| 0 <= i < swapped.len() implies matched(
        #[trigger] swapped[i],
        results,
        time_limit_ms,
        memory_limit_mb,
    ) by {
        reveal(matched);
        assert(results[to(i)] == swapped[i]);
    }
    lemma_matched_results_share_the_verdict(results, swapped, time_limit_ms, memory_limit_mb);
}

/// In the judgment of an evaluation, `MemoryLimitExceeded` always goes back
/// to a denied allocation: the sandbox grants no memory above the ceiling,
/// so no run reports more than its limit.
pub proof fn lemma_memory_verdict_goes_back_to_a_denial(
    runner: &WasmRunner,
    key: Seq<char>,
    language: Seq<char>,
    cases: Seq<TestCaseView>,
    limits: Limits,
    policy: FailurePolicy,
    r: Result<JudgeResult, SandboxError>,
)
    requires
        evaluation_allowed(runner, key, language, cases, limits, policy, r),
        r matches Ok(judgment) && judgment.verdict == Verdict::MemoryLimitExceeded,
    ensures
        exists|i: int|
            0 <= i < cases.len() && ((#[trigger] r->Ok_0@.test_results[i]).error matches Some(e)
                && e.kind == FaultKind::MemoryDenied),
{
    let results = r->Ok_0@.test_results;
    let w = choose|i: int|
        0 <= i < results.len() && exceeds_memory(#[trigger] results[i], limits.memory_mb);
    assert(results[w].memory_used_mb <= limits.memory_mb);
}

/// A result recorded as not run stands where a result stands that did not
/// pass and carries nothing else.
pub proof fn lemma_not_run_stands_with_the_failed(
    case: TestCaseView,
    time_limit_ms: u64,
    memory_limit_mb: u64,
)
    ensures
        standing(not_run(case), time_limit_ms, memory_limit_mb) == 1,
{
}

/// Stopping at the first failure leaves the verdict as it is: when the
/// result at `stop` did not pass and every later one is recorded as not run,
/// the verdict is that of the results up to and including `stop`.
pub proof fn lemma_cases_not_run_leave_the_verdict(
    cases: Seq<TestCaseView>,
    results: Seq<CaseView>,
    stop: int,
    time_limit_ms: u64,
    memory_limit_mb: u64,
)
    requires
        cases.len() == results.len(),
        0 <= stop < results.len(),
        !results[stop].passed,
        forall|i: int| stop < i < results.len() ==> #[trigger] results[i] == not_run(cases[i]),
    ensures
        verdict_of(results, time_limit_ms, memory_limit_mb) == verdict_of(
            results.take(stop + 1),
            time_limit_ms,
            memory_limit_mb,
        ),
{
    let head = results.take(stop + 1);
    lemma_rest_not_run_is_matched(cases, results, head, stop, time_limit_ms, memory_limit_mb);
    lemma_matched_results_share_the_verdict(results, head, time_limit_ms, memory_limit_mb);
}

/// With a result that did not pass at `stop` and every later one recorded as
/// not run, the results and those up to `stop` match each other.
proof fn lemma_rest_not_run_is_matched(
    cases: Seq<TestCaseView>,
    results: Seq<CaseView>,
    head: Seq<CaseView>,
    stop: int,
    time_limit_ms: u64,
    memory_limit_mb: u64,
)
    requires
        cases.len() == results.len(),
        0 <= stop < results.len(),
        !results[stop].passed,
        forall|i: int| stop < i < results.len() ==> #[trigger] results[i] == not_run(cases[i]),
        head.len() == stop + 1,
        forall|i: int| 0 <= i <= stop ==> #[trigger] head[i] == results[i],
    ensures
        forall|i: int|
            0 <= i < results.len() ==> matched(
                #[trigger] results[i],
                head,
                time_limit_ms,
                memory_limit_mb,
            ),
        forall|i: int|
            0 <= i < head.len() ==> matched(
                #[trigger] head[i],
                results,
                time_limit_ms,
                memory_limit_mb,
            ),
{
    reveal(matched);
    assert(head[stop] == results[stop]);
    assert(standing(head[stop], time_limit_ms, memory_limit_mb) >= 1);
    assert forall|i: int| 0 <= i < results.len() implies matched(
        #[trigger] results[i],
        head,
        time_limit_ms,
        memory_limit_mb,
    ) by {
        if i <= stop {
            assert(head[i] == results[i]);
            assert(standing(head[i], time_limit_ms, memory_limit_mb) >= standing(
                results[i],
                time_limit_ms,
                memory_limit_mb,
            ));
        } else {
            lemma_not_run_stands_with_the_failed(cases[i], time_limit_ms, memory_limit_mb);
            assert(standing(head[stop], time_limit_ms, memory_limit_mb) >= standing(
                results[i],
                time_limit_ms,
                memory_limit_mb,
            ));
        }
    }
    assert forall|i: int| 0 <= i < head.len() implies matched(
        #[trigger] head[i],
        results,
        time_limit_ms,
        memory_limit_mb,
    ) by {
        assert(head[i] == results[i]);
        assert(standing(results[i], time_limit_ms, memory_limit_mb) >= standing(
            head[i],
            time_limit_ms,
            memory_limit_mb,
        ));
    }
}

/// A submission that is not running awaits nothing: whatever is reported to
/// it once it is judged, failed or cancelled is ignored, so a cancelled
/// submission never comes to a judgment.
pub proof fn lemma_closed_submission_awaits_nothing(s: &Submission, index: int)
    requires
        s.phase() != Phase::Running,
    ensures
        !s.awaits(index),
{
}

/// What a closed submission is judged on has one result per test case, and
/// what had been recorded for a case is the result of that case.
pub proof fn lemma_completion_keeps_what_was_recorded(
    recorded: Seq<Option<CaseView>>,
    cases: Seq<TestCaseView>,
    timed_out: bool,
)
    requires
        recorded.len() == cases.len(),
    ensures
        completed(recorded, cases, timed_out).len() == cases.len(),
        forall|i: int|
            0 <= i < cases.len() && recorded[i] is Some ==> #[trigger] completed(
                recorded,
                cases,
                timed_out,
            )[i] == recorded[i]->Some_0,
        forall|i: int|
            0 <= i < cases.len() && recorded[i] is None ==> (#[trigger] completed(
                recorded,
                cases,
                timed_out,
            )[i]).expected_output == cases[i].expected_output && !completed(
                recorded,
                cases,
                timed_out,
            )[i].passed,
{
}

/// A language without a loaded runtime gives a configuration error and no
/// judgment, however many test cases there are.
pub proof fn lemma_unrunnable_language_gives_no_judgment(
    runner: &WasmRunner,
    key: Seq<char>,
    language: Seq<char>,
    cases: Seq<TestCaseView>,
    limits: Limits,
    policy: FailurePolicy,
    r: Result<JudgeResult, SandboxError>,
)
    requires
        evaluation_allowed(runner, key, language, cases, limits, policy, r),
        !runner.has_runtime(key),
    ensures
        r matches Err(SandboxError::Configuration(_)),
{
}

/// A run that the engine stopped for want of fuel is reported as a run, with
/// fuel exhaustion as the reason, whatever time it took and whatever status
/// the adapter names, unless an allocation was denied before.
pub proof fn lemma_fuel_exhaustion_is_reported_as_such(
    seen: Observation,
    compile_failure_status: Option<i32>,
    limits: Limits,
)
    requires
        seen.end == RunEnd::Trapped(TrapKind::OutOfFuel),
        !seen.denied,
    ensures
        termination_of(seen.end, seen.denied, seen.elapsed_ms, limits.wall_clock_ms)
            == TerminationReason::FuelExhausted,
        !signals_compile_failure(seen.end, compile_failure_status),
        scored(
            TestCaseView { input: Seq::empty(), expected_output: seen.stdout@ },
            concluded(
                seen.stdout@,
                seen.stderr@,
                seen.elapsed_ms,
                seen.peak_bytes,
                seen.denied,
                seen.end,
                limits,
            ),
        ).error matches Some(e) && e.kind == FaultKind::FuelExhausted,
{
}

/// Whether a case passes is settled by the expected output, the program's
/// output and the reason the run ended. Two runs that agree on these give
/// the same `passed`, whatever their timing and memory figures.
pub proof fn lemma_passed_ignores_metrics(
    case: TestCaseView,
    first: ExecutionView,
    second: ExecutionView,
)
    requires
        first.stdout == second.stdout,
        first.termination == second.termination,
    ensures
        scored(case, first).passed == scored(case, second).passed,
{
}

/// The result of a case is made from its own run alone. Replacing the run of
/// another case, for one that breached its memory limit or for any other,
/// leaves the result as it was, its recorded memory included.
pub proof fn lemma_sibling_results_unaffected(
    cases: Seq<TestCaseView>,
    runs: Seq<ExecutionView>,
    changed: int,
    other_run: ExecutionView,
    sibling: int,
)
    requires
        cases.len() == runs.len(),
        0 <= changed < runs.len(),
        0 <= sibling < runs.len(),
        sibling != changed,
    ensures
        scored_all(cases, runs.update(changed, other_run))[sibling] == scored_all(
            cases,
            runs,
        )[sibling],
        scored_all(cases, runs.update(changed, other_run))[sibling].memory_used_mb
            == runs[sibling].memory_used_mb,
{
}

/// A scored result carries the memory and time of its own run unchanged.
pub proof fn lemma_scoring_keeps_metrics(case: TestCaseView, run: ExecutionView)
    ensures
        scored(case, run).memory_used_mb == run.memory_used_mb,
        scored(case, run).execution_time_ms == run.execution_time_ms,
        scored(case, run).actual_output == run.stdout,
        scored(case, run).expected_output == case.expected_output,
{
}

/// Matching is an equivalence on outputs.
pub proof fn lemma_outputs_match_is_equivalence(a: Seq<char>, b: Seq<char>, c: Seq<char>)
    ensures
        outputs_match(a, a),
        outputs_match(a, b) == outputs_match(b, a),
        outputs_match(a, b) && outputs_match(b, c) ==> outputs_match(a, c),
{
}

/// A text that neither starts nor ends with whitespace is its own normal
/// form. Two such texts therefore match only if they are the same text:
/// whitespace inside an output is significant.
pub proof fn lemma_inner_whitespace_is_significant(a: Seq<char>, b: Seq<char>)
    requires
        a.len() == 0 || (!is_whitespace(a.first()) && !is_whitespace(a.last())),
        b.len() == 0 || (!is_whitespace(b.first()) && !is_whitespace(b.last())),
    ensures
        trimmed(a) == a,
        trimmed(b) == b,
        outputs_match(a, b) <==> a == b,
{
    assert(trim_start(a) == a);
    assert(trim_end(a) == a);
    assert(trim_start(b) == b);
    assert(trim_end(b) == b);
}

/// Whitespace at the end of an output is ignored.
pub proof fn lemma_trailing_whitespace_is_ignored(s: Seq<char>, c: char)
    requires
        is_whitespace(c),
    ensures
        trimmed(s.push(c)) == trimmed(s),
        outputs_match(s.push(c), s),
{
    lemma_trim_start_push(s, c);
    let m = trim_start(s);
    if m.len() == 0 {
        assert(trim_start(s.push(c)).len() == 0);
    } else {
        let mc = m.push(c);
        assert(mc.last() == c);
        assert(mc.drop_last() =~= m);
    }
}

/// Whitespace at the start of an output is ignored.
pub proof fn lemma_leading_whitespace_is_ignored(s: Seq<char>, c: char)
    requires
        is_whitespace(c),
    ensures
        trimmed(seq![c] + s) == trimmed(s),
        outputs_match(seq![c] + s, s),
{
    let t = seq![c] + s;
    assert(t.first() == c);
    assert(t.drop_first() =~= s);
}

/// How `trim_start` treats a whitespace character put at the end: it is kept
/// after the first visible character and dropped if there is none.
proof fn lemma_trim_start_push(s: Seq<char>, c: char)
    requires
        is_whitespace(c),
    ensures
        trim_start(s).len() == 0 ==> trim_start(s.push(c)).len() == 0,
        trim_start(s).len() > 0 ==> trim_start(s.push(c)) == trim_start(s).push(c),
    decreases s.len(),
{
    let t = s.push(c);
    if s.len() == 0 {
        assert(t.first() == c);
        assert(t.drop_first() =~= s);
    } else if is_whitespace(s.first()) {
        assert(t.first() == s.first());
        assert(t.drop_first() =~= s.drop_first().push(c));
        lemma_trim_start_push(s.drop_first(), c);
    } else {
        assert(t.first() == s.first());
    }
}

/// A result of a test case repeats the expected output of that case and
/// passes only without a recorded failure and with a matching output.
pub proof fn lemma_result_belongs_to_its_case(case: TestCaseView, r: CaseView)
    requires
        is_result_for(case, r),
    ensures
        r.expected_output == case.expected_output,
        r.passed ==> r.error is None && outputs_match(case.expected_output, r.actual_output),
{
}

} // verus!
