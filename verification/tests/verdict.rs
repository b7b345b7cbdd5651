use codequest_judge::judge::Judge;
use codequest_judge::model::{CaseError, FaultKind, TestCaseResult};
use codequest_judge::verdict::Verdict;

fn case(passed: bool, time: u64, memory: u64, fault: Option<FaultKind>) -> TestCaseResult {
    TestCaseResult {
        passed,
        expected_output: "1".to_string(),
        actual_output: if passed { "1".to_string() } else { "2".to_string() },
        execution_time_ms: time,
        memory_used_mb: memory,
        error: fault.map(|kind| CaseError { kind, message: "boom".to_string() }),
    }
}

fn ok() -> TestCaseResult {
    case(true, 10, 5, None)
}

fn wrong() -> TestCaseResult {
    case(false, 10, 5, None)
}

#[test]
fn verdict_names() {
    assert_eq!(Verdict::Accepted.to_string(), "Accepted");
    assert_eq!(Verdict::WrongAnswer.to_string(), "Wrong Answer");
    assert_eq!(Verdict::TimeLimitExceeded.to_string(), "Time Limit Exceeded");
    assert_eq!(Verdict::MemoryLimitExceeded.to_string(), "Memory Limit Exceeded");
    assert_eq!(Verdict::RuntimeError.to_string(), "Runtime Error");
    assert_eq!(Verdict::CompilationError.to_string(), "Compilation Error");
}

#[test]
fn all_passed_is_accepted() {
    let judge = Judge::new();
    assert_eq!(judge.determine_verdict(&[ok(), ok(), ok()], 1000, 64), Verdict::Accepted);
}

#[test]
fn no_results_is_accepted() {
    let judge = Judge::new();
    assert_eq!(judge.determine_verdict(&[], 1000, 64), Verdict::Accepted);
}

#[test]
fn a_failed_case_is_wrong_answer() {
    let judge = Judge::new();
    assert_eq!(judge.determine_verdict(&[ok(), wrong(), ok()], 1000, 64), Verdict::WrongAnswer);
    assert_eq!(judge.determine_verdict(&[wrong()], 1000, 64), Verdict::WrongAnswer);
}

#[test]
fn runtime_fault_outranks_wrong_answer() {
    let judge = Judge::new();
    let fault = || case(false, 10, 5, Some(FaultKind::Runtime));
    assert_eq!(judge.determine_verdict(&[fault(), wrong()], 1000, 64), Verdict::RuntimeError);
    assert_eq!(judge.determine_verdict(&[wrong(), fault()], 1000, 64), Verdict::RuntimeError);
    assert_eq!(judge.determine_verdict(&[ok(), wrong(), fault(), ok()], 1000, 64), Verdict::RuntimeError);
}

#[test]
fn compilation_failure_outranks_everything() {
    let judge = Judge::new();
    let results = [
        case(false, 5000, 500, Some(FaultKind::Runtime)),
        wrong(),
        case(false, 0, 0, Some(FaultKind::Compilation)),
        case(false, 5000, 5, Some(FaultKind::FuelExhausted)),
    ];
    assert_eq!(judge.determine_verdict(&results, 1000, 64), Verdict::CompilationError);
}

#[test]
fn runtime_fault_outranks_limits() {
    let judge = Judge::new();
    let results = [
        case(false, 5000, 500, None),
        case(false, 10, 5, Some(FaultKind::MemoryDenied)),
        case(false, 10, 5, Some(FaultKind::FuelExhausted)),
        case(false, 10, 5, Some(FaultKind::Runtime)),
    ];
    assert_eq!(judge.determine_verdict(&results, 1000, 64), Verdict::RuntimeError);
}

#[test]
fn time_outranks_memory() {
    let judge = Judge::new();
    let results = [case(true, 10, 65, None), case(true, 1001, 5, None)];
    assert_eq!(judge.determine_verdict(&results, 1000, 64), Verdict::TimeLimitExceeded);
    let results = [
        case(false, 10, 5, Some(FaultKind::MemoryDenied)),
        case(false, 10, 5, Some(FaultKind::WallClockExceeded)),
    ];
    assert_eq!(judge.determine_verdict(&results, 1000, 64), Verdict::TimeLimitExceeded);
}

#[test]
fn time_limit_is_exclusive() {
    let judge = Judge::new();
    assert_eq!(judge.determine_verdict(&[case(true, 1000, 5, None)], 1000, 64), Verdict::Accepted);
    assert_eq!(
        judge.determine_verdict(&[case(true, 1001, 5, None)], 1000, 64),
        Verdict::TimeLimitExceeded
    );
    assert_eq!(
        judge.determine_verdict(&[case(true, u64::MAX, 5, None)], u64::MAX, 64),
        Verdict::Accepted
    );
}

#[test]
fn memory_limit_is_exclusive() {
    let judge = Judge::new();
    assert_eq!(judge.determine_verdict(&[case(true, 10, 64, None)], 1000, 64), Verdict::Accepted);
    assert_eq!(
        judge.determine_verdict(&[case(true, 10, 65, None)], 1000, 64),
        Verdict::MemoryLimitExceeded
    );
}

#[test]
fn a_limit_outranks_wrong_answer() {
    let judge = Judge::new();
    assert_eq!(
        judge.determine_verdict(&[wrong(), case(true, 10, 65, None)], 1000, 64),
        Verdict::MemoryLimitExceeded
    );
    assert_eq!(
        judge.determine_verdict(&[wrong(), case(true, 2000, 5, None)], 1000, 64),
        Verdict::TimeLimitExceeded
    );
}

#[test]
fn fuel_exhaustion_is_time_limit_exceeded() {
    let judge = Judge::new();
    let results = [ok(), case(false, 3, 1, Some(FaultKind::FuelExhausted)), ok()];
    assert_eq!(judge.determine_verdict(&results, 1000, 64), Verdict::TimeLimitExceeded);
}

#[test]
fn denied_allocation_is_memory_limit_exceeded() {
    let judge = Judge::new();
    let results = [ok(), case(false, 3, 1, Some(FaultKind::MemoryDenied))];
    assert_eq!(judge.determine_verdict(&results, 1000, 64), Verdict::MemoryLimitExceeded);
}

#[test]
fn a_case_that_was_not_run_counts_as_not_passed_only() {
    let judge = Judge::new();
    let results = [ok(), case(false, 0, 0, Some(FaultKind::NotRun))];
    assert_eq!(judge.determine_verdict(&results, 1000, 64), Verdict::WrongAnswer);
}

#[test]
fn verdict_does_not_depend_on_order() {
    let judge = Judge::new();
    let a = [wrong(), case(false, 10, 5, Some(FaultKind::Runtime)), case(true, 5000, 5, None)];
    let b = [case(true, 5000, 5, None), wrong(), case(false, 10, 5, Some(FaultKind::Runtime))];
    assert_eq!(judge.determine_verdict(&a, 1000, 64), judge.determine_verdict(&b, 1000, 64));
}

#[test]
fn judgment_sums_time_and_takes_peak_memory() {
    let judge = Judge::new();
    let results = vec![case(true, 10, 5, None), case(true, 25, 9, None), case(true, 7, 3, None)];
    let j = judge.judge_submission(results, 1000, 64);
    assert_eq!(j.verdict, Verdict::Accepted);
    assert_eq!(j.execution_time_ms, 42);
    assert_eq!(j.memory_used_mb, 9);
    assert_eq!(j.test_results.len(), 3);
    assert_eq!(j.test_results[1].execution_time_ms, 25);
}

#[test]
fn judgment_of_nothing() {
    let judge = Judge::new();
    let j = judge.judge_submission(Vec::new(), 1000, 64);
    assert_eq!(j.verdict, Verdict::Accepted);
    assert_eq!(j.execution_time_ms, 0);
    assert_eq!(j.memory_used_mb, 0);
    assert!(j.test_results.is_empty());
}

#[test]
fn summed_time_is_held_at_the_maximum() {
    let judge = Judge::new();
    let results = vec![case(true, u64::MAX - 1, 5, None), case(true, 5, 5, None)];
    let j = judge.judge_submission(results, u64::MAX, 64);
    assert_eq!(j.execution_time_ms, u64::MAX);
    let results = vec![case(true, u64::MAX - 5, 5, None), case(true, 5, 5, None)];
    let j = judge.judge_submission(results, u64::MAX, 64);
    assert_eq!(j.execution_time_ms, u64::MAX);
    let results = vec![case(true, u64::MAX - 6, 5, None), case(true, 5, 5, None)];
    let j = judge.judge_submission(results, u64::MAX, 64);
    assert_eq!(j.execution_time_ms, u64::MAX - 1);
}

#[test]
fn judgment_keeps_results_in_order() {
    let judge = Judge::new();
    let mut results = Vec::new();
    for i in 0..5u64 {
        results.push(case(i != 3, i, i, None));
    }
    let j = judge.judge_submission(results, 1000, 64);
    assert_eq!(j.verdict, Verdict::WrongAnswer);
    for i in 0..5usize {
        assert_eq!(j.test_results[i].execution_time_ms, i as u64);
        assert_eq!(j.test_results[i].passed, i != 3);
    }
    assert_eq!(j.execution_time_ms, 10);
    assert_eq!(j.memory_used_mb, 4);
}

#[test]
fn a_result_with_a_failure_on_record_does_not_count_as_passed() {
    let judge = Judge::new();
    let results = [ok(), case(true, 0, 0, Some(FaultKind::NotRun))];
    assert_eq!(judge.determine_verdict(&results, 1000, 64), Verdict::WrongAnswer);
    let results = [case(true, 10, 5, Some(FaultKind::Runtime))];
    assert_eq!(judge.determine_verdict(&results, 1000, 64), Verdict::RuntimeError);
}
