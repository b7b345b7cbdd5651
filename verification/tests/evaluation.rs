use codequest_judge::error::{ConfigurationError, SandboxError};
use codequest_judge::judge::Judge;
use codequest_judge::model::{
    ExecutionResult, FailurePolicy, FaultKind, Limits, TerminationReason, TestCase,
};
use codequest_judge::verdict::Verdict;
use codequest_judge::wasm_runner::WasmRunner;

const PRINT_RUNTIME: &str = r#"
(module
  (import "wasi_snapshot_preview1" "args_sizes_get" (func $sizes (param i32 i32) (result i32)))
  (import "wasi_snapshot_preview1" "args_get" (func $args (param i32 i32) (result i32)))
  (import "wasi_snapshot_preview1" "fd_write" (func $write (param i32 i32 i32 i32) (result i32)))
  (memory (export "memory") 1)
  (func (export "_start")
    (drop (call $sizes (i32.const 0) (i32.const 4)))
    (drop (call $args (i32.const 16) (i32.const 64)))
    (i32.store (i32.const 8) (i32.const 64))
    (i32.store (i32.const 12) (i32.sub (i32.load (i32.const 4)) (i32.const 1)))
    (drop (call $write (i32.const 1) (i32.const 8) (i32.const 1) (i32.const 32)))))
"#;

const ECHO_RUNTIME: &str = r#"
(module
  (import "wasi_snapshot_preview1" "fd_read" (func $read (param i32 i32 i32 i32) (result i32)))
  (import "wasi_snapshot_preview1" "fd_write" (func $write (param i32 i32 i32 i32) (result i32)))
  (import "wasi_snapshot_preview1" "proc_exit" (func $exit (param i32)))
  (memory (export "memory") 1)
  (func (export "_start")
    (i32.store (i32.const 0) (i32.const 64))
    (i32.store (i32.const 4) (i32.const 1024))
    (drop (call $read (i32.const 0) (i32.const 0) (i32.const 1) (i32.const 8)))
    (if (i32.eq (i32.load8_u (i32.const 64)) (i32.const 76))
      (then (loop $spin (br $spin))))
    (if (i32.eq (i32.load8_u (i32.const 64)) (i32.const 71))
      (then (drop (memory.grow (i32.const 1000)))))
    (if (i32.eq (i32.load8_u (i32.const 64)) (i32.const 85))
      (then (unreachable)))
    (if (i32.eq (i32.load8_u (i32.const 64)) (i32.const 88))
      (then (call $exit (i32.const 3))))
    (i32.store (i32.const 4) (i32.load (i32.const 8)))
    (drop (call $write (i32.const 1) (i32.const 0) (i32.const 1) (i32.const 12)))))
"#;

/// A runtime that writes one byte that is not valid UTF-8.
const RAW_RUNTIME: &str = r#"
(module
  (import "wasi_snapshot_preview1" "fd_write" (func $write (param i32 i32 i32 i32) (result i32)))
  (memory (export "memory") 1)
  (data (i32.const 16) "a\ffb")
  (func (export "_start")
    (i32.store (i32.const 0) (i32.const 16))
    (i32.store (i32.const 4) (i32.const 3))
    (drop (call $write (i32.const 1) (i32.const 0) (i32.const 1) (i32.const 8)))))
"#;

fn limits() -> Limits {
    Limits { wall_clock_ms: 10_000, cpu_fuel_units: 1_000_000, memory_mb: 16 }
}

fn case(input: &str, expected: &str) -> TestCase {
    TestCase { input: input.to_string(), expected_output: expected.to_string() }
}

fn runner() -> WasmRunner {
    let mut runner = WasmRunner::new().expect("engine");
    runner
        .register_language("print", PRINT_RUNTIME.as_bytes(), Vec::new(), None)
        .expect("runtime module");
    runner
        .register_language("echo", ECHO_RUNTIME.as_bytes(), Vec::new(), None)
        .expect("runtime module");
    runner
}

fn run(stdout: &str, time: u64, memory: u64, termination: TerminationReason) -> ExecutionResult {
    ExecutionResult {
        stdout: stdout.to_string(),
        stderr: "diagnostics".to_string(),
        execution_time_ms: time,
        memory_used_mb: memory,
        termination,
    }
}

#[test]
fn hello_world_is_accepted() {
    let judge = Judge::new();
    let cases = vec![case("", "Hello, World!")];
    let j = judge.evaluate(&runner(), "Hello, World!", "print", &cases, &limits()).expect("judgment");
    assert_eq!(j.verdict, Verdict::Accepted);
    assert_eq!(j.test_results.len(), 1);
    assert!(j.test_results[0].passed);
    assert_eq!(j.test_results[0].expected_output, "Hello, World!");
    assert_eq!(j.test_results[0].actual_output, "Hello, World!");
    assert!(j.test_results[0].error.is_none());
    assert_eq!(j.memory_used_mb, 1);
}

#[test]
fn fuel_exhaustion_in_one_case_is_time_limit_exceeded_and_spares_the_others() {
    let judge = Judge::new();
    let cases = vec![case("1\n", "1"), case("Loop", "never"), case("3\n", "3")];
    let j = judge.evaluate(&runner(), "", "echo", &cases, &limits()).expect("judgment");
    assert_eq!(j.verdict, Verdict::TimeLimitExceeded);
    assert_eq!(j.test_results.len(), 3);
    assert!(j.test_results[0].passed);
    assert!(!j.test_results[1].passed);
    assert!(j.test_results[2].passed);
    assert_eq!(j.test_results[1].error.as_ref().map(|e| e.kind), Some(FaultKind::FuelExhausted));
    assert!(j.test_results[0].error.is_none());
    assert!(j.test_results[2].error.is_none());
}

#[test]
fn unregistered_language_fails_the_evaluation() {
    let judge = Judge::new();
    let cases = vec![case("", "Hello, World!")];
    let r = judge.evaluate(&runner(), "print('Hello, World!')", "cobol", &cases, &limits());
    match r {
        Err(SandboxError::Configuration(ConfigurationError::UnknownLanguage(l))) => {
            assert_eq!(l, "cobol")
        }
        other => panic!("unexpected: {:?}", other),
    }
}

#[test]
fn language_without_runtime_fails_the_evaluation_even_without_test_cases() {
    let judge = Judge::new();
    let r = judge.evaluate(&runner(), "print('Hello, World!')", "python", &Vec::new(), &limits());
    assert!(matches!(
        r,
        Err(SandboxError::Configuration(ConfigurationError::MissingRuntime(_)))
    ));
}

#[test]
fn no_test_cases_is_accepted() {
    let judge = Judge::new();
    let j = judge.evaluate(&runner(), "x", "print", &Vec::new(), &limits()).expect("judgment");
    assert_eq!(j.verdict, Verdict::Accepted);
    assert!(j.test_results.is_empty());
    assert_eq!(j.execution_time_ms, 0);
    assert_eq!(j.memory_used_mb, 0);
}

#[test]
fn one_result_per_case_in_input_order() {
    let judge = Judge::new();
    let cases = vec![
        case("a", "a"),
        case("b", "wrong"),
        case("c", "c"),
        case("Unreachable", "d"),
        case("e", "e\n"),
    ];
    let j = judge.evaluate(&runner(), "", "echo", &cases, &limits()).expect("judgment");
    assert_eq!(j.test_results.len(), cases.len());
    for (i, c) in cases.iter().enumerate() {
        assert_eq!(j.test_results[i].expected_output, c.expected_output);
    }
    assert_eq!(j.test_results[0].actual_output, "a");
    assert_eq!(j.test_results[1].actual_output, "b");
    assert_eq!(j.test_results[2].actual_output, "c");
    assert_eq!(j.test_results[4].actual_output, "e");
    let passed: Vec<bool> = j.test_results.iter().map(|r| r.passed).collect();
    assert_eq!(passed, vec![true, false, true, false, true]);
}

#[test]
fn runtime_fault_and_wrong_answer_give_runtime_error() {
    let judge = Judge::new();
    let cases = vec![case("Unreachable", "x"), case("abc", "zzz")];
    let j = judge.evaluate(&runner(), "", "echo", &cases, &limits()).expect("judgment");
    assert_eq!(j.verdict, Verdict::RuntimeError);
    assert_eq!(j.test_results[0].error.as_ref().map(|e| e.kind), Some(FaultKind::Runtime));
    assert!(j.test_results[1].error.is_none());
    assert!(!j.test_results[1].passed);
    let swapped = vec![case("abc", "zzz"), case("Unreachable", "x")];
    let j = judge.evaluate(&runner(), "", "echo", &swapped, &limits()).expect("judgment");
    assert_eq!(j.verdict, Verdict::RuntimeError);
}

#[test]
fn wrong_output_is_wrong_answer() {
    let judge = Judge::new();
    let cases = vec![case("1", "1"), case("2", "3")];
    let j = judge.evaluate(&runner(), "", "echo", &cases, &limits()).expect("judgment");
    assert_eq!(j.verdict, Verdict::WrongAnswer);
}

#[test]
fn memory_breach_in_one_case_leaves_the_siblings_alone() {
    let judge = Judge::new();
    let alone = judge
        .evaluate(&runner(), "", "echo", &vec![case("plain", "plain")], &limits())
        .expect("judgment");
    let cases = vec![case("plain", "plain"), case("Grow", "Grow"), case("plain", "plain")];
    let j = judge.evaluate(&runner(), "", "echo", &cases, &limits()).expect("judgment");
    assert_eq!(j.verdict, Verdict::MemoryLimitExceeded);
    assert_eq!(j.test_results[1].error.as_ref().map(|e| e.kind), Some(FaultKind::MemoryDenied));
    assert!(!j.test_results[1].passed);
    for i in [0usize, 2] {
        assert!(j.test_results[i].passed);
        assert!(j.test_results[i].error.is_none());
        assert_eq!(j.test_results[i].memory_used_mb, alone.test_results[0].memory_used_mb);
    }
}

#[test]
fn rerunning_gives_the_same_passed_values() {
    let judge = Judge::new();
    let cases = vec![case("1", "1"), case("2", "3"), case("Loop", "x"), case("Unreachable", "y")];
    let runner = runner();
    let a = judge.evaluate(&runner, "", "echo", &cases, &limits()).expect("judgment");
    let b = judge.evaluate(&runner, "", "echo", &cases, &limits()).expect("judgment");
    assert_eq!(a.verdict, b.verdict);
    for i in 0..cases.len() {
        assert_eq!(a.test_results[i].passed, b.test_results[i].passed);
    }
}

#[test]
fn source_that_does_not_compile_is_a_compilation_error_verdict() {
    let judge = Judge::new();
    let mut runner = WasmRunner::new().expect("engine");
    runner
        .register_language("echo", ECHO_RUNTIME.as_bytes(), Vec::new(), Some(3))
        .expect("runtime module");
    let cases = vec![case("X", "1"), case("Unreachable", "2")];
    let j = judge.evaluate(&runner, "", "echo", &cases, &limits()).expect("judgment");
    assert_eq!(j.verdict, Verdict::CompilationError);
    let first = &j.test_results[0];
    assert!(!first.passed);
    assert_eq!(first.error.as_ref().map(|e| e.kind), Some(FaultKind::Compilation));
    assert_eq!(first.actual_output, "");
    assert_eq!(first.execution_time_ms, 0);
    assert_eq!(first.memory_used_mb, 0);
    assert_eq!(j.test_results[1].error.as_ref().map(|e| e.kind), Some(FaultKind::Runtime));
}

#[test]
fn run_all_runs_the_cases_after_a_failure() {
    let judge = Judge::new();
    let cases = vec![case("1", "2"), case("3", "3")];
    let j = judge
        .evaluate_with_policy(&runner(), "", "echo", &cases, &limits(), FailurePolicy::RunAll)
        .expect("judgment");
    assert_eq!(j.verdict, Verdict::WrongAnswer);
    assert!(j.test_results[1].passed);
    assert_eq!(j.test_results[1].actual_output, "3");
}

#[test]
fn stop_on_first_failure_does_not_run_the_rest() {
    let judge = Judge::new();
    let cases = vec![case("1", "1"), case("Loop", "2"), case("3", "3"), case("Unreachable", "4")];
    let j = judge
        .evaluate_with_policy(
            &runner(),
            "",
            "echo",
            &cases,
            &limits(),
            FailurePolicy::StopOnFirstFailure,
        )
        .expect("judgment");
    assert_eq!(j.verdict, Verdict::TimeLimitExceeded);
    assert_eq!(j.test_results.len(), 4);
    assert!(j.test_results[0].passed);
    assert_eq!(j.test_results[1].error.as_ref().map(|e| e.kind), Some(FaultKind::FuelExhausted));
    for i in [2usize, 3] {
        let r = &j.test_results[i];
        assert!(!r.passed);
        assert_eq!(r.error.as_ref().map(|e| e.kind), Some(FaultKind::NotRun));
        assert_eq!(r.expected_output, cases[i].expected_output);
        assert_eq!(r.actual_output, "");
        assert_eq!(r.execution_time_ms, 0);
        assert_eq!(r.memory_used_mb, 0);
    }
}

#[test]
fn stop_on_first_failure_runs_everything_when_nothing_fails() {
    let judge = Judge::new();
    let cases = vec![case("1", "1"), case("2", "2")];
    let j = judge
        .evaluate_with_policy(
            &runner(),
            "",
            "echo",
            &cases,
            &limits(),
            FailurePolicy::StopOnFirstFailure,
        )
        .expect("judgment");
    assert_eq!(j.verdict, Verdict::Accepted);
    assert!(j.test_results.iter().all(|r| r.passed));
}

#[test]
fn host_error_fails_the_evaluation() {
    let judge = Judge::new();
    let mut runner = WasmRunner::new().expect("engine");
    runner
        .register_language("none", b"(module)", Vec::new(), None)
        .expect("runtime module");
    let r = judge.evaluate(&runner, "", "none", &vec![case("", "")], &limits());
    assert!(matches!(r, Err(SandboxError::Host(_))));
}

#[test]
fn output_that_is_not_utf8_is_decoded_with_replacement() {
    let mut runner = WasmRunner::new().expect("engine");
    runner
        .register_language("raw", RAW_RUNTIME.as_bytes(), Vec::new(), None)
        .expect("runtime module");
    let r = runner.run_code("", "raw", "", &limits()).expect("run");
    assert_eq!(r.stdout, "a\u{FFFD}b");
}

#[test]
fn scoring_a_completed_run() {
    let judge = Judge::new();
    let r = judge.score_execution(&case("in", "42\n"), run(" 42", 7, 3, TerminationReason::Completed));
    assert!(r.passed);
    assert_eq!(r.expected_output, "42\n");
    assert_eq!(r.actual_output, " 42");
    assert_eq!(r.execution_time_ms, 7);
    assert_eq!(r.memory_used_mb, 3);
    assert!(r.error.is_none());
    let r = judge.score_execution(&case("in", "42"), run("43", 7, 3, TerminationReason::Completed));
    assert!(!r.passed);
    assert!(r.error.is_none());
}

#[test]
fn scoring_a_run_that_did_not_complete() {
    let judge = Judge::new();
    let kinds = [
        (TerminationReason::FuelExhausted, FaultKind::FuelExhausted),
        (TerminationReason::MemoryDenied, FaultKind::MemoryDenied),
        (TerminationReason::WallClockExceeded, FaultKind::WallClockExceeded),
        (TerminationReason::Faulted, FaultKind::Runtime),
    ];
    for (reason, kind) in kinds {
        // the output matches, but the run did not complete
        let r = judge.score_execution(&case("in", "42"), run("42", 7, 3, reason));
        assert!(!r.passed);
        let e = r.error.expect("failure");
        assert_eq!(e.kind, kind);
        assert_eq!(e.message, "diagnostics");
        assert_eq!(r.execution_time_ms, 7);
        assert_eq!(r.memory_used_mb, 3);
    }
}

#[test]
fn passed_does_not_depend_on_time_or_memory() {
    let judge = Judge::new();
    let c = case("in", "42");
    let fast = judge.score_execution(&c, run("42", 1, 1, TerminationReason::Completed));
    let slow = judge.score_execution(&c, run("42", 99_999, 999, TerminationReason::Completed));
    assert_eq!(fast.passed, slow.passed);
    assert!(fast.passed);
}

#[test]
fn scoring_a_compile_failure_a_skipped_and_an_expired_case() {
    let judge = Judge::new();
    let c = case("in", "42");
    let r = judge.score_compile_failure(&c, "line 1".to_string());
    assert!(!r.passed);
    assert_eq!(r.expected_output, "42");
    assert_eq!(r.actual_output, "");
    assert_eq!((r.execution_time_ms, r.memory_used_mb), (0, 0));
    let e = r.error.expect("failure");
    assert_eq!((e.kind, e.message.as_str()), (FaultKind::Compilation, "line 1"));
    let r = judge.score_not_run(&c);
    assert!(!r.passed);
    assert_eq!(r.expected_output, "42");
    assert_eq!(r.error.expect("failure").kind, FaultKind::NotRun);
    let r = judge.score_expired(&c);
    assert!(!r.passed);
    assert_eq!(r.expected_output, "42");
    assert_eq!((r.execution_time_ms, r.memory_used_mb), (0, 0));
    assert_eq!(r.error.expect("failure").kind, FaultKind::WallClockExceeded);
}

#[test]
fn judging_reports_scores_each_case_from_its_own_report() {
    let judge = Judge::new();
    let cases = vec![case("a", "1"), case("b", "2"), case("c", "3")];
    let runs = vec![
        run("1", 10, 4, TerminationReason::Completed),
        run("", 30, 2, TerminationReason::FuelExhausted),
        run("3\n", 20, 9, TerminationReason::Completed),
    ];
    let j = judge.judge_executions(&cases, runs, &limits()).expect("judgment");
    assert_eq!(j.verdict, Verdict::TimeLimitExceeded);
    assert_eq!(j.execution_time_ms, 60);
    assert_eq!(j.memory_used_mb, 9);
    assert_eq!(j.test_results.len(), 3);
    assert!(j.test_results[0].passed);
    assert!(!j.test_results[1].passed);
    assert!(j.test_results[2].passed);
    assert_eq!(j.test_results[0].expected_output, "1");
    assert_eq!(j.test_results[1].expected_output, "2");
    assert_eq!(j.test_results[2].expected_output, "3");
    assert_eq!(j.test_results[2].actual_output, "3\n");
    assert_eq!(j.test_results[0].memory_used_mb, 4);
    assert_eq!(j.test_results[2].memory_used_mb, 9);
}

#[test]
fn judging_reports_needs_one_report_per_case() {
    let judge = Judge::new();
    let cases = vec![case("a", "1"), case("b", "2")];
    assert!(judge
        .judge_executions(&cases, vec![run("1", 1, 1, TerminationReason::Completed)], &limits())
        .is_none());
    assert!(judge.judge_executions(&cases, Vec::new(), &limits()).is_none());
    assert!(judge.judge_executions(&Vec::new(), Vec::new(), &limits()).is_some());
}

#[test]
fn measured_time_over_the_limit_is_time_limit_exceeded() {
    let judge = Judge::new();
    let cases = vec![case("a", "1")];
    let runs = vec![run("1", 10_001, 4, TerminationReason::Completed)];
    let j = judge.judge_executions(&cases, runs, &limits()).expect("judgment");
    assert_eq!(j.verdict, Verdict::TimeLimitExceeded);
    assert!(j.test_results[0].passed);
}
