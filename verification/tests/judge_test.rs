use opti_neko::judge::orchestrator::Stage;
use opti_neko::judge::runner::{CompileAttempt, RunEvent, RunOutcome};
use opti_neko::{Duration, Judge, JudgeConfig, JudgeResult, JudgeStatus, TestCase};

fn config(language: &str, source_code: &str) -> JudgeConfig {
    JudgeConfig {
        time_limit: Duration::from_secs(1),
        memory_limit: 256 * 1024 * 1024,
        language: language.to_string(),
        source_code: source_code.to_string(),
    }
}

fn case(input: &str, expected_output: &str) -> TestCase {
    TestCase { input: input.to_string(), expected_output: expected_output.to_string() }
}

fn compiled() -> CompileAttempt {
    CompileAttempt::Exited { success: true, stderr: Vec::new() }
}

fn printed(stdout: &str) -> RunEvent {
    RunEvent::Exited {
        success: true,
        stdout: stdout.as_bytes().to_vec(),
        elapsed: Duration::from_millis(3),
        peak_memory: 1_500_000,
    }
}

fn judge_with(
    judge: &Judge,
    test_cases: &[TestCase],
    attempt: CompileAttempt,
    events: Vec<RunEvent>,
) -> JudgeResult {
    let compiled = judge.runner().compile(attempt);
    let outcomes: Vec<RunOutcome> = if compiled.is_ok() {
        events.into_iter().map(|e| judge.runner().run(e)).collect()
    } else {
        Vec::new()
    };
    judge.judge_all(test_cases, compiled, &outcomes)
}

const ADD: &str = r#"
            #include <iostream>
            using namespace std;
            int main() {
                int a, b;
                cin >> a >> b;
                cout << a + b << endl;
                return 0;
            }
        "#;

#[test]
fn test_accepted_submission() {
    let test_case = case("1 2\n", "3\n");
    let judge = Judge::new(config("cpp", ADD));
    let compiled = judge.runner().compile(compiled());
    let outcome = judge.runner().run(printed("3\n"));
    let result = judge.judge(&test_case, compiled, &outcome);
    assert_eq!(result.status, JudgeStatus::Accepted);
}

#[test]
fn test_wrong_answer() {
    let test_case = case("1 2\n", "3\n");
    let judge = Judge::new(config("cpp", "int main() { /* prints a - b */ }"));
    let compiled = judge.runner().compile(compiled());
    let outcome = judge.runner().run(printed("-1\n"));
    let result = judge.judge(&test_case, compiled, &outcome);
    assert_eq!(result.status, JudgeStatus::WrongAnswer);
    assert_eq!(result.test_case_results.len(), 1);
    assert_eq!(result.test_case_results[0].status, JudgeStatus::WrongAnswer);
    assert_eq!(result.test_case_results[0].actual_output.trim(), "-1");
}

#[test]
fn test_compilation_error() {
    let test_case = case("", "Hello World!\n");
    let judge = Judge::new(config("cpp", "int main() { cout << \"Hello World!\" return 0; }"));
    let attempt = CompileAttempt::Exited {
        success: false,
        stderr: b"solution.cpp:5:39: error: expected ';' before 'return'\n".to_vec(),
    };
    let compiled = judge.runner().compile(attempt);
    let outcome = RunOutcome::Failed { message: String::new() };
    let result = judge.judge(&test_case, compiled, &outcome);
    assert_eq!(result.status, JudgeStatus::CompilationError);
    assert!(result.test_case_results.is_empty());
    assert_eq!(
        result.error_message.as_deref(),
        Some("Compilation error: solution.cpp:5:39: error: expected ';' before 'return'\n")
    );
    assert_eq!(result.time_used, Duration::zero());
    assert_eq!(result.memory_used, 0);
}

#[test]
fn test_multiple_test_cases() {
    let test_cases = vec![case("1 2\n", "3\n"), case("5 7\n", "12\n"), case("0 0\n", "0\n")];
    let judge = Judge::new(config("cpp", ADD));
    let events = vec![printed("3\n"), printed("12\n"), printed("0\n")];
    let result = judge_with(&judge, &test_cases, compiled(), events);

    assert_eq!(result.status, JudgeStatus::Accepted);
    assert_eq!(result.test_case_results.len(), 3);

    for test_result in &result.test_case_results {
        assert_eq!(test_result.status, JudgeStatus::Accepted);
    }
}

#[test]
fn test_partial_correct() {
    let test_cases = vec![case("1 2\n", "3\n"), case("5 3\n", "8\n")];
    let judge = Judge::new(config("cpp", "int main() { /* a + b only when a == 1 */ }"));
    let events = vec![printed("3\n"), printed("2\n")];
    let result = judge_with(&judge, &test_cases, compiled(), events);

    assert_eq!(result.status, JudgeStatus::WrongAnswer);
    assert_eq!(result.test_case_results[0].status, JudgeStatus::Accepted);
    assert_eq!(result.test_case_results[1].status, JudgeStatus::WrongAnswer);
}

#[test]
fn test_python_submission() {
    let source = r#"
a, b = map(int, input().split())
print(a + b)
        "#;
    let test_cases = vec![case("1 2\n", "3\n"), case("100 200\n", "300\n")];
    let judge = Judge::new(config("python", source));
    let events = vec![printed("3\n"), printed("300\n")];
    let result = judge_with(&judge, &test_cases, compiled(), events);
    assert_eq!(result.status, JudgeStatus::Accepted);
}

#[test]
fn test_go_submission() {
    let source = r#"
package main

import "fmt"

func main() {
    var a, b int
    fmt.Scanf("%d %d", &a, &b)
    fmt.Println(a + b)
}
        "#;
    let test_cases = vec![case("1 2\n", "3\n"), case("100 200\n", "300\n")];
    let judge = Judge::new(config("go", source));
    let events = vec![printed("3\n"), printed("300\n")];
    let result = judge_with(&judge, &test_cases, compiled(), events);
    assert_eq!(result.status, JudgeStatus::Accepted);
}

#[test]
fn time_limit_is_recorded_with_the_limit_at_most() {
    let mut cfg = config("cpp", "int main() { for (;;) {} }");
    cfg.time_limit = Duration::from_millis(200);
    let judge = Judge::new(cfg);
    let event = RunEvent::DeadlineReached {
        elapsed: Duration::from_millis(203),
        peak_memory: 900_000,
    };
    let outcome = judge.runner().run(event);
    let result = judge.judge(&case("", "never\n"), judge.runner().compile(compiled()), &outcome);
    assert_eq!(result.status, JudgeStatus::TimeLimitExceeded);
    assert_eq!(result.test_case_results.len(), 1);
    let only = &result.test_case_results[0];
    assert_eq!(only.status, JudgeStatus::TimeLimitExceeded);
    assert_eq!(only.time_used, Duration::from_millis(200));
    assert_eq!(only.memory_used, 900_000);
    assert_eq!(only.actual_output, "Time limit exceeded");
    assert_eq!(result.time_used, Duration::from_millis(200));
}

#[test]
fn time_limit_before_the_deadline_keeps_the_elapsed_time() {
    let mut cfg = config("cpp", "x");
    cfg.time_limit = Duration::from_millis(200);
    let judge = Judge::new(cfg);
    let outcome = RunOutcome::TimedOut { time_used: Duration::from_millis(150), memory_used: 7 };
    let result = judge.case_result(&case("", ""), outcome, 4);
    assert_eq!(result.time_used, Duration::from_millis(150));
    assert_eq!(result.test_case_id, 4);
}

#[test]
fn runtime_error_has_no_time_and_no_memory() {
    let judge = Judge::new(config("c", "int main() { return 1; }"));
    let event = RunEvent::Exited {
        success: false,
        stdout: b"partial".to_vec(),
        elapsed: Duration::from_millis(9),
        peak_memory: 4096,
    };
    let outcome = judge.runner().run(event);
    let result = judge.judge(&case("", "x"), Ok(()), &outcome);
    assert_eq!(result.status, JudgeStatus::RuntimeError);
    let only = &result.test_case_results[0];
    assert_eq!(only.status, JudgeStatus::RuntimeError);
    assert_eq!(only.time_used, Duration::zero());
    assert_eq!(only.memory_used, 0);
    assert_eq!(only.actual_output, "Runtime error");
    assert!(result.error_message.is_none());
}

#[test]
fn aggregate_takes_maxima_and_keeps_order() {
    let test_cases = vec![case("a", "1"), case("b", "2"), case("c", "3")];
    let judge = Judge::new(config("cpp", "x"));
    let outcomes = vec![
        RunOutcome::Completed {
            output: "1\n".to_string(),
            time_used: Duration::from_millis(5),
            memory_used: 300,
        },
        RunOutcome::Completed {
            output: " 2".to_string(),
            time_used: Duration::from_millis(40),
            memory_used: 100,
        },
        RunOutcome::Completed {
            output: "3".to_string(),
            time_used: Duration::from_millis(7),
            memory_used: 200,
        },
    ];
    let result = judge.judge_all(&test_cases, Ok(()), &outcomes);
    assert_eq!(result.status, JudgeStatus::Accepted);
    assert_eq!(result.time_used, Duration::from_millis(40));
    assert_eq!(result.memory_used, 300);
    let ids: Vec<usize> = result.test_case_results.iter().map(|r| r.test_case_id).collect();
    assert_eq!(ids, vec![0, 1, 2]);
    assert_eq!(result.test_case_results[1].actual_output, " 2");
}

#[test]
fn aggregate_follows_precedence_whatever_the_order() {
    let test_cases = vec![case("", "1"), case("", "1"), case("", "1"), case("", "1")];
    let judge = Judge::new(config("cpp", "x"));
    let wrong = || RunOutcome::Completed {
        output: "0".to_string(),
        time_used: Duration::from_millis(1),
        memory_used: 1,
    };
    let right = || RunOutcome::Completed {
        output: "1".to_string(),
        time_used: Duration::from_millis(1),
        memory_used: 1,
    };
    let slow = || RunOutcome::TimedOut { time_used: Duration::from_secs(1), memory_used: 1 };
    let broken = || RunOutcome::Failed { message: "Runtime error".to_string() };

    let first = judge.judge_all(&test_cases, Ok(()), &[broken(), slow(), wrong(), right()]);
    assert_eq!(first.status, JudgeStatus::RuntimeError);
    let second = judge.judge_all(&test_cases, Ok(()), &[right(), wrong(), slow(), broken()]);
    assert_eq!(second.status, JudgeStatus::RuntimeError);
    let third = judge.judge_all(&test_cases, Ok(()), &[slow(), wrong(), right(), wrong()]);
    assert_eq!(third.status, JudgeStatus::TimeLimitExceeded);
    let fourth = judge.judge_all(&test_cases, Ok(()), &[wrong(), right(), right(), right()]);
    assert_eq!(fourth.status, JudgeStatus::WrongAnswer);
}

#[test]
fn memory_limit_decides_only_where_it_is_enforced() {
    let mut cfg = config("cpp", "x");
    cfg.memory_limit = 1000;
    let outcome = || RunOutcome::Completed {
        output: "1".to_string(),
        time_used: Duration::from_millis(1),
        memory_used: 1001,
    };
    let measuring = Judge::new(cfg.clone());
    let lenient = measuring.judge(&case("", "1"), Ok(()), &outcome());
    assert_eq!(lenient.status, JudgeStatus::Accepted);
    assert_eq!(lenient.memory_used, 1001);

    let enforcing = Judge::new(cfg).enforcing_memory_limit();
    let strict = enforcing.judge(&case("", "1"), Ok(()), &outcome());
    assert_eq!(strict.status, JudgeStatus::MemoryLimitExceeded);
    let at_limit = RunOutcome::Completed {
        output: "1".to_string(),
        time_used: Duration::from_millis(1),
        memory_used: 1000,
    };
    assert_eq!(
        enforcing.judge(&case("", "1"), Ok(()), &at_limit).status,
        JudgeStatus::Accepted
    );
}

#[test]
fn unsupported_language_is_a_system_error() {
    let judge = Judge::new(config("rust", "fn main() {}"));
    let result = judge_with(&judge, &[case("", "")], compiled(), vec![printed("")]);
    assert_eq!(result.status, JudgeStatus::SystemError);
    assert!(result.test_case_results.is_empty());
    assert_eq!(result.error_message.as_deref(), Some("Unsupported language"));
}

#[test]
fn session_asks_for_each_case_in_turn() {
    let test_cases = vec![case("first", "1"), case("second", "2")];
    let judge = Judge::new(config("cpp", "x"));
    let stage = judge.begin(&test_cases).compiled(Ok(()));
    let running = match stage {
        Stage::Next(r) => r,
        Stage::Done(_) => panic!("two cases are left"),
    };
    assert_eq!(running.case_id(), 0);
    assert_eq!(running.test_case().input, "first");
    let running = match running.ran(printed_outcome("1")) {
        Stage::Next(r) => r,
        Stage::Done(_) => panic!("one case is left"),
    };
    assert_eq!(running.case_id(), 1);
    assert_eq!(running.test_case().input, "second");
    let result = match running.ran(printed_outcome("3")) {
        Stage::Next(_) => panic!("no case is left"),
        Stage::Done(result) => result,
    };
    assert_eq!(result.status, JudgeStatus::WrongAnswer);
    assert_eq!(result.test_case_results.len(), 2);
}

fn printed_outcome(output: &str) -> RunOutcome {
    RunOutcome::Completed {
        output: output.to_string(),
        time_used: Duration::from_millis(2),
        memory_used: 10,
    }
}

#[test]
fn session_without_cases_is_done_once_compiled() {
    let judge = Judge::new(config("cpp", "x"));
    match judge.begin(&[]).compiled(Ok(())) {
        Stage::Next(_) => panic!("there is no case"),
        Stage::Done(result) => {
            assert_eq!(result.status, JudgeStatus::Accepted);
            assert!(result.test_case_results.is_empty());
            assert!(result.error_message.is_none());
        }
    }
}

#[test]
fn default_config_is_one_second_and_256_mib() {
    let cfg = JudgeConfig::default();
    assert_eq!(cfg.time_limit, Duration::from_secs(1));
    assert_eq!(cfg.time_limit.as_millis(), 1000);
    assert_eq!(cfg.memory_limit, 256 * 1024 * 1024);
    assert!(cfg.language.is_empty());
    assert!(cfg.source_code.is_empty());
}

#[test]
fn accepted_exactly_when_every_case_is() {
    let test_cases = vec![case("", "1"), case("", "2")];
    let judge = Judge::new(config("cpp", "x"));
    for first in ["1", "x"] {
        for second in ["2", "x"] {
            let outcomes = [printed_outcome(first), printed_outcome(second)];
            let result = judge.judge_all(&test_cases, Ok(()), &outcomes);
            let every = result.test_case_results.iter().all(|r| r.status == JudgeStatus::Accepted);
            assert_eq!(result.status == JudgeStatus::Accepted, every);
            assert_eq!(every, first == "1" && second == "2");
            assert_eq!(result.test_case_results.len(), test_cases.len());
        }
    }
}
