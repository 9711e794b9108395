use opti_neko::judge::runner::{rejection, CompileAttempt, RunEvent, RunOutcome, Runner};
use opti_neko::judge::toolchain::{HostOs, Language};
use opti_neko::judge::types::{Duration, JudgeConfig, JudgeStatus};

fn runner(language: &str) -> Runner {
    Runner::new(JudgeConfig {
        time_limit: Duration::from_millis(1500),
        memory_limit: 64 * 1024 * 1024,
        language: language.to_string(),
        source_code: "the program".to_string(),
    })
}

#[test]
fn runner_keeps_its_config() {
    let r = runner("cpp");
    assert_eq!(r.config().language, "cpp");
    assert_eq!(r.config().source_code, "the program");
    assert_eq!(r.config().time_limit, Duration::from_millis(1500));
    assert_eq!(r.config().memory_limit, 64 * 1024 * 1024);
}

#[test]
fn compile_plan_of_a_compiled_language() {
    let r = runner("cpp");
    let plan = r.compile_plan(HostOs::Linux).unwrap();
    assert_eq!(plan.source_name, "solution.cpp");
    assert_eq!(plan.source_code, "the program");
    assert_eq!(plan.command.program, "g++");
    assert_eq!(plan.command.args, vec!["solution.cpp", "-o", "solution"]);
    assert!(plan.remove_source);
}

#[test]
fn compile_plan_of_an_interpreted_language_probes_the_interpreter() {
    let r = runner("python");
    let plan = r.compile_plan(HostOs::Linux).unwrap();
    assert_eq!(plan.source_name, "solution.py");
    assert_eq!(plan.command.program, "python3");
    assert_eq!(plan.command.args, vec!["-c", "print('test')"]);
    assert!(!plan.remove_source);
    let on_windows = r.compile_plan(HostOs::Windows).unwrap();
    assert_eq!(on_windows.command.program, "python");
}

#[test]
fn plans_of_an_unknown_language_are_system_errors() {
    let r = runner("cobol");
    let error = r.compile_plan(HostOs::Linux).unwrap_err();
    assert_eq!(error.status, JudgeStatus::SystemError);
    assert_eq!(error.message, "Unsupported language");
    let error = r.run_plan(HostOs::Linux, "1 2\n").unwrap_err();
    assert_eq!(error.status, JudgeStatus::SystemError);
    assert_eq!(error.message, "Unsupported language");
    let error = r.toolchain(HostOs::Linux).unwrap_err();
    assert_eq!(error.message, "Unsupported language");
    assert!(r.cleanup().is_empty());
}

#[test]
fn compile_success() {
    let attempt = CompileAttempt::Exited { success: true, stderr: b"warning: unused".to_vec() };
    assert!(runner("c").compile(attempt.clone()).is_ok());
    assert!(runner("python").compile(attempt).is_ok());
}

#[test]
fn compile_rejection_carries_the_diagnostics() {
    let attempt = CompileAttempt::Exited { success: false, stderr: b"error: no main".to_vec() };
    let error = runner("go").compile(attempt).unwrap_err();
    assert_eq!(error.status, JudgeStatus::CompilationError);
    assert_eq!(error.message, "Compilation error: error: no main");
}

#[test]
fn compile_rejection_decodes_diagnostics_lossily() {
    let attempt = CompileAttempt::Exited { success: false, stderr: vec![b'a', 0xff, b'b'] };
    let error = runner("java").compile(attempt).unwrap_err();
    assert_eq!(error.status, JudgeStatus::CompilationError);
    assert_eq!(error.message, "Compilation error: a\u{fffd}b");
    let utf8 = CompileAttempt::Exited { success: false, stderr: "错误".as_bytes().to_vec() };
    assert_eq!(runner("c").compile(utf8).unwrap_err().message, "Compilation error: 错误");
}

#[test]
fn failing_interpreter_probe_is_a_system_error() {
    let attempt = CompileAttempt::Exited { success: false, stderr: b"whatever".to_vec() };
    let error = runner("python").compile(attempt).unwrap_err();
    assert_eq!(error.status, JudgeStatus::SystemError);
    assert_eq!(error.message, "Python interpreter not found");
}

#[test]
fn compile_that_could_not_start_is_a_system_error() {
    let spawn = CompileAttempt::SpawnFailed { reason: "No such file or directory".to_string() };
    let error = runner("cpp").compile(spawn).unwrap_err();
    assert_eq!(error.status, JudgeStatus::SystemError);
    assert_eq!(error.message, "No such file or directory");
    let write = CompileAttempt::WriteFailed { reason: "Permission denied".to_string() };
    let error = runner("cpp").compile(write).unwrap_err();
    assert_eq!(error.status, JudgeStatus::SystemError);
    assert_eq!(error.message, "Permission denied");
}

#[test]
fn compile_of_an_unknown_language_is_a_system_error() {
    let attempt = CompileAttempt::Exited { success: true, stderr: Vec::new() };
    let error = runner("").compile(attempt).unwrap_err();
    assert_eq!(error.status, JudgeStatus::SystemError);
    assert_eq!(error.message, "Unsupported language");
}

#[test]
fn run_plan_carries_command_input_and_limit() {
    let r = runner("java");
    let plan = r.run_plan(HostOs::Linux, "5 7\n").unwrap();
    assert_eq!(plan.command.program, "java");
    assert_eq!(plan.command.args, vec!["Main"]);
    assert_eq!(plan.input, "5 7\n");
    assert_eq!(plan.time_limit, Duration::from_millis(1500));
}

#[test]
fn run_that_exits_successfully_completes() {
    let event = RunEvent::Exited {
        success: true,
        stdout: "12\n".as_bytes().to_vec(),
        elapsed: Duration::from_nanos(2_500_000),
        peak_memory: 123_456,
    };
    match runner("cpp").run(event) {
        RunOutcome::Completed { output, time_used, memory_used } => {
            assert_eq!(output, "12\n");
            assert_eq!(time_used.as_nanos(), 2_500_000);
            assert_eq!(memory_used, 123_456);
        }
        other => panic!("unexpected outcome {:?}", other),
    }
}

#[test]
fn run_decodes_utf8_output() {
    let event = RunEvent::Exited {
        success: true,
        stdout: "héllo → 世界".as_bytes().to_vec(),
        elapsed: Duration::zero(),
        peak_memory: 0,
    };
    match runner("cpp").run(event) {
        RunOutcome::Completed { output, .. } => assert_eq!(output, "héllo → 世界"),
        other => panic!("unexpected outcome {:?}", other),
    }
}

#[test]
fn run_whose_output_is_no_text_fails() {
    let event = RunEvent::Exited {
        success: true,
        stdout: vec![b'1', 0xc3, 0x28],
        elapsed: Duration::from_millis(1),
        peak_memory: 1,
    };
    match runner("cpp").run(event) {
        RunOutcome::Failed { message } => assert_eq!(message, "Output is not valid UTF-8"),
        other => panic!("unexpected outcome {:?}", other),
    }
}

#[test]
fn run_that_exits_with_failure_fails() {
    let event = RunEvent::Exited {
        success: false,
        stdout: b"3\n".to_vec(),
        elapsed: Duration::from_millis(1),
        peak_memory: 1,
    };
    match runner("cpp").run(event) {
        RunOutcome::Failed { message } => assert_eq!(message, "Runtime error"),
        other => panic!("unexpected outcome {:?}", other),
    }
}

#[test]
fn run_that_could_not_start_fails_with_the_reason() {
    let event = RunEvent::SpawnFailed { reason: "No such file or directory".to_string() };
    match runner("cpp").run(event) {
        RunOutcome::Failed { message } => assert_eq!(message, "No such file or directory"),
        other => panic!("unexpected outcome {:?}", other),
    }
}

#[test]
fn run_that_meets_the_deadline_times_out() {
    let event = RunEvent::DeadlineReached {
        elapsed: Duration::from_millis(1501),
        peak_memory: 77,
    };
    match runner("cpp").run(event) {
        RunOutcome::TimedOut { time_used, memory_used } => {
            assert_eq!(time_used, Duration::from_millis(1501));
            assert_eq!(memory_used, 77);
        }
        other => panic!("unexpected outcome {:?}", other),
    }
}

#[test]
fn cleanup_of_each_language() {
    let paths = |language: &str| -> Vec<&'static str> {
        runner(language).cleanup().iter().map(|e| e.path).collect()
    };
    assert_eq!(paths("cpp"), vec!["solution.cpp", "solution", "solution.exe"]);
    assert_eq!(paths("python"), vec!["solution.py", "__pycache__"]);
    assert_eq!(paths("java"), vec!["Main.class", "Main.java"]);
}

#[test]
fn rejection_by_language() {
    let compiled = rejection(Language::Cpp, "line 3: error");
    assert_eq!(compiled.status, JudgeStatus::CompilationError);
    assert_eq!(compiled.message, "Compilation error: line 3: error");
    let empty = rejection(Language::Go, "");
    assert_eq!(empty.status, JudgeStatus::CompilationError);
    assert_eq!(empty.message, "Compilation error: ");
    let interpreted = rejection(Language::Python, "line 3: error");
    assert_eq!(interpreted.status, JudgeStatus::SystemError);
    assert_eq!(interpreted.message, "Python interpreter not found");
}
