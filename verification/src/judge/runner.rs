//! The runner: what to do to compile and run a submission, and what to make
//! of what the toolchain and the child process reported.

use crate::judge::toolchain::{
    resolve, unsupported_language, CleanupEntry, CleanupView, Command, CommandView, HostOs,
    Language, ToolchainSpec,
};
use crate::judge::types::{Duration, ErrorView, JudgeConfig, JudgeError, JudgeStatus};
use vstd::prelude::*;
use vstd::string::StringExecFns;
use vstd::utf8::{decode_utf8, valid_utf8};

verus! {

/// The text that lossy UTF-8 decoding makes of a byte string: what the bytes
/// encode, with U+FFFD wherever they are not valid UTF-8.
pub uninterp spec fn utf8_lossy(bytes: Seq<u8>) -> Seq<char>;

/// Calls `String::from_utf8_lossy` of the standard library.
///
/// Not proved, but taken from its documentation: the text depends on the
/// bytes alone, and bytes that are valid UTF-8 are decoded as they stand.
/// What is put in the place of invalid bytes is not stated here.
#[verifier::external_body]
fn decode_lossy(bytes: &[u8]) -> (text: String)
    ensures
        text@ == utf8_lossy(bytes@),
        valid_utf8(bytes@) ==> text@ == decode_utf8(bytes@),
{
    String::from_utf8_lossy(bytes).into_owned()
}

/// Calls `String::from_utf8` of the standard library.
///
/// Not proved, but taken from its documentation: bytes that are valid UTF-8
/// give the text that they encode, and any others give nothing.
#[verifier::external_body]
fn decode_strict(bytes: Vec<u8>) -> (text: Option<String>)
    ensures
        match text {
            Some(s) => valid_utf8(bytes@) && s@ == decode_utf8(bytes@),
            None => !valid_utf8(bytes@),
        },
{
    String::from_utf8(bytes).ok()
}

/// What came of the attempt to write the source and invoke the toolchain.
#[derive(Debug, Clone)]
pub enum CompileAttempt {
    /// The source file could not be written.
    WriteFailed { reason: String },
    /// The compiler, or the interpreter, could not be started.
    SpawnFailed { reason: String },
    /// The command ran and exited.
    Exited { success: bool, stderr: Vec<u8> },
}

/// What one supervised run of the child process ended in.
#[derive(Debug, Clone)]
pub enum RunEvent {
    /// The child could not be started, or its input could not be delivered.
    SpawnFailed { reason: String },
    /// The child exited before the deadline.
    Exited { success: bool, stdout: Vec<u8>, elapsed: Duration, peak_memory: u64 },
    /// The deadline passed first.
    DeadlineReached { elapsed: Duration, peak_memory: u64 },
}

/// What a run means for the judge.
#[derive(Debug, Clone)]
pub enum RunOutcome {
    /// The program exited successfully and printed `output`.
    Completed { output: String, time_used: Duration, memory_used: u64 },
    /// The program was still running at the deadline.
    TimedOut { time_used: Duration, memory_used: u64 },
    /// The program failed, or could not be run.
    Failed { message: String },
}

/// The mathematical content of a [`RunOutcome`].
pub enum OutcomeView {
    Completed { output: Seq<char>, time_used: nat, memory_used: nat },
    TimedOut { time_used: nat, memory_used: nat },
    Failed { message: Seq<char> },
}

impl View for RunOutcome {
    type V = OutcomeView;

    open spec fn view(&self) -> OutcomeView {
        match *self {
            RunOutcome::Completed { output, time_used, memory_used } => OutcomeView::Completed {
                output: output@,
                time_used: time_used@,
                memory_used: memory_used as nat,
            },
            RunOutcome::TimedOut { time_used, memory_used } => OutcomeView::TimedOut {
                time_used: time_used@,
                memory_used: memory_used as nat,
            },
            RunOutcome::Failed { message } => OutcomeView::Failed { message: message@ },
        }
    }
}

/// What to do in order to compile a submission.
#[derive(Debug)]
pub struct CompilePlan<'a> {
    /// The file to write the program text to.
    pub source_name: &'static str,
    /// The program text.
    pub source_code: &'a str,
    /// The command to run once the source is written: the compiler, or for
    /// an interpreted language a probe that the interpreter is there.
    pub command: Command,
    /// Whether to remove the source file once the command has succeeded.
    pub remove_source: bool,
}

/// What to do in order to run a submission on one input.
#[derive(Debug)]
pub struct RunPlan<'a> {
    pub command: Command,
    /// What the child reads on its standard input, which is then closed.
    pub input: &'a str,
    /// How long the child may run.
    pub time_limit: Duration,
}

/// The command that probes for an interpreter.
pub open spec fn probe_cmd(interpreter: Seq<char>) -> CommandView {
    CommandView { program: interpreter, args: seq!["-c"@, "print('test')"@] }
}

/// The command that a compile plan runs: the compiler, or the probe of the
/// interpreter.
pub open spec fn plan_cmd(language: Language, host: HostOs) -> CommandView {
    match language.compile_cmd() {
        Some(c) => c,
        None => probe_cmd(language.run_cmd(host).program),
    }
}

/// The message of the error for an interpreter whose probe failed.
pub open spec fn interpreter_not_found() -> Seq<char> {
    "Python interpreter not found"@
}

/// What leads the compiler's diagnostics in the message of a compilation
/// error.
pub open spec fn compilation_error_prefix() -> Seq<char> {
    "Compilation error: "@
}

/// The message for a child that exited with a failure. What it wrote to its
/// standard error is not passed on.
pub open spec fn runtime_error() -> Seq<char> {
    "Runtime error"@
}

/// The message for a child whose output is not text.
pub open spec fn output_not_utf8() -> Seq<char> {
    "Output is not valid UTF-8"@
}

/// What it means that the command of a compile plan ran and failed, given
/// the text that it wrote to its standard error: a compiler has refused the
/// program, and its diagnostics are the message; an interpreter is not
/// there to be run, whatever it wrote.
pub open spec fn rejection_view(language: Language, diagnostics: Seq<char>) -> ErrorView {
    if language.interpreted() {
        ErrorView { status: JudgeStatus::SystemError, message: interpreter_not_found() }
    } else {
        ErrorView {
            status: JudgeStatus::CompilationError,
            message: compilation_error_prefix() + diagnostics,
        }
    }
}

/// What a compile attempt means, for a submission in a given language.
///
/// A command that could not be run at all is a system error; a compiler that
/// ran and refused the program is a compilation error, with what it wrote to
/// its standard error; an interpreter whose probe fails is a system error.
pub open spec fn compile_verdict(language: Option<Language>, attempt: CompileAttempt) -> Result<
    (),
    ErrorView,
> {
    match language {
        None => Err(
            ErrorView { status: JudgeStatus::SystemError, message: unsupported_language() },
        ),
        Some(l) => match attempt {
            CompileAttempt::WriteFailed { reason } => Err(
                ErrorView { status: JudgeStatus::SystemError, message: reason@ },
            ),
            CompileAttempt::SpawnFailed { reason } => Err(
                ErrorView { status: JudgeStatus::SystemError, message: reason@ },
            ),
            CompileAttempt::Exited { success, stderr } => if success {
                Ok(())
            } else {
                Err(rejection_view(l, utf8_lossy(stderr@)))
            },
        },
    }
}

/// The error for a command of a compile plan that ran and failed, given the
/// text that it wrote to its standard error.
pub fn rejection(language: Language, diagnostics: &str) -> (error: JudgeError)
    ensures
        error@ == rejection_view(language, diagnostics@),
{
    match language {
        Language::Python => JudgeError {
            status: JudgeStatus::SystemError,
            message: String::from_str("Python interpreter not found"),
        },
        _ => JudgeError {
            status: JudgeStatus::CompilationError,
            message: String::from_str("Compilation error: ").concat(diagnostics),
        },
    }
}

/// What a supervised run means.
///
/// A child that could not be started, that exited with a failure, or whose
/// output is not text, has failed; one that exited successfully has completed
/// with its output, the time it took and its peak memory; one that met the
/// deadline has timed out.
pub open spec fn run_verdict(event: RunEvent) -> OutcomeView {
    match event {
        RunEvent::SpawnFailed { reason } => OutcomeView::Failed { message: reason@ },
        RunEvent::Exited { success, stdout, elapsed, peak_memory } => if !success {
            OutcomeView::Failed { message: runtime_error() }
        } else if !valid_utf8(stdout@) {
            OutcomeView::Failed { message: output_not_utf8() }
        } else {
            OutcomeView::Completed {
                output: decode_utf8(stdout@),
                time_used: elapsed@,
                memory_used: peak_memory as nat,
            }
        },
        RunEvent::DeadlineReached { elapsed, peak_memory } => OutcomeView::TimedOut {
            time_used: elapsed@,
            memory_used: peak_memory as nat,
        },
    }
}

/// Knows how a submission is compiled and run.
#[derive(Debug, Clone)]
pub struct Runner {
    config: JudgeConfig,
}

impl Runner {
    /// The configuration that the runner was made with.
    pub closed spec fn view_config(&self) -> JudgeConfig {
        self.config
    }

    /// The language of the submission, where the registry knows its tag.
    pub open spec fn language(&self) -> Option<Language> {
        Language::of_tag(self.view_config().language@)
    }

    pub fn new(config: JudgeConfig) -> (runner: Runner)
        ensures
            runner.view_config() == config,
    {
        Runner { config }
    }

    pub fn config(&self) -> (config: &JudgeConfig)
        ensures
            *config == self.view_config(),
    {
        &self.config
    }

    /// The registry's entry for the submission's language.
    pub fn toolchain(&self, host: HostOs) -> (found: Result<ToolchainSpec, JudgeError>)
        ensures
            match found {
                Ok(spec) => self.language() == Some(spec@.language) && spec@
                    == spec@.language.toolchain(host),
                Err(e) => self.language() is None && e@ == (ErrorView {
                    status: JudgeStatus::SystemError,
                    message: unsupported_language(),
                }),
            },
    {
        resolve(self.config.language.as_str(), host)
    }

    /// What to do in order to compile the submission: write the program text
    /// to the source file, then run the compiler; or, for an interpreted
    /// language, probe for the interpreter. A compiled language's source is
    /// removed once the compiler has succeeded.
    pub fn compile_plan(&self, host: HostOs) -> (plan: Result<CompilePlan<'_>, JudgeError>)
        ensures
            match plan {
                Ok(p) => self.language() matches Some(l) && p.source_name@ == l.source_name()
                    && p.source_code@ == self.view_config().source_code@ && p.command@
                    == plan_cmd(l, host) && p.remove_source == !l.interpreted(),
                Err(e) => self.language() is None && e@ == (ErrorView {
                    status: JudgeStatus::SystemError,
                    message: unsupported_language(),
                }),
            },
    {
        match resolve(self.config.language.as_str(), host) {
            Err(e) => Err(e),
            Ok(spec) => {
                let remove_source = spec.compile_cmd.is_some();
                let command = match spec.compile_cmd {
                    Some(c) => c,
                    None => {
                        let probe = Command {
                            program: spec.run_cmd.program,
                            args: vec!["-c", "print('test')"],
                        };
                        assert(probe@.args =~= probe_cmd(probe@.program).args);
                        probe
                    },
                };
                Ok(
                    CompilePlan {
                        source_name: spec.source_name,
                        source_code: self.config.source_code.as_str(),
                        command,
                        remove_source,
                    },
                )
            },
        }
    }

    /// Decides what a compile attempt means.
    pub fn compile(&self, attempt: CompileAttempt) -> (done: Result<(), JudgeError>)
        ensures
            match done {
                Ok(()) => compile_verdict(self.language(), attempt) is Ok,
                Err(e) => compile_verdict(self.language(), attempt) == Err::<(), ErrorView>(e@),
            },
    {
        let language = match Language::parse(self.config.language.as_str()) {
            Some(l) => l,
            None => {
                return Err(
                    JudgeError {
                        status: JudgeStatus::SystemError,
                        message: String::from_str("Unsupported language"),
                    },
                );
            },
        };
        match attempt {
            CompileAttempt::WriteFailed { reason } => Err(
                JudgeError { status: JudgeStatus::SystemError, message: reason },
            ),
            CompileAttempt::SpawnFailed { reason } => Err(
                JudgeError { status: JudgeStatus::SystemError, message: reason },
            ),
            CompileAttempt::Exited { success, stderr } => {
                if success {
                    Ok(())
                } else {
                    let diagnostics = decode_lossy(stderr.as_slice());
                    Err(rejection(language, diagnostics.as_str()))
                }
            },
        }
    }

    /// What to do in order to run the submission on one input.
    pub fn run_plan<'a>(&self, host: HostOs, input: &'a str) -> (plan: Result<
        RunPlan<'a>,
        JudgeError,
    >)
        ensures
            match plan {
                Ok(p) => self.language() matches Some(l) && p.command@ == l.run_cmd(host)
                    && p.input@ == input@ && p.time_limit == self.view_config().time_limit,
                Err(e) => self.language() is None && e@ == (ErrorView {
                    status: JudgeStatus::SystemError,
                    message: unsupported_language(),
                }),
            },
    {
        match resolve(self.config.language.as_str(), host) {
            Err(e) => Err(e),
            Ok(spec) => Ok(
                RunPlan { command: spec.run_cmd, input, time_limit: self.config.time_limit },
            ),
        }
    }

    /// Decides what a supervised run means.
    pub fn run(&self, event: RunEvent) -> (outcome: RunOutcome)
        ensures
            outcome@ == run_verdict(event),
    {
        match event {
            RunEvent::SpawnFailed { reason } => RunOutcome::Failed { message: reason },
            RunEvent::Exited { success, stdout, elapsed, peak_memory } => {
                if !success {
                    RunOutcome::Failed { message: String::from_str("Runtime error") }
                } else {
                    match decode_strict(stdout) {
                        Some(output) => RunOutcome::Completed {
                            output,
                            time_used: elapsed,
                            memory_used: peak_memory,
                        },
                        None => RunOutcome::Failed {
                            message: String::from_str("Output is not valid UTF-8"),
                        },
                    }
                }
            },
            RunEvent::DeadlineReached { elapsed, peak_memory } => RunOutcome::TimedOut {
                time_used: elapsed,
                memory_used: peak_memory,
            },
        }
    }

    /// The paths to remove when the submission is done with: those of its
    /// language, and none where the language is unknown.
    pub fn cleanup(&self) -> (entries: Vec<CleanupEntry>)
        ensures
            entries@.map_values(|e: CleanupEntry| e@) == match self.language() {
                Some(l) => l.cleanup(),
                None => Seq::empty(),
            },
    {
        match Language::parse(self.config.language.as_str()) {
            Some(language) => ToolchainSpec::of(language, HostOs::Other).cleanup,
            None => {
                let none: Vec<CleanupEntry> = Vec::new();
                assert(none@.map_values(|e: CleanupEntry| e@) =~= Seq::<CleanupView>::empty());
                none
            },
        }
    }
}

} // verus!
