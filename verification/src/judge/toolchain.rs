//! The toolchain registry: what to write, compile, run and clean up for each
//! recognised language.

use crate::judge::types::{JudgeError, JudgeStatus};
use vstd::prelude::*;
use vstd::string::StringExecFns;

verus! {

/// The operating system that the judge runs on, as far as the registry and
/// the memory probe care.
#[derive(Debug, Clone, Copy, PartialEq, Eq, Hash, Structural)]
pub enum HostOs {
    Linux,
    Windows,
    Other,
}

/// A language that the registry knows.
#[derive(Debug, Clone, Copy, PartialEq, Eq, Hash, Structural)]
pub enum Language {
    C,
    Cpp,
    Python,
    Java,
    Go,
}

/// The mathematical content of a [`Command`]: the program and its arguments.
pub struct CommandView {
    pub program: Seq<char>,
    pub args: Seq<Seq<char>>,
}

/// The mathematical content of a [`CleanupEntry`].
pub struct CleanupView {
    pub path: Seq<char>,
    pub is_dir: bool,
}

/// The mathematical content of a [`ToolchainSpec`].
pub struct ToolchainView {
    pub language: Language,
    pub source_name: Seq<char>,
    pub artifact_name: Seq<char>,
    pub compile_cmd: Option<CommandView>,
    pub run_cmd: CommandView,
    pub cleanup: Seq<CleanupView>,
}

impl Language {
    /// The tag under which a submission names this language.
    pub open spec fn tag(self) -> Seq<char> {
        match self {
            Language::C => "c"@,
            Language::Cpp => "cpp"@,
            Language::Python => "python"@,
            Language::Java => "java"@,
            Language::Go => "go"@,
        }
    }

    /// The language that a tag names, if any.
    pub open spec fn of_tag(tag: Seq<char>) -> Option<Language> {
        if tag == "c"@ {
            Some(Language::C)
        } else if tag == "cpp"@ {
            Some(Language::Cpp)
        } else if tag == "python"@ {
            Some(Language::Python)
        } else if tag == "java"@ {
            Some(Language::Java)
        } else if tag == "go"@ {
            Some(Language::Go)
        } else {
            None
        }
    }

    /// Interpreted languages have no compile step: their source is run as it is.
    pub open spec fn interpreted(self) -> bool {
        self == Language::Python
    }

    /// The file that the submitted program is written to.
    pub open spec fn source_name(self) -> Seq<char> {
        match self {
            Language::C => "solution.c"@,
            Language::Cpp => "solution.cpp"@,
            Language::Python => "solution.py"@,
            Language::Java => "Main.java"@,
            Language::Go => "solution.go"@,
        }
    }

    /// The file that a run needs: the compiler's product, or the source of an
    /// interpreted language.
    pub open spec fn artifact_name(self) -> Seq<char> {
        match self {
            Language::C => "solution"@,
            Language::Cpp => "solution"@,
            Language::Python => "solution.py"@,
            Language::Java => "Main.class"@,
            Language::Go => "solution"@,
        }
    }

    /// The interpreter for Python on a given host.
    pub open spec fn python(host: HostOs) -> Seq<char> {
        if host == HostOs::Windows {
            "python"@
        } else {
            "python3"@
        }
    }

    /// The compiler invocation, for the languages that have one.
    pub open spec fn compile_cmd(self) -> Option<CommandView> {
        match self {
            Language::C => Some(
                CommandView { program: "gcc"@, args: seq!["solution.c"@, "-o"@, "solution"@] },
            ),
            Language::Cpp => Some(
                CommandView { program: "g++"@, args: seq!["solution.cpp"@, "-o"@, "solution"@] },
            ),
            Language::Python => None,
            Language::Java => Some(CommandView { program: "javac"@, args: seq!["Main.java"@] }),
            Language::Go => Some(
                CommandView {
                    program: "go"@,
                    args: seq!["build"@, "-o"@, "solution"@, "solution.go"@],
                },
            ),
        }
    }

    /// The invocation that runs the program once.
    pub open spec fn run_cmd(self, host: HostOs) -> CommandView {
        match self {
            Language::C => CommandView { program: "./solution"@, args: seq![] },
            Language::Cpp => CommandView { program: "./solution"@, args: seq![] },
            Language::Python => CommandView {
                program: Language::python(host),
                args: seq!["solution.py"@],
            },
            Language::Java => CommandView { program: "java"@, args: seq!["Main"@] },
            Language::Go => CommandView { program: "./solution"@, args: seq![] },
        }
    }

    /// Everything that a submission in this language may leave behind.
    pub open spec fn cleanup(self) -> Seq<CleanupView> {
        match self {
            Language::C => seq![
                CleanupView { path: "solution.c"@, is_dir: false },
                CleanupView { path: "solution"@, is_dir: false },
                CleanupView { path: "solution.exe"@, is_dir: false },
            ],
            Language::Cpp => seq![
                CleanupView { path: "solution.cpp"@, is_dir: false },
                CleanupView { path: "solution"@, is_dir: false },
                CleanupView { path: "solution.exe"@, is_dir: false },
            ],
            Language::Python => seq![
                CleanupView { path: "solution.py"@, is_dir: false },
                CleanupView { path: "__pycache__"@, is_dir: true },
            ],
            Language::Java => seq![
                CleanupView { path: "Main.class"@, is_dir: false },
                CleanupView { path: "Main.java"@, is_dir: false },
            ],
            Language::Go => seq![
                CleanupView { path: "solution.go"@, is_dir: false },
                CleanupView { path: "solution"@, is_dir: false },
                CleanupView { path: "solution.exe"@, is_dir: false },
            ],
        }
    }

    /// The registry's entry for this language on a given host.
    pub open spec fn toolchain(self, host: HostOs) -> ToolchainView {
        ToolchainView {
            language: self,
            source_name: self.source_name(),
            artifact_name: self.artifact_name(),
            compile_cmd: self.compile_cmd(),
            run_cmd: self.run_cmd(host),
            cleanup: self.cleanup(),
        }
    }

    /// Reads a language tag.
    pub fn parse(tag: &str) -> (language: Option<Language>)
        ensures
            language == Language::of_tag(tag@),
    {
        let t: String = String::from_str(tag);
        if t == String::from_str("c") {
            Some(Language::C)
        } else if t == String::from_str("cpp") {
            Some(Language::Cpp)
        } else if t == String::from_str("python") {
            Some(Language::Python)
        } else if t == String::from_str("java") {
            Some(Language::Java)
        } else if t == String::from_str("go") {
            Some(Language::Go)
        } else {
            None
        }
    }
}

/// A program to start, with its arguments.
#[derive(Debug, Clone)]
pub struct Command {
    pub program: &'static str,
    pub args: Vec<&'static str>,
}

impl View for Command {
    type V = CommandView;

    open spec fn view(&self) -> CommandView {
        CommandView { program: self.program@, args: self.args@.map_values(|a: &'static str| a@) }
    }
}

/// A path to remove when a submission is done with.
#[derive(Debug, Clone, Copy)]
pub struct CleanupEntry {
    pub path: &'static str,
    /// Whether the path is a directory, to be removed with what it holds.
    pub is_dir: bool,
}

impl View for CleanupEntry {
    type V = CleanupView;

    open spec fn view(&self) -> CleanupView {
        CleanupView { path: self.path@, is_dir: self.is_dir }
    }
}

/// The registry's entry for one language.
#[derive(Debug, Clone)]
pub struct ToolchainSpec {
    pub language: Language,
    pub source_name: &'static str,
    pub artifact_name: &'static str,
    /// `None` for an interpreted language.
    pub compile_cmd: Option<Command>,
    pub run_cmd: Command,
    pub cleanup: Vec<CleanupEntry>,
}

impl View for ToolchainSpec {
    type V = ToolchainView;

    open spec fn view(&self) -> ToolchainView {
        ToolchainView {
            language: self.language,
            source_name: self.source_name@,
            artifact_name: self.artifact_name@,
            compile_cmd: match self.compile_cmd {
                Some(c) => Some(c@),
                None => None,
            },
            run_cmd: self.run_cmd@,
            cleanup: self.cleanup@.map_values(|e: CleanupEntry| e@),
        }
    }
}

/// The message of the error for a tag that the registry does not know.
pub open spec fn unsupported_language() -> Seq<char> {
    "Unsupported language"@
}

fn file(path: &'static str) -> (e: CleanupEntry)
    ensures
        e@ == (CleanupView { path: path@, is_dir: false }),
{
    CleanupEntry { path, is_dir: false }
}

fn directory(path: &'static str) -> (e: CleanupEntry)
    ensures
        e@ == (CleanupView { path: path@, is_dir: true }),
{
    CleanupEntry { path, is_dir: true }
}

fn command(program: &'static str, args: Vec<&'static str>) -> (c: Command)
    ensures
        c@.program == program@,
        c@.args == args@.map_values(|a: &'static str| a@),
{
    Command { program, args }
}

impl ToolchainSpec {
    /// The registry's entry for a language on a given host.
    pub fn of(language: Language, host: HostOs) -> (spec: ToolchainSpec)
        ensures
            spec@ == language.toolchain(host),
    {
        let spec = match language {
            Language::C => ToolchainSpec {
                language,
                source_name: "solution.c",
                artifact_name: "solution",
                compile_cmd: Some(command("gcc", vec!["solution.c", "-o", "solution"])),
                run_cmd: command("./solution", vec![]),
                cleanup: vec![file("solution.c"), file("solution"), file("solution.exe")],
            },
            Language::Cpp => ToolchainSpec {
                language,
                source_name: "solution.cpp",
                artifact_name: "solution",
                compile_cmd: Some(command("g++", vec!["solution.cpp", "-o", "solution"])),
                run_cmd: command("./solution", vec![]),
                cleanup: vec![file("solution.cpp"), file("solution"), file("solution.exe")],
            },
            Language::Python => {
                let interpreter: &'static str = match host {
                    HostOs::Windows => "python",
                    _ => "python3",
                };
                ToolchainSpec {
                    language,
                    source_name: "solution.py",
                    artifact_name: "solution.py",
                    compile_cmd: None,
                    run_cmd: command(interpreter, vec!["solution.py"]),
                    cleanup: vec![file("solution.py"), directory("__pycache__")],
                }
            },
            Language::Java => ToolchainSpec {
                language,
                source_name: "Main.java",
                artifact_name: "Main.class",
                compile_cmd: Some(command("javac", vec!["Main.java"])),
                run_cmd: command("java", vec!["Main"]),
                cleanup: vec![file("Main.class"), file("Main.java")],
            },
            Language::Go => ToolchainSpec {
                language,
                source_name: "solution.go",
                artifact_name: "solution",
                compile_cmd: Some(
                    command("go", vec!["build", "-o", "solution", "solution.go"]),
                ),
                run_cmd: command("./solution", vec![]),
                cleanup: vec![file("solution.go"), file("solution"), file("solution.exe")],
            },
        };
        assert(spec@.run_cmd.args =~= language.run_cmd(host).args);
        assert(spec@.cleanup =~= language.cleanup());
        assert(spec@.compile_cmd is Some ==> spec@.compile_cmd->0.args
            =~= language.compile_cmd()->0.args);
        spec
    }
}

/// Looks a language tag up in the registry.
///
/// The tags `c`, `cpp`, `python`, `java` and `go` are known; any other tag is
/// a system error.
pub fn resolve(tag: &str, host: HostOs) -> (found: Result<ToolchainSpec, JudgeError>)
    ensures
        match found {
            Ok(spec) => Language::of_tag(tag@) == Some(spec@.language) && spec@
                == spec@.language.toolchain(host),
            Err(e) => Language::of_tag(tag@) is None && e.status == JudgeStatus::SystemError
                && e.message@ == unsupported_language(),
        },
{
    match Language::parse(tag) {
        Some(language) => Ok(ToolchainSpec::of(language, host)),
        None => Err(
            JudgeError {
                status: JudgeStatus::SystemError,
                message: String::from_str("Unsupported language"),
            },
        ),
    }
}

/// Every language is found under its own tag, and under no other.
pub proof fn lemma_tags_distinct(language: Language)
    ensures
        Language::of_tag(language.tag()) == Some(language),
{
    reveal_strlit("c");
    reveal_strlit("cpp");
    reveal_strlit("python");
    reveal_strlit("java");
    reveal_strlit("go");
    assert("c"@.len() == 1);
    assert("cpp"@.len() == 3);
    assert("python"@.len() == 6);
    assert("java"@.len() == 4);
    assert("go"@.len() == 2);
}

/// Whether the cleanup set of a language holds a path.
pub open spec fn cleans(language: Language, path: Seq<char>) -> bool {
    exists|k: int| 0 <= k < language.cleanup().len() && (#[trigger] language.cleanup()[k]).path
        == path
}

/// Nothing that compiling or running a submission puts in the workspace
/// outlives the cleanup: the source file and the artifact of every language
/// are in its cleanup set.
pub proof fn lemma_cleanup_covers_artifacts(language: Language)
    ensures
        cleans(language, language.source_name()),
        cleans(language, language.artifact_name()),
{
    let set = language.cleanup();
    match language {
        Language::C => {
            assert(set[0].path == language.source_name());
            assert(set[1].path == language.artifact_name());
        },
        Language::Cpp => {
            assert(set[0].path == language.source_name());
            assert(set[1].path == language.artifact_name());
        },
        Language::Python => {
            assert(set[0].path == language.source_name());
            assert(set[0].path == language.artifact_name());
        },
        Language::Java => {
            assert(set[1].path == language.source_name());
            assert(set[0].path == language.artifact_name());
        },
        Language::Go => {
            assert(set[0].path == language.source_name());
            assert(set[1].path == language.artifact_name());
        },
    }
}

/// A language has a compile step exactly when it is not interpreted, and an
/// interpreted language runs its source.
pub proof fn lemma_interpreted(language: Language)
    ensures
        language.compile_cmd() is None <==> language.interpreted(),
        language.interpreted() ==> language.artifact_name() == language.source_name(),
{
}

} // verus!
