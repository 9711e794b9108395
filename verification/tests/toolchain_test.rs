use opti_neko::judge::toolchain::{resolve, HostOs, Language, ToolchainSpec};
use opti_neko::judge::types::JudgeStatus;

#[test]
fn resolve_knows_five_tags() {
    for (tag, language) in [
        ("c", Language::C),
        ("cpp", Language::Cpp),
        ("python", Language::Python),
        ("java", Language::Java),
        ("go", Language::Go),
    ] {
        assert_eq!(Language::parse(tag), Some(language));
        let spec = resolve(tag, HostOs::Linux).unwrap();
        assert_eq!(spec.language, language);
    }
}

#[test]
fn resolve_refuses_other_tags() {
    for tag in ["", "C", "c++", "rust", "python3", " cpp", "cpp ", "Go"] {
        assert_eq!(Language::parse(tag), None);
        let error = resolve(tag, HostOs::Linux).unwrap_err();
        assert_eq!(error.status, JudgeStatus::SystemError);
        assert_eq!(error.message, "Unsupported language");
    }
}

#[test]
fn cpp_toolchain() {
    let spec = resolve("cpp", HostOs::Linux).unwrap();
    assert_eq!(spec.source_name, "solution.cpp");
    assert_eq!(spec.artifact_name, "solution");
    let compile = spec.compile_cmd.unwrap();
    assert_eq!(compile.program, "g++");
    assert_eq!(compile.args, vec!["solution.cpp", "-o", "solution"]);
    assert_eq!(spec.run_cmd.program, "./solution");
    assert!(spec.run_cmd.args.is_empty());
    let paths: Vec<&str> = spec.cleanup.iter().map(|e| e.path).collect();
    assert_eq!(paths, vec!["solution.cpp", "solution", "solution.exe"]);
    assert!(spec.cleanup.iter().all(|e| !e.is_dir));
}

#[test]
fn c_toolchain() {
    let spec = ToolchainSpec::of(Language::C, HostOs::Windows);
    assert_eq!(spec.source_name, "solution.c");
    assert_eq!(spec.artifact_name, "solution");
    let compile = spec.compile_cmd.unwrap();
    assert_eq!(compile.program, "gcc");
    assert_eq!(compile.args, vec!["solution.c", "-o", "solution"]);
    assert_eq!(spec.run_cmd.program, "./solution");
    let paths: Vec<&str> = spec.cleanup.iter().map(|e| e.path).collect();
    assert_eq!(paths, vec!["solution.c", "solution", "solution.exe"]);
}

#[test]
fn python_toolchain_depends_on_the_host() {
    let linux = resolve("python", HostOs::Linux).unwrap();
    assert!(linux.compile_cmd.is_none());
    assert_eq!(linux.source_name, "solution.py");
    assert_eq!(linux.artifact_name, "solution.py");
    assert_eq!(linux.run_cmd.program, "python3");
    assert_eq!(linux.run_cmd.args, vec!["solution.py"]);
    let windows = resolve("python", HostOs::Windows).unwrap();
    assert_eq!(windows.run_cmd.program, "python");
    let other = resolve("python", HostOs::Other).unwrap();
    assert_eq!(other.run_cmd.program, "python3");
    let entries: Vec<(&str, bool)> = linux.cleanup.iter().map(|e| (e.path, e.is_dir)).collect();
    assert_eq!(entries, vec![("solution.py", false), ("__pycache__", true)]);
}

#[test]
fn java_toolchain() {
    let spec = resolve("java", HostOs::Linux).unwrap();
    assert_eq!(spec.source_name, "Main.java");
    assert_eq!(spec.artifact_name, "Main.class");
    let compile = spec.compile_cmd.unwrap();
    assert_eq!(compile.program, "javac");
    assert_eq!(compile.args, vec!["Main.java"]);
    assert_eq!(spec.run_cmd.program, "java");
    assert_eq!(spec.run_cmd.args, vec!["Main"]);
    let paths: Vec<&str> = spec.cleanup.iter().map(|e| e.path).collect();
    assert_eq!(paths, vec!["Main.class", "Main.java"]);
}

#[test]
fn go_toolchain() {
    let spec = resolve("go", HostOs::Linux).unwrap();
    assert_eq!(spec.source_name, "solution.go");
    assert_eq!(spec.artifact_name, "solution");
    let compile = spec.compile_cmd.unwrap();
    assert_eq!(compile.program, "go");
    assert_eq!(compile.args, vec!["build", "-o", "solution", "solution.go"]);
    assert_eq!(spec.run_cmd.program, "./solution");
    let paths: Vec<&str> = spec.cleanup.iter().map(|e| e.path).collect();
    assert_eq!(paths, vec!["solution.go", "solution", "solution.exe"]);
}

#[test]
fn cleanup_covers_source_and_artifact() {
    for language in [Language::C, Language::Cpp, Language::Python, Language::Java, Language::Go] {
        for host in [HostOs::Linux, HostOs::Windows, HostOs::Other] {
            let spec = ToolchainSpec::of(language, host);
            assert!(spec.cleanup.iter().any(|e| e.path == spec.source_name));
            assert!(spec.cleanup.iter().any(|e| e.path == spec.artifact_name));
        }
    }
}
