//! The judging core: data model, toolchain registry, compile and run
//! decisions, memory probe, output checking and verdict aggregation.

pub mod checker;
pub mod orchestrator;
pub mod probe;
pub mod runner;
pub mod toolchain;
pub mod types;
pub mod verdict;

pub use self::checker::Checker;
pub use self::orchestrator::Judge;
pub use self::runner::Runner;
pub use self::types::{
    Duration, JudgeConfig, JudgeError, JudgeResult, JudgeStatus, TestCase, TestCaseResult,
};
