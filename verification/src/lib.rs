//! A judging engine for programming submissions, with its decisions proved.
//!
//! The library decides; it does no work on the machine. Whoever drives it
//! writes files, starts processes and measures them, and hands what was
//! observed to the library as plain values.

pub mod grpc;
pub mod judge;

pub use crate::judge::{
    Checker, Duration, Judge, JudgeConfig, JudgeError, JudgeResult, JudgeStatus, Runner, TestCase,
    TestCaseResult,
};
