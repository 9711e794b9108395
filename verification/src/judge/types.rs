//! The data model shared by every component of the judge.

use vstd::prelude::*;

verus! {

/// Nanoseconds in one millisecond.
pub const NANOS_PER_MILLI: u128 = 1_000_000;

/// Nanoseconds in one second.
pub const NANOS_PER_SEC: u128 = 1_000_000_000;

/// A span of wall-clock time, counted in whole nanoseconds.
///
/// Its view is the number of nanoseconds.
#[derive(Debug, Clone, Copy, PartialEq, Eq, Hash, Structural)]
pub struct Duration {
    nanos: u128,
}

impl View for Duration {
    type V = nat;

    closed spec fn view(&self) -> nat {
        self.nanos as nat
    }
}

impl Duration {
    /// Two spans of the same length are the same span.
    pub proof fn lemma_view_injective(self, other: Duration)
        requires
            self@ == other@,
        ensures
            self == other,
    {
    }

    /// The empty span.
    pub fn zero() -> (d: Duration)
        ensures
            d@ == 0,
    {
        Duration { nanos: 0 }
    }

    pub fn from_nanos(nanos: u128) -> (d: Duration)
        ensures
            d@ == nanos,
    {
        Duration { nanos }
    }

    pub fn from_millis(millis: u64) -> (d: Duration)
        ensures
            d@ == millis * NANOS_PER_MILLI,
    {
        let wide: u128 = millis as u128;
        Duration { nanos: wide * NANOS_PER_MILLI }
    }

    pub fn from_secs(secs: u64) -> (d: Duration)
        ensures
            d@ == secs * NANOS_PER_SEC,
    {
        let wide: u128 = secs as u128;
        Duration { nanos: wide * NANOS_PER_SEC }
    }

    pub fn as_nanos(&self) -> (n: u128)
        ensures
            n == self@,
    {
        self.nanos
    }

    /// Whole milliseconds, rounded down.
    pub fn as_millis(&self) -> (n: u128)
        ensures
            n == self@ / (NANOS_PER_MILLI as nat),
    {
        self.nanos / NANOS_PER_MILLI
    }

    /// The longer of two spans.
    pub fn max(self, other: Duration) -> (d: Duration)
        ensures
            d@ == if self@ >= other@ { self@ } else { other@ },
            d == self || d == other,
    {
        if self.nanos >= other.nanos {
            self
        } else {
            other
        }
    }

    /// The shorter of two spans.
    pub fn min(self, other: Duration) -> (d: Duration)
        ensures
            d@ == if self@ <= other@ { self@ } else { other@ },
            d == self || d == other,
    {
        if self.nanos <= other.nanos {
            self
        } else {
            other
        }
    }

    pub fn is_zero(&self) -> (b: bool)
        ensures
            b == (self@ == 0),
    {
        self.nanos == 0
    }
}

impl Default for Duration {
    fn default() -> (d: Duration)
        ensures
            d@ == 0,
    {
        Duration { nanos: 0 }
    }
}

/// The classification of one execution, or of a whole submission.
#[derive(Debug, Clone, Copy, PartialEq, Eq, Hash, Structural)]
pub enum JudgeStatus {
    Accepted,
    WrongAnswer,
    TimeLimitExceeded,
    MemoryLimitExceeded,
    RuntimeError,
    CompilationError,
    SystemError,
}

impl JudgeStatus {
    /// The number that stands for a verdict on the wire: its position in the
    /// declaration.
    pub open spec fn wire_code(self) -> int {
        match self {
            JudgeStatus::Accepted => 0,
            JudgeStatus::WrongAnswer => 1,
            JudgeStatus::TimeLimitExceeded => 2,
            JudgeStatus::MemoryLimitExceeded => 3,
            JudgeStatus::RuntimeError => 4,
            JudgeStatus::CompilationError => 5,
            JudgeStatus::SystemError => 6,
        }
    }

    /// The wire number of a verdict.
    pub fn code(self) -> (c: i32)
        ensures
            c == self.wire_code(),
    {
        match self {
            JudgeStatus::Accepted => 0,
            JudgeStatus::WrongAnswer => 1,
            JudgeStatus::TimeLimitExceeded => 2,
            JudgeStatus::MemoryLimitExceeded => 3,
            JudgeStatus::RuntimeError => 4,
            JudgeStatus::CompilationError => 5,
            JudgeStatus::SystemError => 6,
        }
    }
}

/// One input together with the output that a correct program prints for it.
#[derive(Debug, Clone)]
pub struct TestCase {
    pub input: String,
    pub expected_output: String,
}

/// What one test case came to.
#[derive(Debug, Clone)]
pub struct TestCaseResult {
    pub status: JudgeStatus,
    pub time_used: Duration,
    pub memory_used: u64,
    pub actual_output: String,
    pub test_case_id: usize,
}

/// The mathematical content of a [`TestCaseResult`].
pub struct CaseView {
    pub status: JudgeStatus,
    pub time_used: nat,
    pub memory_used: nat,
    pub actual_output: Seq<char>,
    pub test_case_id: nat,
}

impl View for TestCaseResult {
    type V = CaseView;

    open spec fn view(&self) -> CaseView {
        CaseView {
            status: self.status,
            time_used: self.time_used@,
            memory_used: self.memory_used as nat,
            actual_output: self.actual_output@,
            test_case_id: self.test_case_id as nat,
        }
    }
}

/// What a whole submission came to.
#[derive(Debug, Clone)]
pub struct JudgeResult {
    pub status: JudgeStatus,
    pub time_used: Duration,
    pub memory_used: u64,
    pub error_message: Option<String>,
    pub test_case_results: Vec<TestCaseResult>,
}

/// The mathematical content of a [`JudgeResult`].
pub struct ResultView {
    pub status: JudgeStatus,
    pub time_used: nat,
    pub memory_used: nat,
    pub error_message: Option<Seq<char>>,
    pub cases: Seq<CaseView>,
}

impl View for JudgeResult {
    type V = ResultView;

    open spec fn view(&self) -> ResultView {
        ResultView {
            status: self.status,
            time_used: self.time_used@,
            memory_used: self.memory_used as nat,
            error_message: match self.error_message {
                Some(m) => Some(m@),
                None => None,
            },
            cases: views_of(self.test_case_results@),
        }
    }
}

/// The mathematical content of a series of case results.
pub open spec fn views_of(results: Seq<TestCaseResult>) -> Seq<CaseView> {
    results.map_values(|r: TestCaseResult| r@)
}

/// Why a submission could not be judged case by case: the compiler rejected
/// it (`CompilationError`), or the judge itself could not do its work
/// (`SystemError`).
#[derive(Debug, Clone)]
pub struct JudgeError {
    pub status: JudgeStatus,
    pub message: String,
}

/// The mathematical content of a [`JudgeError`].
pub struct ErrorView {
    pub status: JudgeStatus,
    pub message: Seq<char>,
}

impl View for JudgeError {
    type V = ErrorView;

    open spec fn view(&self) -> ErrorView {
        ErrorView { status: self.status, message: self.message@ }
    }
}

/// The parameters under which a submission is judged.
#[derive(Debug, Clone)]
pub struct JudgeConfig {
    /// Wall-clock limit for each test case.
    pub time_limit: Duration,
    /// Memory limit for each test case, in bytes.
    pub memory_limit: u64,
    /// Language tag of the submission.
    pub language: String,
    /// The program text.
    pub source_code: String,
}

/// The memory limit of the default configuration: 256 MiB.
pub const DEFAULT_MEMORY_LIMIT: u64 = 268_435_456;

impl Default for JudgeConfig {
    /// One second, 256 MiB, and neither language nor source.
    fn default() -> (config: JudgeConfig)
        ensures
            config.time_limit@ == NANOS_PER_SEC,
            config.memory_limit == DEFAULT_MEMORY_LIMIT,
            config.language@ == Seq::<char>::empty(),
            config.source_code@ == Seq::<char>::empty(),
    {
        JudgeConfig {
            time_limit: Duration::from_secs(1),
            memory_limit: DEFAULT_MEMORY_LIMIT,
            language: String::new(),
            source_code: String::new(),
        }
    }
}

} // verus!
