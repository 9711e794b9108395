//! Validation of a submit request and the shape of its reply.
//!
//! Requests carry the time limit in milliseconds and the memory limit in
//! megabytes; replies carry time in whole milliseconds and memory in
//! hundredths of a kilobyte.

use crate::judge::types::{
    CaseView, Duration, JudgeConfig, JudgeResult, JudgeStatus, ResultView, TestCaseResult,
    NANOS_PER_MILLI,
};
use vstd::prelude::*;
use vstd::string::StringExecFns;

verus! {

/// Bytes in one megabyte, the unit of a request's memory limit.
pub const BYTES_PER_MEGABYTE: u64 = 1_048_576;

/// Why a request is refused before anything is judged.
#[derive(Debug, Clone, Copy, PartialEq, Eq, Hash, Structural)]
pub enum RequestError {
    EmptyLanguage,
    EmptySourceCode,
    NonPositiveTimeLimit,
    ZeroMemoryLimit,
    NoTestCases,
}

/// What is wrong with a request, if anything: the first of these that
/// holds - no language, no source, a time limit that is not positive, a
/// memory limit of zero, no test case.
pub open spec fn request_error(
    language: Seq<char>,
    source_code: Seq<char>,
    time_limit: int,
    memory_limit: int,
    case_count: int,
) -> Option<RequestError> {
    if language.len() == 0 {
        Some(RequestError::EmptyLanguage)
    } else if source_code.len() == 0 {
        Some(RequestError::EmptySourceCode)
    } else if time_limit <= 0 {
        Some(RequestError::NonPositiveTimeLimit)
    } else if memory_limit == 0 {
        Some(RequestError::ZeroMemoryLimit)
    } else if case_count == 0 {
        Some(RequestError::NoTestCases)
    } else {
        None
    }
}

impl RequestError {
    /// The text that tells the client what is wrong.
    pub open spec fn text(self) -> Seq<char> {
        match self {
            RequestError::EmptyLanguage => "language must not be empty"@,
            RequestError::EmptySourceCode => "source code must not be empty"@,
            RequestError::NonPositiveTimeLimit => "time limit must be greater than 0"@,
            RequestError::ZeroMemoryLimit => "memory limit must be greater than 0"@,
            RequestError::NoTestCases => "test cases must not be empty"@,
        }
    }

    pub fn message(&self) -> (message: String)
        ensures
            message@ == self.text(),
    {
        match self {
            RequestError::EmptyLanguage => String::from_str("language must not be empty"),
            RequestError::EmptySourceCode => String::from_str("source code must not be empty"),
            RequestError::NonPositiveTimeLimit => String::from_str(
                "time limit must be greater than 0",
            ),
            RequestError::ZeroMemoryLimit => String::from_str(
                "memory limit must be greater than 0",
            ),
            RequestError::NoTestCases => String::from_str("test cases must not be empty"),
        }
    }
}

/// Checks a request, and turns its limits into the judge's units.
///
/// `time_limit` is in milliseconds and `memory_limit` in megabytes.
pub fn submission(
    language: String,
    source_code: String,
    time_limit: i32,
    memory_limit: u32,
    case_count: usize,
) -> (config: Result<JudgeConfig, RequestError>)
    ensures
        match config {
            Ok(c) => request_error(
                language@,
                source_code@,
                time_limit as int,
                memory_limit as int,
                case_count as int,
            ) is None && c.language@ == language@ && c.source_code@ == source_code@
                && c.time_limit@ == time_limit * NANOS_PER_MILLI && c.memory_limit
                == memory_limit * BYTES_PER_MEGABYTE,
            Err(e) => request_error(
                language@,
                source_code@,
                time_limit as int,
                memory_limit as int,
                case_count as int,
            ) == Some(e),
        },
{
    if language.as_str().is_empty() {
        return Err(RequestError::EmptyLanguage);
    }
    if source_code.as_str().is_empty() {
        return Err(RequestError::EmptySourceCode);
    }
    if time_limit <= 0 {
        return Err(RequestError::NonPositiveTimeLimit);
    }
    if memory_limit == 0 {
        return Err(RequestError::ZeroMemoryLimit);
    }
    if case_count == 0 {
        return Err(RequestError::NoTestCases);
    }
    let millis: u64 = time_limit as u64;
    let megabytes: u64 = memory_limit as u64;
    Ok(
        JudgeConfig {
            time_limit: Duration::from_millis(millis),
            memory_limit: megabytes * BYTES_PER_MEGABYTE,
            language,
            source_code,
        },
    )
}

/// A number of bytes in hundredths of a kilobyte, rounded to the nearest,
/// and up where it lies halfway.
pub open spec fn centikilobytes(bytes: nat) -> nat {
    (bytes * 100 + 512) / 1024
}

/// A number of bytes in hundredths of a kilobyte.
pub fn kilobyte_hundredths(bytes: u64) -> (hundredths: u64)
    ensures
        hundredths == centikilobytes(bytes as nat),
{
    let wide: u128 = bytes as u128;
    let scaled: u128 = (wide * 100 + 512) / 1024;
    scaled as u64
}

/// The result of one test case as a reply carries it.
#[derive(Debug, Clone)]
pub struct CaseReply {
    pub status: i32,
    /// Whole milliseconds.
    pub time_used: u128,
    /// Hundredths of a kilobyte.
    pub memory_used: u64,
    pub actual_output: String,
    pub test_case_id: usize,
}

/// The mathematical content of a [`CaseReply`].
pub struct CaseReplyView {
    pub status: int,
    pub time_used: nat,
    pub memory_used: nat,
    pub actual_output: Seq<char>,
    pub test_case_id: nat,
}

impl View for CaseReply {
    type V = CaseReplyView;

    open spec fn view(&self) -> CaseReplyView {
        CaseReplyView {
            status: self.status as int,
            time_used: self.time_used as nat,
            memory_used: self.memory_used as nat,
            actual_output: self.actual_output@,
            test_case_id: self.test_case_id as nat,
        }
    }
}

/// The reply to a submit request.
#[derive(Debug, Clone)]
pub struct SubmitReply {
    pub status: i32,
    /// Whole milliseconds.
    pub time_used: u128,
    /// Hundredths of a kilobyte.
    pub memory_used: u64,
    /// Empty where the result has no error message.
    pub error_message: String,
    pub test_case_results: Vec<CaseReply>,
}

/// The mathematical content of a [`SubmitReply`].
pub struct ReplyView {
    pub status: int,
    pub time_used: nat,
    pub memory_used: nat,
    pub error_message: Seq<char>,
    pub cases: Seq<CaseReplyView>,
}

/// The mathematical content of a series of case replies.
pub open spec fn reply_views_of(replies: Seq<CaseReply>) -> Seq<CaseReplyView> {
    replies.map_values(|r: CaseReply| r@)
}

impl View for SubmitReply {
    type V = ReplyView;

    open spec fn view(&self) -> ReplyView {
        ReplyView {
            status: self.status as int,
            time_used: self.time_used as nat,
            memory_used: self.memory_used as nat,
            error_message: self.error_message@,
            cases: reply_views_of(self.test_case_results@),
        }
    }
}

/// What a reply says of one test case.
pub open spec fn case_reply(case: CaseView) -> CaseReplyView {
    CaseReplyView {
        status: case.status.wire_code(),
        time_used: case.time_used / (NANOS_PER_MILLI as nat),
        memory_used: centikilobytes(case.memory_used),
        actual_output: case.actual_output,
        test_case_id: case.test_case_id,
    }
}

/// What a reply says of a result: the verdict by its number, time in whole
/// milliseconds, memory in hundredths of a kilobyte, the error message or
/// the empty text, and every case in order.
pub open spec fn reply(result: ResultView) -> ReplyView {
    ReplyView {
        status: result.status.wire_code(),
        time_used: result.time_used / (NANOS_PER_MILLI as nat),
        memory_used: centikilobytes(result.memory_used),
        error_message: match result.error_message {
            Some(m) => m,
            None => Seq::empty(),
        },
        cases: result.cases.map_values(|c: CaseView| case_reply(c)),
    }
}

/// What is sent back for a result: the reply, or for a system error the
/// message of an internal failure.
pub fn respond(result: &JudgeResult) -> (sent: Result<SubmitReply, String>)
    ensures
        match sent {
            Ok(r) => result.status != JudgeStatus::SystemError && r@ == reply(result@),
            Err(message) => result.status == JudgeStatus::SystemError && message@ == reply(
                result@,
            ).error_message,
        },
{
    match result.status {
        JudgeStatus::SystemError => {
            return Err(
                match &result.error_message {
                    Some(m) => m.clone(),
                    None => String::new(),
                },
            );
        },
        _ => {},
    }
    let mut cases: Vec<CaseReply> = Vec::new();
    let mut i: usize = 0;
    while i < result.test_case_results.len()
        invariant
            i <= result.test_case_results@.len(),
            cases@.len() == i,
            forall|k: int| 0 <= k < i ==> (#[trigger] cases@[k])@ == case_reply(
                result.test_case_results@[k]@,
            ),
        decreases result.test_case_results@.len() - i,
    {
        let case: &TestCaseResult = &result.test_case_results[i];
        cases.push(
            CaseReply {
                status: case.status.code(),
                time_used: case.time_used.as_millis(),
                memory_used: kilobyte_hundredths(case.memory_used),
                actual_output: case.actual_output.clone(),
                test_case_id: case.test_case_id,
            },
        );
        i += 1;
    }
    let error_message = match &result.error_message {
        Some(m) => m.clone(),
        None => String::new(),
    };
    let sent = SubmitReply {
        status: result.status.code(),
        time_used: result.time_used.as_millis(),
        memory_used: kilobyte_hundredths(result.memory_used),
        error_message,
        test_case_results: cases,
    };
    assert(sent@.cases =~= reply(result@).cases);
    Ok(sent)
}

} // verus!
