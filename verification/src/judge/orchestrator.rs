//! The orchestrator: compile once, run every test case in order, and make
//! one result of it all.
//!
//! The orchestrator does no work on the machine itself. It says what is to be
//! done next, is told what came of it, and decides what that means.

use crate::judge::checker::{check_verdict, Checker};
use crate::judge::runner::{OutcomeView, RunOutcome, Runner};
use crate::judge::types::{
    views_of, CaseView, Duration, ErrorView, JudgeConfig, JudgeError, JudgeResult, JudgeStatus,
    ResultView, TestCase, TestCaseResult,
};
use crate::judge::verdict::{aggregate, combine, worse};
use vstd::prelude::*;
use vstd::string::StringExecFns;

verus! {

/// The limits that a judge holds the test cases to.
pub struct Limits {
    /// Wall-clock limit for each case, in nanoseconds.
    pub time_limit: nat,
    /// Memory limit for each case, in bytes.
    pub memory_limit: nat,
    /// Whether a case whose peak memory is over the limit gets the verdict
    /// `MemoryLimitExceeded`. Where it is not, memory is measured only.
    pub enforce_memory: bool,
}

/// What the output of a run that timed out is recorded as.
pub open spec fn time_limit_exceeded() -> Seq<char> {
    "Time limit exceeded"@
}

pub open spec fn min_nat(a: nat, b: nat) -> nat {
    if a <= b {
        a
    } else {
        b
    }
}

pub open spec fn max_nat(a: nat, b: nat) -> nat {
    if a >= b {
        a
    } else {
        b
    }
}

/// The result of one test case.
///
/// A run that completed is checked against the expected output, unless its
/// memory is over an enforced limit. A run that timed out is recorded with
/// the time it ran, but no more than the limit. A run that failed is a
/// runtime error, with no time and no memory, and the failure's message
/// in place of the output.
pub open spec fn case_view(
    limits: Limits,
    expected: Seq<char>,
    outcome: OutcomeView,
    case_id: nat,
) -> CaseView {
    match outcome {
        OutcomeView::Completed { output, time_used, memory_used } => CaseView {
            status: if limits.enforce_memory && memory_used > limits.memory_limit {
                JudgeStatus::MemoryLimitExceeded
            } else {
                check_verdict(expected, output)
            },
            time_used,
            memory_used,
            actual_output: output,
            test_case_id: case_id,
        },
        OutcomeView::TimedOut { time_used, memory_used } => CaseView {
            status: JudgeStatus::TimeLimitExceeded,
            time_used: min_nat(time_used, limits.time_limit),
            memory_used,
            actual_output: time_limit_exceeded(),
            test_case_id: case_id,
        },
        OutcomeView::Failed { message } => CaseView {
            status: JudgeStatus::RuntimeError,
            time_used: 0,
            memory_used: 0,
            actual_output: message,
            test_case_id: case_id,
        },
    }
}

/// The results of the test cases, each with the outcome of its run, in the
/// order of the submission.
pub open spec fn case_views(
    limits: Limits,
    cases: Seq<TestCase>,
    outcomes: Seq<OutcomeView>,
) -> Seq<CaseView> {
    Seq::new(
        cases.len(),
        |i: int| case_view(limits, cases[i].expected_output@, outcomes[i], i as nat),
    )
}

/// The verdicts of a series of case results.
pub open spec fn statuses(cases: Seq<CaseView>) -> Seq<JudgeStatus> {
    cases.map_values(|c: CaseView| c.status)
}

/// The longest time that any case took; zero where there is no case.
pub open spec fn max_time(cases: Seq<CaseView>) -> nat
    decreases cases.len(),
{
    if cases.len() == 0 {
        0
    } else {
        max_nat(max_time(cases.drop_last()), cases.last().time_used)
    }
}

/// The most memory that any case used; zero where there is no case.
pub open spec fn max_memory(cases: Seq<CaseView>) -> nat
    decreases cases.len(),
{
    if cases.len() == 0 {
        0
    } else {
        max_nat(max_memory(cases.drop_last()), cases.last().memory_used)
    }
}

/// The result of a submission whose test cases came to `cases`.
pub open spec fn summary(cases: Seq<CaseView>) -> ResultView {
    ResultView {
        status: aggregate(statuses(cases)),
        time_used: max_time(cases),
        memory_used: max_memory(cases),
        error_message: None,
        cases,
    }
}

/// The verdict of a submission that could not be compiled: a compilation
/// error where the compiler refused it, a system error in every other case.
pub open spec fn failure_status(status: JudgeStatus) -> JudgeStatus {
    if status == JudgeStatus::CompilationError {
        JudgeStatus::CompilationError
    } else {
        JudgeStatus::SystemError
    }
}

/// The result of a submission that could not be compiled: no case is run,
/// and the error's message is passed on.
pub open spec fn failure(error: ErrorView) -> ResultView {
    ResultView {
        status: failure_status(error.status),
        time_used: 0,
        memory_used: 0,
        error_message: Some(error.message),
        cases: Seq::empty(),
    }
}

/// The result of a submission, given what compiling it and running each of
/// its test cases came to.
pub open spec fn judgement(
    limits: Limits,
    cases: Seq<TestCase>,
    compiled: Result<(), ErrorView>,
    outcomes: Seq<OutcomeView>,
) -> ResultView {
    match compiled {
        Err(error) => failure(error),
        Ok(()) => summary(case_views(limits, cases, outcomes)),
    }
}

/// The mathematical content of what a compile step came to.
pub open spec fn compiled_view(compiled: Result<(), JudgeError>) -> Result<(), ErrorView> {
    match compiled {
        Ok(()) => Ok(()),
        Err(e) => Err(e@),
    }
}

/// The mathematical content of a series of outcomes.
pub open spec fn outcome_views(outcomes: Seq<RunOutcome>) -> Seq<OutcomeView> {
    outcomes.map_values(|o: RunOutcome| o@)
}

/// Judges one submission.
#[derive(Debug, Clone)]
pub struct Judge {
    runner: Runner,
    checker: Checker,
    enforce_memory: bool,
}

impl Judge {
    /// The runner that knows the submission.
    pub closed spec fn view_runner(&self) -> Runner {
        self.runner
    }

    /// Whether the memory limit decides verdicts.
    pub closed spec fn enforces_memory(&self) -> bool {
        self.enforce_memory
    }

    /// The limits that this judge holds the test cases to.
    pub open spec fn limits(&self) -> Limits {
        Limits {
            time_limit: self.view_runner().view_config().time_limit@,
            memory_limit: self.view_runner().view_config().memory_limit as nat,
            enforce_memory: self.enforces_memory(),
        }
    }

    /// A judge for the submission that `config` describes. It measures
    /// memory and does not hold the submission to the memory limit.
    pub fn new(config: JudgeConfig) -> (judge: Judge)
        ensures
            judge.view_runner().view_config() == config,
            !judge.enforces_memory(),
    {
        Judge { runner: Runner::new(config), checker: Checker::new(), enforce_memory: false }
    }

    /// The same judge, which now gives a case whose peak memory is over the
    /// limit the verdict `MemoryLimitExceeded`.
    pub fn enforcing_memory_limit(self) -> (judge: Judge)
        ensures
            judge.view_runner() == self.view_runner(),
            judge.enforces_memory(),
    {
        Judge { runner: self.runner, checker: self.checker, enforce_memory: true }
    }

    pub fn runner(&self) -> (runner: &Runner)
        ensures
            *runner == self.view_runner(),
    {
        &self.runner
    }

    /// The result of one test case, given what its run came to.
    pub fn case_result(&self, test_case: &TestCase, outcome: RunOutcome, case_id: usize) -> (result:
        TestCaseResult)
        ensures
            result@ == case_view(
                self.limits(),
                test_case.expected_output@,
                outcome@,
                case_id as nat,
            ),
    {
        match outcome {
            RunOutcome::Completed { output, time_used, memory_used } => {
                let status = if self.enforce_memory && memory_used
                    > self.runner.config().memory_limit {
                    JudgeStatus::MemoryLimitExceeded
                } else {
                    self.checker.check(test_case, output.as_str())
                };
                TestCaseResult {
                    status,
                    time_used,
                    memory_used,
                    actual_output: output,
                    test_case_id: case_id,
                }
            },
            RunOutcome::TimedOut { time_used, memory_used } => TestCaseResult {
                status: JudgeStatus::TimeLimitExceeded,
                time_used: time_used.min(self.runner.config().time_limit),
                memory_used,
                actual_output: String::from_str("Time limit exceeded"),
                test_case_id: case_id,
            },
            RunOutcome::Failed { message } => TestCaseResult {
                status: JudgeStatus::RuntimeError,
                time_used: Duration::zero(),
                memory_used: 0,
                actual_output: message,
                test_case_id: case_id,
            },
        }
    }

    /// Starts judging `cases`. The first thing to do is to compile.
    pub fn begin<'a>(&'a self, cases: &'a [TestCase]) -> (session: Compiling<'a>)
        ensures
            session.judge() == *self,
            session.cases() == cases@,
    {
        Compiling { judge: self, cases }
    }
}

/// A submission that is to be compiled.
pub struct Compiling<'a> {
    judge: &'a Judge,
    cases: &'a [TestCase],
}

/// A submission that compiled, and has a test case to run next.
pub struct Running<'a> {
    judge: &'a Judge,
    cases: &'a [TestCase],
    results: Vec<TestCaseResult>,
    max_time: Duration,
    max_memory: u64,
    status: JudgeStatus,
}

/// Where a submission stands once a step is done.
pub enum Stage<'a> {
    /// A test case is to be run next.
    Next(Running<'a>),
    /// No step is left: this is the result.
    Done(JudgeResult),
}

fn no_results() -> (results: Vec<TestCaseResult>)
    ensures
        views_of(results@) == Seq::<CaseView>::empty(),
{
    let results: Vec<TestCaseResult> = Vec::new();
    assert(views_of(results@) =~= Seq::<CaseView>::empty());
    results
}

impl<'a> Compiling<'a> {
    pub closed spec fn judge(&self) -> Judge {
        *self.judge
    }

    pub closed spec fn cases(&self) -> Seq<TestCase> {
        self.cases@
    }

    /// Takes in what the compile step came to.
    ///
    /// A submission that did not compile is done, with the error as its
    /// result. One that compiled runs its first test case next, or is done
    /// where it has none.
    pub fn compiled(self, outcome: Result<(), JudgeError>) -> (stage: Stage<'a>)
        ensures
            match stage {
                Stage::Next(next) => outcome is Ok && self.cases().len() > 0 && next.judge()
                    == self.judge() && next.cases() == self.cases() && next.done()
                    == Seq::<CaseView>::empty(),
                Stage::Done(result) => match outcome {
                    Err(e) => result@ == failure(e@),
                    Ok(()) => self.cases().len() == 0 && result@ == summary(Seq::empty()),
                },
            },
    {
        match outcome {
            Err(e) => {
                let status = match e.status {
                    JudgeStatus::CompilationError => JudgeStatus::CompilationError,
                    _ => JudgeStatus::SystemError,
                };
                let result = JudgeResult {
                    status,
                    time_used: Duration::zero(),
                    memory_used: 0,
                    error_message: Some(e.message),
                    test_case_results: no_results(),
                };
                Stage::Done(result)
            },
            Ok(()) => {
                if self.cases.len() == 0 {
                    let result = JudgeResult {
                        status: JudgeStatus::Accepted,
                        time_used: Duration::zero(),
                        memory_used: 0,
                        error_message: None,
                        test_case_results: no_results(),
                    };
                    assert(statuses(Seq::<CaseView>::empty()) =~= Seq::<JudgeStatus>::empty());
                    Stage::Done(result)
                } else {
                    let results = no_results();
                    assert(statuses(views_of(results@)) =~= Seq::<JudgeStatus>::empty());
                    Stage::Next(
                        Running {
                            judge: self.judge,
                            cases: self.cases,
                            results,
                            max_time: Duration::zero(),
                            max_memory: 0,
                            status: JudgeStatus::Accepted,
                        },
                    )
                }
            },
        }
    }
}

impl<'a> Running<'a> {
    #[verifier::type_invariant]
    spec fn well_formed(self) -> bool {
        &&& self.results@.len() < self.cases@.len()
        &&& self.max_time@ == max_time(views_of(self.results@))
        &&& self.max_memory as nat == max_memory(views_of(self.results@))
        &&& self.status == aggregate(statuses(views_of(self.results@)))
    }

    pub closed spec fn judge(&self) -> Judge {
        *self.judge
    }

    pub closed spec fn cases(&self) -> Seq<TestCase> {
        self.cases@
    }

    /// The results of the cases that have been run.
    pub closed spec fn done(&self) -> Seq<CaseView> {
        views_of(self.results@)
    }

    /// The position of the case to run next.
    pub fn case_id(&self) -> (id: usize)
        ensures
            id == self.done().len(),
            id < self.cases().len(),
    {
        proof {
            use_type_invariant(self);
        }
        self.results.len()
    }

    /// The case to run next.
    pub fn test_case(&self) -> (test_case: &'a TestCase)
        ensures
            self.done().len() < self.cases().len(),
            *test_case == self.cases()[self.done().len() as int],
    {
        proof {
            use_type_invariant(self);
        }
        &self.cases[self.results.len()]
    }

    /// Takes in what the run of the next case came to.
    ///
    /// The case's result joins those that are done. Where a case is left,
    /// it is run next; otherwise the submission is done, and its result is
    /// the summary of all cases.
    pub fn ran(self, outcome: RunOutcome) -> (stage: Stage<'a>)
        ensures
            ({
                let id = self.done().len();
                let all = self.done().push(
                    case_view(
                        self.judge().limits(),
                        self.cases()[id as int].expected_output@,
                        outcome@,
                        id,
                    ),
                );
                match stage {
                    Stage::Next(next) => all.len() < self.cases().len() && next.judge()
                        == self.judge() && next.cases() == self.cases() && next.done() == all,
                    Stage::Done(result) => all.len() == self.cases().len() && result@ == summary(
                        all,
                    ),
                }
            }),
    {
        proof {
            use_type_invariant(&self);
        }
        let Running { judge, cases, mut results, max_time, max_memory, status } = self;
        let id: usize = results.len();
        let result = judge.case_result(&cases[id], outcome, id);
        let max_time = max_time.max(result.time_used);
        let max_memory: u64 = if result.memory_used > max_memory {
            result.memory_used
        } else {
            max_memory
        };
        let status = combine(status, result.status);
        let ghost before = views_of(results@);
        let ghost view = result@;
        results.push(result);
        proof {
            let after = views_of(results@);
            assert(after =~= before.push(view));
            assert(after.drop_last() =~= before);
            assert(statuses(after).drop_last() =~= statuses(before));
            assert(statuses(after).last() == view.status);
        }
        if results.len() < cases.len() {
            Stage::Next(Running { judge, cases, results, max_time, max_memory, status })
        } else {
            Stage::Done(
                JudgeResult {
                    status,
                    time_used: max_time,
                    memory_used: max_memory,
                    error_message: None,
                    test_case_results: results,
                },
            )
        }
    }
}

/// A copy of an outcome.
fn copy_outcome(outcome: &RunOutcome) -> (copy: RunOutcome)
    ensures
        copy@ == outcome@,
{
    match outcome {
        RunOutcome::Completed { output, time_used, memory_used } => RunOutcome::Completed {
            output: output.clone(),
            time_used: *time_used,
            memory_used: *memory_used,
        },
        RunOutcome::TimedOut { time_used, memory_used } => RunOutcome::TimedOut {
            time_used: *time_used,
            memory_used: *memory_used,
        },
        RunOutcome::Failed { message } => RunOutcome::Failed { message: message.clone() },
    }
}

impl Judge {
    /// Judges a submission with one test case, given what compiling it and
    /// running it came to. Where it did not compile, `outcome` is not looked
    /// at.
    pub fn judge(
        &self,
        test_case: &TestCase,
        compiled: Result<(), JudgeError>,
        outcome: &RunOutcome,
    ) -> (result: JudgeResult)
        ensures
            result@ == judgement(
                self.limits(),
                seq![*test_case],
                compiled_view(compiled),
                seq![outcome@],
            ),
    {
        match compiled {
            Err(e) => {
                let stage = self.begin(&[]).compiled(Err(e));
                match stage {
                    Stage::Done(result) => result,
                    Stage::Next(_) => no_result(),
                }
            },
            Ok(()) => {
                let case = self.case_result(test_case, copy_outcome(outcome), 0);
                let status = combine(JudgeStatus::Accepted, case.status);
                let time_used = case.time_used;
                let memory_used = case.memory_used;
                let ghost view = case@;
                let mut results: Vec<TestCaseResult> = Vec::new();
                results.push(case);
                proof {
                    let cases = case_views(self.limits(), seq![*test_case], seq![outcome@]);
                    assert(views_of(results@) =~= seq![view]);
                    assert(cases =~= seq![view]);
                    assert(cases.drop_last() =~= Seq::<CaseView>::empty());
                    assert(statuses(cases) =~= seq![view.status]);
                    assert(statuses(cases).drop_last() =~= Seq::<JudgeStatus>::empty());
                    assert(aggregate(Seq::<JudgeStatus>::empty()) == JudgeStatus::Accepted);
                    assert(max_time(Seq::<CaseView>::empty()) == 0);
                    assert(max_memory(Seq::<CaseView>::empty()) == 0);
                    assert(summary(cases).status == worse(JudgeStatus::Accepted, view.status));
                }
                JudgeResult {
                    status,
                    time_used,
                    memory_used,
                    error_message: None,
                    test_case_results: results,
                }
            },
        }
    }

    /// Judges a submission, given what compiling it and running each of its
    /// test cases came to.
    ///
    /// Where the submission compiled, `outcomes` holds one outcome for each
    /// test case, in their order. Where it did not, no case was run, and
    /// `outcomes` is not looked at.
    pub fn judge_all(
        &self,
        test_cases: &[TestCase],
        compiled: Result<(), JudgeError>,
        outcomes: &[RunOutcome],
    ) -> (result: JudgeResult)
        requires
            compiled is Ok ==> outcomes@.len() == test_cases@.len(),
        ensures
            result@ == judgement(
                self.limits(),
                test_cases@,
                compiled_view(compiled),
                outcome_views(outcomes@),
            ),
    {
        let ghost goal = judgement(
            self.limits(),
            test_cases@,
            compiled_view(compiled),
            outcome_views(outcomes@),
        );
        let ghost all = case_views(self.limits(), test_cases@, outcome_views(outcomes@));
        let ghost ran = compiled is Ok;
        assert(ran ==> goal == summary(all));
        let mut stage = self.begin(test_cases).compiled(compiled);
        proof {
            if ran && test_cases@.len() == 0 {
                assert(all =~= Seq::<CaseView>::empty());
            }
            assert(all.take(0) =~= Seq::<CaseView>::empty());
        }
        let mut i: usize = 0;
        loop
            invariant
                i <= test_cases@.len(),
                all == case_views(self.limits(), test_cases@, outcome_views(outcomes@)),
                ran ==> goal == summary(all),
                goal == judgement(
                    self.limits(),
                    test_cases@,
                    compiled_view(compiled),
                    outcome_views(outcomes@),
                ),
                match stage {
                    Stage::Next(running) => ran && outcomes@.len() == test_cases@.len()
                        && running.judge() == *self && running.cases() == test_cases@
                        && running.done() == all.take(i as int) && i < test_cases@.len(),
                    Stage::Done(result) => result@ == goal,
                },
            decreases test_cases@.len() - i,
        {
            match stage {
                Stage::Done(result) => {
                    return result;
                },
                Stage::Next(running) => {
                    let outcome = copy_outcome(&outcomes[i]);
                    proof {
                        assert(outcome_views(outcomes@)[i as int] == outcome@);
                        assert(all.take(i + 1) =~= all.take(i as int).push(all[i as int]));
                        assert(all.take(i as int).len() == i);
                        if i + 1 == test_cases@.len() {
                            assert(all.take(i + 1) =~= all);
                        }
                    }
                    stage = running.ran(outcome);
                    i += 1;
                },
            }
        }
    }
}

/// The result of a submission that has nothing to it: accepted, with no case.
fn no_result() -> (result: JudgeResult)
    ensures
        result@ == summary(Seq::empty()),
{
    assert(statuses(Seq::<CaseView>::empty()) =~= Seq::<JudgeStatus>::empty());
    JudgeResult {
        status: JudgeStatus::Accepted,
        time_used: Duration::zero(),
        memory_used: 0,
        error_message: None,
        test_case_results: no_results(),
    }
}

/// The verdict of a test case is `Accepted`, `WrongAnswer`,
/// `TimeLimitExceeded`, `MemoryLimitExceeded` or `RuntimeError`: never a
/// compilation error or a system error. The memory limit gives a verdict
/// only where it is enforced.
pub proof fn lemma_case_status(
    limits: Limits,
    expected: Seq<char>,
    outcome: OutcomeView,
    case_id: nat,
)
    ensures
        ({
            let status = case_view(limits, expected, outcome, case_id).status;
            &&& status != JudgeStatus::CompilationError
            &&& status != JudgeStatus::SystemError
            &&& status == JudgeStatus::MemoryLimitExceeded ==> limits.enforce_memory
        }),
{
}

/// A submission that compiled has one result for each test case, and its
/// verdict is neither a compilation error nor a system error. One that did
/// not compile has no case result, one of those two verdicts, and an error
/// message.
pub proof fn lemma_case_count(
    limits: Limits,
    cases: Seq<TestCase>,
    compiled: Result<(), ErrorView>,
    outcomes: Seq<OutcomeView>,
)
    ensures
        ({
            let result = judgement(limits, cases, compiled, outcomes);
            let failed = result.status == JudgeStatus::CompilationError || result.status
                == JudgeStatus::SystemError;
            &&& compiled is Ok <==> !failed
            &&& failed ==> result.cases.len() == 0 && result.error_message is Some
            &&& !failed ==> result.cases.len() == cases.len() && result.error_message is None
            &&& result.status == JudgeStatus::CompilationError <==> (compiled matches Err(e)
                && e.status == JudgeStatus::CompilationError)
        }),
{
    if compiled is Ok {
        let views = case_views(limits, cases, outcomes);
        crate::judge::verdict::lemma_aggregate_is_heaviest(statuses(views));
        if views.len() > 0 {
            let k = choose|k: int|
                0 <= k < statuses(views).len() && #[trigger] statuses(views)[k] == aggregate(
                    statuses(views),
                );
            lemma_case_status(limits, cases[k].expected_output@, outcomes[k], k as nat);
        }
    }
}

/// No test case is recorded with more time than the limit and a slack,
/// where no run that completed took more than that. A run that timed out is
/// recorded with the limit at most, and one that failed with no time.
pub proof fn lemma_time_within_limit(
    limits: Limits,
    cases: Seq<TestCase>,
    compiled: Result<(), ErrorView>,
    outcomes: Seq<OutcomeView>,
    slack: nat,
)
    requires
        forall|i: int|
            0 <= i < cases.len() ==> ((#[trigger] outcomes[i]) matches OutcomeView::Completed {
                time_used,
                ..
            } ==> time_used <= limits.time_limit + slack),
    ensures
        ({
            let result = judgement(limits, cases, compiled, outcomes);
            &&& forall|i: int|
                0 <= i < result.cases.len() ==> 0 <= (#[trigger] result.cases[i]).time_used
                    <= limits.time_limit + slack
            &&& forall|i: int|
                0 <= i < result.cases.len() && (#[trigger] result.cases[i]).status
                    == JudgeStatus::TimeLimitExceeded ==> result.cases[i].time_used
                    <= limits.time_limit
            &&& result.time_used <= limits.time_limit + slack
        }),
{
    let result = judgement(limits, cases, compiled, outcomes);
    assert forall|i: int| 0 <= i < result.cases.len() implies 0 <= (
    #[trigger] result.cases[i]).time_used <= limits.time_limit + slack by {
        assert(outcomes[i] is Completed ==> outcomes[i]->Completed_time_used <= limits.time_limit
            + slack);
    }
    lemma_maxima(result.cases);
}

/// The time of a summary is the longest time of any case, and its memory the
/// most memory of any case: no case is over them, and each is the figure of
/// some case, or zero where there is no case.
pub proof fn lemma_maxima(cases: Seq<CaseView>)
    ensures
        forall|i: int| 0 <= i < cases.len() ==> (#[trigger] cases[i]).time_used <= max_time(cases),
        forall|i: int|
            0 <= i < cases.len() ==> (#[trigger] cases[i]).memory_used <= max_memory(cases),
        cases.len() == 0 ==> max_time(cases) == 0 && max_memory(cases) == 0,
        cases.len() > 0 ==> exists|i: int|
            0 <= i < cases.len() && (#[trigger] cases[i]).time_used == max_time(cases),
        cases.len() > 0 ==> exists|i: int|
            0 <= i < cases.len() && (#[trigger] cases[i]).memory_used == max_memory(cases),
    decreases cases.len(),
{
    if cases.len() > 0 {
        let head = cases.drop_last();
        let last = cases.len() - 1;
        lemma_maxima(head);
        assert forall|i: int| 0 <= i < cases.len() implies (#[trigger] cases[i]).time_used
            <= max_time(cases) && cases[i].memory_used <= max_memory(cases) by {
            if i < head.len() {
                assert(head[i] == cases[i]);
            }
        }
        if max_time(cases) == cases[last].time_used {
            assert(cases[last].time_used == max_time(cases));
        } else {
            let i = choose|i: int|
                0 <= i < head.len() && (#[trigger] head[i]).time_used == max_time(head);
            assert(cases[i] == head[i]);
        }
        if max_memory(cases) == cases[last].memory_used {
            assert(cases[last].memory_used == max_memory(cases));
        } else {
            let i = choose|i: int|
                0 <= i < head.len() && (#[trigger] head[i]).memory_used == max_memory(head);
            assert(cases[i] == head[i]);
        }
    }
}

/// A submission that compiled is accepted exactly when every one of its test
/// cases is; and a submission that did not compile is not accepted.
pub proof fn lemma_accepted_iff_every_case(
    limits: Limits,
    cases: Seq<TestCase>,
    compiled: Result<(), ErrorView>,
    outcomes: Seq<OutcomeView>,
)
    ensures
        ({
            let result = judgement(limits, cases, compiled, outcomes);
            &&& compiled is Err ==> result.status != JudgeStatus::Accepted
            &&& compiled is Ok ==> (result.status == JudgeStatus::Accepted <==> forall|i: int|
                0 <= i < result.cases.len() ==> (#[trigger] result.cases[i]).status
                    == JudgeStatus::Accepted)
        }),
{
    if compiled is Ok {
        let views = case_views(limits, cases, outcomes);
        crate::judge::verdict::lemma_accepted_iff_all_accepted(statuses(views));
        if aggregate(statuses(views)) == JudgeStatus::Accepted {
            assert forall|i: int| 0 <= i < views.len() implies (#[trigger] views[i]).status
                == JudgeStatus::Accepted by {
                assert(statuses(views)[i] == JudgeStatus::Accepted);
            }
        }
        if forall|i: int| 0 <= i < views.len() ==> (#[trigger] views[i]).status
            == JudgeStatus::Accepted {
            assert forall|k: int| 0 <= k < statuses(views).len() implies #[trigger] statuses(
                views,
            )[k] == JudgeStatus::Accepted by {
                assert(views[k].status == JudgeStatus::Accepted);
            }
        }
    }
}

/// The verdict of a submission that compiled is the heaviest verdict among
/// its test cases: no case outweighs it, and it is the verdict of one of
/// them, or `Accepted` where there is none.
pub proof fn lemma_verdict_precedence(
    limits: Limits,
    cases: Seq<TestCase>,
    outcomes: Seq<OutcomeView>,
)
    ensures
        ({
            let result = judgement(limits, cases, Ok(()), outcomes);
            &&& forall|i: int|
                0 <= i < result.cases.len() ==> crate::judge::verdict::rank(
                    (#[trigger] result.cases[i]).status,
                ) <= crate::judge::verdict::rank(result.status)
            &&& result.cases.len() == 0 ==> result.status == JudgeStatus::Accepted
            &&& result.cases.len() > 0 ==> exists|i: int|
                0 <= i < result.cases.len() && (#[trigger] result.cases[i]).status
                    == result.status
        }),
{
    let views = case_views(limits, cases, outcomes);
    let result = judgement(limits, cases, Ok(()), outcomes);
    crate::judge::verdict::lemma_aggregate_is_heaviest(statuses(views));
    assert forall|i: int| 0 <= i < result.cases.len() implies crate::judge::verdict::rank(
        (#[trigger] result.cases[i]).status,
    ) <= crate::judge::verdict::rank(result.status) by {
        assert(statuses(views)[i] == views[i].status);
    }
    if views.len() > 0 {
        let k = choose|k: int|
            0 <= k < statuses(views).len() && #[trigger] statuses(views)[k] == aggregate(
                statuses(views),
            );
        assert(result.cases[k].status == result.status);
    }
}

/// The case results stand in the order of the submission: the result at
/// each position is that of the test case at that position, judged by the
/// outcome at that position, and carries the position as its identifier.
pub proof fn lemma_case_order(
    limits: Limits,
    cases: Seq<TestCase>,
    outcomes: Seq<OutcomeView>,
)
    ensures
        ({
            let result = judgement(limits, cases, Ok(()), outcomes);
            &&& result.cases.len() == cases.len()
            &&& forall|i: int|
                0 <= i < cases.len() ==> (#[trigger] result.cases[i]).test_case_id == i
            &&& forall|i: int|
                0 <= i < cases.len() ==> #[trigger] result.cases[i] == case_view(
                    limits,
                    cases[i].expected_output@,
                    outcomes[i],
                    i as nat,
                )
        }),
{
}

} // verus!
