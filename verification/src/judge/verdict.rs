//! Verdict precedence: how the verdicts of the test cases make up the verdict
//! of the submission.

use crate::judge::types::JudgeStatus;
use vstd::prelude::*;

verus! {

/// The weight of a verdict in the aggregate. The heaviest verdict among the
/// test cases is the verdict of the submission: a compilation error before a
/// system error, then a runtime error, memory limit, time limit, a wrong
/// answer, and last `Accepted`.
pub open spec fn rank(status: JudgeStatus) -> nat {
    match status {
        JudgeStatus::Accepted => 0,
        JudgeStatus::WrongAnswer => 1,
        JudgeStatus::TimeLimitExceeded => 2,
        JudgeStatus::MemoryLimitExceeded => 3,
        JudgeStatus::RuntimeError => 4,
        JudgeStatus::SystemError => 5,
        JudgeStatus::CompilationError => 6,
    }
}

/// The heavier of two verdicts.
pub open spec fn worse(a: JudgeStatus, b: JudgeStatus) -> JudgeStatus {
    if rank(b) > rank(a) {
        b
    } else {
        a
    }
}

/// The verdict of a submission whose test cases came to `statuses`.
pub open spec fn aggregate(statuses: Seq<JudgeStatus>) -> JudgeStatus
    decreases statuses.len(),
{
    if statuses.len() == 0 {
        JudgeStatus::Accepted
    } else {
        worse(aggregate(statuses.drop_last()), statuses.last())
    }
}

/// No two verdicts weigh the same.
pub proof fn lemma_rank_injective(a: JudgeStatus, b: JudgeStatus)
    requires
        rank(a) == rank(b),
    ensures
        a == b,
{
}

/// The aggregate is the heaviest verdict among the cases: none of them
/// outweighs it, and it is one of them, or `Accepted` where there is none.
pub proof fn lemma_aggregate_is_heaviest(statuses: Seq<JudgeStatus>)
    ensures
        forall|k: int| 0 <= k < statuses.len() ==> rank(#[trigger] statuses[k]) <= rank(
            aggregate(statuses),
        ),
        statuses.len() == 0 ==> aggregate(statuses) == JudgeStatus::Accepted,
        statuses.len() > 0 ==> exists|k: int|
            0 <= k < statuses.len() && #[trigger] statuses[k] == aggregate(statuses),
    decreases statuses.len(),
{
    if statuses.len() > 0 {
        let head = statuses.drop_last();
        lemma_aggregate_is_heaviest(head);
        assert forall|k: int| 0 <= k < statuses.len() implies rank(#[trigger] statuses[k])
            <= rank(aggregate(statuses)) by {
            if k < head.len() {
                assert(head[k] == statuses[k]);
            }
        }
        if aggregate(statuses) == statuses.last() {
            assert(statuses[statuses.len() - 1] == aggregate(statuses));
        } else {
            assert(head.len() > 0);
            let k = choose|k: int| 0 <= k < head.len() && #[trigger] head[k] == aggregate(head);
            assert(statuses[k] == head[k]);
        }
    }
}

/// A submission is accepted exactly when every test case is.
pub proof fn lemma_accepted_iff_all_accepted(statuses: Seq<JudgeStatus>)
    ensures
        aggregate(statuses) == JudgeStatus::Accepted <==> forall|k: int|
            0 <= k < statuses.len() ==> #[trigger] statuses[k] == JudgeStatus::Accepted,
{
    lemma_aggregate_is_heaviest(statuses);
    if aggregate(statuses) == JudgeStatus::Accepted {
        assert forall|k: int| 0 <= k < statuses.len() implies #[trigger] statuses[k]
            == JudgeStatus::Accepted by {
            assert(rank(statuses[k]) <= 0);
        }
    }
}

/// The aggregate does not depend on the order of the test cases, nor on how
/// often a verdict occurs: two series with the same verdicts in them have
/// the same aggregate.
pub proof fn lemma_aggregate_order_free(s: Seq<JudgeStatus>, t: Seq<JudgeStatus>)
    requires
        forall|x: JudgeStatus| s.contains(x) <==> t.contains(x),
    ensures
        aggregate(s) == aggregate(t),
{
    lemma_aggregate_is_heaviest(s);
    lemma_aggregate_is_heaviest(t);
    if s.len() == 0 {
        if t.len() > 0 {
            assert(t.contains(t[0]));
            assert(s.contains(t[0]));
        }
    } else {
        let i = choose|k: int| 0 <= k < s.len() && #[trigger] s[k] == aggregate(s);
        assert(s.contains(aggregate(s)));
        assert(t.contains(aggregate(s)));
        let j = choose|k: int| 0 <= k < t.len() && t[k] == aggregate(s);
        assert(rank(t[j]) <= rank(aggregate(t)));
        assert(t.len() > 0);
        let m = choose|k: int| 0 <= k < t.len() && #[trigger] t[k] == aggregate(t);
        assert(t.contains(aggregate(t)));
        assert(s.contains(aggregate(t)));
        let n = choose|k: int| 0 <= k < s.len() && s[k] == aggregate(t);
        assert(rank(s[n]) <= rank(aggregate(s)));
        lemma_rank_injective(aggregate(s), aggregate(t));
    }
}

/// The weight of a verdict.
pub fn severity(status: JudgeStatus) -> (weight: u8)
    ensures
        weight == rank(status),
{
    match status {
        JudgeStatus::Accepted => 0,
        JudgeStatus::WrongAnswer => 1,
        JudgeStatus::TimeLimitExceeded => 2,
        JudgeStatus::MemoryLimitExceeded => 3,
        JudgeStatus::RuntimeError => 4,
        JudgeStatus::SystemError => 5,
        JudgeStatus::CompilationError => 6,
    }
}

/// The heavier of two verdicts.
pub fn combine(a: JudgeStatus, b: JudgeStatus) -> (status: JudgeStatus)
    ensures
        status == worse(a, b),
{
    if severity(b) > severity(a) {
        b
    } else {
        a
    }
}

/// The verdict of a submission whose test cases came to `statuses`.
pub fn aggregate_of(statuses: &[JudgeStatus]) -> (status: JudgeStatus)
    ensures
        status == aggregate(statuses@),
{
    let mut status = JudgeStatus::Accepted;
    let mut i: usize = 0;
    while i < statuses.len()
        invariant
            i <= statuses.len(),
            status == aggregate(statuses@.take(i as int)),
        decreases statuses.len() - i,
    {
        assert(statuses@.take(i + 1).drop_last() =~= statuses@.take(i as int));
        status = combine(status, statuses[i]);
        i += 1;
    }
    assert(statuses@.take(i as int) =~= statuses@);
    status
}

} // verus!
