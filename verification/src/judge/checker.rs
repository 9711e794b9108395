//! The output checker: expected and actual output are equal when they are
//! the same text once the white space around each is stripped.

use crate::judge::types::{JudgeStatus, TestCase};
use vstd::prelude::*;

verus! {

/// White space, as Unicode defines it (the property `White_Space`).
pub open spec fn is_whitespace(c: char) -> bool {
    let u = c as u32;
    (0x09 <= u && u <= 0x0d) || u == 0x20 || u == 0x85 || u == 0xa0 || u == 0x1680 || (0x2000
        <= u && u <= 0x200a) || u == 0x2028 || u == 0x2029 || u == 0x202f || u == 0x205f || u
        == 0x3000
}

/// The text without the white space that leads it.
pub open spec fn trim_start(s: Seq<char>) -> Seq<char>
    decreases s.len(),
{
    if s.len() > 0 && is_whitespace(s.first()) {
        trim_start(s.drop_first())
    } else {
        s
    }
}

/// The text without the white space that trails it.
pub open spec fn trim_end(s: Seq<char>) -> Seq<char>
    decreases s.len(),
{
    if s.len() > 0 && is_whitespace(s.last()) {
        trim_end(s.drop_last())
    } else {
        s
    }
}

/// The text without the white space around it. White space inside stays.
pub open spec fn trim(s: Seq<char>) -> Seq<char> {
    trim_end(trim_start(s))
}

/// The verdict on an output: accepted when it is the expected text, the
/// white space around either left aside; a wrong answer otherwise.
pub open spec fn check_verdict(expected: Seq<char>, actual: Seq<char>) -> JudgeStatus {
    if trim(expected) == trim(actual) {
        JudgeStatus::Accepted
    } else {
        JudgeStatus::WrongAnswer
    }
}

/// Stripping leading white space skips exactly the white space before the
/// first character that is none.
pub proof fn lemma_trim_start(s: Seq<char>, n: int)
    requires
        0 <= n <= s.len(),
        forall|k: int| 0 <= k < n ==> is_whitespace(#[trigger] s[k]),
        n < s.len() ==> !is_whitespace(s[n]),
    ensures
        trim_start(s) == s.skip(n),
    decreases n,
{
    if n == 0 {
        assert(s.skip(0) =~= s);
    } else {
        assert(is_whitespace(s[0]));
        let rest = s.drop_first();
        assert forall|k: int| 0 <= k < n - 1 implies is_whitespace(#[trigger] rest[k]) by {
            assert(rest[k] == s[k + 1]);
        }
        lemma_trim_start(rest, n - 1);
        assert(rest.skip(n - 1) =~= s.skip(n));
    }
}

/// Stripping trailing white space drops exactly the white space after the
/// last character that is none.
pub proof fn lemma_trim_end(s: Seq<char>, m: int)
    requires
        0 <= m <= s.len(),
        forall|k: int| m <= k < s.len() ==> is_whitespace(#[trigger] s[k]),
        m > 0 ==> !is_whitespace(s[m - 1]),
    ensures
        trim_end(s) == s.take(m),
    decreases s.len() - m,
{
    if m == s.len() {
        assert(s.take(m) =~= s);
    } else {
        assert(is_whitespace(s[s.len() - 1]));
        let rest = s.drop_last();
        lemma_trim_end(rest, m);
        assert(rest.take(m) =~= s.take(m));
    }
}

/// Stripped text neither begins nor ends with white space, and is a part of
/// the text it was stripped from.
pub proof fn lemma_trim_is_stripped(s: Seq<char>)
    ensures
        trim(s).len() > 0 ==> !is_whitespace(trim(s).first()) && !is_whitespace(trim(s).last()),
        exists|a: int, b: int| 0 <= a <= b <= s.len() && trim(s) == s.subrange(a, b),
{
    let (a, b) = lemma_trim_bounds(s);
}

/// The bounds of the stripped text within the text.
proof fn lemma_trim_bounds(s: Seq<char>) -> (r: (int, int))
    ensures
        0 <= r.0 <= r.1 <= s.len(),
        trim(s) == s.subrange(r.0, r.1),
        forall|k: int| 0 <= k < r.0 ==> is_whitespace(#[trigger] s[k]),
        forall|k: int| r.1 <= k < s.len() ==> is_whitespace(#[trigger] s[k]),
        r.0 < r.1 ==> !is_whitespace(s[r.0]) && !is_whitespace(s[r.1 - 1]),
{
    let a = leading(s, 0);
    lemma_leading(s, 0);
    lemma_trim_start(s, a);
    let t = s.skip(a);
    let m = trailing(t, t.len() as int);
    lemma_trailing(t, t.len() as int);
    lemma_trim_end(t, m);
    assert(t.take(m) =~= s.subrange(a, a + m));
    assert forall|k: int| a + m <= k < s.len() implies is_whitespace(#[trigger] s[k]) by {
        assert(s[k] == t[k - a]);
    }
    if m > 0 {
        assert(t[m - 1] == s[a + m - 1]);
        assert(t[0] == s[a]);
    }
    (a, a + m)
}

/// The index of the first character at or after `from` that is no white space.
spec fn leading(s: Seq<char>, from: int) -> int
    decreases s.len() - from,
{
    if 0 <= from < s.len() && is_whitespace(s[from]) {
        leading(s, from + 1)
    } else {
        from
    }
}

/// The index after the last character before `to` that is no white space.
spec fn trailing(s: Seq<char>, to: int) -> int
    decreases to,
{
    if 0 < to <= s.len() && is_whitespace(s[to - 1]) {
        trailing(s, to - 1)
    } else {
        to
    }
}

proof fn lemma_leading(s: Seq<char>, from: int)
    requires
        0 <= from <= s.len(),
    ensures
        from <= leading(s, from) <= s.len(),
        forall|k: int| from <= k < leading(s, from) ==> is_whitespace(#[trigger] s[k]),
        leading(s, from) < s.len() ==> !is_whitespace(s[leading(s, from)]),
    decreases s.len() - from,
{
    if from < s.len() && is_whitespace(s[from]) {
        lemma_leading(s, from + 1);
    }
}

proof fn lemma_trailing(s: Seq<char>, to: int)
    requires
        0 <= to <= s.len(),
    ensures
        0 <= trailing(s, to) <= to,
        forall|k: int| trailing(s, to) <= k < to ==> is_whitespace(#[trigger] s[k]),
        trailing(s, to) > 0 ==> !is_whitespace(s[trailing(s, to) - 1]),
    decreases to,
{
    if 0 < to && is_whitespace(s[to - 1]) {
        lemma_trailing(s, to - 1);
    }
}

/// Stripping is stable: stripped text has nothing left to strip.
pub proof fn lemma_trim_idempotent(s: Seq<char>)
    ensures
        trim(trim(s)) == trim(s),
{
    lemma_trim_is_stripped(s);
    let t = trim(s);
    lemma_trim_start(t, 0);
    assert(t.skip(0) =~= t);
    lemma_trim_end(t, t.len() as int);
    assert(t.take(t.len() as int) =~= t);
}

/// Every text is accepted against itself.
pub proof fn lemma_check_reflexive(s: Seq<char>)
    ensures
        check_verdict(s, s) == JudgeStatus::Accepted,
{
}

/// The verdict does not depend on which of the two texts is the expected one.
pub proof fn lemma_check_symmetric(expected: Seq<char>, actual: Seq<char>)
    ensures
        check_verdict(expected, actual) == check_verdict(actual, expected),
{
}

/// The verdict on two texts is the verdict on their stripped forms: a text
/// and what stripping leaves of it are accepted against each other.
pub proof fn lemma_check_ignores_outer_space(expected: Seq<char>, actual: Seq<char>)
    ensures
        check_verdict(expected, actual) == check_verdict(trim(expected), trim(actual)),
        check_verdict(expected, trim(expected)) == JudgeStatus::Accepted,
{
    lemma_trim_idempotent(expected);
    lemma_trim_idempotent(actual);
}

/// Whether a character is white space.
pub fn whitespace(c: char) -> (b: bool)
    ensures
        b == is_whitespace(c),
{
    let u: u32 = c as u32;
    (0x09 <= u && u <= 0x0d) || u == 0x20 || u == 0x85 || u == 0xa0 || u == 0x1680 || (0x2000
        <= u && u <= 0x200a) || u == 0x2028 || u == 0x2029 || u == 0x202f || u == 0x205f || u
        == 0x3000
}

/// The characters of a text.
fn chars_of(s: &str) -> (v: Vec<char>)
    ensures
        v@ == s@,
{
    broadcast use vstd::string::group_string_axioms;

    let mut v: Vec<char> = Vec::new();
    for c in it: s.chars()
        invariant
            it.seq() == s@,
            v@ == it.seq().take(it.index()),
    {
        v.push(c);
    }
    v
}

/// The bounds of the stripped text within the text.
fn trim_bounds(v: &Vec<char>) -> (r: (usize, usize))
    ensures
        r.0 <= r.1 <= v.len(),
        trim(v@) == v@.subrange(r.0 as int, r.1 as int),
{
    let mut a: usize = 0;
    while a < v.len() && whitespace(v[a])
        invariant
            a <= v.len(),
            forall|k: int| 0 <= k < a ==> is_whitespace(#[trigger] v@[k]),
        decreases v.len() - a,
    {
        a += 1;
    }
    let mut b: usize = v.len();
    while b > a && whitespace(v[b - 1])
        invariant
            a <= b <= v.len(),
            forall|k: int| b <= k < v.len() ==> is_whitespace(#[trigger] v@[k]),
        decreases b,
    {
        b -= 1;
    }
    proof {
        lemma_trim_start(v@, a as int);
        let t = v@.skip(a as int);
        assert forall|k: int| b - a <= k < t.len() implies is_whitespace(#[trigger] t[k]) by {
            assert(t[k] == v@[k + a]);
        }
        if b > a {
            assert(t[b - a - 1] == v@[b - 1]);
        }
        lemma_trim_end(t, b - a);
        assert(t.take(b - a) =~= v@.subrange(a as int, b as int));
    }
    (a, b)
}

/// Compares program output with what was expected.
#[derive(Debug, Clone, Copy)]
pub struct Checker;

impl Checker {
    pub fn new() -> (checker: Checker) {
        Checker
    }

    /// The verdict on the output of one test case.
    pub fn check(&self, test_case: &TestCase, actual_output: &str) -> (verdict: JudgeStatus)
        ensures
            verdict == check_verdict(test_case.expected_output@, actual_output@),
    {
        let expected = chars_of(test_case.expected_output.as_str());
        let actual = chars_of(actual_output);
        let (ea, eb) = trim_bounds(&expected);
        let (aa, ab) = trim_bounds(&actual);
        if eb - ea != ab - aa {
            assert(trim(expected@).len() != trim(actual@).len());
            return JudgeStatus::WrongAnswer;
        }
        let n: usize = eb - ea;
        let mut i: usize = 0;
        while i < n
            invariant
                i <= n,
                n == eb - ea,
                n == ab - aa,
                eb <= expected.len(),
                ab <= actual.len(),
                expected@ == test_case.expected_output@,
                actual@ == actual_output@,
                trim(expected@) == expected@.subrange(ea as int, eb as int),
                trim(actual@) == actual@.subrange(aa as int, ab as int),
                forall|k: int| 0 <= k < i ==> trim(expected@)[k] == trim(actual@)[k],
            decreases n - i,
        {
            if expected[ea + i] != actual[aa + i] {
                assert(trim(expected@)[i as int] != trim(actual@)[i as int]);
                return JudgeStatus::WrongAnswer;
            }
            i += 1;
        }
        assert(trim(expected@) =~= trim(actual@));
        JudgeStatus::Accepted
    }
}

} // verus!
