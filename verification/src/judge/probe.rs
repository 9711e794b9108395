//! The memory probe: reading a process's resident set size out of the text
//! of `/proc/<pid>/status`, and keeping the peak of what was sampled.

use vstd::prelude::*;
use vstd::slice::slice_subrange;

verus! {

/// Why a sample could not be taken.
#[derive(Debug, Clone, Copy, PartialEq, Eq, Hash, Structural)]
pub enum ProbeError {
    /// No line of the status text begins with `VmRSS:`.
    NotFound,
    /// The `VmRSS:` line has no second field.
    MissingValue,
    /// The second field of the `VmRSS:` line is not a number that fits in 64
    /// bits.
    InvalidNumber,
    /// The size in bytes does not fit in 64 bits.
    OutOfRange,
    /// The process could not be asked: it is gone, or this platform has no
    /// probe. Reading a status text never gives this.
    Unavailable,
}

/// The bytes `VmRSS:`.
pub open spec fn rss_key() -> Seq<u8> {
    seq![0x56u8, 0x6du8, 0x52u8, 0x53u8, 0x53u8, 0x3au8]
}

/// White space between the fields of a line.
pub open spec fn is_space(b: u8) -> bool {
    b == 0x20 || (0x09 <= b && b <= 0x0d)
}

pub open spec fn is_digit(b: u8) -> bool {
    0x30 <= b && b <= 0x39
}

/// Whether a line begins at index `i` of `s`.
pub open spec fn is_line_start(s: Seq<u8>, i: int) -> bool {
    0 <= i <= s.len() && (i == 0 || s[i - 1] == 0x0a)
}

/// Whether `key` stands in `s` at index `i`.
pub open spec fn has_prefix(s: Seq<u8>, i: int, key: Seq<u8>) -> bool {
    0 <= i && i + key.len() <= s.len() && s.subrange(i, i + key.len()) == key
}

/// Whether a line that begins with `VmRSS:` starts at index `i`.
pub open spec fn rss_line_at(s: Seq<u8>, i: int) -> bool {
    is_line_start(s, i) && has_prefix(s, i, rss_key())
}

/// The start of the first line, at or after `from`, that begins with `VmRSS:`.
pub open spec fn first_rss_line(s: Seq<u8>, from: int) -> Option<int>
    decreases s.len() - from,
{
    if from < 0 || from >= s.len() {
        None
    } else if rss_line_at(s, from) {
        Some(from)
    } else {
        first_rss_line(s, from + 1)
    }
}

/// The first index at or after `from` whose byte does not satisfy `p`, or the
/// length of `s` where every byte from there on does.
pub open spec fn skip_while(s: Seq<u8>, from: int, p: spec_fn(u8) -> bool) -> int
    decreases s.len() - from,
{
    if 0 <= from < s.len() && p(s[from]) {
        skip_while(s, from + 1, p)
    } else {
        from
    }
}

/// The end of the line that `from` lies in: the index of the next line feed,
/// or the length of `s`.
pub open spec fn line_end(s: Seq<u8>, from: int) -> int {
    skip_while(s, from, |b: u8| b != 0x0a)
}

/// The index of the first byte at or after `from` that is no white space.
pub open spec fn skip_spaces(s: Seq<u8>, from: int) -> int {
    skip_while(s, from, |b: u8| is_space(b))
}

/// The index of the first white space at or after `from`.
pub open spec fn skip_field(s: Seq<u8>, from: int) -> int {
    skip_while(s, from, |b: u8| !is_space(b))
}

/// The second of the fields that white space separates in a line.
pub open spec fn second_field(line: Seq<u8>) -> Option<Seq<u8>> {
    let first = skip_spaces(line, 0);
    let gap = skip_field(line, first);
    let second = skip_spaces(line, gap);
    let end = skip_field(line, second);
    if second < line.len() {
        Some(line.subrange(second, end))
    } else {
        None
    }
}

/// The number that a string of decimal digits writes.
pub open spec fn decimal(digits: Seq<u8>) -> nat
    decreases digits.len(),
{
    if digits.len() == 0 {
        0
    } else {
        decimal(digits.drop_last()) * 10 + (digits.last() - 0x30) as nat
    }
}

pub open spec fn all_digits(digits: Seq<u8>) -> bool {
    forall|k: int| 0 <= k < digits.len() ==> is_digit(#[trigger] digits[k])
}

/// A field without the plus sign that may lead it.
pub open spec fn unsigned_part(field: Seq<u8>) -> Seq<u8> {
    if field.len() > 0 && field[0] == 0x2b {
        field.drop_first()
    } else {
        field
    }
}

/// The unsigned 64-bit number that a field writes: decimal digits, at least
/// one, which a plus sign may precede.
pub open spec fn number(field: Seq<u8>) -> Option<u64> {
    let digits = unsigned_part(field);
    if digits.len() > 0 && all_digits(digits) && decimal(digits) <= u64::MAX {
        Some(decimal(digits) as u64)
    } else {
        None
    }
}

/// The resident set size, in bytes, that a status text reports.
///
/// It stands on the first line that begins with `VmRSS:`, as that line's
/// second field, in kilobytes of 1024 bytes.
pub open spec fn vm_rss(status: Seq<u8>) -> Result<u64, ProbeError> {
    match first_rss_line(status, 0) {
        None => Err(ProbeError::NotFound),
        Some(start) => match second_field(status.subrange(start, line_end(status, start))) {
            None => Err(ProbeError::MissingValue),
            Some(field) => match number(field) {
                None => Err(ProbeError::InvalidNumber),
                Some(kilobytes) => if kilobytes * 1024 <= u64::MAX {
                    Ok((kilobytes * 1024) as u64)
                } else {
                    Err(ProbeError::OutOfRange)
                },
            },
        },
    }
}

/// `skip_while` stops within the sequence, at a byte that fails `p`, and
/// every byte that it passes satisfies `p`.
pub proof fn lemma_skip_while(s: Seq<u8>, from: int, p: spec_fn(u8) -> bool)
    requires
        0 <= from <= s.len(),
    ensures
        from <= skip_while(s, from, p) <= s.len(),
        skip_while(s, from, p) < s.len() ==> !p(s[skip_while(s, from, p)]),
        forall|k: int| from <= k < skip_while(s, from, p) ==> p(#[trigger] s[k]),
    decreases s.len() - from,
{
    if from < s.len() && p(s[from]) {
        lemma_skip_while(s, from + 1, p);
    }
}

/// Where every byte from `from` up to `to` satisfies `p`, skipping from
/// either comes to the same index.
proof fn lemma_skip_while_step(s: Seq<u8>, from: int, to: int, p: spec_fn(u8) -> bool)
    requires
        0 <= from <= to <= s.len(),
        forall|k: int| from <= k < to ==> p(#[trigger] s[k]),
    ensures
        skip_while(s, from, p) == skip_while(s, to, p),
    decreases to - from,
{
    if from < to {
        assert(p(s[from]));
        lemma_skip_while_step(s, from + 1, to, p);
    }
}

/// Where no line beginning with `VmRSS:` starts from `from` up to `to`, the
/// first such line at or after either is the same.
proof fn lemma_first_rss_line_step(s: Seq<u8>, from: int, to: int)
    requires
        0 <= from <= to <= s.len(),
        forall|k: int| from <= k < to ==> !rss_line_at(s, k),
    ensures
        first_rss_line(s, from) == first_rss_line(s, to),
    decreases to - from,
{
    if from < to {
        lemma_first_rss_line_step(s, from + 1, to);
    }
}

/// The first `VmRSS:` line is the earliest: it is such a line, and none
/// starts before it; and where there is none, no index starts one.
pub proof fn lemma_first_rss_line(s: Seq<u8>, from: int)
    requires
        0 <= from,
    ensures
        match first_rss_line(s, from) {
            Some(i) => from <= i < s.len() && rss_line_at(s, i) && forall|k: int|
                from <= k < i ==> !rss_line_at(s, k),
            None => forall|k: int| from <= k ==> !rss_line_at(s, k),
        },
    decreases s.len() - from,
{
    if from < s.len() && !rss_line_at(s, from) {
        lemma_first_rss_line(s, from + 1);
    }
}

fn starts_with_key(s: &[u8], i: usize) -> (found: bool)
    requires
        i <= s.len(),
    ensures
        found == has_prefix(s@, i as int, rss_key()),
{
    if s.len() - i < 6 {
        return false;
    }
    let found = s[i] == 0x56 && s[i + 1] == 0x6d && s[i + 2] == 0x52 && s[i + 3] == 0x53 && s[i
        + 4] == 0x53 && s[i + 5] == 0x3a;
    proof {
        let part = s@.subrange(i as int, i + 6);
        if found {
            assert(part =~= rss_key());
        } else {
            assert(part[0] == s@[i as int]);
            assert(part[1] == s@[i + 1]);
            assert(part[2] == s@[i + 2]);
            assert(part[3] == s@[i + 3]);
            assert(part[4] == s@[i + 4]);
            assert(part[5] == s@[i + 5]);
        }
    }
    found
}

fn find_line_end(s: &[u8], from: usize) -> (end: usize)
    requires
        from <= s.len(),
    ensures
        end == line_end(s@, from as int),
        from <= end <= s.len(),
{
    let mut i: usize = from;
    while i < s.len() && s[i] != 0x0a
        invariant
            from <= i <= s.len(),
            line_end(s@, from as int) == line_end(s@, i as int),
        decreases s.len() - i,
    {
        i += 1;
    }
    i
}

fn space(b: u8) -> (r: bool)
    ensures
        r == is_space(b),
{
    b == 0x20 || (0x09 <= b && b <= 0x0d)
}

fn find_field_start(s: &[u8], from: usize) -> (start: usize)
    requires
        from <= s.len(),
    ensures
        start == skip_spaces(s@, from as int),
        from <= start <= s.len(),
{
    let mut i: usize = from;
    while i < s.len() && space(s[i])
        invariant
            from <= i <= s.len(),
            skip_spaces(s@, from as int) == skip_spaces(s@, i as int),
        decreases s.len() - i,
    {
        i += 1;
    }
    i
}

fn find_field_end(s: &[u8], from: usize) -> (end: usize)
    requires
        from <= s.len(),
    ensures
        end == skip_field(s@, from as int),
        from <= end <= s.len(),
{
    let mut i: usize = from;
    while i < s.len() && !space(s[i])
        invariant
            from <= i <= s.len(),
            skip_field(s@, from as int) == skip_field(s@, i as int),
        decreases s.len() - i,
    {
        i += 1;
    }
    i
}

/// Appending a digit multiplies by ten and adds the digit, so a longer
/// string of digits writes no smaller a number than any of its prefixes.
proof fn lemma_decimal_prefix(digits: Seq<u8>, n: int)
    requires
        0 <= n <= digits.len(),
        all_digits(digits),
    ensures
        decimal(digits.take(n)) <= decimal(digits),
    decreases digits.len() - n,
{
    if n < digits.len() {
        assert(digits.take(n + 1).drop_last() =~= digits.take(n));
        assert(is_digit(digits[n]));
        assert(digits.take(n + 1).last() == digits[n]);
        lemma_decimal_prefix(digits, n + 1);
    } else {
        assert(digits.take(n) =~= digits);
    }
}

/// Reads an unsigned 64-bit decimal number.
fn parse_number(field: &[u8]) -> (value: Option<u64>)
    ensures
        value == number(field@),
{
    let from: usize = if field.len() > 0 && field[0] == 0x2b {
        1
    } else {
        0
    };
    let digits = slice_subrange(field, from, field.len());
    assert(digits@ =~= unsigned_part(field@));
    if digits.len() == 0 {
        return None;
    }
    let mut acc: u64 = 0;
    let mut i: usize = 0;
    while i < digits.len()
        invariant
            0 <= i <= digits.len(),
            digits@ == unsigned_part(field@),
            all_digits(digits@.take(i as int)),
            acc == decimal(digits@.take(i as int)),
        decreases digits.len() - i,
    {
        let b: u8 = digits[i];
        if !(0x30 <= b && b <= 0x39) {
            assert(!is_digit(digits@[i as int]));
            return None;
        }
        let d: u64 = (b - 0x30) as u64;
        proof {
            assert(digits@.take(i + 1).drop_last() =~= digits@.take(i as int));
            assert(digits@.take(i + 1).last() == b);
            assert forall|k: int| 0 <= k < i + 1 implies is_digit(
                #[trigger] digits@.take(i + 1)[k],
            ) by {
                if k < i {
                    assert(digits@.take(i + 1)[k] == digits@.take(i as int)[k]);
                }
            }
        }
        if acc > (u64::MAX - d) / 10 {
            // The digits read so far already write more than 64 bits hold.
            let mut j: usize = i + 1;
            while j < digits.len()
                invariant
                    i < j <= digits.len(),
                    digits@ == unsigned_part(field@),
                    all_digits(digits@.take(j as int)),
                decreases digits.len() - j,
            {
                let c: u8 = digits[j];
                if !(0x30 <= c && c <= 0x39) {
                    assert(!is_digit(digits@[j as int]));
                    return None;
                }
                proof {
                    assert forall|k: int| 0 <= k < j + 1 implies is_digit(
                        #[trigger] digits@.take(j + 1)[k],
                    ) by {
                        if k < j {
                            assert(digits@.take(j + 1)[k] == digits@.take(j as int)[k]);
                        }
                    }
                }
                j += 1;
            }
            proof {
                assert(digits@.take(j as int) =~= digits@);
                lemma_decimal_prefix(digits@, i + 1);
                assert(decimal(digits@.take(i + 1)) == acc * 10 + d);
            }
            return None;
        }
        acc = acc * 10 + d;
        i += 1;
    }
    assert(digits@.take(i as int) =~= digits@);
    Some(acc)
}

/// Reads the resident set size, in bytes, out of the text of a process's
/// status file.
pub fn parse_vm_rss(status: &[u8]) -> (rss: Result<u64, ProbeError>)
    ensures
        rss == vm_rss(status@),
{
    let mut start: usize = 0;
    while start < status.len()
        invariant
            0 <= start <= status.len(),
            is_line_start(status@, start as int),
            first_rss_line(status@, 0) == first_rss_line(status@, start as int),
        decreases status.len() - start,
    {
        let end = find_line_end(status, start);
        proof {
            lemma_skip_while(status@, start as int, |b: u8| b != 0x0a);
        }
        if starts_with_key(status, start) {
            let line = slice_subrange(status, start, end);
            let first = find_field_start(line, 0);
            let gap = find_field_end(line, first);
            let second = find_field_start(line, gap);
            let stop = find_field_end(line, second);
            if second >= line.len() {
                return Err(ProbeError::MissingValue);
            }
            let field = slice_subrange(line, second, stop);
            return match parse_number(field) {
                None => Err(ProbeError::InvalidNumber),
                Some(kilobytes) => {
                    if kilobytes > u64::MAX / 1024 {
                        Err(ProbeError::OutOfRange)
                    } else {
                        Ok(kilobytes * 1024)
                    }
                },
            };
        }
        if end >= status.len() {
            proof {
                assert forall|k: int| start <= k < status.len() implies !rss_line_at(
                    status@,
                    k,
                ) by {
                    if k > start {
                        assert(status@[k - 1] != 0x0a);
                    }
                }
                lemma_first_rss_line_step(status@, start as int, status.len() as int);
            }
            return Err(ProbeError::NotFound);
        }
        proof {
            assert forall|k: int| start <= k < end + 1 implies !rss_line_at(status@, k) by {
                if k > start {
                    assert(status@[k - 1] != 0x0a);
                }
            }
            lemma_first_rss_line_step(status@, start as int, end + 1);
        }
        start = end + 1;
    }
    Err(ProbeError::NotFound)
}

/// The peak after one more sample: the larger of the peak so far and the
/// sample. A sample that could not be taken changes nothing.
pub open spec fn peak_after(peak: nat, sample: Result<u64, ProbeError>) -> nat {
    match sample {
        Ok(bytes) => if bytes >= peak {
            bytes as nat
        } else {
            peak
        },
        Err(_) => peak,
    }
}

/// The peak of a series of samples: the largest that was taken, and zero
/// where none was.
pub open spec fn peak_of(samples: Seq<Result<u64, ProbeError>>) -> nat
    decreases samples.len(),
{
    if samples.len() == 0 {
        0
    } else {
        peak_after(peak_of(samples.drop_last()), samples.last())
    }
}

/// The peak of a series is no smaller than any sample taken, and is one of
/// them unless it is zero.
pub proof fn lemma_peak_of_is_max(samples: Seq<Result<u64, ProbeError>>)
    ensures
        forall|k: int|
            0 <= k < samples.len() && (#[trigger] samples[k]) is Ok ==> samples[k]->Ok_0
                <= peak_of(samples),
        peak_of(samples) == 0 || exists|k: int|
            0 <= k < samples.len() && (#[trigger] samples[k]) == Ok::<u64, ProbeError>(
                peak_of(samples) as u64,
            ),
        peak_of(samples) <= u64::MAX,
    decreases samples.len(),
{
    if samples.len() > 0 {
        let head = samples.drop_last();
        lemma_peak_of_is_max(head);
        assert forall|k: int| 0 <= k < samples.len() && (#[trigger] samples[k]) is Ok implies
            samples[k]->Ok_0 <= peak_of(samples) by {
            if k < head.len() {
                assert(head[k] == samples[k]);
            }
        }
        if peak_of(samples) != 0 {
            if peak_of(samples) == peak_of(head) {
                let k = choose|k: int|
                    0 <= k < head.len() && (#[trigger] head[k]) == Ok::<u64, ProbeError>(
                        peak_of(head) as u64,
                    );
                assert(samples[k] == head[k]);
            } else {
                assert(samples[samples.len() - 1] == Ok::<u64, ProbeError>(
                    peak_of(samples) as u64,
                ));
            }
        }
    }
}

/// The sampler's running maximum of the resident set size, in bytes.
///
/// Its view is the peak so far.
#[derive(Debug, Clone, Copy, PartialEq, Eq, Structural)]
pub struct PeakMemory {
    peak: u64,
}

impl View for PeakMemory {
    type V = nat;

    closed spec fn view(&self) -> nat {
        self.peak as nat
    }
}

impl PeakMemory {
    /// Nothing sampled yet.
    pub fn new() -> (tracker: PeakMemory)
        ensures
            tracker@ == 0,
    {
        PeakMemory { peak: 0 }
    }

    /// Takes one sample in. One that could not be taken is skipped: the
    /// process may have gone between two samples.
    pub fn observe(&mut self, sample: Result<u64, ProbeError>)
        ensures
            final(self)@ == peak_after(old(self)@, sample),
    {
        match sample {
            Ok(bytes) => {
                if bytes >= self.peak {
                    self.peak = bytes;
                }
            },
            Err(_) => {},
        }
    }

    /// The peak so far, in bytes.
    pub fn peak(&self) -> (bytes: u64)
        ensures
            bytes == self@,
    {
        self.peak
    }

    /// The peak of a whole series of samples.
    pub fn of_samples(samples: &[Result<u64, ProbeError>]) -> (tracker: PeakMemory)
        ensures
            tracker@ == peak_of(samples@),
    {
        let mut tracker = PeakMemory::new();
        let mut i: usize = 0;
        while i < samples.len()
            invariant
                i <= samples.len(),
                tracker@ == peak_of(samples@.take(i as int)),
            decreases samples.len() - i,
        {
            assert(samples@.take(i + 1).drop_last() =~= samples@.take(i as int));
            tracker.observe(samples[i]);
            i += 1;
        }
        assert(samples@.take(i as int) =~= samples@);
        tracker
    }
}

} // verus!
