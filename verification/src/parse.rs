use vstd::prelude::*;
use vstd::string::StrSliceExecFns;
use vstd::string::StringExecFns;

use crate::error::IpmiError;

verus! {

// ---------------------------------------------------------------------------
// Character classes of the sensor-report grammar (ASCII).
// ---------------------------------------------------------------------------

/// `c` equals the lower-case ASCII letter or other character `l`, ignoring
/// ASCII case: either exactly, or `c` is the upper-case form of a letter.
pub open spec fn matches_ci(c: char, l: char) -> bool {
    c == l || ('a' <= l && l <= 'z' && c as int == l as int - 32)
}

/// Whitespace inside a report line (a newline never occurs there).
pub open spec fn is_ws(c: char) -> bool {
    c == ' ' || c == '\t' || c == '\r' || c == '\x0b' || c == '\x0c'
}

/// An ASCII decimal digit.
pub open spec fn is_digit(c: char) -> bool {
    '0' <= c && c <= '9'
}

// ---------------------------------------------------------------------------
// Pattern matching, case-insensitive against a lower-case pattern.
// ---------------------------------------------------------------------------

/// The pattern `pat` matches inside `s` at position `j`, ignoring ASCII case.
pub open spec fn matches_ci_at(s: Seq<char>, j: int, pat: Seq<char>) -> bool {
    &&& 0 <= j
    &&& j + pat.len() <= s.len()
    &&& forall|i: int| 0 <= i < pat.len() ==> matches_ci(s[j + i], #[trigger] pat[i])
}

/// The pattern matches somewhere in `s` at or after position `from`.
pub open spec fn contains_ci_from(s: Seq<char>, pat: Seq<char>, from: int) -> bool
    decreases s.len() - from,
{
    if from < 0 || from + pat.len() > s.len() {
        false
    } else if matches_ci_at(s, from, pat) {
        true
    } else {
        contains_ci_from(s, pat, from + 1)
    }
}

// ---------------------------------------------------------------------------
// Line structure of a raw sensor report.
// ---------------------------------------------------------------------------

/// The first newline position in `s` at or after `from`, or `s.len()` when
/// there is none.
pub open spec fn nl_idx_from(s: Seq<char>, from: int) -> int
    decreases s.len() - from,
{
    if from < 0 || from >= s.len() {
        s.len() as int
    } else if s[from] == '\n' {
        from
    } else {
        nl_idx_from(s, from + 1)
    }
}

/// The first newline position lies between `from` and the length, and the
/// characters before it are no newlines.
pub proof fn lemma_nl_idx_from_bounds(s: Seq<char>, from: int)
    requires
        0 <= from <= s.len(),
    ensures
        from <= nl_idx_from(s, from) <= s.len(),
        nl_idx_from(s, from) < s.len() ==> s[nl_idx_from(s, from)] == '\n',
        forall|k: int| from <= k < nl_idx_from(s, from) ==> s[k] != '\n',
    decreases s.len() - from,
{
    if from < s.len() && s[from] != '\n' {
        lemma_nl_idx_from_bounds(s, from + 1);
    }
}

/// A line with its trailing carriage return, if any, removed.
pub open spec fn strip_cr(line: Seq<char>) -> Seq<char> {
    if line.len() > 0 && line[line.len() - 1] == '\r' {
        line.drop_last()
    } else {
        line
    }
}

// ---------------------------------------------------------------------------
// Info-query summary: the lines whose sensor-name field looks like a fan or
// a temperature row, in their original order, each terminated by a newline.
// ---------------------------------------------------------------------------

/// A line belongs to the summary when it starts with `fan` or mentions
/// `temp` anywhere, ignoring ASCII case.
pub open spec fn keep_line(line: Seq<char>) -> bool {
    matches_ci_at(line, 0, "fan"@) || contains_ci_from(line, "temp"@, 0)
}

/// The fan-and-temperature summary of a raw report: its matching lines in
/// order, each followed by a newline.
pub open spec fn summary_spec(s: Seq<char>) -> Seq<char>
    decreases s.len(),
{
    if s.len() == 0 {
        Seq::empty()
    } else {
        proof {
            lemma_nl_idx_from_bounds(s, 0);
        }
        let e = nl_idx_from(s, 0);
        let line = strip_cr(s.subrange(0, e));
        let head = if keep_line(line) {
            line + "\n"@
        } else {
            Seq::<char>::empty()
        };
        let tail = if e == s.len() {
            Seq::<char>::empty()
        } else {
            summary_spec(s.subrange(e + 1, s.len() as int))
        };
        head + tail
    }
}

// ---------------------------------------------------------------------------
// CPU temperature extraction: the first line whose leading field is `temp`
// and that shows `<digits><whitespace>degrees` decides the reading.
// ---------------------------------------------------------------------------

/// The leading field of the line is exactly `temp` (followed by a space),
/// ignoring ASCII case.
pub open spec fn is_temp_line(line: Seq<char>) -> bool {
    matches_ci_at(line, 0, "temp "@)
}

/// Position `i` carries a degrees pattern: a whitespace character followed
/// immediately by the word `degrees`, ignoring ASCII case.
pub open spec fn deg_match_at(line: Seq<char>, i: int) -> bool {
    &&& 0 <= i < line.len()
    &&& is_ws(line[i])
    &&& matches_ci_at(line, i + 1, "degrees"@)
}

/// The first degrees-pattern position at or after `from`, or `line.len()`
/// when there is none.
pub open spec fn first_deg_from(line: Seq<char>, from: int) -> int
    decreases line.len() - from,
{
    if from < 0 || from >= line.len() {
        line.len() as int
    } else if deg_match_at(line, from) {
        from
    } else {
        first_deg_from(line, from + 1)
    }
}

/// The first degrees-pattern position lies between `from` and the length;
/// it is a match when inside, and no earlier position matches.
pub proof fn lemma_first_deg_from_bounds(line: Seq<char>, from: int)
    requires
        0 <= from <= line.len(),
    ensures
        from <= first_deg_from(line, from) <= line.len(),
        first_deg_from(line, from) < line.len() ==> deg_match_at(line, first_deg_from(line, from)),
        forall|k: int| from <= k < first_deg_from(line, from) ==> !deg_match_at(line, k),
    decreases line.len() - from,
{
    if from < line.len() && !deg_match_at(line, from) {
        lemma_first_deg_from_bounds(line, from + 1);
    }
}

/// The start of the maximal run of digits ending just before position `i`.
pub open spec fn digit_run_start(line: Seq<char>, i: int) -> int
    decreases i,
{
    if i <= 0 {
        0
    } else if is_digit(line[i - 1]) {
        digit_run_start(line, i - 1)
    } else {
        i
    }
}

/// The digit run is within bounds and consists of digits.
pub proof fn lemma_digit_run_start_digits(line: Seq<char>, i: int)
    requires
        0 <= i <= line.len(),
    ensures
        0 <= digit_run_start(line, i) <= i,
        forall|k: int| digit_run_start(line, i) <= k < i ==> is_digit(#[trigger] line[k]),
    decreases i,
{
    if i > 0 && is_digit(line[i - 1]) {
        lemma_digit_run_start_digits(line, i - 1);
    }
}

/// The numeric value of a digit string read in base ten.
pub open spec fn digits_val(s: Seq<char>) -> int
    decreases s.len(),
{
    if s.len() == 0 {
        0
    } else {
        digits_val(s.drop_last()) * 10 + (s[s.len() - 1] as int - '0' as int)
    }
}

/// A digit string's value is never negative.
pub proof fn lemma_digits_val_nonneg(s: Seq<char>)
    requires
        forall|k: int| 0 <= k < s.len() ==> is_digit(#[trigger] s[k]),
    ensures
        digits_val(s) >= 0,
    decreases s.len(),
{
    if s.len() > 0 {
        lemma_digits_val_nonneg(s.drop_last());
    }
}

/// Extending a digit string never shrinks its value: once a prefix is over a
/// bound, the whole string is too.
pub proof fn lemma_digits_val_prefix_le(s: Seq<char>, n: int)
    requires
        forall|k: int| 0 <= k < s.len() ==> is_digit(#[trigger] s[k]),
        0 <= n <= s.len(),
    ensures
        digits_val(s.subrange(0, n)) <= digits_val(s),
    decreases s.len() - n,
{
    if n < s.len() {
        lemma_digits_val_prefix_le(s, n + 1);
        let p = s.subrange(0, n);
        let q = s.subrange(0, n + 1);
        assert(q.drop_last() =~= p);
        lemma_digits_val_nonneg(p);
    } else {
        assert(s.subrange(0, n) =~= s);
    }
}

/// The captured digits as an unsigned 16-bit reading: none when the capture
/// is empty or its value does not fit.
pub open spec fn parse_u16_spec(s: Seq<char>) -> Option<u16> {
    if s.len() == 0 {
        None
    } else if digits_val(s) > 0xffff {
        None
    } else {
        Some(digits_val(s) as u16)
    }
}

/// What a temperature line decides: nothing when it shows no degrees
/// pattern; otherwise the parsed reading, or a parse error when the digits
/// before the pattern are absent or overflow.
pub open spec fn temp_line_result(line: Seq<char>) -> Option<Result<u16, IpmiError>> {
    let i = first_deg_from(line, 0);
    if i == line.len() {
        None
    } else {
        match parse_u16_spec(line.subrange(digit_run_start(line, i), i)) {
            Some(v) => Some(Ok(v)),
            None => Some(Err(IpmiError::Parse)),
        }
    }
}

/// The reading extracted from a raw report: the first `temp` line showing a
/// degrees pattern decides, and a report without such a line is not found.
pub open spec fn extract_temp_spec(s: Seq<char>) -> Result<u16, IpmiError>
    decreases s.len(),
{
    if s.len() == 0 {
        Err(IpmiError::NotFound)
    } else {
        proof {
            lemma_nl_idx_from_bounds(s, 0);
        }
        let e = nl_idx_from(s, 0);
        let line = strip_cr(s.subrange(0, e));
        let decided = if is_temp_line(line) {
            temp_line_result(line)
        } else {
            None
        };
        match decided {
            Some(r) => r,
            None => if e == s.len() {
                Err(IpmiError::NotFound)
            } else {
                extract_temp_spec(s.subrange(e + 1, s.len() as int))
            },
        }
    }
}

// ---------------------------------------------------------------------------
// Executable scanners, each proved against the model above.
// ---------------------------------------------------------------------------

/// Case-insensitive character match against a lower-case pattern character.
fn char_matches_ci(c: char, l: char) -> (r: bool)
    ensures
        r == matches_ci(c, l),
{
    if c == l {
        true
    } else {
        'a' <= l && l <= 'z' && (l as u32) - 32 == (c as u32)
    }
}

fn char_is_ws(c: char) -> (r: bool)
    ensures
        r == is_ws(c),
{
    c == ' ' || c == '\t' || c == '\r' || c == '\x0b' || c == '\x0c'
}

fn char_is_digit(c: char) -> (r: bool)
    ensures
        r == is_digit(c),
{
    '0' <= c && c <= '9'
}

/// Checks the pattern against `s` at position `j`, ignoring ASCII case.
fn matches_ci_at_exec(s: &str, j: usize, pat: &str) -> (r: bool)
    requires
        j <= s@.len(),
    ensures
        r == matches_ci_at(s@, j as int, pat@),
{
    let n = pat.unicode_len();
    let sl = s.unicode_len();
    if sl - j < n {
        return false;
    }
    let mut i: usize = 0;
    while i < n
        invariant
            i <= n,
            j + n <= sl,
            n == pat@.len(),
            sl == s@.len(),
            forall|k: int| 0 <= k < i ==> matches_ci(s@[j + k], #[trigger] pat@[k]),
        decreases n - i,
    {
        if !char_matches_ci(s.get_char(j + i), pat.get_char(i)) {
            return false;
        }
        i += 1;
    }
    true
}

/// Scans for `temp` anywhere in the line, ignoring ASCII case.
fn line_contains_temp(line: &str) -> (r: bool)
    ensures
        r == contains_ci_from(line@, "temp"@, 0),
{
    proof {
        reveal_strlit("temp");
    }
    let n = line.unicode_len();
    if n < 4 {
        return false;
    }
    let mut j: usize = 0;
    while j <= n - 4
        invariant
            n == line@.len(),
            4 <= n,
            j <= n - 3,
            contains_ci_from(line@, "temp"@, 0) == contains_ci_from(line@, "temp"@, j as int),
        decreases n - j,
    {
        if matches_ci_at_exec(line, j, "temp") {
            return true;
        }
        j += 1;
    }
    false
}

/// Finds the first newline in the report, or its length when none is left.
fn first_line_end(raw: &str) -> (e: usize)
    ensures
        e as int == nl_idx_from(raw@, 0),
        e <= raw@.len(),
{
    proof {
        lemma_nl_idx_from_bounds(raw@, 0);
    }
    let n = raw.unicode_len();
    let mut i: usize = 0;
    while i < n
        invariant
            i <= n,
            n == raw@.len(),
            nl_idx_from(raw@, 0) == nl_idx_from(raw@, i as int),
        decreases n - i,
    {
        if raw.get_char(i) == '\n' {
            return i;
        }
        i += 1;
    }
    n
}

/// Finds the first degrees pattern in the line, or the line length when
/// there is none.
fn find_degrees_match(line: &str) -> (r: usize)
    ensures
        r as int == first_deg_from(line@, 0),
        r <= line@.len(),
{
    proof {
        lemma_first_deg_from_bounds(line@, 0);
    }
    let n = line.unicode_len();
    let mut i: usize = 0;
    while i < n
        invariant
            i <= n,
            n == line@.len(),
            first_deg_from(line@, 0) == first_deg_from(line@, i as int),
        decreases n - i,
    {
        if char_is_ws(line.get_char(i)) && matches_ci_at_exec(line, i + 1, "degrees") {
            return i;
        }
        i += 1;
    }
    n
}

/// Finds the start of the maximal digit run ending just before position `i`.
fn find_digit_run_start(line: &str, i: usize) -> (r: usize)
    requires
        i <= line@.len(),
    ensures
        r as int == digit_run_start(line@, i as int),
        r <= i,
{
    let mut d = i;
    while d > 0 && char_is_digit(line.get_char(d - 1))
        invariant
            d <= i,
            i <= line@.len(),
            digit_run_start(line@, i as int) == digit_run_start(line@, d as int),
        decreases d,
    {
        d -= 1;
    }
    d
}

/// Parses the all-digit capture `line[start..end]` as an unsigned 16-bit
/// value; none when it is empty or does not fit.
fn parse_digits_u16(line: &str, start: usize, end: usize) -> (r: Option<u16>)
    requires
        start <= end <= line@.len(),
        forall|k: int| start <= k < end ==> is_digit(#[trigger] line@[k]),
    ensures
        r == parse_u16_spec(line@.subrange(start as int, end as int)),
{
    let ghost capture = line@.subrange(start as int, end as int);
    if start == end {
        return None;
    }
    let mut acc: u32 = 0;
    let mut p = start;
    while p < end
        invariant
            start <= p <= end,
            end <= line@.len(),
            forall|k: int| start <= k < end ==> is_digit(#[trigger] line@[k]),
            capture == line@.subrange(start as int, end as int),
            acc as int == digits_val(line@.subrange(start as int, p as int)),
            acc <= 0xffff,
        decreases end - p,
    {
        let c = line.get_char(p);
        let d = (c as u32) - 48;
        proof {
            assert(is_digit(line@[p as int]));
            assert(line@.subrange(start as int, p as int + 1).drop_last() =~= line@.subrange(
                start as int,
                p as int,
            ));
        }
        acc = acc * 10 + d;
        if acc > 0xffff {
            proof {
                assert(capture.subrange(0, p as int + 1 - start) =~= line@.subrange(
                    start as int,
                    p as int + 1,
                ));
                assert(forall|k: int| 0 <= k < capture.len() ==> is_digit(#[trigger] capture[k]));
                lemma_digits_val_prefix_le(capture, p as int + 1 - start);
            }
            return None;
        }
        p += 1;
    }
    proof {
        assert(line@.subrange(start as int, end as int) =~= capture);
    }
    Some(acc as u16)
}

/// Extracts the CPU temperature reading from a raw sensor report: the first
/// line whose leading field is `temp` and that shows a
/// `<digits><whitespace>degrees` pattern decides the reading. A report with
/// no such line is `NotFound`; a deciding line whose digits are absent or do
/// not fit a 16-bit reading is a `Parse` error.
pub fn extract_cpu_temperature(raw: &str) -> (r: Result<u16, IpmiError>)
    ensures
        r == extract_temp_spec(raw@),
    decreases raw@.len(),
{
    let n = raw.unicode_len();
    if n == 0 {
        return Err(IpmiError::NotFound);
    }
    proof {
        lemma_nl_idx_from_bounds(raw@, 0);
    }
    let e = first_line_end(raw);
    let le = if e > 0 && raw.get_char(e - 1) == '\r' {
        e - 1
    } else {
        e
    };
    let line = raw.substring_char(0, le);
    proof {
        assert(line@ =~= strip_cr(raw@.subrange(0, e as int)));
    }
    let mut decided: Option<Result<u16, IpmiError>> = None;
    if matches_ci_at_exec(line, 0, "temp ") {
        proof {
            lemma_first_deg_from_bounds(line@, 0);
        }
        let di = find_degrees_match(line);
        let ln = line.unicode_len();
        if di < ln {
            let ds = find_digit_run_start(line, di);
            proof {
                lemma_digit_run_start_digits(line@, di as int);
            }
            match parse_digits_u16(line, ds, di) {
                Some(t) => {
                    decided = Some(Ok(t));
                },
                None => {
                    decided = Some(Err(IpmiError::Parse));
                },
            }
        }
    }
    match decided {
        Some(r) => r,
        None => {
            if e == n {
                Err(IpmiError::NotFound)
            } else {
                let rest = raw.substring_char(e + 1, n);
                extract_cpu_temperature(rest)
            }
        },
    }
}

/// Filters a raw sensor report to its fan and temperature lines, keeping
/// their original order and content, each line terminated by a newline.
pub fn extract_fan_and_temp_summary(raw: &str) -> (r: String)
    ensures
        r@ == summary_spec(raw@),
    decreases raw@.len(),
{
    let n = raw.unicode_len();
    let mut out = String::new();
    if n == 0 {
        return out;
    }
    proof {
        lemma_nl_idx_from_bounds(raw@, 0);
    }
    let e = first_line_end(raw);
    let le = if e > 0 && raw.get_char(e - 1) == '\r' {
        e - 1
    } else {
        e
    };
    let line = raw.substring_char(0, le);
    proof {
        assert(line@ =~= strip_cr(raw@.subrange(0, e as int)));
    }
    let keep = matches_ci_at_exec(line, 0, "fan") || line_contains_temp(line);
    if keep {
        out.append(line);
        out.append("\n");
    }
    if e < n {
        let rest = raw.substring_char(e + 1, n);
        let tail = extract_fan_and_temp_summary(rest);
        out.append(tail.as_str());
    }
    proof {
        assert(out@ =~= summary_spec(raw@));
    }
    out
}

} // verus!
