//! What is known of the host system, and the parsing of `/proc/meminfo`.
use vstd::prelude::*;

use crate::text::{has_prefix, starts_with};

verus! {

/// Bytes per kibibyte, the unit `/proc/meminfo` reports in.
pub const KIB: u64 = 1024;

/// The host facts the resource policy is derived from.
#[derive(Debug)]
pub struct SystemInfo {
    pub operating_system: &'static str,
    pub logical_cpus: usize,
    pub memory_total_bytes: Option<u64>,
    pub memory_available_bytes: Option<u64>,
    pub rustc_version: Option<String>,
    pub cargo_version: Option<String>,
}

/// Unicode white space, as `char::is_whitespace` defines it.
pub open spec fn is_space(c: char) -> bool {
    let u = c as u32;
    ||| 9 <= u <= 13
    ||| u == 32
    ||| u == 0x85
    ||| u == 0xA0
    ||| u == 0x1680
    ||| 0x2000 <= u <= 0x200A
    ||| u == 0x2028
    ||| u == 0x2029
    ||| u == 0x202F
    ||| u == 0x205F
    ||| u == 0x3000
}

/// An ASCII decimal digit.
pub open spec fn is_digit(c: char) -> bool {
    48 <= (c as u32) <= 57
}

/// The digits of an unsigned number: the token without one leading `+`.
pub open spec fn unsigned_digits(token: Seq<char>) -> Seq<char> {
    if token.len() > 0 && token[0] == '+' {
        token.drop_first()
    } else {
        token
    }
}

/// Every character is an ASCII decimal digit.
pub open spec fn all_digits(digits: Seq<char>) -> bool {
    forall|i: int| 0 <= i < digits.len() ==> is_digit(#[trigger] digits[i])
}

/// The value of a sequence of decimal digits.
pub open spec fn digits_value(digits: Seq<char>) -> nat
    decreases digits.len(),
{
    if digits.len() == 0 {
        0
    } else {
        digits_value(digits.drop_last()) * 10 + ((digits.last() as u32) - 48) as nat
    }
}

/// What `u64::from_str` returns for `token`: an optional `+`, then one or more
/// decimal digits whose value fits in 64 bits.
pub open spec fn parse_unsigned(token: Seq<char>) -> Option<u64> {
    let digits = unsigned_digits(token);
    if digits.len() > 0 && all_digits(digits) && digits_value(digits) <= u64::MAX {
        Some(digits_value(digits) as u64)
    } else {
        None
    }
}

/// The first index at or after `i` that does not hold white space.
pub open spec fn skip_space(s: Seq<char>, i: int) -> int
    decreases s.len() - i,
{
    if 0 <= i < s.len() && is_space(s[i]) {
        skip_space(s, i + 1)
    } else {
        i
    }
}

/// The first index at or after `i` that holds white space, or the length.
pub open spec fn token_end(s: Seq<char>, i: int) -> int
    decreases s.len() - i,
{
    if 0 <= i < s.len() && !is_space(s[i]) {
        token_end(s, i + 1)
    } else {
        i
    }
}

/// The first white-space separated word of `s`, if any.
pub open spec fn first_word(s: Seq<char>) -> Option<Seq<char>> {
    let start = skip_space(s, 0);
    if start >= s.len() {
        None
    } else {
        Some(s.subrange(start, token_end(s, start)))
    }
}

/// The byte count a `/proc/meminfo` line gives for `key`: the line starts with
/// `key`, the first word after it is a kibibyte count, and the byte count fits
/// in 64 bits.
pub open spec fn meminfo_line_value(line: Seq<char>, key: Seq<char>) -> Option<u64> {
    if !has_prefix(line, key) {
        None
    } else {
        match first_word(line.skip(key.len() as int)) {
            None => None,
            Some(word) => match parse_unsigned(word) {
                None => None,
                Some(kib) => if kib * 1024 <= u64::MAX {
                    Some((kib * 1024) as u64)
                } else {
                    None
                },
            },
        }
    }
}

proof fn lemma_skip_space_bounds(s: Seq<char>, i: int)
    requires
        0 <= i <= s.len(),
    ensures
        i <= skip_space(s, i) <= s.len(),
        forall|j: int| i <= j < skip_space(s, i) ==> is_space(#[trigger] s[j]),
        skip_space(s, i) < s.len() ==> !is_space(s[skip_space(s, i)]),
    decreases s.len() - i,
{
    if i < s.len() && is_space(s[i]) {
        lemma_skip_space_bounds(s, i + 1);
    }
}

proof fn lemma_token_end_bounds(s: Seq<char>, i: int)
    requires
        0 <= i <= s.len(),
    ensures
        i <= token_end(s, i) <= s.len(),
        forall|j: int| i <= j < token_end(s, i) ==> !is_space(#[trigger] s[j]),
    decreases s.len() - i,
{
    if i < s.len() && !is_space(s[i]) {
        lemma_token_end_bounds(s, i + 1);
    }
}

fn char_is_space(c: char) -> (space: bool)
    ensures
        space == is_space(c),
{
    let u = c as u32;
    (9 <= u && u <= 13) || u == 32 || u == 0x85 || u == 0xA0 || u == 0x1680 || (0x2000 <= u && u
        <= 0x200A) || u == 0x2028 || u == 0x2029 || u == 0x202F || u == 0x205F || u == 0x3000
}

proof fn lemma_digits_value_step(digits: Seq<char>, i: int)
    requires
        0 <= i < digits.len(),
    ensures
        digits_value(digits.take(i + 1)) == digits_value(digits.take(i)) * 10 + ((digits[i] as u32)
            - 48) as nat,
{
    assert(digits.take(i + 1).drop_last() =~= digits.take(i));
}

proof fn lemma_digits_value_grows(digits: Seq<char>, i: int, j: int)
    requires
        0 <= i <= j <= digits.len(),
        forall|k: int| 0 <= k < digits.len() ==> is_digit(#[trigger] digits[k]),
    ensures
        digits_value(digits.take(i)) <= digits_value(digits.take(j)),
    decreases j - i,
{
    if i < j {
        lemma_digits_value_grows(digits, i, j - 1);
        lemma_digits_value_step(digits, j - 1);
    }
}

/// Parses the word `s[start..end]` as `u64::from_str` does.
fn parse_word(s: &str, start: usize, end: usize) -> (value: Option<u64>)
    requires
        start < end <= s@.len(),
    ensures
        value == parse_unsigned(s@.subrange(start as int, end as int)),
{
    let ghost word = s@.subrange(start as int, end as int);
    let mut i = start;
    if s.get_char(start) == '+' {
        i = start + 1;
    }
    let ghost digits = s@.subrange(i as int, end as int);
    assert(digits =~= unsigned_digits(word));
    if i == end {
        return None;
    }
    let first = i;
    let mut value: u64 = 0;
    while i < end
        invariant
            start <= first <= i <= end <= s@.len(),
            first < end,
            word == s@.subrange(start as int, end as int),
            digits == s@.subrange(first as int, end as int),
            digits == unsigned_digits(word),
            forall|k: int| 0 <= k < i - first ==> is_digit(#[trigger] digits[k]),
            digits.len() == end - first,
            value as nat == digits_value(digits.take(i - first)),
        decreases end - i,
    {
        let c = s.get_char(i);
        if !(48 <= c as u32 && c as u32 <= 57) {
            assert(!is_digit(digits[i - first]));
            assert(!all_digits(digits));
            return None;
        }
        proof {
            lemma_digits_value_step(digits, i - first);
        }
        let d = (c as u32 - 48) as u64;
        if value > (u64::MAX - d) / 10 {
            proof {
                assert(value * 10 + d > u64::MAX) by (nonlinear_arith)
                    requires
                        value > (u64::MAX - d) / 10,
                        d <= 9,
                ;
                if all_digits(digits) {
                    lemma_digits_value_grows(digits, i - first + 1, digits.len() as int);
                    assert(digits.take(digits.len() as int) =~= digits);
                    assert(digits_value(digits) > u64::MAX);
                }
            }
            return None;
        }
        value = value * 10 + d;
        i += 1;
    }
    assert(digits.take(end - first) =~= digits);
    Some(value)
}

/// Reads the byte count that a `/proc/meminfo` line gives for `key`
/// (for example `"MemTotal:"`), whose value the line states in kibibytes.
pub fn parse_meminfo_line(line: &str, key: &str) -> (bytes: Option<u64>)
    ensures
        bytes == meminfo_line_value(line@, key@),
{
    if !starts_with(line, key) {
        return None;
    }
    let ghost rest = line@.skip(key@.len() as int);
    let n = line.unicode_len();
    let k = key.unicode_len();
    let mut i = k;
    proof {
        lemma_skip_space_bounds(rest, 0);
    }
    while i < n && char_is_space(line.get_char(i))
        invariant
            k <= i <= n,
            n == line@.len(),
            k == key@.len(),
            rest == line@.skip(k as int),
            skip_space(rest, (i - k) as int) == skip_space(rest, 0),
        decreases n - i,
    {
        i += 1;
    }
    if i == n {
        assert(first_word(rest) is None);
        return None;
    }
    let start = i;
    proof {
        lemma_token_end_bounds(rest, (start - k) as int);
    }
    while i < n && !char_is_space(line.get_char(i))
        invariant
            k <= start <= i <= n,
            start < n,
            n == line@.len(),
            k == key@.len(),
            rest == line@.skip(k as int),
            token_end(rest, (i - k) as int) == token_end(rest, (start - k) as int),
        decreases n - i,
    {
        i += 1;
    }
    let end = i;
    assert(rest.subrange((start - k) as int, (end - k) as int) =~= line@.subrange(
        start as int,
        end as int,
    ));
    match parse_word(line, start, end) {
        None => None,
        Some(kib) => kib.checked_mul(KIB),
    }
}

/// The index of the first line break at or after `i`, or the length.
pub open spec fn line_end(s: Seq<char>, i: int) -> int
    decreases s.len() - i,
{
    if 0 <= i < s.len() && s[i] != '\n' {
        line_end(s, i + 1)
    } else {
        i
    }
}

/// `line_end` lies between `i` and the length, and stops at a line break.
pub proof fn lemma_line_end_bounds(s: Seq<char>, i: int)
    requires
        0 <= i <= s.len(),
    ensures
        i <= line_end(s, i) <= s.len(),
        line_end(s, i) < s.len() ==> s[line_end(s, i)] == '\n',
    decreases s.len() - i,
{
    if i < s.len() && s[i] != '\n' {
        lemma_line_end_bounds(s, i + 1);
    }
}

/// The value for `key` that the last line holding one gives, among the
/// lines of `s` from index `i` on.
pub open spec fn last_meminfo_value(s: Seq<char>, key: Seq<char>, i: int) -> Option<u64>
    decreases s.len() - i,
{
    if 0 <= i <= s.len() {
        let end = line_end(s, i);
        let here = meminfo_line_value(s.subrange(i, end), key);
        let later = if end < s.len() {
            proof {
                lemma_line_end_bounds(s, i);
            }
            last_meminfo_value(s, key, end + 1)
        } else {
            None
        };
        if later is Some {
            later
        } else {
            here
        }
    } else {
        None
    }
}

/// The total and available memory that the contents of `/proc/meminfo`
/// state, each taken from the last line that gives it.
pub fn parse_meminfo(contents: &str) -> (memory: (Option<u64>, Option<u64>))
    ensures
        memory.0 == last_meminfo_value(contents@, "MemTotal:"@, 0),
        memory.1 == last_meminfo_value(contents@, "MemAvailable:"@, 0),
{
    let n = contents.unicode_len();
    let mut total: Option<u64> = None;
    let mut available: Option<u64> = None;
    let mut start: usize = 0;
    let ghost s = contents@;
    loop
        invariant
            n == s.len(),
            s == contents@,
            start <= n,
            last_meminfo_value(s, "MemTotal:"@, 0) == (if last_meminfo_value(
                s,
                "MemTotal:"@,
                start as int,
            ) is Some {
                last_meminfo_value(s, "MemTotal:"@, start as int)
            } else {
                total
            }),
            last_meminfo_value(s, "MemAvailable:"@, 0) == (if last_meminfo_value(
                s,
                "MemAvailable:"@,
                start as int,
            ) is Some {
                last_meminfo_value(s, "MemAvailable:"@, start as int)
            } else {
                available
            }),
        decreases n - start,
    {
        let mut end = start;
        proof {
            lemma_line_end_bounds(s, start as int);
        }
        while end < n && contents.get_char(end) != '\n'
            invariant
                start <= end <= n,
                n == s.len(),
                s == contents@,
                line_end(s, end as int) == line_end(s, start as int),
            decreases n - end,
        {
            end += 1;
        }
        let line = contents.substring_char(start, end);
        let found_total = parse_meminfo_line(line, "MemTotal:");
        if found_total.is_some() {
            total = found_total;
        }
        let found_available = parse_meminfo_line(line, "MemAvailable:");
        if found_available.is_some() {
            available = found_available;
        }
        if end >= n {
            return (total, available);
        }
        start = end + 1;
    }
}

} // verus!
