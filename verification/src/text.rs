//! Character-level helpers shared by the command-line and report code.
use vstd::prelude::*;

verus! {

/// The ASCII character of a decimal digit.
pub open spec fn digit_char(d: nat) -> char {
    (d + 48) as char
}

/// The decimal representation of `n`, most significant digit first, without
/// leading zeros.
pub open spec fn decimal(n: nat) -> Seq<char>
    decreases n,
{
    if n < 10 {
        seq![digit_char(n)]
    } else {
        decimal(n / 10).push(digit_char(n % 10))
    }
}

/// Whether `prefix` is a prefix of `s`.
pub open spec fn has_prefix(s: Seq<char>, prefix: Seq<char>) -> bool {
    prefix.len() <= s.len() && s.subrange(0, prefix.len() as int) == prefix
}

/// The string of one decimal digit.
pub fn digit_str(d: u64) -> (text: &'static str)
    requires
        d < 10,
    ensures
        text@ == seq![digit_char(d as nat)],
{
    proof {
        reveal_strlit("0");
        reveal_strlit("1");
        reveal_strlit("2");
        reveal_strlit("3");
        reveal_strlit("4");
        reveal_strlit("5");
        reveal_strlit("6");
        reveal_strlit("7");
        reveal_strlit("8");
        reveal_strlit("9");
    }
    let text = match d {
        0 => "0",
        1 => "1",
        2 => "2",
        3 => "3",
        4 => "4",
        5 => "5",
        6 => "6",
        7 => "7",
        8 => "8",
        _ => "9",
    };
    assert(text@ =~= seq![digit_char(d as nat)]);
    text
}

/// Appends the decimal representation of `n`.
pub fn push_decimal(out: &mut String, n: u64)
    ensures
        final(out)@ == old(out)@ + decimal(n as nat),
    decreases n,
{
    if n >= 10 {
        push_decimal(out, n / 10);
    }
    out.append(digit_str(n % 10));
    proof {
        if n >= 10 {
            assert(decimal(n as nat) == decimal((n / 10) as nat).push(digit_char((n % 10) as nat)));
        }
        assert(final(out)@ =~= old(out)@ + decimal(n as nat));
    }
}

/// The decimal representation of `n` as a new string.
pub fn decimal_string(n: u64) -> (text: String)
    ensures
        text@ == decimal(n as nat),
{
    let mut out = String::new();
    push_decimal(&mut out, n);
    assert(out@ =~= decimal(n as nat));
    out
}

/// Whether two strings hold the same characters.
pub fn str_eq(a: &str, b: &str) -> (equal: bool)
    ensures
        equal == (a@ == b@),
{
    let n = a.unicode_len();
    if n != b.unicode_len() {
        return false;
    }
    let mut i: usize = 0;
    while i < n
        invariant
            n == a@.len(),
            n == b@.len(),
            i <= n,
            forall|j: int| 0 <= j < i ==> a@[j] == b@[j],
        decreases n - i,
    {
        if a.get_char(i) != b.get_char(i) {
            return false;
        }
        i += 1;
    }
    assert(a@ =~= b@);
    true
}

/// Whether `s` starts with `prefix`.
pub fn starts_with(s: &str, prefix: &str) -> (found: bool)
    ensures
        found == has_prefix(s@, prefix@),
{
    let n = prefix.unicode_len();
    if n > s.unicode_len() {
        return false;
    }
    let mut i: usize = 0;
    while i < n
        invariant
            n == prefix@.len(),
            n <= s@.len(),
            i <= n,
            forall|j: int| 0 <= j < i ==> s@[j] == prefix@[j],
        decreases n - i,
    {
        if s.get_char(i) != prefix.get_char(i) {
            assert(s@.subrange(0, n as int)[i as int] != prefix@[i as int]);
            return false;
        }
        i += 1;
    }
    assert(s@.subrange(0, n as int) =~= prefix@);
    true
}

/// The character sequences of a list of strings.
pub open spec fn views(strings: Seq<String>) -> Seq<Seq<char>> {
    strings.map_values(|s: String| s@)
}

/// The words of `words` joined by `separator`.
pub open spec fn joined(words: Seq<Seq<char>>, separator: Seq<char>) -> Seq<char>
    decreases words.len(),
{
    if words.len() == 0 {
        Seq::empty()
    } else if words.len() == 1 {
        words[0]
    } else {
        joined(words.drop_last(), separator) + separator + words.last()
    }
}

/// A new string holding the characters of `s`.
pub fn owned(s: &str) -> (text: String)
    ensures
        text@ == s@,
{
    String::from_str(s)
}

/// Appends copies of `extra` to `list`.
pub fn extend_cloned(list: &mut Vec<String>, extra: &[String])
    ensures
        views(final(list)@) == views(old(list)@) + views(extra@),
{
    let ghost start = views(list@);
    let mut i: usize = 0;
    while i < extra.len()
        invariant
            i <= extra@.len(),
            views(list@) == start + views(extra@.subrange(0, i as int)),
        decreases extra@.len() - i,
    {
        let ghost before = list@;
        list.push(extra[i].clone());
        proof {
            assert(views(list@) =~= views(before).push(extra@[i as int]@));
            assert(views(extra@.subrange(0, i + 1)) =~= views(extra@.subrange(0, i as int)).push(
                extra@[i as int]@,
            ));
        }
        i += 1;
    }
    assert(extra@.subrange(0, i as int) =~= extra@);
    assert(views(list@) =~= start + views(extra@));
}

/// Appends the strings of `words`, separated by `separator`.
pub fn push_joined(out: &mut String, words: &[String], separator: &str)
    ensures
        final(out)@ == old(out)@ + joined(views(words@), separator@),
{
    let ghost start = out@;
    let mut i: usize = 0;
    while i < words.len()
        invariant
            i <= words@.len(),
            out@ == start + joined(views(words@.subrange(0, i as int)), separator@),
        decreases words@.len() - i,
    {
        proof {
            let before = views(words@.subrange(0, i as int));
            let after = views(words@.subrange(0, i + 1));
            assert(after.drop_last() =~= before);
            assert(after.last() == words@[i as int]@);
        }
        if i != 0 {
            out.append(separator);
        }
        out.append(words[i].as_str());
        proof {
            let after = views(words@.subrange(0, i + 1));
            if i == 0 {
                assert(after.len() == 1);
                assert(out@ =~= start + joined(after, separator@));
            } else {
                assert(out@ =~= start + joined(after, separator@));
            }
        }
        i += 1;
    }
    assert(words@.subrange(0, i as int) =~= words@);
}

} // verus!
