//! Text as the error type needs it: search that ignores ASCII case, decimal
//! numbers, lists of names, and snippets of a bounded length.
//!
//! All of it is stated over the characters of a text, `Seq<char>`.

use vstd::prelude::*;

verus! {

/// The lower-case form of an ASCII capital; every other character is its own.
pub open spec fn lower(c: char) -> char {
    if 'A' <= c <= 'Z' {
        (c as u32 + 32) as char
    } else {
        c
    }
}

/// `text` with each of its ASCII capitals in lower case.
pub open spec fn lowered(text: Seq<char>) -> Seq<char> {
    text.map_values(|c: char| lower(c))
}

/// `pattern` stands in `text`, and its first character is `text[at]`.
pub open spec fn occurs_at(text: Seq<char>, pattern: Seq<char>, at: int) -> bool {
    &&& 0 <= at
    &&& at + pattern.len() <= text.len()
    &&& text.subrange(at, at + pattern.len()) == pattern
}

/// `pattern` stands somewhere in `text`.
pub open spec fn occurs(text: Seq<char>, pattern: Seq<char>) -> bool {
    exists|at: int| occurs_at(text, pattern, at)
}

/// One of `markers` stands in `text`, whatever the ASCII case of `text`.
pub open spec fn mentions_any(text: Seq<char>, markers: Seq<Seq<char>>) -> bool {
    exists|k: int| 0 <= k < markers.len() && occurs(lowered(text), #[trigger] markers[k])
}

/// The character that writes the digit `d`.
pub open spec fn digit(d: nat) -> char {
    ('0' as nat + d) as char
}

/// `n` in decimal, without leading zeros.
pub open spec fn decimal(n: nat) -> Seq<char>
    decreases n,
{
    if n < 10 {
        seq![digit(n)]
    } else {
        decimal(n / 10).push(digit(n % 10))
    }
}

/// The texts of `parts` in order, with `separator` between neighbours.
pub open spec fn joined(parts: Seq<&str>, separator: Seq<char>) -> Seq<char>
    decreases parts.len(),
{
    if parts.len() == 0 {
        Seq::empty()
    } else if parts.len() == 1 {
        parts[0]@
    } else {
        parts[0]@ + separator + joined(parts.skip(1), separator)
    }
}

/// What is kept of `body`: all of it where it has at most `max_chars`
/// characters, else its first `max_chars` characters and an ellipsis.
pub open spec fn snippet(body: Seq<char>, max_chars: nat) -> Seq<char> {
    if body.len() <= max_chars {
        body
    } else {
        body.take(max_chars as int).push('…')
    }
}

/// The lower-case form of one character.
fn to_lower(c: char) -> (low: char)
    ensures
        low == lower(c),
{
    if 'A' <= c && c <= 'Z' {
        (c as u8 + 32) as char
    } else {
        c
    }
}

/// The characters of `text`.
fn characters(text: &str) -> (chars: Vec<char>)
    ensures
        chars@ == text@,
{
    let mut chars: Vec<char> = Vec::new();
    for c in it: text.chars()
        invariant
            it.seq() == text@,
            chars@ == text@.take(it.index()),
    {
        proof {
            assert(text@.take(it.index() + 1) == text@.take(it.index()).push(c));
        }
        chars.push(c);
    }
    chars
}

/// The characters of `text`, its ASCII capitals in lower case.
fn lower_characters(text: &str) -> (chars: Vec<char>)
    ensures
        chars@ == lowered(text@),
{
    let mut chars: Vec<char> = Vec::new();
    for c in it: text.chars()
        invariant
            it.seq() == text@,
            chars@ == lowered(text@.take(it.index())),
    {
        proof {
            assert(lowered(text@.take(it.index() + 1)) == lowered(text@.take(it.index())).push(
                lower(c),
            ));
        }
        chars.push(to_lower(c));
    }
    chars
}

/// Whether `pattern` stands in `text` from `at` on.
fn matches_at(text: &Vec<char>, pattern: &Vec<char>, at: usize) -> (found: bool)
    requires
        at + pattern@.len() <= text@.len(),
    ensures
        found == occurs_at(text@, pattern@, at as int),
{
    let mut i: usize = 0;
    while i < pattern.len()
        invariant
            at + pattern@.len() <= text.len(),
            i <= pattern@.len(),
            forall|j: int| 0 <= j < i ==> text@[at + j] == #[trigger] pattern@[j],
        decreases pattern@.len() - i,
    {
        if text[at + i] != pattern[i] {
            proof {
                assert(text@.subrange(at as int, at + pattern@.len())[i as int] != pattern@[i as int]);
            }
            return false;
        }
        i += 1;
    }
    assert(text@.subrange(at as int, at + pattern@.len()) == pattern@);
    true
}

/// Whether `pattern` stands in `text`.
fn contains_characters(text: &Vec<char>, pattern: &Vec<char>) -> (found: bool)
    ensures
        found == occurs(text@, pattern@),
{
    if pattern.len() > text.len() {
        return false;
    }
    let last: usize = text.len() - pattern.len();
    let mut at: usize = 0;
    loop
        invariant
            at <= last,
            last == text@.len() - pattern@.len(),
            forall|k: int| k < at ==> !occurs_at(text@, pattern@, k),
        decreases last - at,
    {
        if matches_at(text, pattern, at) {
            return true;
        }
        if at == last {
            return false;
        }
        at += 1;
    }
}

/// Whether one of `markers` stands in `text`, whatever the ASCII case of
/// `text`. The markers themselves are compared as they are.
pub(crate) fn mentions(text: &str, markers: &[&str]) -> (found: bool)
    ensures
        found == mentions_any(text@, markers@.map_values(|marker: &str| marker@)),
{
    let ghost patterns = markers@.map_values(|marker: &str| marker@);
    let chars = lower_characters(text);
    let mut i: usize = 0;
    while i < markers.len()
        invariant
            chars@ == lowered(text@),
            patterns == markers@.map_values(|marker: &str| marker@),
            i <= markers@.len(),
            forall|k: int| 0 <= k < i ==> !occurs(chars@, #[trigger] patterns[k]),
        decreases markers@.len() - i,
    {
        let pattern = characters(markers[i]);
        assert(pattern@ == patterns[i as int]);
        if contains_characters(&chars, &pattern) {
            return true;
        }
        i += 1;
    }
    false
}

/// The text of the digit `d`.
fn digit_text(d: u64) -> (text: &'static str)
    requires
        d < 10,
    ensures
        text@ == seq![digit(d as nat)],
{
    proof {
        reveal_strlit("0");
        reveal_strlit("1");
        reveal_strlit("2");
        reveal_strlit("3");
        reveal_strlit("4");
        reveal_strlit("5");
        reveal_strlit("6");
        reveal_strlit("7");
        reveal_strlit("8");
        reveal_strlit("9");
    }
    if d == 0 {
        "0"
    } else if d == 1 {
        "1"
    } else if d == 2 {
        "2"
    } else if d == 3 {
        "3"
    } else if d == 4 {
        "4"
    } else if d == 5 {
        "5"
    } else if d == 6 {
        "6"
    } else if d == 7 {
        "7"
    } else if d == 8 {
        "8"
    } else {
        "9"
    }
}

/// Writes `n` in decimal at the end of `out`.
pub(crate) fn append_decimal(out: &mut String, n: u64)
    ensures
        final(out)@ == old(out)@ + decimal(n as nat),
    decreases n,
{
    if n < 10 {
        out.append(digit_text(n));
    } else {
        append_decimal(out, n / 10);
        out.append(digit_text(n % 10));
    }
}

/// Writes `parts` at the end of `out`, with `separator` between neighbours.
pub(crate) fn append_joined(out: &mut String, parts: &[&str], separator: &str)
    ensures
        final(out)@ == old(out)@ + joined(parts@, separator@),
{
    if parts.len() == 0 {
        assert(old(out)@ + joined(parts@, separator@) == old(out)@);
        return;
    }
    let mut i: usize = 0;
    assert(parts@.skip(0) == parts@);
    while i < parts.len() - 1
        invariant
            i < parts@.len(),
            out@ + joined(parts@.skip(i as int), separator@) == old(out)@ + joined(
                parts@,
                separator@,
            ),
        decreases parts@.len() - i,
    {
        let ghost before = out@;
        out.append(parts[i]);
        out.append(separator);
        proof {
            let rest = parts@.skip(i as int);
            assert(rest.skip(1) == parts@.skip(i + 1));
            assert(before + (rest[0]@ + separator@ + joined(rest.skip(1), separator@)) == out@
                + joined(rest.skip(1), separator@));
        }
        i += 1;
    }
    out.append(parts[i]);
}

/// Cuts `body` so that at most `max_chars` of its characters are kept, counted
/// as Unicode scalar values and taken from its start. A cut is marked by an
/// ellipsis after the kept characters.
pub fn truncate_body_snippet(body: &str, max_chars: usize) -> (kept: String)
    ensures
        kept@ == snippet(body@, max_chars as nat),
{
    if body.unicode_len() <= max_chars {
        body.to_string()
    } else {
        let mut kept = body.substring_char(0, max_chars).to_string();
        kept.append("…");
        proof {
            reveal_strlit("…");
            assert(kept@ == body@.take(max_chars as int).push('…'));
        }
        kept
    }
}

} // verus!
