//! What holds of the functions on text: of lower case, search, decimal numbers,
//! lists, and of the phrases by which providers announce failures.

use vstd::prelude::*;

use crate::failure_text;
use crate::text;

verus! {

/// `text` is `front`, then `middle`, then `back`.
pub open spec fn splits_into(
    text: Seq<char>,
    front: Seq<char>,
    middle: Seq<char>,
    back: Seq<char>,
) -> bool {
    text == front + middle + back
}

/// The number that a sequence of decimal digits denotes.
pub open spec fn reading(digits: Seq<char>) -> int
    decreases digits.len(),
{
    if digits.len() == 0 {
        0
    } else {
        10 * reading(digits.drop_last()) + (digits.last() as int - '0' as int)
    }
}

/// A capital of the ASCII alphabet becomes the small letter at the same place
/// in the alphabet, and no other character changes. No capital remains.
pub proof fn lower_case_keeps_the_letter(c: char)
    ensures
        'A' <= c <= 'Z' ==> text::lower(c) as int - 'a' as int == c as int - 'A' as int,
        !('A' <= c <= 'Z') ==> text::lower(c) == c,
        !('A' <= text::lower(c) <= 'Z'),
        text::lower(text::lower(c)) == text::lower(c),
{
}

/// Lower case is taken character by character, so that no character is lost,
/// added or moved.
pub proof fn lower_case_is_taken_by_character(left: Seq<char>, c: char, right: Seq<char>)
    ensures
        text::lowered(Seq::<char>::empty()) == Seq::<char>::empty(),
        text::lowered(seq![c]) == seq![text::lower(c)],
        text::lowered(left + right) == text::lowered(left) + text::lowered(right),
        text::lowered(left.push(c)) == text::lowered(left).push(text::lower(c)),
{
    assert(text::lowered(Seq::<char>::empty()) == Seq::<char>::empty());
    assert(text::lowered(seq![c]) == seq![text::lower(c)]);
    assert(text::lowered(left + right) == text::lowered(left) + text::lowered(right));
    assert(text::lowered(left.push(c)) == text::lowered(left).push(text::lower(c)));
}

/// A pattern stands in a text if and only if the text is something, then the
/// pattern, then something.
pub proof fn occurrence_is_a_middle_part(text: Seq<char>, pattern: Seq<char>)
    ensures
        text::occurs(text, pattern) <==> exists|front: Seq<char>, back: Seq<char>|
            splits_into(text, front, pattern, back),
{
    if text::occurs(text, pattern) {
        let at = choose|at: int| text::occurs_at(text, pattern, at);
        let front = text.take(at);
        let back = text.skip(at + pattern.len());
        assert(text == front + text.subrange(at, at + pattern.len()) + back);
        assert(splits_into(text, front, pattern, back));
    }
    if exists|front: Seq<char>, back: Seq<char>| splits_into(text, front, pattern, back) {
        let (front, back) = choose|front: Seq<char>, back: Seq<char>|
            splits_into(text, front, pattern, back);
        let at = front.len() as int;
        assert(text.subrange(at, at + pattern.len()) == pattern);
        assert(text::occurs_at(text, pattern, at));
    }
}

/// A text mentions one of some markers if and only if its lower-case form is
/// something, then one of the markers, then something.
pub proof fn mention_is_a_middle_part(text: Seq<char>, markers: Seq<Seq<char>>)
    ensures
        text::mentions_any(text, markers) <==> exists|k: int, front: Seq<char>, back: Seq<char>|
            0 <= k < markers.len() && #[trigger] splits_into(
                text::lowered(text),
                front,
                markers[k],
                back,
            ),
{
    let low = text::lowered(text);
    if text::mentions_any(text, markers) {
        let k = choose|k: int|
            0 <= k < markers.len() && text::occurs(low, #[trigger] markers[k]);
        occurrence_is_a_middle_part(low, markers[k]);
        let (front, back) = choose|front: Seq<char>, back: Seq<char>|
            splits_into(low, front, markers[k], back);
        assert(splits_into(low, front, markers[k], back));
    }
    if exists|k: int, front: Seq<char>, back: Seq<char>|
        0 <= k < markers.len() && #[trigger] splits_into(low, front, markers[k], back) {
        let (k, front, back) = choose|k: int, front: Seq<char>, back: Seq<char>|
            0 <= k < markers.len() && #[trigger] splits_into(low, front, markers[k], back);
        occurrence_is_a_middle_part(low, markers[k]);
        assert(text::occurs(low, markers[k]));
    }
}

/// The decimal form of a number reads back as the number, is made of digits,
/// and has no leading zero.
pub proof fn decimal_reads_back(n: nat)
    ensures
        reading(text::decimal(n)) == n,
        text::decimal(n).len() > 0,
        forall|i: int|
            0 <= i < text::decimal(n).len() ==> '0' <= #[trigger] text::decimal(n)[i] <= '9',
        n > 0 ==> text::decimal(n)[0] != '0',
        n == 0 ==> text::decimal(n).len() == 1,
    decreases n,
{
    reveal_with_fuel(reading, 2);
    if n >= 10 {
        decimal_reads_back(n / 10);
        let front = text::decimal(n / 10);
        let last = text::digit(n % 10);
        assert(text::decimal(n) == front.push(last));
        assert(front.push(last).drop_last() == front);
        assert(text::decimal(n)[0] == front[0]);
    } else {
        assert(text::decimal(n).drop_last() == Seq::<char>::empty());
    }
}

/// A list of no names is empty, a list of one name is that name, and a list
/// grows at its end by the separator and the next name.
pub proof fn list_grows_at_its_end(parts: Seq<&str>, next: &str, separator: Seq<char>)
    ensures
        text::joined(Seq::<&str>::empty(), separator) == Seq::<char>::empty(),
        text::joined(seq![next], separator) == next@,
        parts.len() > 0 ==> text::joined(parts.push(next), separator) == text::joined(
            parts,
            separator,
        ) + separator + next@,
    decreases parts.len(),
{
    if parts.len() == 1 {
        assert(parts.push(next).skip(1) == seq![next]);
        assert(text::joined(parts.push(next).skip(1), separator) == next@);
    } else if parts.len() > 1 {
        list_grows_at_its_end(parts.skip(1), next, separator);
        assert(parts.push(next).skip(1) == parts.skip(1).push(next));
        assert(parts[0]@ + separator + (text::joined(parts.skip(1), separator) + separator + next@)
            == parts[0]@ + separator + text::joined(parts.skip(1), separator) + separator + next@);
    }
}

/// A text announces the generic wrapper if and only if one of its two phrases
/// stands in the lower-case form of the text.
pub proof fn generic_wrapper_has_two_phrases(text: Seq<char>)
    ensures
        failure_text::is_generic_fatal_text(text) <==> {
            let low = text::lowered(text);
            ||| text::occurs(low, "something went wrong while processing your request"@)
            ||| text::occurs(low, "please try again, or use /new to start a fresh session"@)
        },
{
    let markers = failure_text::generic_fatal_wrapper_markers();
    assert(markers[0] == "something went wrong while processing your request"@);
    assert(markers[1] == "please try again, or use /new to start a fresh session"@);
}

/// A text announces that a request does not fit the context window if and only
/// if one of thirteen phrases stands in the lower-case form of the text.
pub proof fn context_window_has_thirteen_phrases(text: Seq<char>)
    ensures
        failure_text::is_context_window_text(text) <==> {
            let low = text::lowered(text);
            ||| text::occurs(low, "maximum context length"@)
            ||| text::occurs(low, "context window"@)
            ||| text::occurs(low, "context length"@)
            ||| text::occurs(low, "too many tokens"@)
            ||| text::occurs(low, "prompt is too long"@)
            ||| text::occurs(low, "input is too long"@)
            ||| text::occurs(low, "input tokens exceed"@)
            ||| text::occurs(low, "configured limit"@)
            ||| text::occurs(low, "messages resulted in"@)
            ||| text::occurs(low, "completion tokens"@)
            ||| text::occurs(low, "prompt tokens"@)
            ||| text::occurs(low, "request is too large"@)
            ||| text::occurs(low, "no parseable body"@)
        },
{
    let markers = failure_text::context_window_error_markers();
    assert(markers[0] == "maximum context length"@);
    assert(markers[1] == "context window"@);
    assert(markers[2] == "context length"@);
    assert(markers[3] == "too many tokens"@);
    assert(markers[4] == "prompt is too long"@);
    assert(markers[5] == "input is too long"@);
    assert(markers[6] == "input tokens exceed"@);
    assert(markers[7] == "configured limit"@);
    assert(markers[8] == "messages resulted in"@);
    assert(markers[9] == "completion tokens"@);
    assert(markers[10] == "prompt tokens"@);
    assert(markers[11] == "request is too large"@);
    assert(markers[12] == "no parseable body"@);
}

/// A body of up to 200 characters is kept whole in a report of an unreadable
/// body; of a longer one the first 200 characters are kept, and the ellipsis.
pub proof fn two_hundred_characters_are_kept(body: Seq<char>)
    ensures
        ({
            let kept = text::snippet(body, crate::error::BODY_SNIPPET_CHARS as nat);
            &&& body.len() <= 200 ==> kept == body
            &&& body.len() > 200 ==> kept.len() == 201 && kept[200] == '…' && forall|i: int|
                0 <= i < 200 ==> kept[i] == body[i]
        }),
{
}

} // verus!
