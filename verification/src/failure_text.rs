//! Phrases by which providers announce failures that their status codes do not
//! tell apart.

use vstd::prelude::*;

use crate::text;

verus! {

/// Phrases of the wrapper that a provider puts round any internal failure, in
/// lower case.
pub open spec fn generic_fatal_wrapper_markers() -> Seq<Seq<char>> {
    seq![
        "something went wrong while processing your request"@,
        "please try again, or use /new to start a fresh session"@,
    ]
}

/// Phrases by which a provider says that a request does not fit the context
/// window of the model, in lower case.
pub open spec fn context_window_error_markers() -> Seq<Seq<char>> {
    seq![
        "maximum context length"@,
        "context window"@,
        "context length"@,
        "too many tokens"@,
        "prompt is too long"@,
        "input is too long"@,
        "input tokens exceed"@,
        "configured limit"@,
        "messages resulted in"@,
        "completion tokens"@,
        "prompt tokens"@,
        "request is too large"@,
        "no parseable body"@,
    ]
}

/// `text` holds a phrase of the generic wrapper, in any ASCII case.
pub open spec fn is_generic_fatal_text(text: Seq<char>) -> bool {
    text::mentions_any(text, generic_fatal_wrapper_markers())
}

/// `text` holds a phrase about the context window, in any ASCII case.
pub open spec fn is_context_window_text(text: Seq<char>) -> bool {
    text::mentions_any(text, context_window_error_markers())
}

/// Whether `text` holds a phrase of the generic wrapper, in any ASCII case.
#[must_use]
pub fn looks_like_generic_fatal_wrapper(text: &str) -> (found: bool)
    ensures
        found == is_generic_fatal_text(text@),
{
    let markers: [&str; 2] = [
        "something went wrong while processing your request",
        "please try again, or use /new to start a fresh session",
    ];
    assert(markers@.map_values(|marker: &str| marker@) == generic_fatal_wrapper_markers());
    text::mentions(text, &markers)
}

/// Whether `text` holds a phrase about the context window, in any ASCII case.
#[must_use]
pub fn looks_like_context_window_error(text: &str) -> (found: bool)
    ensures
        found == is_context_window_text(text@),
{
    let markers: [&str; 13] = [
        "maximum context length",
        "context window",
        "context length",
        "too many tokens",
        "prompt is too long",
        "input is too long",
        "input tokens exceed",
        "configured limit",
        "messages resulted in",
        "completion tokens",
        "prompt tokens",
        "request is too large",
        "no parseable body",
    ];
    assert(markers@.map_values(|marker: &str| marker@) == context_window_error_markers());
    text::mentions(text, &markers)
}

} // verus!
