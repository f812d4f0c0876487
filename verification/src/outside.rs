//! What the crate takes on trust from `reqwest`, `serde_json` and the standard
//! library. Everything else in the crate is proved from what is stated here and
//! in `vstd`.

use core::fmt::Write;

use vstd::prelude::*;

verus! {

/// `reqwest::Error`, opaque.
#[verifier::external_type_specification]
#[verifier::external_body]
pub struct ExReqwestError(reqwest::Error);

/// `reqwest::StatusCode`, opaque.
#[verifier::external_type_specification]
#[verifier::external_body]
pub struct ExReqwestStatusCode(reqwest::StatusCode);

/// `serde_json::Error`, opaque.
#[verifier::external_type_specification]
#[verifier::external_body]
pub struct ExSerdeJsonError(serde_json::Error);

/// `std::io::Error`, opaque.
#[verifier::external_type_specification]
#[verifier::external_body]
pub struct ExIoError(std::io::Error);

/// What `reqwest::Error::is_connect` answers.
pub uninterp spec fn is_connect(error: reqwest::Error) -> bool;

/// What `reqwest::Error::is_timeout` answers.
pub uninterp spec fn is_timeout(error: reqwest::Error) -> bool;

/// What `reqwest::Error::is_request` answers.
pub uninterp spec fn is_request(error: reqwest::Error) -> bool;

/// `reqwest::Error::is_connect` looks for a failed connection among the causes
/// that the error holds. Its answer depends on the error alone.
pub assume_specification[ reqwest::Error::is_connect ](error: &reqwest::Error) -> (answer: bool)
    ensures
        answer == is_connect(*error),
;

/// `reqwest::Error::is_timeout` looks for an expired time limit among the
/// causes that the error holds. Its answer depends on the error alone.
pub assume_specification[ reqwest::Error::is_timeout ](error: &reqwest::Error) -> (answer: bool)
    ensures
        answer == is_timeout(*error),
;

/// `reqwest::Error::is_request` looks at the kind of the error. Its answer
/// depends on the error alone.
pub assume_specification[ reqwest::Error::is_request ](error: &reqwest::Error) -> (answer: bool)
    ensures
        answer == is_request(*error),
;

/// The number that `reqwest::StatusCode::as_u16` returns.
pub uninterp spec fn status_number(status: reqwest::StatusCode) -> u16;

/// `reqwest::StatusCode::as_u16` returns the number that the status code
/// holds. A status code has three digits, and the first is not zero.
pub assume_specification[ reqwest::StatusCode::as_u16 ](status: &reqwest::StatusCode) -> (code: u16)
    ensures
        code == status_number(*status),
        100 <= code <= 999,
;

/// The phrase that follows the number of the status code `code` where
/// `reqwest::StatusCode` is displayed: its standard reason phrase, or a remark
/// that the code has none.
pub uninterp spec fn status_phrase(code: u16) -> Seq<char>;

/// The `Display` text of the `reqwest::StatusCode` with the number `code`,
/// which `from_u16` makes of each number of three digits: the number, a blank,
/// and a phrase that depends on the number alone.
#[verifier::external_body]
pub(crate) fn status_text(code: u16) -> (shown: String)
    requires
        100 <= code <= 999,
    ensures
        shown@ == crate::text::decimal(code as nat) + " "@ + status_phrase(code),
{
    reqwest::StatusCode::from_u16(code).unwrap().to_string()
}

/// The `Debug` text of `delay`.
pub uninterp spec fn duration_debug(delay: core::time::Duration) -> Seq<char>;

/// The `Debug` text of a `Duration`, which depends on the duration alone.
#[verifier::external_body]
pub(crate) fn duration_text(delay: &core::time::Duration) -> (shown: String)
    ensures
        shown@ == duration_debug(*delay),
{
    format!("{:?}", delay)
}

/// The `Display` text of a `std::io::Error`, or `None` where it cannot be
/// formatted. A text that comes back is one that `to_string` gives for the
/// error. The text is that of the system, or that of the error which was wrapped
/// in this one, so neither the text nor that there is one is fixed by the error.
#[verifier::external_body]
pub(crate) fn io_error_text(error: &std::io::Error) -> (shown: Option<String>)
    ensures
        shown matches Some(s) ==> vstd::string::to_string_from_display_ensures(error, s),
{
    let mut shown = String::new();
    write!(shown, "{}", error).ok()?;
    Some(shown)
}

/// What `serde_json::Error::is_io` answers.
pub uninterp spec fn json_is_io(error: serde_json::Error) -> bool;

/// `serde_json::Error::is_io` tells whether the error wraps an I/O error. Its
/// answer depends on the error alone.
pub assume_specification[ serde_json::Error::is_io ](error: &serde_json::Error) -> (answer: bool)
    ensures
        answer == json_is_io(*error),
;

/// The `Display` text of an `error` that wraps no I/O error.
pub uninterp spec fn json_error_shown(error: serde_json::Error) -> Seq<char>;

/// The `Display` text of a `serde_json::Error`, or `None` where it cannot be
/// formatted. A text that comes back is one that `to_string` gives for the
/// error. An error that wraps no I/O error can always be formatted, and its text
/// depends on the error alone. An error that wraps one shows the text of the I/O
/// error, of which nothing more is said.
#[verifier::external_body]
pub(crate) fn json_error_text(error: &serde_json::Error) -> (shown: Option<String>)
    ensures
        shown matches Some(s) ==> vstd::string::to_string_from_display_ensures(error, s),
        !json_is_io(*error) ==> shown is Some && shown->0@ == json_error_shown(*error),
{
    let mut shown = String::new();
    write!(shown, "{}", error).ok()?;
    Some(shown)
}

/// `String::from` makes a `String` with the characters of a `&str`.
pub assume_specification<'a>[ <String as From<&'a str>>::from ](source: &str) -> (copy: String)
    ensures
        copy@ == source@,
;

/// The conversion of a type into itself returns its argument unchanged.
pub assume_specification<T>[ <T as From<T>>::from ](value: T) -> (same: T)
    ensures
        same == value,
;

} // verus!
