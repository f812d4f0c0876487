//! What holds of errors, their classes and their messages as a whole.

use vstd::prelude::*;

use crate::error::ApiError;
use crate::failure_text;
use crate::render::Platform;
use crate::text;

verus! {

/// `text` is one line.
pub open spec fn is_one_line(text: Seq<char>) -> bool {
    forall|i: int| 0 <= i < text.len() ==> text[i] != '\n'
}

/// The names of all classes.
pub open spec fn class_names() -> Set<Seq<char>> {
    set![
        "context_window"@,
        "provider_retry_exhausted"@,
        "provider_auth"@,
        "provider_rate_limit"@,
        "provider_internal"@,
        "provider_error"@,
        "provider_transport"@,
        "runtime_io"@,
        "request_size"@,
    ]
}

/// What a caller decides by is the same for a report of exhausted retries and
/// for the last error that it reports, however many attempts there were.
pub proof fn retries_keep_what_the_last_error_says(attempts: u32, last_error: ApiError)
    ensures
        ({
            let report = ApiError::RetriesExhausted { attempts, last_error: Box::new(last_error) };
            &&& report.requested_delay() == last_error.requested_delay()
            &&& report.may_succeed_later() == last_error.may_succeed_later()
            &&& report.trace_id() == last_error.trace_id()
            &&& report.is_wrapped() == last_error.is_wrapped()
            &&& report.overflows_context() == last_error.overflows_context()
        }),
{
}

/// The root cause is no report of exhausted retries, is its own root cause, and
/// says of every decision what the whole error says.
pub proof fn root_cause_decides(error: ApiError)
    ensures
        error.root_cause() !is RetriesExhausted,
        error.root_cause().root_cause() == error.root_cause(),
        error.root_cause().requested_delay() == error.requested_delay(),
        error.root_cause().may_succeed_later() == error.may_succeed_later(),
        error.root_cause().trace_id() == error.trace_id(),
        error.root_cause().is_wrapped() == error.is_wrapped(),
        error.root_cause().overflows_context() == error.overflows_context(),
    decreases error,
{
    match error {
        ApiError::RetriesExhausted { last_error, .. } => {
            root_cause_decides(*last_error);
        },
        _ => {},
    }
}

/// The class of a report of exhausted retries is that of its root cause, but
/// for one that hides behind the generic wrapper and fits the context window.
pub proof fn retries_keep_the_class(attempts: u32, last_error: ApiError)
    ensures
        ({
            let report = ApiError::RetriesExhausted { attempts, last_error: Box::new(last_error) };
            report.failure_class() == if last_error.is_wrapped() && !last_error.overflows_context() {
                "provider_retry_exhausted"@
            } else {
                last_error.root_cause().failure_class()
            }
        }),
{
    root_cause_decides(last_error);
}

/// A second report of exhausted retries round a first one changes the class of
/// the first no more.
pub proof fn nested_retries_keep_the_class(attempts: u32, report: ApiError)
    requires
        report is RetriesExhausted,
    ensures
        (ApiError::RetriesExhausted { attempts, last_error: Box::new(report) }).failure_class()
            == report.failure_class(),
{
}

/// The class is `context_window` for the errors that overflow the context
/// window, and for no others.
pub proof fn context_window_class_is_exact(error: ApiError)
    ensures
        error.failure_class() == "context_window"@ <==> error.overflows_context(),
{
    root_cause_decides(error);
    reveal_strlit("context_window");
    reveal_strlit("provider_retry_exhausted");
    reveal_strlit("provider_auth");
    reveal_strlit("provider_rate_limit");
    reveal_strlit("provider_internal");
    reveal_strlit("provider_error");
    reveal_strlit("provider_transport");
    reveal_strlit("runtime_io");
    reveal_strlit("request_size");
    assert("provider_error"@[0] != "context_window"@[0]);
}

/// Every class has one of a fixed set of names, whatever texts the error holds.
pub proof fn class_is_one_of_the_names(error: ApiError)
    ensures
        class_names().contains(error.failure_class()),
{
    root_cause_decides(error);
}

/// Only an answer of the provider or a failure of the HTTP client can make a
/// retry worthwhile, and only an answer carries an identifier or asks for a
/// delay.
pub proof fn only_some_causes_speak_of_the_request(error: ApiError)
    ensures
        error.may_succeed_later() ==> error.root_cause() is Http || error.root_cause() is Api,
        error.trace_id() is Some ==> error.root_cause() is Api,
        error.requested_delay() is Some ==> error.root_cause() is Api,
{
}

/// An unreadable body is a failure of the runtime, which no retry mends and
/// which belongs to no identified request.
pub proof fn unreadable_bodies_are_final(error: ApiError)
    requires
        error is Json,
    ensures
        error.failure_class() == "runtime_io"@,
        !error.may_succeed_later(),
        error.trace_id() is None,
        error.requested_delay() is None,
{
}

/// A hint changes no decision on missing credentials.
pub proof fn hints_do_not_classify(
    provider: &'static str,
    env_vars: &'static [&'static str],
    hint: Option<String>,
)
    ensures
        ({
            let hinted = ApiError::MissingCredentials { provider, env_vars, hint };
            let plain = ApiError::MissingCredentials { provider, env_vars, hint: None };
            &&& hinted.failure_class() == plain.failure_class()
            &&& hinted.failure_class() == "provider_auth"@
            &&& hinted.may_succeed_later() == plain.may_succeed_later()
            &&& hinted.trace_id() == plain.trace_id()
            &&& hinted.requested_delay() == plain.requested_delay()
            &&& hinted.is_wrapped() == plain.is_wrapped()
            &&& hinted.overflows_context() == plain.overflows_context()
        }),
{
}

/// A hint is added to the message of missing credentials after a line break,
/// and changes nothing before it.
pub proof fn hint_is_appended(
    provider: &'static str,
    env_vars: &'static [&'static str],
    hint: String,
    platform: Platform,
    shown: Seq<char>,
)
    ensures
        (ApiError::MissingCredentials { provider, env_vars, hint: Some(hint) }).message_on(platform, shown)
            == (ApiError::MissingCredentials { provider, env_vars, hint: None }).message_on(
            platform,
            shown,
        ).push('\n') + hint@,
{
    reveal_strlit("\n");
    let hinted = (ApiError::MissingCredentials { provider, env_vars, hint: Some(hint) });
    let plain = (ApiError::MissingCredentials { provider, env_vars, hint: None });
    assert(hinted.message_on(platform, shown) == plain.message_on(platform, shown).push('\n') + hint@);
}

/// A list of single lines, joined by a single line, is a single line.
proof fn list_is_one_line(parts: Seq<&str>, separator: Seq<char>)
    requires
        is_one_line(separator),
        forall|i: int| 0 <= i < parts.len() ==> is_one_line(#[trigger] parts[i]@),
    ensures
        is_one_line(text::joined(parts, separator)),
    decreases parts.len(),
{
    if parts.len() > 1 {
        let rest = parts.skip(1);
        assert forall|i: int| 0 <= i < rest.len() implies is_one_line(#[trigger] rest[i]@) by {
            assert(rest[i] == parts[i + 1]);
        }
        list_is_one_line(rest, separator);
        assert(is_one_line(parts[0]@));
    } else if parts.len() == 1 {
        assert(is_one_line(parts[0]@));
    }
}

/// Where the names of the provider and of its variables are single lines, the
/// message without its hint is a single line too: the first line break of the
/// message is the one before the hint, and all that follows is the hint.
pub proof fn hint_follows_the_first_line(
    provider: &'static str,
    env_vars: &'static [&'static str],
    hint: String,
    platform: Platform,
    shown: Seq<char>,
)
    requires
        is_one_line(provider@),
        forall|i: int| 0 <= i < env_vars@.len() ==> is_one_line(#[trigger] env_vars@[i]@),
    ensures
        ({
            let message = (ApiError::MissingCredentials {
                provider,
                env_vars,
                hint: Some(hint),
            }).message_on(platform, shown);
            let plain = (ApiError::MissingCredentials { provider, env_vars, hint: None }).message_on(
                platform,
                shown,
            );
            &&& is_one_line(plain)
            &&& message.take(plain.len() as int) == plain
            &&& message[plain.len() as int] == '\n'
            &&& message.skip(plain.len() as int + 1) == hint@
        }),
{
    reveal_strlit("missing ");
    reveal_strlit(" credentials; export ");
    reveal_strlit(" or ");
    reveal_strlit(" before calling the ");
    reveal_strlit(" API");
    list_is_one_line(env_vars@, " or "@);
    if env_vars@.len() > 0 {
        assert(is_one_line(env_vars@[0]@));
    }
    assert(is_one_line(crate::render::persistence_note(platform, env_vars@))) by {
        reveal_strlit(
            " (on Windows, environment variables set in PowerShell only persist for the current session; use `setx` to make them permanent, then open a new terminal, or place a `.env` file in the current working directory)",
        );
        reveal_strlit(
            " (on Windows, environment variables set in PowerShell only persist for the current session; use `setx ",
        );
        reveal_strlit(
            " <value>` to make it permanent, then open a new terminal, or place a `.env` file containing `",
        );
        reveal_strlit("=<value>` in the current working directory)");
    }
    hint_is_appended(provider, env_vars, hint, platform, shown);
    let plain = (ApiError::MissingCredentials { provider, env_vars, hint: None }).message_on(
        platform,
        shown,
    );
    let message = (ApiError::MissingCredentials { provider, env_vars, hint: Some(hint) }).message_on(
        platform,
        shown,
    );
    assert(message.take(plain.len() as int) == plain);
    assert(message.skip(plain.len() as int + 1) == hint@);
}

/// Only the message on missing credentials depends on the platform.
pub proof fn platform_matters_for_credentials_only(
    error: ApiError,
    one: Platform,
    other: Platform,
    shown: Seq<char>,
)
    requires
        error.root_cause() !is MissingCredentials,
    ensures
        error.message_on(one, shown) == error.message_on(other, shown),
    decreases error,
{
    match error {
        ApiError::RetriesExhausted { last_error, .. } => {
            platform_matters_for_credentials_only(*last_error, one, other, shown);
        },
        _ => {},
    }
}

/// The message of an error that comes from no other library holds no text of
/// one.
pub proof fn source_matters_for_outside_errors_only(
    error: ApiError,
    platform: Platform,
    one: Seq<char>,
    other: Seq<char>,
)
    requires
        !error.has_source(),
    ensures
        error.message_on(platform, one) == error.message_on(platform, other),
    decreases error,
{
    match error {
        ApiError::RetriesExhausted { last_error, .. } => {
            source_matters_for_outside_errors_only(*last_error, platform, one, other);
        },
        _ => {},
    }
}

/// The message of an error ends with the message of its root cause.
pub proof fn message_ends_with_the_root_cause(error: ApiError, platform: Platform, shown: Seq<char>)
    ensures
        error.root_cause().message_on(platform, shown).is_suffix_of(error.message_on(platform, shown)),
    decreases error,
{
    match error {
        ApiError::RetriesExhausted { attempts, last_error } => {
            message_ends_with_the_root_cause(*last_error, platform, shown);
            let cause = error.root_cause().message_on(platform, shown);
            let inner = last_error.message_on(platform, shown);
            let whole = error.message_on(platform, shown);
            assert(whole.skip(whole.len() - inner.len()) == inner);
            assert(whole.skip(whole.len() - cause.len()) == inner.skip(inner.len() - cause.len()));
        },
        _ => {
            let whole = error.message_on(platform, shown);
            assert(whole.skip(0) == whole);
        },
    }
}

/// Where the provider gave the request an identifier, the message tells it.
pub proof fn message_tells_the_request(error: ApiError, platform: Platform, shown: Seq<char>)
    ensures
        error.trace_id() matches Some(id) ==> text::occurs(
            error.message_on(platform, shown),
            "[trace "@ + id + "]"@,
        ),
    decreases error,
{
    match error {
        ApiError::RetriesExhausted { attempts, last_error } => {
            message_tells_the_request(*last_error, platform, shown);
            if error.trace_id() is Some {
                let name = "[trace "@ + error.trace_id()->0 + "]"@;
                let inner = last_error.message_on(platform, shown);
                let front = "api failed after "@ + text::decimal(attempts as nat) + " attempts: "@;
                occurrence_survives(front, inner, Seq::empty(), name);
                assert(front + inner + Seq::<char>::empty() == error.message_on(platform, shown));
            }
        },
        ApiError::Api { status, error_type, message, request_id, body, .. } => {
            if let Some(id) = request_id {
                reveal_strlit(" [trace ");
                reveal_strlit("[trace ");
                let name = "[trace "@ + id@ + "]"@;
                let status = crate::render::status_shown(status@);
                let (front, back) = match (error_type, message) {
                    (Some(error_type), Some(message)) => (
                        "api returned "@ + status + " ("@ + error_type@ + ")"@,
                        ": "@ + message@,
                    ),
                    _ => ("api returned "@ + status, ": "@ + body@),
                };
                assert(" [trace "@ == seq![' '] + "[trace "@);
                assert(text::occurs_at(name, name, 0)) by {
                    assert(name.subrange(0, name.len() as int) == name);
                }
                occurrence_survives(front.push(' '), name, back, name);
                assert(error.message_on(platform, shown) == front.push(' ') + name + back);
            }
        },
        _ => {},
    }
}

/// What stands in a text stands in every text round it.
proof fn occurrence_survives(
    front: Seq<char>,
    text: Seq<char>,
    back: Seq<char>,
    pattern: Seq<char>,
)
    requires
        text::occurs(text, pattern),
    ensures
        text::occurs(front + text + back, pattern),
{
    let at = choose|at: int| text::occurs_at(text, pattern, at);
    let whole = front + text + back;
    assert(whole.subrange(front.len() + at, front.len() + at + pattern.len()) == text.subrange(
        at,
        at + pattern.len(),
    ));
    assert(text::occurs_at(whole, pattern, front.len() + at));
}

/// Whether a text announces a failure does not depend on its ASCII case.
pub proof fn detection_ignores_case(one: Seq<char>, other: Seq<char>)
    requires
        text::lowered(one) == text::lowered(other),
    ensures
        failure_text::is_generic_fatal_text(one) == failure_text::is_generic_fatal_text(other),
        failure_text::is_context_window_text(one) == failure_text::is_context_window_text(other),
{
}

/// Lower case is the lower case of itself, so a text and its lower-case form
/// announce the same failures.
pub proof fn lower_case_announces_the_same(text: Seq<char>)
    ensures
        text::lowered(text::lowered(text)) == text::lowered(text),
        failure_text::is_generic_fatal_text(text::lowered(text))
            == failure_text::is_generic_fatal_text(text),
        failure_text::is_context_window_text(text::lowered(text))
            == failure_text::is_context_window_text(text),
{
    assert(text::lowered(text::lowered(text)) == text::lowered(text));
}

/// What is mentioned in a text is mentioned in every text round it.
proof fn mention_survives(
    front: Seq<char>,
    text: Seq<char>,
    back: Seq<char>,
    markers: Seq<Seq<char>>,
)
    requires
        text::mentions_any(text, markers),
    ensures
        text::mentions_any(front + text + back, markers),
{
    let k = choose|k: int|
        0 <= k < markers.len() && text::occurs(text::lowered(text), #[trigger] markers[k]);
    occurrence_survives(
        text::lowered(front),
        text::lowered(text),
        text::lowered(back),
        markers[k],
    );
    assert(text::lowered(front + text + back) == text::lowered(front) + text::lowered(text)
        + text::lowered(back));
    assert(text::occurs(text::lowered(front + text + back), markers[k]));
}

/// A text that announces a failure still does so inside a longer text.
pub proof fn detection_ignores_the_surroundings(front: Seq<char>, text: Seq<char>, back: Seq<char>)
    ensures
        failure_text::is_generic_fatal_text(text) ==> failure_text::is_generic_fatal_text(
            front + text + back,
        ),
        failure_text::is_context_window_text(text) ==> failure_text::is_context_window_text(
            front + text + back,
        ),
{
    if failure_text::is_generic_fatal_text(text) {
        mention_survives(front, text, back, failure_text::generic_fatal_wrapper_markers());
    }
    if failure_text::is_context_window_text(text) {
        mention_survives(front, text, back, failure_text::context_window_error_markers());
    }
}

/// A snippet keeps the start of the body, up to the limit, and adds at most the
/// ellipsis, which it adds exactly where something was cut off.
pub proof fn snippet_keeps_the_start(body: Seq<char>, max_chars: nat)
    ensures
        ({
            let kept = text::snippet(body, max_chars);
            &&& kept.len() <= max_chars + 1
            &&& body.len() <= max_chars ==> kept == body
            &&& body.len() > max_chars ==> kept.len() == max_chars + 1 && kept.last() == '…'
                && kept.drop_last().is_prefix_of(body)
        }),
{
    let kept = text::snippet(body, max_chars);
    if body.len() > max_chars {
        assert(kept.drop_last() == body.take(max_chars as int));
    }
}

/// To cut a snippet further is to cut the body further. So a snippet is the
/// snippet of itself.
pub proof fn snippet_of_a_snippet(body: Seq<char>, long: nat, short: nat)
    requires
        short <= long,
    ensures
        text::snippet(text::snippet(body, long), short) == text::snippet(body, short),
{
    let kept = text::snippet(body, long);
    if body.len() > long {
        assert(kept.take(short as int) == body.take(short as int));
    }
}

} // verus!
