//! What each message says, by the fields of the error.

use core::time::Duration;

use vstd::prelude::*;

use crate::error::ApiError;
use crate::outside;
use crate::render::Platform;
use crate::status::HttpStatus;
use crate::text;

verus! {

/// `text` starts with `front`.
pub open spec fn starts_with(text: Seq<char>, front: Seq<char>) -> bool {
    front.is_prefix_of(text)
}

/// Off Windows, the message on missing credentials names the provider twice and
/// lists all of its variables once, and ends there.
pub proof fn credentials_message_names_provider_and_variables(
    provider: &'static str,
    env_vars: &'static [&'static str],
    shown: Seq<char>,
)
    ensures
        (ApiError::MissingCredentials { provider, env_vars, hint: None }).message_on(
            Platform::Other,
            shown,
        ) == "missing "@ + provider@ + " credentials; export "@ + text::joined(env_vars@, " or "@)
            + " before calling the "@ + provider@ + " API"@,
{
    let message = (ApiError::MissingCredentials { provider, env_vars, hint: None }).message_on(
        Platform::Other,
        shown,
    );
    assert(message == "missing "@ + provider@ + " credentials; export "@ + text::joined(
        env_vars@,
        " or "@,
    ) + " before calling the "@ + provider@ + " API"@);
}

/// On Windows the message on missing credentials says more than elsewhere: how
/// the first of the variables, if there is one, can be made to last.
pub proof fn windows_message_adds_advice_on_the_first_variable(
    provider: &'static str,
    env_vars: &'static [&'static str],
    shown: Seq<char>,
)
    ensures
        ({
            let error = ApiError::MissingCredentials { provider, env_vars, hint: None };
            let elsewhere = error.message_on(Platform::Other, shown);
            let message = error.message_on(Platform::Windows, shown);
            let advice = message.skip(elsewhere.len() as int);
            &&& starts_with(message, elsewhere)
            &&& env_vars@.len() == 0 ==> advice
                == " (on Windows, environment variables set in PowerShell only persist for the current session; use `setx` to make them permanent, then open a new terminal, or place a `.env` file in the current working directory)"@
            &&& env_vars@.len() > 0 ==> advice
                == " (on Windows, environment variables set in PowerShell only persist for the current session; use `setx "@
                + env_vars@[0]@
                + " <value>` to make it permanent, then open a new terminal, or place a `.env` file containing `"@
                + env_vars@[0]@ + "=<value>` in the current working directory)"@
        }),
{
    let error = ApiError::MissingCredentials { provider, env_vars, hint: None };
    let elsewhere = error.message_on(Platform::Other, shown);
    let message = error.message_on(Platform::Windows, shown);
    let note = crate::render::persistence_note(Platform::Windows, env_vars@);
    assert(message == elsewhere + note);
    assert(message.skip(elsewhere.len() as int) == note);
}

/// The message on a request that was held back tells the model and all four
/// numbers of tokens, in the order of the sum and its limit.
pub proof fn held_back_message_tells_the_sum(
    model: String,
    estimated_input_tokens: u32,
    requested_output_tokens: u32,
    estimated_total_tokens: u32,
    context_window_tokens: u32,
    platform: Platform,
    shown: Seq<char>,
)
    ensures
        (ApiError::ContextWindowExceeded {
            model,
            estimated_input_tokens,
            requested_output_tokens,
            estimated_total_tokens,
            context_window_tokens,
        }).message_on(platform, shown) == "context_window_blocked for "@ + model@
            + ": estimated input "@ + text::decimal(estimated_input_tokens as nat)
            + " + requested output "@ + text::decimal(requested_output_tokens as nat) + " = "@
            + text::decimal(estimated_total_tokens as nat) + " tokens exceeds the "@
            + text::decimal(context_window_tokens as nat)
            + "-token context window; compact the session or reduce request size before retrying"@,
{
}

/// The message on a request body that is too large tells the provider, the size
/// and the limit.
pub proof fn size_message_tells_size_and_limit(
    estimated_bytes: usize,
    max_bytes: usize,
    provider: &'static str,
    platform: Platform,
    shown: Seq<char>,
)
    ensures
        (ApiError::RequestBodySizeExceeded { estimated_bytes, max_bytes, provider }).message_on(
            platform,
            shown,
        ) == "request body size ("@ + text::decimal(estimated_bytes as nat) + " bytes) exceeds "@
            + provider@ + " limit ("@ + text::decimal(max_bytes as nat)
            + " bytes); reduce prompt length or context before retrying"@,
{
}

/// The message on an answer with both a type and a message tells the status,
/// the type, the identifier where there is one, and the message. The body plays
/// no part.
pub proof fn answer_message_tells_type_and_message(
    status: HttpStatus,
    error_type: String,
    message: String,
    request_id: Option<String>,
    body: String,
    retryable: bool,
    suggested_action: Option<String>,
    retry_after: Option<Duration>,
    platform: Platform,
    shown: Seq<char>,
)
    ensures
        ({
            let told = (ApiError::Api {
                status,
                error_type: Some(error_type),
                message: Some(message),
                request_id,
                body,
                retryable,
                suggested_action,
                retry_after,
            }).message_on(platform, shown);
            let head = "api returned "@ + text::decimal(status@ as nat) + " "@
                + outside::status_phrase(status@) + " ("@ + error_type@;
            &&& request_id is None ==> told == head + "): "@ + message@
            &&& request_id matches Some(id) ==> told == head + ") [trace "@ + id@ + "]: "@
                + message@
        }),
{
    reveal_strlit(")");
    reveal_strlit(": ");
    reveal_strlit("): ");
    reveal_strlit(" [trace ");
    reveal_strlit(") [trace ");
    reveal_strlit("]");
    reveal_strlit("]: ");
    assert(")"@ + ": "@ == "): "@);
    assert(")"@ + " [trace "@ == ") [trace "@);
    assert("]"@ + ": "@ == "]: "@);
    let told = (ApiError::Api {
        status,
        error_type: Some(error_type),
        message: Some(message),
        request_id,
        body,
        retryable,
        suggested_action,
        retry_after,
    }).message_on(platform, shown);
    let head = "api returned "@ + text::decimal(status@ as nat) + " "@ + outside::status_phrase(
        status@,
    ) + " ("@ + error_type@;
    match request_id {
        None => {
            assert(told == head + (")"@ + ": "@) + message@);
        },
        Some(id) => {
            assert(told == head + (")"@ + " [trace "@) + id@ + ("]"@ + ": "@) + message@);
        },
    }
}

/// The message on an answer that lacks a type or a message tells the status, the
/// identifier where there is one, and the whole body. What the answer has of a
/// type or a message plays no part.
pub proof fn answer_message_tells_the_body_otherwise(
    status: HttpStatus,
    error_type: Option<String>,
    message: Option<String>,
    request_id: Option<String>,
    body: String,
    retryable: bool,
    suggested_action: Option<String>,
    retry_after: Option<Duration>,
    platform: Platform,
    shown: Seq<char>,
)
    requires
        error_type is None || message is None,
    ensures
        ({
            let told = (ApiError::Api {
                status,
                error_type,
                message,
                request_id,
                body,
                retryable,
                suggested_action,
                retry_after,
            }).message_on(platform, shown);
            let head = "api returned "@ + text::decimal(status@ as nat) + " "@
                + outside::status_phrase(status@);
            &&& request_id is None ==> told == head + ": "@ + body@
            &&& request_id matches Some(id) ==> told == head + " [trace "@ + id@ + "]: "@ + body@
        }),
{
    reveal_strlit(": ");
    reveal_strlit("]");
    reveal_strlit("]: ");
    assert("]"@ + ": "@ == "]: "@);
    let told = (ApiError::Api {
        status,
        error_type,
        message,
        request_id,
        body,
        retryable,
        suggested_action,
        retry_after,
    }).message_on(platform, shown);
    let head = "api returned "@ + text::decimal(status@ as nat) + " "@ + outside::status_phrase(
        status@,
    );
    match request_id {
        None => {
            assert(told == head + ": "@ + body@);
        },
        Some(id) => {
            assert(told == head + " [trace "@ + id@ + ("]"@ + ": "@) + body@);
        },
    }
}

/// The message on an unreadable body tells the provider, the model, what its
/// source shows, and what was kept of the body.
pub proof fn unreadable_body_message_tells_source_and_body(
    provider: String,
    model: String,
    body_snippet: String,
    source: serde_json::Error,
    platform: Platform,
    shown: Seq<char>,
)
    ensures
        (ApiError::Json { provider, model, body_snippet, source }).message_on(platform, shown)
            == "failed to parse "@ + provider@ + " response for model "@ + model@ + ": "@ + shown
            + "; first 200 chars of body: "@ + body_snippet@,
{
}

/// The message on exhausted retries tells the number of attempts, then the whole
/// message of the last error.
pub proof fn retries_message_tells_attempts_and_last_error(
    attempts: u32,
    last_error: ApiError,
    platform: Platform,
    shown: Seq<char>,
)
    ensures
        (ApiError::RetriesExhausted { attempts, last_error: Box::new(last_error) }).message_on(
            platform,
            shown,
        ) == "api failed after "@ + text::decimal(attempts as nat) + " attempts: "@
            + last_error.message_on(platform, shown),
{
}

/// The messages that put one label before one text.
pub proof fn labelled_messages_tell_their_text(
    message: String,
    variable: crate::sources::EnvVarError,
    http: crate::sources::HttpError,
    io: std::io::Error,
    frame: &'static str,
    platform: Platform,
    shown: Seq<char>,
)
    ensures
        ApiError::Auth(message).message_on(platform, shown) == "auth error: "@ + message@,
        ApiError::InvalidApiKeyEnv(variable).message_on(platform, shown)
            == "failed to read credential environment variable: "@ + variable.message@,
        ApiError::Http(http).message_on(platform, shown) == "http error: "@ + http.message@,
        ApiError::Io(io).message_on(platform, shown) == "io error: "@ + shown,
        ApiError::InvalidSseFrame(frame).message_on(platform, shown) == "invalid sse frame: "@
            + frame@,
        ApiError::ExpiredOAuthToken.message_on(platform, shown)
            == "saved OAuth token is expired and no refresh token is available"@,
{
}

/// The message on an overflow of the backoff delay tells the attempt and the
/// base delay.
pub proof fn overflow_message_tells_attempt_and_delay(
    attempt: u32,
    base_delay: Duration,
    platform: Platform,
    shown: Seq<char>,
)
    ensures
        (ApiError::BackoffOverflow { attempt, base_delay }).message_on(platform, shown)
            == "retry backoff overflowed on attempt "@ + text::decimal(attempt as nat)
            + " with base delay "@ + outside::duration_debug(base_delay),
{
}

/// The message on an answer whose status is shown in any way tells just that
/// status, and the message on an overflow just that delay.
pub proof fn messages_take_the_text_they_are_given(
    status: Seq<char>,
    error_type: String,
    message: String,
    id: String,
    body: Seq<char>,
    attempt: u32,
    delay: Seq<char>,
)
    ensures
        crate::render::answer_shown(status, Some(error_type), Some(message), Some(id), body)
            == "api returned "@ + status + " ("@ + error_type@ + ")"@ + " [trace "@ + id@ + "]"@
            + ": "@ + message@,
        crate::render::answer_shown(status, Some(error_type), Some(message), None, body)
            == "api returned "@ + status + " ("@ + error_type@ + ")"@ + ": "@ + message@,
        crate::render::answer_shown(status, None, Some(message), Some(id), body)
            == "api returned "@ + status + " [trace "@ + id@ + "]"@ + ": "@ + body,
        crate::render::answer_shown(status, None, Some(message), None, body) == "api returned "@
            + status + ": "@ + body,
        crate::render::answer_shown(status, Some(error_type), None, Some(id), body)
            == "api returned "@ + status + " [trace "@ + id@ + "]"@ + ": "@ + body,
        crate::render::answer_shown(status, Some(error_type), None, None, body) == "api returned "@
            + status + ": "@ + body,
        crate::render::answer_shown(status, None, None, Some(id), body) == "api returned "@ + status
            + " [trace "@ + id@ + "]"@ + ": "@ + body,
        crate::render::answer_shown(status, None, None, None, body) == "api returned "@ + status
            + ": "@ + body,
        crate::render::overflow_shown(attempt, delay) == "retry backoff overflowed on attempt "@
            + text::decimal(attempt as nat) + " with base delay "@ + delay,
{
    let none: Option<String> = None;
    assert(crate::render::answer_shown(status, Some(error_type), Some(message), none, body)
        == "api returned "@ + status + " ("@ + error_type@ + ")"@ + ": "@ + message@);
    assert(crate::render::answer_shown(status, none, none, none, body) == "api returned "@ + status
        + ": "@ + body);
    assert(crate::render::answer_shown(status, Some(error_type), Some(message), Some(id), body)
        == "api returned "@ + status + " ("@ + error_type@ + ")"@ + " [trace "@ + id@ + "]"@ + ": "@
        + message@);
    assert(crate::render::answer_shown(status, none, none, Some(id), body) == "api returned "@
        + status + " [trace "@ + id@ + "]"@ + ": "@ + body);
}

/// An error has a source if and only if its root cause is an error of another
/// library that is kept as it is. Its source shows the texts of that very error,
/// and an error without a source shows nothing of one.
pub proof fn sources_show_their_own_text(error: ApiError, text: String)
    ensures
        error.has_source() <==> error.root_cause() is Io || error.root_cause() is Json,
        error.root_cause() matches ApiError::Io(source) ==> (error.source_shows(text)
            <==> vstd::string::to_string_from_display_ensures(&source, text)),
        error.root_cause() matches ApiError::Json { source, .. } ==> (error.source_shows(text)
            <==> vstd::string::to_string_from_display_ensures(&source, text)),
        !error.has_source() ==> (error.source_shows(text) <==> text@.len() == 0),
{
    if text@.len() == 0 {
        assert(text@ == Seq::<char>::empty());
    }
}

/// Every error but an I/O error, and but an unreadable body that wraps one, owes
/// a message: one without a source, and one whose source fixes its own text.
pub proof fn all_but_io_errors_owe_a_message(error: ApiError)
    ensures
        error.fixed_source_text() is None <==> {
            ||| error.root_cause() is Io
            ||| error.root_cause() matches ApiError::Json { source, .. } && outside::json_is_io(
                source,
            )
        },
        !error.has_source() ==> error.fixed_source_text() == Some(Seq::<char>::empty()),
        error.root_cause() matches ApiError::Json { source, .. } ==> !outside::json_is_io(source)
            ==> error.fixed_source_text() == Some(outside::json_error_shown(source)),
{
}

} // verus!
