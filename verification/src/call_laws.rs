//! What comes back from calls: each law speaks of the results that the functions
//! of the library can return.

use core::time::Duration;

use vstd::prelude::*;

use crate::error::ApiError;
use crate::failure_text;
use crate::render::Platform;
use crate::sources::{EnvVarError, HttpError};
use crate::status::HttpStatus;
use crate::text;

verus! {

/// Whether to retry an answer of the provider is told by its flag alone.
pub proof fn retry_answer_is_the_flag(error: ApiError, answer: bool)
    requires
        call_ensures(ApiError::is_retryable, (&error,), answer),
    ensures
        error.root_cause() matches ApiError::Api { retryable, .. } ==> answer == retryable,
        error.root_cause() matches ApiError::Http(http) ==> (answer <==> http.connect
            || http.timeout || http.request),
        answer ==> error.root_cause() is Api || error.root_cause() is Http,
{
}

/// The delay that comes back for an answer of the provider is the one it
/// carries, and nothing else asks for a delay.
pub proof fn delay_is_the_one_carried(error: ApiError, delay: Option<Duration>)
    requires
        call_ensures(ApiError::retry_after, (&error,), delay),
    ensures
        error.root_cause() matches ApiError::Api { retry_after, .. } ==> delay == retry_after,
        error.root_cause() !is Api ==> delay is None,
{
}

/// The identifier that comes back is the one that the answer of the provider
/// carries, and nothing else has one.
pub proof fn identifier_is_the_one_carried(error: ApiError, id: Option<&str>)
    requires
        call_ensures(ApiError::request_id, (&error,), id),
    ensures
        error.root_cause() matches ApiError::Api { request_id, .. } ==> {
            &&& id is Some <==> request_id is Some
            &&& id is Some ==> id->0@ == request_id->0@
        },
        error.root_cause() !is Api ==> id is None,
{
}

/// An answer of the provider is found to hide behind the generic wrapper if and
/// only if its message, where it has one, or its body tells so.
pub proof fn wrapper_is_found_by_text(error: ApiError, answer: bool)
    requires
        call_ensures(ApiError::is_generic_fatal_wrapper, (&error,), answer),
    ensures
        error.root_cause() matches ApiError::Api { message, body, .. } ==> (answer <==> {
            ||| failure_text::is_generic_fatal_text(body@)
            ||| message is Some && failure_text::is_generic_fatal_text(message->0@)
        }),
        error.root_cause() !is Api ==> !answer,
{
}

/// An answer of the provider is found to overflow the context window if and only
/// if its status is 400, 413 or 422 and its message, where it has one, or its
/// body tells so.
pub proof fn overflow_is_found_by_status_and_text(error: ApiError, answer: bool)
    requires
        call_ensures(ApiError::is_context_window_failure, (&error,), answer),
    ensures
        error.root_cause() matches ApiError::Api { status, message, body, .. } ==> (answer <==> {
            &&& status@ == 400 || status@ == 413 || status@ == 422
            &&& {
                ||| failure_text::is_context_window_text(body@)
                ||| message is Some && failure_text::is_context_window_text(message->0@)
            }
        }),
        error.root_cause() !is Api ==> (answer <==> error.root_cause() is ContextWindowExceeded),
{
}

/// The class that comes back agrees with what the other calls on the same error
/// answer, and otherwise goes by the status of the answer or the kind of the
/// root cause.
pub proof fn class_agrees_with_the_other_answers(
    error: ApiError,
    class: &'static str,
    overflows: bool,
    wrapped: bool,
)
    requires
        call_ensures(ApiError::safe_failure_class, (&error,), class),
        call_ensures(ApiError::is_context_window_failure, (&error,), overflows),
        call_ensures(ApiError::is_generic_fatal_wrapper, (&error,), wrapped),
    ensures
        class@ == "context_window"@ <==> overflows,
        class@ == "provider_retry_exhausted"@ <==> error is RetriesExhausted && wrapped
            && !overflows,
        class@ == "request_size"@ <==> error.root_cause() is RequestBodySizeExceeded,
        class@ == "provider_error"@ <==> {
            &&& error.root_cause() matches ApiError::Api { status, .. }
            &&& status@ != 401 && status@ != 403 && status@ != 429
            &&& !wrapped && !overflows
        },
        class@ == "provider_internal"@ <==> {
            &&& error matches ApiError::Api { status, .. }
            &&& status@ != 401 && status@ != 403 && status@ != 429
            &&& wrapped && !overflows
        },
        class@ == "provider_rate_limit"@ <==> {
            &&& error.root_cause() matches ApiError::Api { status, .. }
            &&& status@ == 429
            &&& !(error is RetriesExhausted && wrapped)
        },
        class@ == "provider_auth"@ <==> {
            ||| error.root_cause() is MissingCredentials
            ||| error.root_cause() is ExpiredOAuthToken
            ||| error.root_cause() is Auth
            ||| error.root_cause() matches ApiError::Api { status, .. } && (status@ == 401
                || status@ == 403) && !(error is RetriesExhausted && wrapped)
        },
        class@ == "provider_transport"@ <==> {
            ||| error.root_cause() is Http
            ||| error.root_cause() is InvalidSseFrame
            ||| error.root_cause() is BackoffOverflow
        },
        class@ == "runtime_io"@ <==> {
            ||| error.root_cause() is InvalidApiKeyEnv
            ||| error.root_cause() is Io
            ||| error.root_cause() is Json
        },
{
    crate::laws::context_window_class_is_exact(error);
    crate::class_laws::classes_without_an_answer_are_exact(error);
    crate::class_laws::auth_class_is_exact(error);
    crate::class_laws::rate_limit_class_is_exact(error);
    crate::class_laws::wrapper_classes_are_exact(error);
    crate::class_laws::plain_answers_are_provider_errors(error);
}

/// Two errors with the same root cause get the same answers to all questions but
/// that of their class.
pub proof fn equal_root_causes_get_equal_answers(
    one: ApiError,
    other: ApiError,
    retryable: (bool, bool),
    delay: (Option<Duration>, Option<Duration>),
    wrapped: (bool, bool),
    overflows: (bool, bool),
)
    requires
        one.root_cause() == other.root_cause(),
        call_ensures(ApiError::is_retryable, (&one,), retryable.0),
        call_ensures(ApiError::is_retryable, (&other,), retryable.1),
        call_ensures(ApiError::retry_after, (&one,), delay.0),
        call_ensures(ApiError::retry_after, (&other,), delay.1),
        call_ensures(ApiError::is_generic_fatal_wrapper, (&one,), wrapped.0),
        call_ensures(ApiError::is_generic_fatal_wrapper, (&other,), wrapped.1),
        call_ensures(ApiError::is_context_window_failure, (&one,), overflows.0),
        call_ensures(ApiError::is_context_window_failure, (&other,), overflows.1),
    ensures
        retryable.0 == retryable.1,
        delay.0 == delay.1,
        wrapped.0 == wrapped.1,
        overflows.0 == overflows.1,
{
}

/// A text is found to announce a failure if and only if it does.
pub proof fn detectors_find_the_phrases(text: &str, generic: bool, context: bool)
    requires
        call_ensures(failure_text::looks_like_generic_fatal_wrapper, (text,), generic),
        call_ensures(failure_text::looks_like_context_window_error, (text,), context),
    ensures
        generic <==> failure_text::is_generic_fatal_text(text@),
        context <==> failure_text::is_context_window_text(text@),
{
}

/// What comes back of a body is the body where it fits the limit, else as many
/// of its first characters as the limit allows, and an ellipsis.
pub proof fn cut_bodies_keep_their_start(body: &str, max_chars: usize, kept: String)
    requires
        call_ensures(text::truncate_body_snippet, (body, max_chars), kept),
    ensures
        body@.len() <= max_chars ==> kept@ == body@,
        body@.len() > max_chars ==> {
            &&& kept@.len() == max_chars + 1
            &&& kept@[max_chars as int] == '…'
            &&& forall|i: int| 0 <= i < max_chars ==> kept@[i] == body@[i]
        },
{
}

/// Missing credentials are reported with just what was given.
pub proof fn missing_credentials_are_as_given(
    provider: &'static str,
    env_vars: &'static [&'static str],
    hint: String,
    plain: ApiError,
    hinted: ApiError,
)
    requires
        call_ensures(ApiError::missing_credentials, (provider, env_vars), plain),
        call_ensures(
            ApiError::missing_credentials_with_hint::<String>,
            (provider, env_vars, hint),
            hinted,
        ),
    ensures
        plain == (ApiError::MissingCredentials { provider, env_vars, hint: None }),
        hinted == (ApiError::MissingCredentials { provider, env_vars, hint: Some(hint) }),
{
}

/// An unreadable body is reported with the provider, the model and the source
/// that were given, and with the start of the body.
pub proof fn unreadable_bodies_are_as_given(
    provider: String,
    model: String,
    body: &str,
    source: serde_json::Error,
    error: ApiError,
)
    requires
        call_ensures(
            ApiError::json_deserialize::<String, String>,
            (provider, model, body, source),
            error,
        ),
    ensures
        error is Json,
        error->Json_provider == provider,
        error->Json_model == model,
        error->Json_source == source,
        body@.len() <= 200 ==> error->Json_body_snippet@ == body@,
        body@.len() > 200 ==> {
            &&& error->Json_body_snippet@.len() == 201
            &&& error->Json_body_snippet@[200] == '…'
            &&& forall|i: int| 0 <= i < 200 ==> error->Json_body_snippet@[i] == body@[i]
        },
{
}

/// There is a status code for each number of three digits, it keeps its number,
/// and there is none for any other number.
pub proof fn status_codes_keep_their_number(code: u16, status: Option<HttpStatus>, number: u16)
    requires
        call_ensures(HttpStatus::from_u16, (code,), status),
        status is Some ==> call_ensures(HttpStatus::as_u16, (&status->0,), number),
    ensures
        100 <= code < 1000 ==> status is Some && number == code,
        !(100 <= code < 1000) ==> status is None,
{
}

/// The message that comes back where the text of the source is given is the
/// message with that text.
pub proof fn messages_hold_the_given_text(
    error: ApiError,
    platform: Platform,
    shown: &str,
    message: String,
)
    requires
        call_ensures(ApiError::render_with_source, (&error, platform, shown), message),
    ensures
        message@ == error.message_on(platform, shown@),
{
}

/// A message comes back for every error whose message is said to be fixed, and
/// what comes back is always the message with a text that the source shows.
pub proof fn fixed_messages_come_back(
    error: ApiError,
    platform: Platform,
    fixed: bool,
    message: Option<String>,
)
    requires
        call_ensures(ApiError::has_fixed_message, (&error,), fixed),
        call_ensures(ApiError::render, (&error, platform), message),
    ensures
        fixed ==> message is Some,
        fixed <== error.root_cause() !is Io && error.root_cause() !is Json,
        error.root_cause() matches ApiError::Json { source, .. } ==> (fixed
            <==> !crate::outside::json_is_io(source)),
        error.root_cause() is Io ==> !fixed,
        !error.has_source() ==> message is Some && message->0@ == error.message_on(
            platform,
            Seq::empty(),
        ),
        message is Some ==> exists|shown: String| #[trigger]
            error.source_shows(shown) && message->0@ == error.message_on(platform, shown@),
{
}

/// The errors of other libraries are reported as what they are.
pub proof fn conversions_report_what_they_are_given(
    http: reqwest::Error,
    json: serde_json::Error,
    io: std::io::Error,
    variable: EnvVarError,
    from_http: ApiError,
    from_json: ApiError,
    from_io: ApiError,
    from_variable: ApiError,
)
    requires
        call_ensures(<ApiError as From<reqwest::Error>>::from, (http,), from_http),
        call_ensures(<ApiError as From<serde_json::Error>>::from, (json,), from_json),
        call_ensures(<ApiError as From<std::io::Error>>::from, (io,), from_io),
        call_ensures(<ApiError as From<EnvVarError>>::from, (variable,), from_variable),
    ensures
        from_http is Http,
        from_http->Http_0.connect == crate::outside::is_connect(http),
        from_http->Http_0.timeout == crate::outside::is_timeout(http),
        from_http->Http_0.request == crate::outside::is_request(http),
        vstd::string::to_string_from_display_ensures(&http, from_http->Http_0.message),
        from_json is Json,
        from_json->Json_provider@ == "unknown"@,
        from_json->Json_model@ == "unknown"@,
        from_json->Json_body_snippet@.len() == 0,
        from_json->Json_source == json,
        from_io == ApiError::Io(io),
        from_variable == ApiError::InvalidApiKeyEnv(variable),
{
}

/// A failure of the HTTP client and a status code keep what the client says.
pub proof fn client_values_are_read_off(
    error: reqwest::Error,
    status: reqwest::StatusCode,
    described: HttpError,
    code: HttpStatus,
)
    requires
        call_ensures(<HttpError as From<reqwest::Error>>::from, (error,), described),
        call_ensures(<HttpStatus as From<reqwest::StatusCode>>::from, (status,), code),
    ensures
        described.connect == crate::outside::is_connect(error),
        described.timeout == crate::outside::is_timeout(error),
        described.request == crate::outside::is_request(error),
        vstd::string::to_string_from_display_ensures(&error, described.message),
        code@ == crate::outside::status_number(status),
{
}

} // verus!
