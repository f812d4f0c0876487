//! What the decisions on an error are, by the fields of its root cause.

use core::time::Duration;

use vstd::prelude::*;

use crate::error::ApiError;
use crate::failure_text;
use crate::sources::{EnvVarError, HttpError};
use crate::status::HttpStatus;

verus! {

/// The root cause of a report of exhausted retries is that of the last error,
/// and every other error is its own root cause.
pub proof fn root_cause_is_under_all_reports(attempts: u32, error: ApiError)
    ensures
        (ApiError::RetriesExhausted { attempts, last_error: Box::new(error) }).root_cause()
            == error.root_cause(),
        error !is RetriesExhausted ==> error.root_cause() == error,
{
}

/// An answer of the provider, however deep under exhausted retries, is worth a
/// retry if and only if it is flagged so. Its status, its texts and its delay
/// play no part.
pub proof fn answers_are_retryable_as_flagged(
    error: ApiError,
    status: HttpStatus,
    error_type: Option<String>,
    message: Option<String>,
    request_id: Option<String>,
    body: String,
    retryable: bool,
    suggested_action: Option<String>,
    retry_after: Option<Duration>,
)
    requires
        error.root_cause() == (ApiError::Api {
            status,
            error_type,
            message,
            request_id,
            body,
            retryable,
            suggested_action,
            retry_after,
        }),
    ensures
        error.may_succeed_later() <==> retryable,
{
}

/// An answer of the provider, however deep under exhausted retries, asks for
/// exactly the delay that it carries, whatever else it says.
pub proof fn answers_ask_for_their_own_delay(
    error: ApiError,
    status: HttpStatus,
    error_type: Option<String>,
    message: Option<String>,
    request_id: Option<String>,
    body: String,
    retryable: bool,
    suggested_action: Option<String>,
    retry_after: Option<Duration>,
)
    requires
        error.root_cause() == (ApiError::Api {
            status,
            error_type,
            message,
            request_id,
            body,
            retryable,
            suggested_action,
            retry_after,
        }),
    ensures
        error.requested_delay() == retry_after,
{
}

/// An answer of the provider, however deep under exhausted retries, is
/// identified by exactly the identifier that it carries, whatever else it says.
pub proof fn answers_tell_their_own_identifier(
    error: ApiError,
    status: HttpStatus,
    error_type: Option<String>,
    message: Option<String>,
    request_id: Option<String>,
    body: String,
    retryable: bool,
    suggested_action: Option<String>,
    retry_after: Option<Duration>,
)
    requires
        error.root_cause() == (ApiError::Api {
            status,
            error_type,
            message,
            request_id,
            body,
            retryable,
            suggested_action,
            retry_after,
        }),
    ensures
        error.trace_id() is Some <==> request_id is Some,
        request_id matches Some(id) ==> error.trace_id() == Some(id@),
{
}

/// Any one sign of a transient failure of the HTTP client makes a retry worth
/// while, and nothing else does.
pub proof fn transport_failures_are_retryable_by_their_signs(
    error: ApiError,
    connect: bool,
    timeout: bool,
    request: bool,
    message: String,
)
    requires
        error.root_cause() == ApiError::Http(HttpError { connect, timeout, request, message }),
    ensures
        connect ==> error.may_succeed_later(),
        timeout ==> error.may_succeed_later(),
        request ==> error.may_succeed_later(),
        error.may_succeed_later() ==> connect || timeout || request,
        error.requested_delay() is None,
        error.trace_id() is None,
{
}

/// An error that is neither an answer of the provider nor a failure of the HTTP
/// client is never worth a retry, asks for no delay and has no identifier.
pub proof fn other_errors_are_not_retryable(error: ApiError)
    requires
        error.root_cause() !is Api,
        error.root_cause() !is Http,
    ensures
        !error.may_succeed_later(),
        error.requested_delay() is None,
        error.trace_id() is None,
{
}

/// An answer hides behind the generic wrapper if and only if its message or its
/// body holds a phrase of the wrapper. Either is enough without the other, and
/// no other field plays a part.
pub proof fn wrapper_is_found_in_message_or_body(
    error: ApiError,
    status: HttpStatus,
    error_type: Option<String>,
    message: Option<String>,
    request_id: Option<String>,
    body: String,
    retryable: bool,
    suggested_action: Option<String>,
    retry_after: Option<Duration>,
)
    requires
        error.root_cause() == (ApiError::Api {
            status,
            error_type,
            message,
            request_id,
            body,
            retryable,
            suggested_action,
            retry_after,
        }),
    ensures
        failure_text::is_generic_fatal_text(body@) ==> error.is_wrapped(),
        message matches Some(m) ==> failure_text::is_generic_fatal_text(m@) ==> error.is_wrapped(),
        error.is_wrapped() && !failure_text::is_generic_fatal_text(body@) ==> message is Some
            && failure_text::is_generic_fatal_text(message->0@),
{
}

/// Only an answer of the provider can hide behind the generic wrapper.
pub proof fn only_answers_are_wrapped(error: ApiError)
    ensures
        error.is_wrapped() ==> error.root_cause() is Api,
{
}

/// An answer overflows the context window if and only if its status is one of
/// 400, 413 and 422 and its message or its body holds a phrase about the context
/// window. Either text is enough without the other, and no other field plays a
/// part.
pub proof fn overflow_is_found_in_message_or_body(
    error: ApiError,
    status: HttpStatus,
    error_type: Option<String>,
    message: Option<String>,
    request_id: Option<String>,
    body: String,
    retryable: bool,
    suggested_action: Option<String>,
    retry_after: Option<Duration>,
)
    requires
        error.root_cause() == (ApiError::Api {
            status,
            error_type,
            message,
            request_id,
            body,
            retryable,
            suggested_action,
            retry_after,
        }),
    ensures
        ({
            let refused = status@ == 400 || status@ == 413 || status@ == 422;
            &&& refused && failure_text::is_context_window_text(body@) ==> error.overflows_context()
            &&& message matches Some(m) ==> (refused && failure_text::is_context_window_text(m@)
                ==> error.overflows_context())
            &&& error.overflows_context() ==> refused
            &&& error.overflows_context() && !failure_text::is_context_window_text(body@)
                ==> message is Some && failure_text::is_context_window_text(message->0@)
        }),
{
}

/// A request that was held back for its size in tokens overflows the context
/// window, and besides answers of the provider nothing else does.
pub proof fn only_answers_and_held_back_requests_overflow(error: ApiError)
    ensures
        error.root_cause() is ContextWindowExceeded ==> error.overflows_context(),
        error.overflows_context() ==> error.root_cause() is ContextWindowExceeded
            || error.root_cause() is Api,
{
}

/// No two classes share a name.
proof fn class_names_differ()
    ensures
        "context_window"@.len() == 14,
        "provider_retry_exhausted"@.len() == 24,
        "provider_auth"@.len() == 13,
        "provider_rate_limit"@.len() == 19,
        "provider_internal"@.len() == 17,
        "provider_error"@.len() == 14,
        "provider_transport"@.len() == 18,
        "runtime_io"@.len() == 10,
        "request_size"@.len() == 12,
        "provider_error"@ != "context_window"@,
{
    reveal_strlit("context_window");
    reveal_strlit("provider_retry_exhausted");
    reveal_strlit("provider_auth");
    reveal_strlit("provider_rate_limit");
    reveal_strlit("provider_internal");
    reveal_strlit("provider_error");
    reveal_strlit("provider_transport");
    reveal_strlit("runtime_io");
    reveal_strlit("request_size");
    assert("provider_error"@[0] != "context_window"@[0]);
}

/// The classes of errors that the provider did not answer: each is given to
/// exactly the kinds of root cause that belong to it.
pub proof fn classes_without_an_answer_are_exact(error: ApiError)
    ensures
        error.failure_class() == "request_size"@ <==> error.root_cause() is RequestBodySizeExceeded,
        error.failure_class() == "provider_transport"@ <==> {
            ||| error.root_cause() is Http
            ||| error.root_cause() is InvalidSseFrame
            ||| error.root_cause() is BackoffOverflow
        },
        error.failure_class() == "runtime_io"@ <==> {
            ||| error.root_cause() is InvalidApiKeyEnv
            ||| error.root_cause() is Io
            ||| error.root_cause() is Json
        },
{
    class_names_differ();
    crate::laws::root_cause_decides(error);
}

/// The class is that of refused credentials for exactly the errors about
/// credentials and the answers with status 401 or 403, but for a report of
/// exhausted retries on such an answer behind the generic wrapper.
pub proof fn auth_class_is_exact(error: ApiError)
    ensures
        error.failure_class() == "provider_auth"@ <==> {
            ||| error.root_cause() is MissingCredentials
            ||| error.root_cause() is ExpiredOAuthToken
            ||| error.root_cause() is Auth
            ||| error.root_cause() matches ApiError::Api { status, .. } && (status@ == 401
                || status@ == 403) && !(error is RetriesExhausted && error.is_wrapped())
        },
{
    class_names_differ();
    crate::laws::root_cause_decides(error);
}

/// The class is that of a rate limit for exactly the answers with status 429,
/// but for a report of exhausted retries on such an answer behind the generic
/// wrapper.
pub proof fn rate_limit_class_is_exact(error: ApiError)
    ensures
        error.failure_class() == "provider_rate_limit"@ <==> {
            &&& error.root_cause() matches ApiError::Api { status, .. }
            &&& status@ == 429
            &&& !(error is RetriesExhausted && error.is_wrapped())
        },
{
    class_names_differ();
    crate::laws::root_cause_decides(error);
}

/// The two classes for answers behind the generic wrapper: exhausted retries
/// come first, and an answer that was not retried is internal unless its status
/// or its text has a class of its own.
pub proof fn wrapper_classes_are_exact(error: ApiError)
    ensures
        error.failure_class() == "provider_retry_exhausted"@ <==> {
            &&& error is RetriesExhausted
            &&& error.is_wrapped()
            &&& !error.overflows_context()
        },
        error.failure_class() == "provider_internal"@ <==> {
            &&& error matches ApiError::Api { status, .. }
            &&& error.is_wrapped()
            &&& !error.overflows_context()
            &&& status@ != 401 && status@ != 403 && status@ != 429
        },
{
    class_names_differ();
    crate::laws::root_cause_decides(error);
}

/// Every answer that neither hides behind the generic wrapper nor overflows the
/// context window is a plain error of the provider, unless its status is 401,
/// 403 or 429. No other error is.
pub proof fn plain_answers_are_provider_errors(error: ApiError)
    ensures
        error.failure_class() == "provider_error"@ <==> {
            &&& error.root_cause() matches ApiError::Api { status, .. }
            &&& !error.is_wrapped()
            &&& !error.overflows_context()
            &&& status@ != 401 && status@ != 403 && status@ != 429
        },
{
    class_names_differ();
    crate::laws::root_cause_decides(error);
}

/// A failure of the HTTP client is described by the answers of the client's
/// error to three questions, each to its own, and by the text it shows.
pub proof fn transport_failures_hold_the_answers(described: HttpError, error: reqwest::Error)
    ensures
        described.describes(error) ==> {
            &&& described.connect <==> crate::outside::is_connect(error)
            &&& described.timeout <==> crate::outside::is_timeout(error)
            &&& described.request <==> crate::outside::is_request(error)
            &&& vstd::string::to_string_from_display_ensures(&error, described.message)
        },
{
}

/// An I/O error and an unreadable variable are reported as what they are.
pub proof fn conversions_keep_the_error(io: std::io::Error, variable: EnvVarError)
    ensures
        <ApiError as vstd::std_specs::convert::FromSpec<std::io::Error>>::from_spec(io)
            == ApiError::Io(io),
        <ApiError as vstd::std_specs::convert::FromSpec<EnvVarError>>::from_spec(variable)
            == ApiError::InvalidApiKeyEnv(variable),
        <ApiError as vstd::std_specs::convert::FromSpec<std::io::Error>>::obeys_from_spec(),
        <ApiError as vstd::std_specs::convert::FromSpec<EnvVarError>>::obeys_from_spec(),
{
}

} // verus!
