//! `ApiError`: what can go wrong between a request to a model provider and its
//! answer, and how a caller is to take it.

use core::time::Duration;

use vstd::prelude::*;

use crate::failure_text;
use crate::sources::{EnvVarError, HttpError};
use crate::status::HttpStatus;
use crate::text;

verus! {

/// The number of characters of a response body that a `Json` error keeps.
pub const BODY_SNIPPET_CHARS: usize = 200;

/// A failed request to a model provider.
#[derive(Debug)]
#[allow(inconsistent_fields)]
pub enum ApiError {
    /// No credentials for the provider were found.
    MissingCredentials {
        provider: &'static str,
        env_vars: &'static [&'static str],
        /// A hint for the user, shown on a line of its own after the message.
        /// It is there when the resolver of providers can tell what the user
        /// probably meant, such as when only the key of another provider is
        /// set.
        hint: Option<String>,
    },
    /// The request was not sent, for it would not fit the context window.
    ContextWindowExceeded {
        model: String,
        estimated_input_tokens: u32,
        requested_output_tokens: u32,
        estimated_total_tokens: u32,
        context_window_tokens: u32,
    },
    /// The saved OAuth token has expired and cannot be refreshed.
    ExpiredOAuthToken,
    /// The provider or its login refused the credentials.
    Auth(String),
    /// The environment variable with the credentials could not be read.
    InvalidApiKeyEnv(EnvVarError),
    /// The HTTP client failed.
    Http(HttpError),
    /// An input or output operation failed.
    Io(std::io::Error),
    /// The response body is not the JSON that was expected.
    Json { provider: String, model: String, body_snippet: String, source: serde_json::Error },
    /// The provider answered with an error.
    Api {
        status: HttpStatus,
        error_type: Option<String>,
        message: Option<String>,
        request_id: Option<String>,
        body: String,
        retryable: bool,
        /// What the user can do about an error of this type.
        suggested_action: Option<String>,
        /// The delay that the provider asked for with a `Retry-After` header.
        /// It takes the place of the computed backoff delay.
        retry_after: Option<Duration>,
    },
    /// Every attempt failed, the last of them with `last_error`.
    RetriesExhausted { attempts: u32, last_error: Box<ApiError> },
    /// A frame of the event stream is malformed.
    InvalidSseFrame(&'static str),
    /// The delay before the next attempt is too long to be represented.
    BackoffOverflow { attempt: u32, base_delay: Duration },
    /// The request was not sent, for its body is larger than the provider takes.
    RequestBodySizeExceeded { estimated_bytes: usize, max_bytes: usize, provider: &'static str },
}

// The meaning of an error
impl ApiError {
    /// The error under all reports of exhausted retries.
    pub open spec fn root_cause(self) -> ApiError
        decreases self,
    {
        match self {
            ApiError::RetriesExhausted { last_error, .. } => last_error.root_cause(),
            _ => self,
        }
    }

    /// The delay that the provider asked for before the next attempt.
    pub open spec fn requested_delay(self) -> Option<Duration> {
        match self.root_cause() {
            ApiError::Api { retry_after, .. } => retry_after,
            _ => None,
        }
    }

    /// The same request may succeed when it is sent again.
    pub open spec fn may_succeed_later(self) -> bool {
        match self.root_cause() {
            ApiError::Http(error) => error.connect || error.timeout || error.request,
            ApiError::Api { retryable, .. } => retryable,
            _ => false,
        }
    }

    /// The identifier that the provider gave to the request.
    pub open spec fn trace_id(self) -> Option<Seq<char>> {
        match self.root_cause() {
            ApiError::Api { request_id: Some(id), .. } => Some(id@),
            _ => None,
        }
    }

    /// The provider hides the failure behind its generic wrapper.
    pub open spec fn is_wrapped(self) -> bool {
        match self.root_cause() {
            ApiError::Api { message, body, .. } => {
                ||| message matches Some(m) && failure_text::is_generic_fatal_text(m@)
                ||| failure_text::is_generic_fatal_text(body@)
            },
            _ => false,
        }
    }

    /// The request does not fit the context window of the model.
    pub open spec fn overflows_context(self) -> bool {
        match self.root_cause() {
            ApiError::ContextWindowExceeded { .. } => true,
            ApiError::Api { status, message, body, .. } => {
                &&& status@ == 400 || status@ == 413 || status@ == 422
                &&& {
                    ||| message matches Some(m) && failure_text::is_context_window_text(m@)
                    ||| failure_text::is_context_window_text(body@)
                }
            },
            _ => false,
        }
    }

    /// The class of the error. It holds nothing that the provider or the user
    /// wrote.
    pub open spec fn failure_class(self) -> Seq<char> {
        if self.overflows_context() {
            "context_window"@
        } else if self is RetriesExhausted && self.is_wrapped() {
            "provider_retry_exhausted"@
        } else {
            self.root_cause().cause_class()
        }
    }

    /// The class of a root cause, where its texts do not tell that it overflows
    /// the context window. A report of exhausted retries is no root cause.
    pub open spec fn cause_class(self) -> Seq<char> {
        match self {
            ApiError::MissingCredentials { .. } => "provider_auth"@,
            ApiError::ExpiredOAuthToken => "provider_auth"@,
            ApiError::Auth(_) => "provider_auth"@,
            ApiError::Api { status, .. } => {
                if status@ == 401 || status@ == 403 {
                    "provider_auth"@
                } else if status@ == 429 {
                    "provider_rate_limit"@
                } else if self.is_wrapped() {
                    "provider_internal"@
                } else {
                    "provider_error"@
                }
            },
            ApiError::Http(_) => "provider_transport"@,
            ApiError::InvalidSseFrame(_) => "provider_transport"@,
            ApiError::BackoffOverflow { .. } => "provider_transport"@,
            ApiError::InvalidApiKeyEnv(_) => "runtime_io"@,
            ApiError::Io(_) => "runtime_io"@,
            ApiError::Json { .. } => "runtime_io"@,
            ApiError::RequestBodySizeExceeded { .. } => "request_size"@,
            ApiError::ContextWindowExceeded { .. } => "context_window"@,
            ApiError::RetriesExhausted { .. } => Seq::empty(),
        }
    }
}

// Construction
impl ApiError {
    /// No credentials for `provider` were found in any of `env_vars`.
    #[must_use]
    pub fn missing_credentials(
        provider: &'static str,
        env_vars: &'static [&'static str],
    ) -> (error: ApiError)
        ensures
            error == (ApiError::MissingCredentials { provider, env_vars, hint: None }),
    {
        ApiError::MissingCredentials { provider, env_vars, hint: None }
    }

    /// No credentials for `provider` were found in any of `env_vars`, and
    /// `hint` tells the user what is likely to help.
    #[must_use]
    pub fn missing_credentials_with_hint<H: Into<String>>(
        provider: &'static str,
        env_vars: &'static [&'static str],
        hint: H,
    ) -> (error: ApiError)
        ensures
            error matches ApiError::MissingCredentials { provider: p, env_vars: v, hint: Some(h) }
                && p == provider && v == env_vars && call_ensures(
                <H as Into<String>>::into,
                (hint,),
                h,
            ),
    {
        ApiError::MissingCredentials { provider, env_vars, hint: Some(hint.into()) }
    }

    /// The response `body` of `provider`, asked for an answer of `model`, could
    /// not be read as JSON. The error keeps the first characters of the body,
    /// so that the failure can be understood without another request.
    #[must_use]
    pub fn json_deserialize<P: Into<String>, M: Into<String>>(
        provider: P,
        model: M,
        body: &str,
        source: serde_json::Error,
    ) -> (error: ApiError)
        ensures
            error matches ApiError::Json { provider: p, model: m, body_snippet: b, source: s }
                && call_ensures(<P as Into<String>>::into, (provider,), p) && call_ensures(
                <M as Into<String>>::into,
                (model,),
                m,
            ) && b@ == text::snippet(body@, BODY_SNIPPET_CHARS as nat) && s == source,
    {
        ApiError::Json {
            provider: provider.into(),
            model: model.into(),
            body_snippet: text::truncate_body_snippet(body, BODY_SNIPPET_CHARS),
            source,
        }
    }
}

// Classification
impl ApiError {
    /// The delay that the provider asked for with a `Retry-After` header.
    /// Where there is one, it is to be preferred to the computed backoff delay.
    #[must_use]
    pub fn retry_after(&self) -> (delay: Option<Duration>)
        ensures
            delay == self.requested_delay(),
        decreases self,
    {
        match self {
            ApiError::Api { retry_after, .. } => *retry_after,
            ApiError::RetriesExhausted { last_error, .. } => last_error.retry_after(),
            _ => None,
        }
    }

    /// Whether the same request may succeed when it is sent again.
    pub fn is_retryable(&self) -> (answer: bool)
        ensures
            answer == self.may_succeed_later(),
        decreases self,
    {
        match self {
            ApiError::Http(error) => error.connect || error.timeout || error.request,
            ApiError::Api { retryable, .. } => *retryable,
            ApiError::RetriesExhausted { last_error, .. } => last_error.is_retryable(),
            ApiError::MissingCredentials { .. }
            | ApiError::ContextWindowExceeded { .. }
            | ApiError::ExpiredOAuthToken
            | ApiError::Auth(_)
            | ApiError::InvalidApiKeyEnv(_)
            | ApiError::Io(_)
            | ApiError::Json { .. }
            | ApiError::InvalidSseFrame(_)
            | ApiError::BackoffOverflow { .. }
            | ApiError::RequestBodySizeExceeded { .. } => false,
        }
    }

    /// The identifier that the provider gave to the request.
    #[must_use]
    pub fn request_id(&self) -> (id: Option<&str>)
        ensures
            self.trace_id() == (match id {
                Some(id) => Some(id@),
                None => None,
            }),
        decreases self,
    {
        match self {
            ApiError::Api { request_id, .. } => match request_id {
                Some(id) => Some(id.as_str()),
                None => None,
            },
            ApiError::RetriesExhausted { last_error, .. } => last_error.request_id(),
            ApiError::MissingCredentials { .. }
            | ApiError::ContextWindowExceeded { .. }
            | ApiError::ExpiredOAuthToken
            | ApiError::Auth(_)
            | ApiError::InvalidApiKeyEnv(_)
            | ApiError::Http(_)
            | ApiError::Io(_)
            | ApiError::Json { .. }
            | ApiError::InvalidSseFrame(_)
            | ApiError::BackoffOverflow { .. }
            | ApiError::RequestBodySizeExceeded { .. } => None,
        }
    }

    /// The class of the error, one of a fixed set of names. It can be logged
    /// and shown anywhere, for it holds no text of the provider or the user.
    #[must_use]
    pub fn safe_failure_class(&self) -> (class: &'static str)
        ensures
            class@ == self.failure_class(),
        decreases self,
    {
        match self {
            ApiError::RetriesExhausted { last_error, .. } => {
                if self.is_context_window_failure() {
                    "context_window"
                } else if self.is_generic_fatal_wrapper() {
                    "provider_retry_exhausted"
                } else {
                    last_error.safe_failure_class()
                }
            },
            ApiError::MissingCredentials { .. }
            | ApiError::ExpiredOAuthToken
            | ApiError::Auth(_) => "provider_auth",
            ApiError::ContextWindowExceeded { .. } => "context_window",
            ApiError::Api { status, .. } => {
                let code: u16 = status.as_u16();
                if code == 401 || code == 403 {
                    "provider_auth"
                } else if self.is_context_window_failure() {
                    "context_window"
                } else if code == 429 {
                    "provider_rate_limit"
                } else if self.is_generic_fatal_wrapper() {
                    "provider_internal"
                } else {
                    "provider_error"
                }
            },
            ApiError::Http(_)
            | ApiError::InvalidSseFrame(_)
            | ApiError::BackoffOverflow { .. } => "provider_transport",
            ApiError::InvalidApiKeyEnv(_)
            | ApiError::Io(_)
            | ApiError::Json { .. } => "runtime_io",
            ApiError::RequestBodySizeExceeded { .. } => "request_size",
        }
    }

    /// Whether the provider hides the failure behind its generic wrapper.
    #[must_use]
    pub fn is_generic_fatal_wrapper(&self) -> (answer: bool)
        ensures
            answer == self.is_wrapped(),
        decreases self,
    {
        match self {
            ApiError::Api { message, body, .. } => {
                let told: bool = match message {
                    Some(message) => failure_text::looks_like_generic_fatal_wrapper(message),
                    None => false,
                };
                told || failure_text::looks_like_generic_fatal_wrapper(body)
            },
            ApiError::RetriesExhausted { last_error, .. } => last_error.is_generic_fatal_wrapper(),
            ApiError::MissingCredentials { .. }
            | ApiError::ContextWindowExceeded { .. }
            | ApiError::ExpiredOAuthToken
            | ApiError::Auth(_)
            | ApiError::InvalidApiKeyEnv(_)
            | ApiError::Http(_)
            | ApiError::Io(_)
            | ApiError::Json { .. }
            | ApiError::InvalidSseFrame(_)
            | ApiError::BackoffOverflow { .. }
            | ApiError::RequestBodySizeExceeded { .. } => false,
        }
    }

    /// Whether the request does not fit the context window of the model.
    #[must_use]
    pub fn is_context_window_failure(&self) -> (answer: bool)
        ensures
            answer == self.overflows_context(),
        decreases self,
    {
        match self {
            ApiError::ContextWindowExceeded { .. } => true,
            ApiError::Api { status, message, body, .. } => {
                let code: u16 = status.as_u16();
                if code == 400 || code == 413 || code == 422 {
                    let told: bool = match message {
                        Some(message) => failure_text::looks_like_context_window_error(message),
                        None => false,
                    };
                    told || failure_text::looks_like_context_window_error(body)
                } else {
                    false
                }
            },
            ApiError::RetriesExhausted { last_error, .. } => last_error.is_context_window_failure(),
            ApiError::MissingCredentials { .. }
            | ApiError::ExpiredOAuthToken
            | ApiError::Auth(_)
            | ApiError::InvalidApiKeyEnv(_)
            | ApiError::Http(_)
            | ApiError::Io(_)
            | ApiError::Json { .. }
            | ApiError::InvalidSseFrame(_)
            | ApiError::BackoffOverflow { .. }
            | ApiError::RequestBodySizeExceeded { .. } => false,
        }
    }
}

// What `from` returns is stated by its own `ensures`.
impl vstd::std_specs::convert::FromSpecImpl<reqwest::Error> for ApiError {
    open spec fn obeys_from_spec() -> bool {
        false
    }

    open spec fn from_spec(v: reqwest::Error) -> ApiError {
        arbitrary()
    }
}

impl From<reqwest::Error> for ApiError {
    /// A failure of the HTTP client.
    fn from(value: reqwest::Error) -> (error: ApiError)
        ensures
            error matches ApiError::Http(e) && e.describes(value),
    {
        ApiError::Http(HttpError::from(value))
    }
}

impl vstd::std_specs::convert::FromSpecImpl<std::io::Error> for ApiError {
    open spec fn obeys_from_spec() -> bool {
        true
    }

    open spec fn from_spec(v: std::io::Error) -> ApiError {
        ApiError::Io(v)
    }
}

impl From<std::io::Error> for ApiError {
    /// A failure of an input or output operation.
    fn from(value: std::io::Error) -> (error: ApiError) {
        ApiError::Io(value)
    }
}

// What `from` returns is stated by its own `ensures`.
impl vstd::std_specs::convert::FromSpecImpl<serde_json::Error> for ApiError {
    open spec fn obeys_from_spec() -> bool {
        false
    }

    open spec fn from_spec(v: serde_json::Error) -> ApiError {
        arbitrary()
    }
}

impl From<serde_json::Error> for ApiError {
    /// A JSON text, of which nothing more is known, could not be read.
    fn from(value: serde_json::Error) -> (error: ApiError)
        ensures
            error matches ApiError::Json { provider, model, body_snippet, source } && provider@
                == "unknown"@ && model@ == "unknown"@ && body_snippet@ == Seq::<char>::empty()
                && source == value,
    {
        ApiError::Json {
            provider: String::from("unknown"),
            model: String::from("unknown"),
            body_snippet: String::new(),
            source: value,
        }
    }
}

impl vstd::std_specs::convert::FromSpecImpl<EnvVarError> for ApiError {
    open spec fn obeys_from_spec() -> bool {
        true
    }

    open spec fn from_spec(v: EnvVarError) -> ApiError {
        ApiError::InvalidApiKeyEnv(v)
    }
}

impl From<EnvVarError> for ApiError {
    /// The environment variable with the credentials could not be read.
    fn from(value: EnvVarError) -> (error: ApiError) {
        ApiError::InvalidApiKeyEnv(value)
    }
}

} // verus!
