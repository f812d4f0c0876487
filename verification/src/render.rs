//! The message of an `ApiError` for the user.

use vstd::prelude::*;

use crate::error::ApiError;
use crate::outside;
use crate::text;

verus! {

/// The kind of system that the message is for.
#[derive(Clone, Copy, Debug, PartialEq, Eq, Structural)]
pub enum Platform {
    /// Windows, where a variable that is set in a shell is lost with it.
    Windows,
    /// Any other system.
    Other,
}

/// What a user on `platform` is told about lasting environment variables.
pub open spec fn persistence_note(platform: Platform, env_vars: Seq<&str>) -> Seq<char> {
    match platform {
        Platform::Other => Seq::empty(),
        Platform::Windows => if env_vars.len() == 0 {
            " (on Windows, environment variables set in PowerShell only persist for the current session; use `setx` to make them permanent, then open a new terminal, or place a `.env` file in the current working directory)"@
        } else {
            " (on Windows, environment variables set in PowerShell only persist for the current session; use `setx "@
                + env_vars[0]@
                + " <value>` to make it permanent, then open a new terminal, or place a `.env` file containing `"@
                + env_vars[0]@ + "=<value>` in the current working directory)"@
        },
    }
}

/// A status code with its phrase.
pub open spec fn status_shown(code: u16) -> Seq<char> {
    text::decimal(code as nat) + " "@ + outside::status_phrase(code)
}

/// The part of a message that names the request, where it has an identifier.
pub open spec fn trace_shown(request_id: Option<String>) -> Seq<char> {
    match request_id {
        Some(id) => " [trace "@ + id@ + "]"@,
        None => Seq::empty(),
    }
}

/// The hint, on a line of its own.
pub open spec fn hint_shown(hint: Option<String>) -> Seq<char> {
    match hint {
        Some(hint) => "\n"@ + hint@,
        None => Seq::empty(),
    }
}

/// The message of an answer of the provider whose status is shown as `status`.
/// It tells the message of the provider where the answer has both a type and a
/// message, and the whole body otherwise.
pub open spec fn answer_shown(
    status: Seq<char>,
    error_type: Option<String>,
    message: Option<String>,
    request_id: Option<String>,
    body: Seq<char>,
) -> Seq<char> {
    match (error_type, message) {
        (Some(error_type), Some(message)) => "api returned "@ + status + " ("@ + error_type@ + ")"@
            + trace_shown(request_id) + ": "@ + message@,
        _ => "api returned "@ + status + trace_shown(request_id) + ": "@ + body,
    }
}

/// The message of an overflow of the backoff delay, where `base_delay` is how
/// the base delay is shown.
pub open spec fn overflow_shown(attempt: u32, base_delay: Seq<char>) -> Seq<char> {
    "retry backoff overflowed on attempt "@ + text::decimal(attempt as nat) + " with base delay "@
        + base_delay
}

impl ApiError {
    /// The root cause is an error of another library, whose text only that
    /// library can give.
    pub open spec fn has_source(self) -> bool {
        self.root_cause() is Io || self.root_cause() is Json
    }

    /// `shown` is a text that the source of the error shows, or nothing where
    /// there is no source.
    pub open spec fn source_shows(self, shown: String) -> bool {
        match self.root_cause() {
            ApiError::Io(error) => vstd::string::to_string_from_display_ensures(&error, shown),
            ApiError::Json { source, .. } => vstd::string::to_string_from_display_ensures(
                &source,
                shown,
            ),
            _ => shown@ == Seq::<char>::empty(),
        }
    }

    /// The text of the source, where the error alone fixes it.
    pub open spec fn fixed_source_text(self) -> Option<Seq<char>> {
        match self.root_cause() {
            ApiError::Io(_) => None,
            ApiError::Json { source, .. } => if outside::json_is_io(source) {
                None
            } else {
                Some(outside::json_error_shown(source))
            },
            _ => Some(Seq::empty()),
        }
    }

    /// The message of the error on `platform`, where its source, if it has one,
    /// shows the text `shown`.
    pub open spec fn message_on(self, platform: Platform, shown: Seq<char>) -> Seq<char>
        decreases self,
    {
        match self {
            ApiError::MissingCredentials { provider, env_vars, hint } => "missing "@ + provider@
                + " credentials; export "@ + text::joined(env_vars@, " or "@)
                + " before calling the "@ + provider@ + " API"@ + persistence_note(
                platform,
                env_vars@,
            ) + hint_shown(hint),
            ApiError::ContextWindowExceeded {
                model,
                estimated_input_tokens,
                requested_output_tokens,
                estimated_total_tokens,
                context_window_tokens,
            } => "context_window_blocked for "@ + model@ + ": estimated input "@ + text::decimal(
                estimated_input_tokens as nat,
            ) + " + requested output "@ + text::decimal(requested_output_tokens as nat) + " = "@
                + text::decimal(estimated_total_tokens as nat) + " tokens exceeds the "@
                + text::decimal(context_window_tokens as nat)
                + "-token context window; compact the session or reduce request size before retrying"@,
            ApiError::ExpiredOAuthToken =>
                "saved OAuth token is expired and no refresh token is available"@,
            ApiError::Auth(message) => "auth error: "@ + message@,
            ApiError::InvalidApiKeyEnv(error) =>
                "failed to read credential environment variable: "@ + error.message@,
            ApiError::Http(error) => "http error: "@ + error.message@,
            ApiError::Io(_) => "io error: "@ + shown,
            ApiError::Json { provider, model, body_snippet, .. } => "failed to parse "@ + provider@
                + " response for model "@ + model@ + ": "@ + shown
                + "; first 200 chars of body: "@ + body_snippet@,
            ApiError::Api { status, error_type, message, request_id, body, .. } => answer_shown(
                status_shown(status@),
                error_type,
                message,
                request_id,
                body@,
            ),
            ApiError::RetriesExhausted { attempts, last_error } => "api failed after "@
                + text::decimal(attempts as nat) + " attempts: "@ + last_error.message_on(platform, shown),
            ApiError::InvalidSseFrame(message) => "invalid sse frame: "@ + message@,
            ApiError::BackoffOverflow { attempt, base_delay } => overflow_shown(
                attempt,
                outside::duration_debug(base_delay),
            ),
            ApiError::RequestBodySizeExceeded { estimated_bytes, max_bytes, provider } =>
                "request body size ("@ + text::decimal(estimated_bytes as nat)
                + " bytes) exceeds "@ + provider@ + " limit ("@ + text::decimal(max_bytes as nat)
                + " bytes); reduce prompt length or context before retrying"@,
        }
    }

    /// Whether the error alone fixes its message, so that it always has one. It
    /// does so but for an I/O error and for what wraps one.
    #[must_use]
    pub fn has_fixed_message(&self) -> (answer: bool)
        ensures
            answer == self.fixed_source_text() is Some,
        decreases self,
    {
        match self {
            ApiError::Io(_) => false,
            ApiError::Json { source, .. } => !source.is_io(),
            ApiError::RetriesExhausted { last_error, .. } => last_error.has_fixed_message(),
            _ => true,
        }
    }

    /// The text that the source of the error shows, which is empty where there
    /// is no source, or `None` where the source cannot be formatted.
    fn source_text(&self) -> (shown: Option<String>)
        ensures
            shown matches Some(s) ==> self.source_shows(s),
            self.fixed_source_text() matches Some(text) ==> shown is Some && shown->0@ == text,
        decreases self,
    {
        match self {
            ApiError::Io(error) => outside::io_error_text(error),
            ApiError::Json { source, .. } => outside::json_error_text(source),
            ApiError::RetriesExhausted { last_error, .. } => last_error.source_text(),
            _ => Some(String::new()),
        }
    }

    /// The message of the error for a user on `platform`, or `None` where the
    /// source of the error cannot be formatted.
    ///
    /// An error without a source always has its message. So has an unreadable
    /// body, unless an I/O error kept it from being read.
    #[must_use]
    pub fn render(&self, platform: Platform) -> (message: Option<String>)
        ensures
            message matches Some(m) ==> exists|shown: String|
                #[trigger] self.source_shows(shown) && m@ == self.message_on(platform, shown@),
            self.fixed_source_text() matches Some(text) ==> message is Some && message->0@
                == self.message_on(platform, text),
            !self.has_source() ==> message is Some && message->0@ == self.message_on(
                platform,
                Seq::empty(),
            ),
    {
        match self.source_text() {
            Some(shown) => Some(self.render_with_source(platform, &shown)),
            None => None,
        }
    }

    /// The message of the error for a user on `platform`, where its source, if
    /// it has one, shows the text `shown`.
    #[must_use]
    pub fn render_with_source(&self, platform: Platform, shown: &str) -> (message: String)
        ensures
            message@ == self.message_on(platform, shown@),
        decreases self,
    {
        match self {
            ApiError::MissingCredentials { provider, env_vars, hint } => {
                let mut out = String::from("missing ");
                out.append(provider);
                out.append(" credentials; export ");
                text::append_joined(&mut out, env_vars, " or ");
                out.append(" before calling the ");
                out.append(provider);
                out.append(" API");
                append_persistence_note(&mut out, platform, env_vars);
                append_hint(&mut out, hint);
                out
            },
            ApiError::ContextWindowExceeded {
                model,
                estimated_input_tokens,
                requested_output_tokens,
                estimated_total_tokens,
                context_window_tokens,
            } => {
                let mut out = String::from("context_window_blocked for ");
                out.append(model);
                out.append(": estimated input ");
                text::append_decimal(&mut out, *estimated_input_tokens as u64);
                out.append(" + requested output ");
                text::append_decimal(&mut out, *requested_output_tokens as u64);
                out.append(" = ");
                text::append_decimal(&mut out, *estimated_total_tokens as u64);
                out.append(" tokens exceeds the ");
                text::append_decimal(&mut out, *context_window_tokens as u64);
                out.append(
                    "-token context window; compact the session or reduce request size before retrying",
                );
                out
            },
            ApiError::ExpiredOAuthToken => String::from(
                "saved OAuth token is expired and no refresh token is available",
            ),
            ApiError::Auth(message) => labelled("auth error: ", message),
            ApiError::InvalidApiKeyEnv(error) => labelled(
                "failed to read credential environment variable: ",
                &error.message,
            ),
            ApiError::Http(error) => labelled("http error: ", &error.message),
            ApiError::Io(_) => labelled("io error: ", shown),
            ApiError::Json { provider, model, body_snippet, .. } => {
                let mut out = String::from("failed to parse ");
                out.append(provider);
                out.append(" response for model ");
                out.append(model);
                out.append(": ");
                out.append(shown);
                out.append("; first 200 chars of body: ");
                out.append(body_snippet);
                out
            },
            ApiError::Api { status, error_type, message, request_id, body, .. } => answer_message(
                &outside::status_text(status.as_u16()),
                error_type,
                message,
                request_id,
                body,
            ),
            ApiError::RetriesExhausted { attempts, last_error } => {
                let mut out = String::from("api failed after ");
                text::append_decimal(&mut out, *attempts as u64);
                out.append(" attempts: ");
                out.append(&last_error.render_with_source(platform, shown));
                out
            },
            ApiError::InvalidSseFrame(message) => labelled("invalid sse frame: ", message),
            ApiError::BackoffOverflow { attempt, base_delay } => overflow_message(
                *attempt,
                &outside::duration_text(base_delay),
            ),
            ApiError::RequestBodySizeExceeded { estimated_bytes, max_bytes, provider } => {
                let mut out = String::from("request body size (");
                text::append_decimal(&mut out, *estimated_bytes as u64);
                out.append(" bytes) exceeds ");
                out.append(provider);
                out.append(" limit (");
                text::append_decimal(&mut out, *max_bytes as u64);
                out.append(" bytes); reduce prompt length or context before retrying");
                out
            },
        }
    }
}

/// The message of an answer of the provider whose status is shown as `status`.
#[must_use]
pub fn answer_message(
    status: &str,
    error_type: &Option<String>,
    message: &Option<String>,
    request_id: &Option<String>,
    body: &str,
) -> (out: String)
    ensures
        out@ == answer_shown(status@, *error_type, *message, *request_id, body@),
{
    let mut out = String::from("api returned ");
    out.append(status);
    match (error_type, message) {
        (Some(error_type), Some(message)) => {
            out.append(" (");
            out.append(error_type);
            out.append(")");
            append_trace(&mut out, request_id);
            out.append(": ");
            out.append(message);
        },
        _ => {
            append_trace(&mut out, request_id);
            out.append(": ");
            out.append(body);
        },
    }
    out
}

/// The message of an overflow of the backoff delay, where `base_delay` is how
/// the base delay is shown.
#[must_use]
pub fn overflow_message(attempt: u32, base_delay: &str) -> (out: String)
    ensures
        out@ == overflow_shown(attempt, base_delay@),
{
    let mut out = String::from("retry backoff overflowed on attempt ");
    text::append_decimal(&mut out, attempt as u64);
    out.append(" with base delay ");
    out.append(base_delay);
    out
}

/// `label`, then `message`.
fn labelled(label: &str, message: &str) -> (out: String)
    ensures
        out@ == label@ + message@,
{
    let mut out = String::from(label);
    out.append(message);
    out
}

/// Writes the note on lasting environment variables at the end of `out`.
fn append_persistence_note(out: &mut String, platform: Platform, env_vars: &[&str])
    ensures
        final(out)@ == old(out)@ + persistence_note(platform, env_vars@),
{
    match platform {
        Platform::Other => {
            assert(old(out)@ + persistence_note(platform, env_vars@) == old(out)@);
        },
        Platform::Windows => if env_vars.len() == 0 {
            out.append(
                " (on Windows, environment variables set in PowerShell only persist for the current session; use `setx` to make them permanent, then open a new terminal, or place a `.env` file in the current working directory)",
            );
        } else {
            out.append(
                " (on Windows, environment variables set in PowerShell only persist for the current session; use `setx ",
            );
            out.append(env_vars[0]);
            out.append(
                " <value>` to make it permanent, then open a new terminal, or place a `.env` file containing `",
            );
            out.append(env_vars[0]);
            out.append("=<value>` in the current working directory)");
            assert(out@ == old(out)@ + persistence_note(platform, env_vars@));
        },
    }
}

/// Writes the hint, where there is one, at the end of `out`.
fn append_hint(out: &mut String, hint: &Option<String>)
    ensures
        final(out)@ == old(out)@ + hint_shown(*hint),
{
    match hint {
        Some(hint) => {
            out.append("\n");
            out.append(hint);
            assert(out@ == old(out)@ + ("\n"@ + hint@));
        },
        None => {
            assert(old(out)@ + hint_shown(*hint) == old(out)@);
        },
    }
}

/// Writes the name of the request, where it has one, at the end of `out`.
fn append_trace(out: &mut String, request_id: &Option<String>)
    ensures
        final(out)@ == old(out)@ + trace_shown(*request_id),
{
    match request_id {
        Some(id) => {
            out.append(" [trace ");
            out.append(id);
            out.append("]");
            assert(out@ == old(out)@ + (" [trace "@ + id@ + "]"@));
        },
        None => {
            assert(old(out)@ + trace_shown(*request_id) == old(out)@);
        },
    }
}

} // verus!
