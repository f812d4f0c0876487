use std::error::Error;
use std::fmt::{Display, Formatter};
use std::future;
use std::sync::Arc;
use std::time::Duration;

use api_error::{ApiError, EnvVarError, HttpError, HttpStatus, Platform};
use reqwest::dns::{Name, Resolve, Resolving};

/// Knows no host.
struct NoHosts;

impl Resolve for NoHosts {
    fn resolve(&self, _name: Name) -> Resolving {
        Box::pin(future::ready(Err("no such host".into())))
    }
}

/// Never answers.
struct Silence;

impl Resolve for Silence {
    fn resolve(&self, _name: Name) -> Resolving {
        Box::pin(future::pending())
    }
}

fn unreachable_host() -> reqwest::Error {
    reqwest::blocking::Client::builder()
        .no_proxy()
        .dns_resolver(Arc::new(NoHosts))
        .build()
        .expect("a client")
        .get("http://provider.test/v1")
        .send()
        .expect_err("the host cannot be resolved")
}

fn silent_host() -> reqwest::Error {
    reqwest::blocking::Client::builder()
        .no_proxy()
        .dns_resolver(Arc::new(Silence))
        .timeout(Duration::from_millis(100))
        .build()
        .expect("a client")
        .get("http://provider.test/v1")
        .send()
        .expect_err("the host never answers")
}

fn malformed_url() -> reqwest::Error {
    reqwest::blocking::Client::new()
        .get("not a url")
        .build()
        .expect_err("the url is malformed")
}

#[test]
fn a_failed_connection_is_retryable() {
    let error = HttpError::from(unreachable_host());
    assert!(error.connect);
    assert!(!error.timeout);
    assert!(error.request);
    assert_eq!(error.message, "error sending request for url (http://provider.test/v1)");

    let error = ApiError::from(unreachable_host());
    assert!(error.is_retryable());
    assert_eq!(error.safe_failure_class(), "provider_transport");
    assert_eq!(
        error.render(Platform::Other).expect("a message"),
        "http error: error sending request for url (http://provider.test/v1)"
    );
}

#[test]
fn an_expired_time_limit_is_retryable() {
    let error = HttpError::from(silent_host());
    assert!(error.timeout);
    assert!(!error.connect);
    assert!(ApiError::from(silent_host()).is_retryable());
}

#[test]
fn a_malformed_url_is_not_retryable() {
    let error = HttpError::from(malformed_url());
    assert!(!error.connect);
    assert!(!error.timeout);
    assert!(!error.request);
    assert_eq!(error.message, "builder error");

    let error = ApiError::from(malformed_url());
    assert!(!error.is_retryable());
    assert_eq!(error.request_id(), None);
    assert_eq!(error.retry_after(), None);
    assert_eq!(error.render(Platform::Other).expect("a message"), "http error: builder error");
}

#[test]
fn each_sign_of_a_transient_failure_is_enough() {
    for (connect, timeout, request) in
        [(true, false, false), (false, true, false), (false, false, true)]
    {
        let error = ApiError::Http(HttpError {
            connect,
            timeout,
            request,
            message: String::from("lost"),
        });
        assert!(error.is_retryable());
    }
    let error = ApiError::Http(HttpError {
        connect: false,
        timeout: false,
        request: false,
        message: String::from("lost"),
    });
    assert!(!error.is_retryable());
}

#[test]
fn io_errors_show_their_text() {
    let error = ApiError::from(std::io::Error::other("disk full"));
    assert!(matches!(error, ApiError::Io(_)));
    assert_eq!(error.safe_failure_class(), "runtime_io");
    assert!(!error.is_retryable());
    assert_eq!(error.render(Platform::Other).expect("a message"), "io error: disk full");
}

#[test]
fn bare_json_errors_have_unknown_origin() {
    let source = serde_json::from_str::<serde_json::Value>("{not json").expect_err("invalid");
    let shown = source.to_string();
    let error = ApiError::from(source);
    assert_eq!(
        error.render(Platform::Other).expect("a message"),
        format!("failed to parse unknown response for model unknown: {shown}; first 200 chars of body: ")
    );
    assert_eq!(error.safe_failure_class(), "runtime_io");
}

#[test]
fn json_errors_show_position_and_body() {
    let source = serde_json::from_str::<serde_json::Value>("{not json").expect_err("invalid");
    let error = ApiError::json_deserialize(String::from("OpenAI"), "m", "{not json", source);
    assert_eq!(
        error.render(Platform::Other).expect("a message"),
        "failed to parse OpenAI response for model m: key must be a string at line 1 column 2; first 200 chars of body: {not json"
    );
}

#[test]
fn messages_take_the_text_of_the_source() {
    let source = serde_json::from_str::<serde_json::Value>("{not json").expect_err("invalid");
    let error = ApiError::RetriesExhausted {
        attempts: 2,
        last_error: Box::new(ApiError::json_deserialize("P", "M", &"b".repeat(201), source)),
    };
    assert_eq!(
        error.render_with_source(Platform::Other, "oops"),
        format!(
            "api failed after 2 attempts: failed to parse P response for model M: oops; first 200 chars of body: {}…",
            "b".repeat(200)
        )
    );
    assert!(error.has_fixed_message());
    assert_eq!(
        error.render(Platform::Other).expect("a message"),
        error.render_with_source(Platform::Other, "key must be a string at line 1 column 2")
    );
    let error = ApiError::from(std::io::Error::other("disk full"));
    assert_eq!(error.render_with_source(Platform::Other, "oops"), "io error: oops");
    let error = ApiError::Auth(String::from("no"));
    assert!(error.has_fixed_message());
    assert_eq!(error.render_with_source(Platform::Other, "oops"), "auth error: no");
}

/// Cannot be shown.
#[derive(Debug)]
struct Unshowable;

impl Display for Unshowable {
    fn fmt(&self, _f: &mut Formatter<'_>) -> std::fmt::Result {
        Err(std::fmt::Error)
    }
}

impl Error for Unshowable {}

/// Fails with the given error when it is read.
struct Broken(Option<std::io::Error>);

impl std::io::Read for Broken {
    fn read(&mut self, _buf: &mut [u8]) -> std::io::Result<usize> {
        Err(self.0.take().expect("read once"))
    }
}

fn unread_json(error: std::io::Error) -> serde_json::Error {
    serde_json::from_reader::<Broken, serde_json::Value>(Broken(Some(error)))
        .expect_err("nothing can be read")
}

#[test]
fn sources_are_formatted_only_when_they_are_shown() {
    let error = ApiError::from(std::io::Error::other(Unshowable));
    assert_eq!(error.safe_failure_class(), "runtime_io");
    assert!(!error.has_fixed_message());
    assert!(error.render(Platform::Other).is_none());

    let source = unread_json(std::io::Error::other(Unshowable));
    let error = ApiError::RetriesExhausted {
        attempts: 1,
        last_error: Box::new(ApiError::json_deserialize("P", "M", "body", source)),
    };
    assert_eq!(error.safe_failure_class(), "runtime_io");
    assert!(!error.has_fixed_message());
    assert!(error.render(Platform::Other).is_none());

    let source = unread_json(std::io::Error::other("disk full"));
    assert_eq!(
        ApiError::json_deserialize("P", "M", "body", source)
            .render(Platform::Other)
            .expect("a message"),
        "failed to parse P response for model M: disk full; first 200 chars of body: body"
    );
}

#[test]
fn unreadable_variables_show_their_text() {
    let error = ApiError::from(EnvVarError {
        message: String::from("environment variable not found"),
    });
    assert_eq!(
        error.render(Platform::Other).expect("a message"),
        "failed to read credential environment variable: environment variable not found"
    );
    assert_eq!(error.safe_failure_class(), "runtime_io");
    assert!(!error.is_retryable());
}

#[test]
fn status_codes_have_three_digits() {
    assert!(HttpStatus::from_u16(0).is_none());
    assert!(HttpStatus::from_u16(99).is_none());
    assert_eq!(HttpStatus::from_u16(100).map(|s| s.as_u16()), Some(100));
    assert_eq!(HttpStatus::from_u16(999).map(|s| s.as_u16()), Some(999));
    assert!(HttpStatus::from_u16(1000).is_none());
    for code in 0..1200 {
        assert_eq!(
            HttpStatus::from_u16(code).is_some(),
            reqwest::StatusCode::from_u16(code).is_ok()
        );
    }
}

#[test]
fn status_codes_convert() {
    assert_eq!(HttpStatus::from(reqwest::StatusCode::NOT_FOUND).as_u16(), 404);
    assert_eq!(
        HttpStatus::from(reqwest::StatusCode::TOO_MANY_REQUESTS),
        HttpStatus::from_u16(429).unwrap()
    );
}
