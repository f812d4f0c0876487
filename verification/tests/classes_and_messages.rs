use std::time::Duration;

use api_error::render::{answer_message, overflow_message};
use api_error::{
    looks_like_context_window_error, looks_like_generic_fatal_wrapper, truncate_body_snippet,
    ApiError, HttpStatus, Platform,
};

fn answer(code: u16, message: &str, body: &str) -> ApiError {
    ApiError::Api {
        status: HttpStatus::from_u16(code).unwrap(),
        error_type: Some(String::from("api_error")),
        message: Some(String::from(message)),
        request_id: Some(String::from("req_1")),
        body: String::from(body),
        retryable: false,
        suggested_action: None,
        retry_after: None,
    }
}

fn exhausted(attempts: u32, last_error: ApiError) -> ApiError {
    ApiError::RetriesExhausted { attempts, last_error: Box::new(last_error) }
}

const WRAPPED: &str = "SOMETHING WENT WRONG while processing your request";
const TOO_LONG: &str = "Prompt is too long";

#[test]
fn answers_are_classified_by_status_and_text() {
    assert_eq!(answer(401, "no", "").safe_failure_class(), "provider_auth");
    assert_eq!(answer(403, WRAPPED, "").safe_failure_class(), "provider_auth");
    assert_eq!(answer(429, "slow down", "").safe_failure_class(), "provider_rate_limit");
    assert_eq!(answer(429, WRAPPED, "").safe_failure_class(), "provider_rate_limit");
    assert_eq!(answer(500, "oops", WRAPPED).safe_failure_class(), "provider_internal");
    assert_eq!(answer(500, "oops", "").safe_failure_class(), "provider_error");
    assert_eq!(answer(500, TOO_LONG, "").safe_failure_class(), "provider_error");
    assert_eq!(answer(400, TOO_LONG, "").safe_failure_class(), "context_window");
    assert_eq!(answer(413, "no", TOO_LONG).safe_failure_class(), "context_window");
    assert_eq!(answer(422, TOO_LONG, WRAPPED).safe_failure_class(), "context_window");
    assert_eq!(answer(401, TOO_LONG, "").safe_failure_class(), "provider_auth");
}

#[test]
fn other_errors_are_classified_by_kind() {
    assert_eq!(ApiError::ExpiredOAuthToken.safe_failure_class(), "provider_auth");
    assert_eq!(ApiError::Auth(String::from("no")).safe_failure_class(), "provider_auth");
    assert_eq!(ApiError::InvalidSseFrame("no data").safe_failure_class(), "provider_transport");
    let overflow = ApiError::BackoffOverflow { attempt: 9, base_delay: Duration::from_secs(1) };
    assert_eq!(overflow.safe_failure_class(), "provider_transport");
    let too_large = ApiError::RequestBodySizeExceeded {
        estimated_bytes: 2,
        max_bytes: 1,
        provider: "P",
    };
    assert_eq!(too_large.safe_failure_class(), "request_size");
    assert!(!too_large.is_retryable());
}

#[test]
fn retries_say_what_the_last_error_says() {
    let delayed = ApiError::Api {
        status: HttpStatus::from_u16(429).unwrap(),
        error_type: None,
        message: None,
        request_id: Some(String::from("req_2")),
        body: String::from("slow down"),
        retryable: true,
        suggested_action: Some(String::from("wait")),
        retry_after: Some(Duration::from_secs(7)),
    };
    assert_eq!(delayed.retry_after(), Some(Duration::from_secs(7)));
    let report = exhausted(2, exhausted(5, delayed));
    assert_eq!(report.retry_after(), Some(Duration::from_secs(7)));
    assert_eq!(report.request_id(), Some("req_2"));
    assert!(report.is_retryable());
    assert!(!report.is_generic_fatal_wrapper());
    assert!(!report.is_context_window_failure());
    assert_eq!(report.safe_failure_class(), "provider_rate_limit");
    assert_eq!(
        report.render(Platform::Other).expect("a message"),
        "api failed after 2 attempts: api failed after 5 attempts: api returned 429 Too Many Requests [trace req_2]: slow down"
    );
}

#[test]
fn retries_classify_wrapped_and_overflowing_causes() {
    assert_eq!(
        exhausted(3, answer(401, WRAPPED, "")).safe_failure_class(),
        "provider_retry_exhausted"
    );
    assert_eq!(
        exhausted(3, exhausted(3, answer(500, WRAPPED, ""))).safe_failure_class(),
        "provider_retry_exhausted"
    );
    let overflowing = exhausted(3, answer(400, TOO_LONG, WRAPPED));
    assert_eq!(overflowing.safe_failure_class(), "context_window");
    assert!(overflowing.is_context_window_failure());
    assert!(overflowing.is_generic_fatal_wrapper());
    assert_eq!(exhausted(3, answer(500, "oops", "")).safe_failure_class(), "provider_error");
}

#[test]
fn every_marker_is_found_in_any_case() {
    for marker in [
        "maximum context length",
        "context window",
        "context length",
        "too many tokens",
        "prompt is too long",
        "input is too long",
        "input tokens exceed",
        "configured limit",
        "messages resulted in",
        "completion tokens",
        "prompt tokens",
        "request is too large",
        "no parseable body",
    ] {
        assert!(looks_like_context_window_error(marker));
        assert!(looks_like_context_window_error(&format!("é {} é", marker.to_uppercase())));
        assert!(!looks_like_context_window_error(&marker[1..marker.len() - 1]));
        assert!(!looks_like_generic_fatal_wrapper(marker));
    }
    for marker in [
        "something went wrong while processing your request",
        "please try again, or use /new to start a fresh session",
    ] {
        assert!(looks_like_generic_fatal_wrapper(marker));
        assert!(looks_like_generic_fatal_wrapper(&format!("-{}-", marker.to_uppercase())));
        assert!(!looks_like_generic_fatal_wrapper(&marker[1..]));
        assert!(!looks_like_context_window_error(marker));
    }
    assert!(!looks_like_context_window_error(""));
    assert!(!looks_like_generic_fatal_wrapper(""));
}

#[test]
fn only_ascii_case_is_ignored() {
    // The Kelvin sign is a K in lower case only outside ASCII.
    assert!(!looks_like_context_window_error("too many to\u{212A}ens"));
    assert!(looks_like_context_window_error("TOO MANY TOKENS"));
}

#[test]
fn snippets_keep_the_start() {
    assert_eq!(truncate_body_snippet("hello", 5), "hello");
    assert_eq!(truncate_body_snippet("hello", 4), "hell…");
    assert_eq!(truncate_body_snippet("hello", 0), "…");
    assert_eq!(truncate_body_snippet("", 0), "");
    let once = truncate_body_snippet("hello world", 4);
    assert_eq!(truncate_body_snippet(&once, 4), once);
    assert_eq!(truncate_body_snippet(&once, 2), truncate_body_snippet("hello world", 2));
}

#[test]
fn answers_without_type_or_message_show_the_body() {
    let status = HttpStatus::from_u16(500).unwrap();
    let bare = ApiError::Api {
        status,
        error_type: None,
        message: Some(String::from("m")),
        request_id: None,
        body: String::from("b"),
        retryable: false,
        suggested_action: None,
        retry_after: None,
    };
    assert_eq!(bare.render(Platform::Other).expect("a message"), "api returned 500 Internal Server Error: b");
    let unexplained = ApiError::Api {
        status: HttpStatus::from_u16(799).unwrap(),
        error_type: Some(String::from("t")),
        message: None,
        request_id: Some(String::from("r")),
        body: String::from("b"),
        retryable: false,
        suggested_action: None,
        retry_after: None,
    };
    assert_eq!(
        unexplained.render(Platform::Other).expect("a message"),
        "api returned 799 <unknown status code> [trace r]: b"
    );
    assert_eq!(
        answer(404, "gone", "b").render(Platform::Windows).expect("a message"),
        "api returned 404 Not Found (api_error) [trace req_1]: gone"
    );
    assert_eq!(
        answer_message("S", &Some(String::from("t")), &Some(String::from("m")), &None, "b"),
        "api returned S (t): m"
    );
}

#[test]
fn messages_with_numbers() {
    let error = ApiError::ContextWindowExceeded {
        model: String::from("m"),
        estimated_input_tokens: 190_000,
        requested_output_tokens: 0,
        estimated_total_tokens: 4_294_967_295,
        context_window_tokens: 10,
    };
    assert_eq!(
        error.render(Platform::Other).expect("a message"),
        "context_window_blocked for m: estimated input 190000 + requested output 0 = 4294967295 tokens exceeds the 10-token context window; compact the session or reduce request size before retrying"
    );
    assert!(error.is_context_window_failure());
    assert_eq!(error.safe_failure_class(), "context_window");
    assert!(!error.is_generic_fatal_wrapper());

    let error = ApiError::RequestBodySizeExceeded {
        estimated_bytes: usize::MAX,
        max_bytes: 105,
        provider: "P",
    };
    assert_eq!(
        error.render(Platform::Other).expect("a message"),
        format!(
            "request body size ({} bytes) exceeds P limit (105 bytes); reduce prompt length or context before retrying",
            usize::MAX
        )
    );
}

#[test]
fn messages_with_delays() {
    for (delay, shown) in [
        (Duration::from_secs(3), "3s"),
        (Duration::from_millis(1500), "1.5s"),
        (Duration::from_micros(20), "20µs"),
        (Duration::ZERO, "0ns"),
    ] {
        let error = ApiError::BackoffOverflow { attempt: 12, base_delay: delay };
        let expected =
            format!("retry backoff overflowed on attempt 12 with base delay {shown}");
        assert_eq!(error.render(Platform::Other).expect("a message"), expected);
        assert_eq!(overflow_message(12, shown), expected);
    }
}

#[test]
fn plain_messages() {
    assert_eq!(
        ApiError::ExpiredOAuthToken.render(Platform::Other).expect("a message"),
        "saved OAuth token is expired and no refresh token is available"
    );
    assert_eq!(ApiError::Auth(String::from("no")).render(Platform::Other).expect("a message"), "auth error: no");
    assert_eq!(
        ApiError::InvalidSseFrame("no data").render(Platform::Other).expect("a message"),
        "invalid sse frame: no data"
    );
}

#[test]
fn windows_users_are_told_how_to_keep_a_variable() {
    let error = ApiError::missing_credentials("P", &["KEY", "TOKEN"]);
    assert_eq!(
        error.render(Platform::Other).expect("a message"),
        "missing P credentials; export KEY or TOKEN before calling the P API"
    );
    assert_eq!(
        error.render(Platform::Windows).expect("a message"),
        "missing P credentials; export KEY or TOKEN before calling the P API (on Windows, environment variables set in PowerShell only persist for the current session; use `setx KEY <value>` to make it permanent, then open a new terminal, or place a `.env` file containing `KEY=<value>` in the current working directory)"
    );
    let error = ApiError::missing_credentials("P", &[]);
    assert_eq!(
        error.render(Platform::Windows).expect("a message"),
        "missing P credentials; export  before calling the P API (on Windows, environment variables set in PowerShell only persist for the current session; use `setx` to make them permanent, then open a new terminal, or place a `.env` file in the current working directory)"
    );
}

#[test]
fn hints_stand_on_the_second_line() {
    for platform in [Platform::Other, Platform::Windows] {
        let plain = ApiError::missing_credentials("P", &["A", "B", "C"]);
        let hinted = ApiError::missing_credentials_with_hint(
            "P",
            &["A", "B", "C"],
            String::from("two\nlines"),
        );
        let message = hinted.render(platform).expect("a message");
        let (first, rest) = message.split_once('\n').expect("a line break");
        assert_eq!(first, plain.render(platform).expect("a message"));
        assert_eq!(rest, "two\nlines");
        assert_eq!(hinted.safe_failure_class(), plain.safe_failure_class());
    }
}
