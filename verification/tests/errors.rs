use api_error::{truncate_body_snippet, ApiError, HttpStatus, Platform};

#[test]
fn json_deserialize_error_includes_provider_model_and_truncated_body_snippet() {
    let raw_body = format!("{}{}", "x".repeat(190), "_TAIL_PAST_200_CHARS_MARKER_");
    let source = serde_json::from_str::<serde_json::Value>("{not json")
        .expect_err("invalid json should fail to parse");

    let error = ApiError::json_deserialize("Anthropic", "opus-4-6", &raw_body, source);
    let rendered = error.render(Platform::Other).expect("a message");

    assert!(
        rendered.starts_with("failed to parse Anthropic response for model opus-4-6: "),
        "rendered error should lead with provider and model: {rendered}"
    );
    assert!(
        rendered.contains("first 200 chars of body: "),
        "rendered error should label the body snippet: {rendered}"
    );
    let snippet = rendered
        .split("first 200 chars of body: ")
        .nth(1)
        .expect("snippet section should be present");
    assert!(
        snippet.starts_with(&"x".repeat(190)),
        "snippet should preserve the leading characters of the body: {snippet}"
    );
    assert!(
        snippet.ends_with('…'),
        "snippet should signal truncation with an ellipsis: {snippet}"
    );
    assert!(
        !snippet.contains("_TAIL_PAST_200_CHARS_MARKER_"),
        "snippet should drop characters past the 200-char cap: {snippet}"
    );
    assert_eq!(error.safe_failure_class(), "runtime_io");
    assert_eq!(error.request_id(), None);
    assert!(!error.is_retryable());
}

#[test]
fn truncate_body_snippet_keeps_short_bodies_intact() {
    assert_eq!(truncate_body_snippet("hello", 200), "hello");
    assert_eq!(truncate_body_snippet("", 200), "");
}

#[test]
fn truncate_body_snippet_caps_long_bodies_at_max_chars() {
    let body = "a".repeat(250);
    let snippet = truncate_body_snippet(&body, 200);
    assert_eq!(snippet.chars().count(), 201, "200 chars + ellipsis");
    assert!(snippet.ends_with('…'));
    assert!(snippet.starts_with(&"a".repeat(200)));
}

#[test]
fn truncate_body_snippet_does_not_split_multibyte_characters() {
    let body = "한글한글한글한글한글한글";
    let snippet = truncate_body_snippet(body, 4);
    assert_eq!(snippet, "한글한글…");
}

#[test]
fn detects_generic_fatal_wrapper_and_classifies_it_as_provider_internal() {
    let error = ApiError::Api {
        status: HttpStatus::from(reqwest::StatusCode::INTERNAL_SERVER_ERROR),
        error_type: Some("api_error".to_string()),
        message: Some(
            "Something went wrong while processing your request. Please try again, or use /new to start a fresh session."
                .to_string(),
        ),
        request_id: Some("req_jobdori_123".to_string()),
        body: String::new(),
        retryable: true,
        suggested_action: None,
        retry_after: None,
    };

    assert!(error.is_generic_fatal_wrapper());
    assert_eq!(error.safe_failure_class(), "provider_internal");
    assert_eq!(error.request_id(), Some("req_jobdori_123"));
    assert!(error.render(Platform::Other).expect("a message").contains("[trace req_jobdori_123]"));
}

#[test]
fn retries_exhausted_preserves_nested_request_id_and_failure_class() {
    let error = ApiError::RetriesExhausted {
        attempts: 3,
        last_error: Box::new(ApiError::Api {
            status: HttpStatus::from(reqwest::StatusCode::BAD_GATEWAY),
            error_type: Some("api_error".to_string()),
            message: Some(
                "Something went wrong while processing your request. Please try again, or use /new to start a fresh session."
                    .to_string(),
            ),
            request_id: Some("req_nested_456".to_string()),
            body: String::new(),
            retryable: true,
            suggested_action: None,
            retry_after: None,
        }),
    };

    assert!(error.is_generic_fatal_wrapper());
    assert_eq!(error.safe_failure_class(), "provider_retry_exhausted");
    assert_eq!(error.request_id(), Some("req_nested_456"));
}

#[test]
fn classifies_provider_context_window_errors() {
    let error = ApiError::Api {
        status: HttpStatus::from(reqwest::StatusCode::BAD_REQUEST),
        error_type: Some("invalid_request_error".to_string()),
        message: Some(
            "This model's maximum context length is 200000 tokens, but your request used 230000 tokens."
                .to_string(),
        ),
        request_id: Some("req_ctx_123".to_string()),
        body: String::new(),
        retryable: false,
        suggested_action: None,
        retry_after: None,
    };

    assert!(error.is_context_window_failure());
    assert_eq!(error.safe_failure_class(), "context_window");
    assert_eq!(error.request_id(), Some("req_ctx_123"));
}

#[test]
fn classifies_openai_configured_limit_errors_as_context_window_failures() {
    let error = ApiError::Api {
        status: HttpStatus::from(reqwest::StatusCode::BAD_REQUEST),
        error_type: Some("invalid_request_error".to_string()),
        message: Some(
            "Input tokens exceed the configured limit of 922000 tokens. Your messages resulted in 1860900 tokens. Please reduce the length of the messages."
                .to_string(),
        ),
        request_id: Some("req_ctx_openai_123".to_string()),
        body: String::new(),
        retryable: false,
        suggested_action: None,
        retry_after: None,
    };

    assert!(error.is_context_window_failure());
    assert_eq!(error.safe_failure_class(), "context_window");
    assert_eq!(error.request_id(), Some("req_ctx_openai_123"));
}

#[test]
fn missing_credentials_without_hint_renders_the_canonical_message() {
    // given
    let error = ApiError::missing_credentials(
        "Anthropic",
        &["ANTHROPIC_AUTH_TOKEN", "ANTHROPIC_API_KEY"],
    );

    // when
    let rendered = error.render(Platform::Other).expect("a message");

    // then
    assert!(
        rendered.starts_with(
            "missing Anthropic credentials; export ANTHROPIC_AUTH_TOKEN or ANTHROPIC_API_KEY before calling the Anthropic API"
        ),
        "rendered error should lead with the canonical missing-credential message: {rendered}"
    );
    assert!(
        !rendered.contains(" — hint: "),
        "no hint should be appended when none is supplied: {rendered}"
    );
}

#[test]
fn missing_credentials_with_hint_appends_the_hint_after_base_message() {
    // given
    let error = ApiError::missing_credentials_with_hint(
        "Anthropic",
        &["ANTHROPIC_AUTH_TOKEN", "ANTHROPIC_API_KEY"],
        "I see OPENAI_API_KEY is set — if you meant to use the OpenAI-compat provider, prefix your model name with `openai/` so prefix routing selects it.",
    );

    // when
    let rendered = error.render(Platform::Other).expect("a message");

    // then
    assert!(
        rendered.starts_with("missing Anthropic credentials;"),
        "hint should be appended, not replace the base message: {rendered}"
    );
    // The hint is on a line of its own, so that it can be split off.
    let hint_text = "I see OPENAI_API_KEY is set — if you meant to use the OpenAI-compat provider, prefix your model name with `openai/` so prefix routing selects it.";
    assert!(
        rendered.ends_with(hint_text),
        "rendered error should end with the hint: {rendered}"
    );
    assert!(
        rendered.contains('\n'),
        "rendered error must contain newline separator so that the hint can be split off: {rendered}"
    );
    // Classification semantics are unaffected by the presence of a hint.
    assert_eq!(error.safe_failure_class(), "provider_auth");
    assert!(!error.is_retryable());
    assert_eq!(error.request_id(), None);
}
