use remtene_application::domain::{IntentDecision, ProcessingMode, RequestId, SessionId};
use remtene_application::ports::{
    port_error, LlmConnectionProbeError, LlmUpstreamError, RecordingHudState,
    SecretMaterialState, SecretStoreCapability, SecretValue, TextProcessingRequest,
    TextProcessingResult,
};
use remtene_application::text::{is_blank, joined, number};
use remtene_application::{LlmRouteCandidate, ResolvedLlmRoute};

#[test]
fn secret_value_debug_does_not_expose_plaintext() {
    let plaintext = "sensitive-test-secret";
    let debug_output = SecretValue::new(plaintext.to_owned()).debug_text();

    assert_eq!(debug_output, "SecretValue([REDACTED])");
    assert!(!debug_output.contains(plaintext));
}

#[test]
fn llm_content_debug_projections_are_redacted() {
    let request = TextProcessingRequest {
        session_id: SessionId::from_uuid(1),
        request_id: RequestId::from_uuid(2),
        processing_mode: ProcessingMode::Faithful,
        raw_transcript: "private transcript marker".to_owned(),
        selected_text: Some("private selection marker".to_owned()),
    };
    let result = TextProcessingResult {
        session_id: request.session_id,
        request_id: request.request_id,
        intent: IntentDecision::Dictation,
        final_text: "private final marker".to_owned(),
    };

    let request_debug = request.debug_text();
    let result_debug = result.debug_text();
    for forbidden in [
        "private transcript marker",
        "private selection marker",
        "private final marker",
    ] {
        assert!(!request_debug.contains(forbidden));
        assert!(!result_debug.contains(forbidden));
    }
    assert!(request_debug.contains("selected_text_present: true"));
}

#[test]
fn a_secret_gives_back_what_it_was_made_from() {
    let secret = SecretValue::new("sk-test".to_owned());

    assert_eq!(secret.expose(), "sk-test");
    assert!(SecretValue::new("other".to_owned()).expose() != secret.expose());
}

#[test]
fn routes_and_upstream_responses_are_redacted() {
    let candidate = LlmRouteCandidate::new("https://private.test".to_owned(), "m".to_owned());
    let route = ResolvedLlmRoute::new(
        "primary".to_owned(),
        "https://private.test".to_owned(),
        "m".to_owned(),
        "secret-id".to_owned(),
    );
    let upstream = LlmUpstreamError::new(401, "private body".to_owned(), true);

    assert!(!candidate.debug_text().contains("private"));
    assert!(!route.debug_text().contains("private"));
    assert!(!route.debug_text().contains("secret-id"));
    assert_eq!(
        upstream.debug_text(),
        "LlmUpstreamError { http_status: 401, response_body: \"[REDACTED]\", truncated: true }"
    );
    assert_eq!(route.endpoint(), "https://private.test");
    assert_eq!(route.provider_ref(), "primary");
    assert_eq!(route.model(), "m");
    assert_eq!(route.secret_id(), "secret-id");
    assert_eq!(upstream.http_status(), 401);
    assert_eq!(upstream.response_body(), "private body");
    assert!(upstream.truncated());
}

#[test]
fn a_probe_error_keeps_the_port_error() {
    let error = port_error("llm.timeout", true);
    let upstream = LlmUpstreamError::new(504, "late".to_owned(), false);

    assert_eq!(
        LlmConnectionProbeError::from_port(error.clone()).into_port_error(),
        error
    );
    assert_eq!(
        LlmConnectionProbeError::with_upstream(error.clone(), upstream).into_port_error(),
        error
    );
}

#[test]
fn a_port_error_is_told_by_its_code() {
    let error = port_error("settings.version_conflict", false);

    assert!(error.has_code("settings.version_conflict"));
    assert!(!error.has_code("settings.version"));
    assert!(!error.retryable);
}

#[test]
fn the_hud_offers_to_finish_only_a_running_recording() {
    assert!(RecordingHudState::Recording.can_finish());
    assert!(!RecordingHudState::Preparing.can_finish());
    assert!(RecordingHudState::Preparing.can_cancel());
    assert!(RecordingHudState::Recording.can_cancel());
    assert!(!RecordingHudState::Recognizing.can_cancel());
    assert!(!RecordingHudState::Completed.can_finish());
}

#[test]
fn a_missing_capability_of_a_secret_store_is_told_apart() {
    for (capability, code) in [
        (
            SecretStoreCapability::Inspection,
            "secret.store_inspection_unsupported",
        ),
        (
            SecretStoreCapability::NamespaceReplace,
            "secret.namespace_replace_unsupported",
        ),
        (
            SecretStoreCapability::NamespaceDelete,
            "secret.namespace_delete_unsupported",
        ),
        (SecretStoreCapability::Reset, "secret.reset_unsupported"),
    ] {
        let error = capability.unsupported();
        assert_eq!(error.code, code);
        assert_eq!(error.safe_message_key, format!("errors.{code}"));
        assert!(!error.retryable);
    }
    assert_eq!(
        SecretMaterialState::of_read(true),
        SecretMaterialState::Configured
    );
    assert_eq!(
        SecretMaterialState::of_read(false),
        SecretMaterialState::NotConfigured
    );
}

#[test]
fn white_space_of_every_script_counts_as_blank() {
    assert!(is_blank(""));
    assert!(is_blank(" \t\r\n"));
    assert!(is_blank("\u{3000}\u{2003}\u{a0}\u{85}"));
    assert!(!is_blank("\u{200b}"));
    assert!(!is_blank(" x "));
}

#[test]
fn numbers_are_written_in_decimal() {
    assert_eq!(number(0), "0");
    assert_eq!(number(1_234_567_890), "1234567890");
    assert_eq!(
        number(u128::MAX),
        "340282366920938463463374607431768211455"
    );
    assert_eq!(joined("left", "right"), "leftright");
}
