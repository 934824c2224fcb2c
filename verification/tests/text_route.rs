use remtene_application::domain::ProcessingMode;
use remtene_application::ports::PortError;
use remtene_application::{
    text_processing_route, DirectDeliveryReason, LlmRouteResolution, ResolvedLlmRoute,
    TextProcessingRoute,
};

fn route() -> ResolvedLlmRoute {
    ResolvedLlmRoute::new(
        "primary".to_owned(),
        "https://provider.invalid/v1/chat/completions".to_owned(),
        "user-model".to_owned(),
        "llm.openai_compatible.fingerprint".to_owned(),
    )
}

#[test]
fn raw_mode_always_short_circuits_even_a_ready_llm_route() {
    assert!(
        text_processing_route(ProcessingMode::Raw, LlmRouteResolution::Ready(route()))
            == TextProcessingRoute::DirectAsr(DirectDeliveryReason::RawMode)
    );
}

#[test]
fn ai_modes_distinguish_missing_unavailable_and_ready_routes() {
    assert!(
        text_processing_route(
            ProcessingMode::Structured,
            LlmRouteResolution::NoConfiguration
        ) == TextProcessingRoute::DirectAsr(DirectDeliveryReason::LlmNotConfigured)
    );
    assert!(
        text_processing_route(
            ProcessingMode::Structured,
            LlmRouteResolution::MissingSecret(route())
        ) == TextProcessingRoute::DirectAsr(DirectDeliveryReason::LlmNotConfigured)
    );
    assert!(
        text_processing_route(
            ProcessingMode::Faithful,
            LlmRouteResolution::Unavailable {
                route: Some(route()),
                error: PortError {
                    code: "llm.secret_unavailable".to_owned(),
                    safe_message_key: "llm.secret_unavailable".to_owned(),
                    retryable: true,
                },
            }
        ) == TextProcessingRoute::DirectAsr(DirectDeliveryReason::LlmUnavailable)
    );
    assert!(
        text_processing_route(ProcessingMode::Faithful, LlmRouteResolution::Ready(route()))
            == TextProcessingRoute::Llm(route())
    );
}
