use remtene_application::domain::{AsrEngine, AsrPreference};
use remtene_application::ports::EngineHealth;
use remtene_application::{resolve_asr_route, AsrRouteError, ResolvedAsrRoute};

#[test]
fn qwen_selection_uses_healthy_qwen() {
    assert_eq!(
        resolve_asr_route(
            AsrPreference::Qwen,
            EngineHealth::Healthy,
            EngineHealth::Healthy,
        ),
        Ok(ResolvedAsrRoute::new(AsrEngine::Qwen))
    );
}

#[test]
fn qwen_selection_never_falls_back_to_whisper() {
    assert_eq!(
        resolve_asr_route(
            AsrPreference::Qwen,
            EngineHealth::Unhealthy,
            EngineHealth::Healthy,
        ),
        Err(AsrRouteError::NoHealthyEngine)
    );
}

#[test]
fn whisper_selection_never_selects_qwen() {
    assert_eq!(
        resolve_asr_route(
            AsrPreference::Whisper,
            EngineHealth::Healthy,
            EngineHealth::Missing,
        ),
        Err(AsrRouteError::NoHealthyEngine)
    );
}

#[test]
fn no_healthy_engine_rejects_route_resolution() {
    assert_eq!(
        resolve_asr_route(
            AsrPreference::Qwen,
            EngineHealth::Unhealthy,
            EngineHealth::Incompatible,
        ),
        Err(AsrRouteError::NoHealthyEngine)
    );
}

#[test]
fn whisper_selection_uses_healthy_whisper() {
    assert_eq!(
        resolve_asr_route(
            AsrPreference::Whisper,
            EngineHealth::Missing,
            EngineHealth::Healthy,
        ),
        Ok(ResolvedAsrRoute::new(AsrEngine::Whisper))
    );
}
