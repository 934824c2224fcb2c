//! Application use cases of a system-wide dictation tool.
//!
//! Every workflow is a function from state and event to next state and action:
//! the surroundings perform the action and hand back what came of it.

pub mod asr_health_controller;
pub mod asr_health_laws;
pub mod asr_route;
pub mod configuration;
pub mod configuration_laws;
pub mod domain;
pub mod history_controller;
pub mod history_laws;
pub mod history_settings_controller;
pub mod lifecycle;
pub mod llm_configuration;
pub mod llm_contract;
pub mod orchestrator;
pub mod ports;
pub mod recording_settings_controller;
pub mod redaction;
pub mod refusal_laws;
pub mod session_coordinator;
pub mod settings_change;
pub mod settings_laws;
pub mod settings_write;
pub mod system_settings_controller;
pub mod text;
pub mod text_route;
pub mod trace;

pub use asr_health_controller::{
    AsrHealthCheckError, AsrHealthCheckOutcome, AsrHealthController, AsrModelSwitchError,
};
pub use asr_route::{resolve_asr_route, AsrRouteError, ResolvedAsrRoute};
pub use history_controller::{HistoryController, HistoryError};
pub use history_settings_controller::{HistorySettingsController, HistorySettingsError};
pub use llm_configuration::{
    LlmApiKeyStatus, LlmConfigurationController, LlmConfigurationError, LlmConnectionFailure,
    LlmConnectionTestOutcome,
};
pub use llm_contract::{
    compose_llm_prompt, LlmPrompt, PromptContractError, LLM_CONTRACT_VERSION,
    LLM_OUTPUT_SCHEMA_JSON, LLM_SYSTEM_PROMPT_VERSION,
};
pub use orchestrator::state::{
    AudioCleanupOutcome, CancelOutcome, Completion, DeliveryKind, FinalizationWarning,
    FinishOutcome, OrchestratorError, QuitOutcome, StartOutcome, TranscriptionOrchestrator,
};
pub use ports::{LlmRouteCandidate, LlmRouteResolution, ResolvedLlmRoute};
pub use recording_settings_controller::{
    RecordingSettingsController, RecordingSettingsError, RECORDING_DURATION_OPTIONS_SECONDS,
};
pub use session_coordinator::{
    CoordinatorError, SessionCoordinator, SessionMutation, StartSessionOutcome,
};
pub use system_settings_controller::{SystemSettingsController, SystemSettingsError};
pub use text_route::{text_processing_route, DirectDeliveryReason, TextProcessingRoute};
