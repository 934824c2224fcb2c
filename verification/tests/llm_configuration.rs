use std::collections::HashMap;

use remtene_application::configuration::{Answer, Request, Step};
use remtene_application::domain::{
    AsrPreference, HistoryPolicy, IntentDecision, LlmNonSecretSettings, ProcessingMode,
    RecordingMode, RequestId, Seconds, SessionId, SettingsSnapshot, SettingsSnapshotInput,
};
use remtene_application::llm_configuration::api_key::{ApiKeyFlow, ApiKeyOutcome, ApiKeyResult};
use remtene_application::llm_configuration::connection::{
    connection_outcome, map_connection_error, ConnectionTestMove, CONNECTION_TEST_TEXT,
};
use remtene_application::llm_configuration::settings::{LlmSettingsFlow, LlmSettingsResult};
use remtene_application::llm_configuration::status::{KeyStatusMove, ReadinessMove};
use remtene_application::llm_configuration::{
    validate_secret_value, validated_route, LLM_SECRET_NAMESPACE, MAX_API_KEY_BYTES,
};
use remtene_application::ports::{
    LlmConnectionProbeError, LlmUpstreamError, PortError, SecretMaterialState, SecretValue,
    TextProcessingRequest, TextProcessingResult,
};
use remtene_application::{
    LlmApiKeyStatus, LlmConfigurationController, LlmConfigurationError, LlmConnectionFailure,
    LlmConnectionTestOutcome, LlmRouteCandidate, LlmRouteResolution, ResolvedLlmRoute,
};

const ENDPOINT_A: &str = "https://endpoint-a.test/v1";
const ENDPOINT_B: &str = "https://endpoint-b.test/v1";
const SECRET_A: &str = "llm.openai_compatible.endpoint_a";
const SECRET_B: &str = "llm.openai_compatible.endpoint_b";

#[derive(Default)]
struct SecretCalls {
    inspect: usize,
    inspect_store: usize,
    read: usize,
    replace: usize,
    replace_namespace: usize,
    delete: usize,
    delete_namespace: usize,
    reset: usize,
}

#[derive(Clone)]
enum ResolveBehavior {
    Ready,
    MissingSecret,
    UnavailableWithRoute(PortError),
    UnavailableWithoutRoute(PortError),
}

#[derive(Clone)]
enum ProcessBehavior {
    Echo,
    Empty,
    WrongIdentity,
    Error(PortError),
}

/// The surroundings of the controller, as the test has set them up.
struct World {
    snapshot: SettingsSnapshot,
    replace_error: Option<PortError>,
    load_error: Option<PortError>,
    load_calls: usize,
    replace_calls: usize,
    values: HashMap<String, String>,
    store_result: Option<Result<SecretMaterialState, PortError>>,
    inspect_results: HashMap<String, Result<SecretMaterialState, PortError>>,
    delete_errors: HashMap<String, PortError>,
    replace_namespace_error: Option<PortError>,
    calls: SecretCalls,
    resolve_behavior: ResolveBehavior,
    process_behavior: ProcessBehavior,
    probe_upstream: Option<LlmUpstreamError>,
    resolve_calls: usize,
    process_calls: usize,
    cancel_calls: usize,
    captured: Vec<(ResolvedLlmRoute, TextProcessingRequest)>,
    active: Option<bool>,
    gate_held: bool,
    next_id: u128,
}

fn world(initial: SettingsSnapshot) -> World {
    World {
        snapshot: initial,
        replace_error: None,
        load_error: None,
        load_calls: 0,
        replace_calls: 0,
        values: HashMap::new(),
        store_result: None,
        inspect_results: HashMap::new(),
        delete_errors: HashMap::new(),
        replace_namespace_error: None,
        calls: SecretCalls::default(),
        resolve_behavior: ResolveBehavior::Ready,
        process_behavior: ProcessBehavior::Echo,
        probe_upstream: None,
        resolve_calls: 0,
        process_calls: 0,
        cancel_calls: 0,
        captured: Vec::new(),
        active: Some(false),
        gate_held: false,
        next_id: 0,
    }
}

impl World {
    fn put(&mut self, secret_id: &str, value: &str) {
        self.values.insert(secret_id.to_owned(), value.to_owned());
    }

    fn value(&self, secret_id: &str) -> Option<String> {
        self.values.get(secret_id).cloned()
    }

    fn answer(&mut self, request: Request) -> Answer {
        match request {
            Request::TakeTurn => Answer::Ready,
            Request::LockConfiguration => {
                assert!(!self.gate_held, "the lock is taken once");
                self.gate_held = true;
                Answer::Ready
            }
            Request::ReleaseConfiguration => {
                self.gate_held = false;
                Answer::Ready
            }
            Request::ProbeWork => Answer::Work(self.active),
            Request::LoadSettings => {
                self.load_calls += 1;
                Answer::Settings(match self.load_error.clone() {
                    Some(error) => Err(error),
                    None => Ok(self.snapshot.clone()),
                })
            }
            Request::ValidateSettings(_) => Answer::Valid(true),
            Request::ReplaceSettings {
                expected_version,
                settings,
            } => {
                self.replace_calls += 1;
                Answer::Settings(if let Some(error) = self.replace_error.clone() {
                    Err(error)
                } else if self.snapshot.input.version != expected_version {
                    Err(test_error("settings.version_conflict"))
                } else {
                    let mut input = settings.into_input();
                    input.version = expected_version + 1;
                    self.snapshot = SettingsSnapshot::new(input);
                    Ok(self.snapshot.clone())
                })
            }
            Request::ResolveRoute(candidate) => {
                self.resolve_calls += 1;
                Answer::Resolution(self.resolution(candidate))
            }
            Request::InspectStore => {
                self.calls.inspect_store += 1;
                Answer::Material(self.store_result.clone().unwrap_or_else(|| {
                    Ok(if self.values.is_empty() {
                        SecretMaterialState::NotConfigured
                    } else {
                        SecretMaterialState::Configured
                    })
                }))
            }
            Request::InspectSecret(secret_id) => {
                self.calls.inspect += 1;
                Answer::Material(
                    self.inspect_results
                        .get(&secret_id)
                        .cloned()
                        .unwrap_or_else(|| {
                            Ok(if self.values.contains_key(&secret_id) {
                                SecretMaterialState::Configured
                            } else {
                                SecretMaterialState::NotConfigured
                            })
                        }),
                )
            }
            Request::ReadSecret(secret_id) => {
                self.calls.read += 1;
                Answer::Secret(Ok(self.value(&secret_id).map(SecretValue::new)))
            }
            Request::ReplaceNamespace {
                namespace,
                secret_id,
                value,
            } => {
                self.calls.replace_namespace += 1;
                Answer::Acted(match self.replace_namespace_error.clone() {
                    Some(error) => Err(error),
                    None => {
                        self.values.retain(|id, _| !id.starts_with(namespace));
                        self.values.insert(secret_id, value.expose().to_owned());
                        Ok(())
                    }
                })
            }
            Request::DeleteSecret(secret_id) => {
                self.calls.delete += 1;
                Answer::Acted(match self.delete_errors.get(&secret_id).cloned() {
                    Some(error) => Err(error),
                    None => {
                        self.values.remove(&secret_id);
                        Ok(())
                    }
                })
            }
            Request::DeleteNamespace(namespace) => {
                self.calls.delete_namespace += 1;
                let before = self.values.len();
                self.values.retain(|id, _| !id.starts_with(namespace));
                Answer::Deleted(Ok((before - self.values.len()) as u64))
            }
            Request::ResetStore => {
                self.calls.reset += 1;
                self.values.clear();
                self.store_result = None;
                Answer::Acted(Ok(()))
            }
            Request::IssueProbeIds => {
                self.next_id += 1;
                Answer::ProbeIds {
                    session_id: SessionId::from_uuid(self.next_id),
                    request_id: RequestId::from_uuid(self.next_id + 1_000),
                }
            }
            Request::ProbeConnection { route, request } => {
                assert!(!self.gate_held, "the provider is asked without the lock");
                Answer::Probe(self.probe(route, request))
            }
            _ => panic!("the LLM configuration asks for nothing else"),
        }
    }

    fn resolution(&self, candidate: Option<LlmRouteCandidate>) -> LlmRouteResolution {
        match candidate {
            None => LlmRouteResolution::NoConfiguration,
            Some(candidate) if candidate.base_url().starts_with("invalid:") => {
                LlmRouteResolution::Unavailable {
                    route: None,
                    error: test_error("llm.invalid_config"),
                }
            }
            Some(candidate) => {
                let route = route_for(&candidate);
                match self.resolve_behavior.clone() {
                    ResolveBehavior::Ready => LlmRouteResolution::Ready(route),
                    ResolveBehavior::MissingSecret => LlmRouteResolution::MissingSecret(route),
                    ResolveBehavior::UnavailableWithRoute(error) => {
                        LlmRouteResolution::Unavailable {
                            route: Some(route),
                            error,
                        }
                    }
                    ResolveBehavior::UnavailableWithoutRoute(error) => {
                        LlmRouteResolution::Unavailable { route: None, error }
                    }
                }
            }
        }
    }

    fn probe(
        &mut self,
        route: ResolvedLlmRoute,
        request: TextProcessingRequest,
    ) -> Result<TextProcessingResult, LlmConnectionProbeError> {
        self.process_calls += 1;
        self.captured.push((route, request.clone()));
        match self.process_behavior.clone() {
            ProcessBehavior::Echo => Ok(TextProcessingResult {
                session_id: request.session_id,
                request_id: request.request_id,
                intent: IntentDecision::Dictation,
                final_text: request.raw_transcript,
            }),
            ProcessBehavior::Empty => Ok(TextProcessingResult {
                session_id: request.session_id,
                request_id: request.request_id,
                intent: IntentDecision::Dictation,
                final_text: "  ".to_owned(),
            }),
            ProcessBehavior::WrongIdentity => Ok(TextProcessingResult {
                session_id: SessionId::from_uuid(9_001),
                request_id: RequestId::from_uuid(9_002),
                intent: IntentDecision::Dictation,
                final_text: request.raw_transcript,
            }),
            ProcessBehavior::Error(error) => Err(match self.probe_upstream.take() {
                Some(upstream) => LlmConnectionProbeError::with_upstream(error, upstream),
                None => LlmConnectionProbeError::from_port(error),
            }),
        }
    }

    /// What a use case still holds at its end is given back.
    fn over<T>(&mut self, result: T) -> T {
        self.gate_held = false;
        result
    }

    fn run_settings(
        &mut self,
        begin: Step<LlmSettingsFlow, LlmSettingsResult>,
    ) -> LlmSettingsResult {
        let controller = LlmConfigurationController::new();
        let mut step = begin;
        loop {
            match step {
                Step::Done(result) => return self.over(result),
                Step::Ask { flow, request } => {
                    let answer = self.answer(request);
                    step = controller.resume_settings(flow, answer);
                }
            }
        }
    }

    fn run_api_key(&mut self, begin: Step<ApiKeyFlow, ApiKeyResult>) -> ApiKeyResult {
        let controller = LlmConfigurationController::new();
        let mut step = begin;
        loop {
            match step {
                Step::Done(result) => return self.over(result),
                Step::Ask { flow, request } => {
                    let answer = self.answer(request);
                    step = controller.resume_api_key(flow, answer);
                }
            }
        }
    }

    fn run_connection(&mut self, begin: ConnectionTestMove) -> LlmConnectionTestOutcome {
        let controller = LlmConfigurationController::new();
        let mut step = begin;
        loop {
            match step {
                Step::Done(result) => return self.over(result),
                Step::Ask { flow, request } => {
                    let answer = self.answer(request);
                    step = controller.resume_connection_test(flow, answer);
                }
            }
        }
    }

    fn set_llm_settings(
        &mut self,
        expected_version: u64,
        llm: Option<LlmNonSecretSettings>,
    ) -> LlmSettingsResult {
        self.run_settings(LlmConfigurationController::new().set_llm_settings(expected_version, llm))
    }

    fn set_text_processing_settings(
        &mut self,
        expected_version: u64,
        mode: ProcessingMode,
        read_selected_text: bool,
    ) -> LlmSettingsResult {
        self.run_settings(LlmConfigurationController::new().set_text_processing_settings(
            expected_version,
            mode,
            read_selected_text,
        ))
    }

    fn set_api_key(&mut self, value: SecretValue) -> Result<LlmApiKeyStatus, LlmConfigurationError> {
        status_of(self.run_api_key(LlmConfigurationController::new().set_api_key(value)))
    }

    fn delete_api_key(&mut self) -> Result<LlmApiKeyStatus, LlmConfigurationError> {
        status_of(self.run_api_key(LlmConfigurationController::new().delete_api_key()))
    }

    fn reset_unrecoverable_secrets(&mut self) -> Result<LlmApiKeyStatus, LlmConfigurationError> {
        status_of(self.run_api_key(LlmConfigurationController::new().reset_unrecoverable_secrets()))
    }

    fn reveal_api_key(&mut self) -> Result<SecretValue, LlmConfigurationError> {
        match self.run_api_key(LlmConfigurationController::new().reveal_api_key()) {
            Ok(ApiKeyOutcome::Revealed(value)) => Ok(value),
            Ok(ApiKeyOutcome::Status(_)) => panic!("revealing gives the key"),
            Err(error) => Err(error),
        }
    }

    fn api_key_status(&mut self) -> LlmApiKeyStatus {
        let controller = LlmConfigurationController::new();
        let mut step: KeyStatusMove = controller.api_key_status();
        loop {
            match step {
                Step::Done(status) => return self.over(status),
                Step::Ask { flow, request } => {
                    let answer = self.answer(request);
                    step = controller.resume_status(flow, answer);
                }
            }
        }
    }

    fn is_llm_ready(&mut self) -> bool {
        let controller = LlmConfigurationController::new();
        let mut step: ReadinessMove = controller.is_llm_ready();
        loop {
            match step {
                Step::Done(ready) => return self.over(ready),
                Step::Ask { flow, request } => {
                    let answer = self.answer(request);
                    step = controller.resume_readiness(flow, answer);
                }
            }
        }
    }

    fn test_connection(&mut self) -> LlmConnectionTestOutcome {
        self.run_connection(LlmConfigurationController::new().test_connection())
    }
}

fn status_of(result: ApiKeyResult) -> Result<LlmApiKeyStatus, LlmConfigurationError> {
    match result {
        Ok(ApiKeyOutcome::Status(status)) => Ok(status),
        Ok(ApiKeyOutcome::Revealed(_)) => panic!("only revealing gives the key"),
        Err(error) => Err(error),
    }
}

fn failed(failure: LlmConnectionFailure) -> LlmConnectionTestOutcome {
    LlmConnectionTestOutcome::Failed(failure)
}

fn settings(version: u64, llm: Option<(&str, &str)>) -> SettingsSnapshot {
    SettingsSnapshot::new(SettingsSnapshotInput {
        version,
        recording_mode: RecordingMode::Toggle,
        max_recording_duration: Seconds(60),
        recording_shortcut: None,
        processing_mode: ProcessingMode::Faithful,
        asr_preference: AsrPreference::Qwen,
        llm: llm.map(|(base_url, model)| llm_settings(base_url, model)),
        read_selected_text: false,
        clipboard_bridge_allowed: false,
        auto_copy_result: false,
        local_diagnostics_enabled: true,
        history_policy: HistoryPolicy {
            enabled: false,
            limit: 10,
            retention_days: None,
        },
    })
}

fn llm_settings(base_url: &str, model: &str) -> LlmNonSecretSettings {
    LlmNonSecretSettings::new(base_url.to_owned(), model.to_owned())
}

fn llm_of(settings: &SettingsSnapshot) -> &LlmNonSecretSettings {
    settings.input.llm.as_ref().expect("LLM settings")
}

fn route_for(candidate: &LlmRouteCandidate) -> ResolvedLlmRoute {
    let secret_id = match candidate.base_url() {
        ENDPOINT_A => SECRET_A,
        ENDPOINT_B => SECRET_B,
        _ => "llm.openai_compatible.other",
    };
    ResolvedLlmRoute::new(
        "openai_compatible".to_owned(),
        candidate.base_url().to_owned(),
        candidate.model().to_owned(),
        secret_id.to_owned(),
    )
}

fn test_error(code: &str) -> PortError {
    PortError {
        code: code.to_owned(),
        safe_message_key: format!("errors.{code}"),
        retryable: false,
    }
}

#[test]
fn active_session_blocks_all_llm_configuration_and_secret_mutations() {
    let mut world = world(settings(1, Some((ENDPOINT_A, "model-a"))));
    world.active = Some(true);

    let results = [
        world.set_llm_settings(1, Some(llm_settings(ENDPOINT_B, "model-b")))
            .map(|_| ()),
        world.set_api_key(SecretValue::new("new-key".to_owned())).map(|_| ()),
        world.delete_api_key().map(|_| ()),
        world.reset_unrecoverable_secrets().map(|_| ()),
    ];

    assert!(
        results
            .iter()
            .all(|result| matches!(result, Err(LlmConfigurationError::Busy)))
    );
    assert_eq!(world.replace_calls, 0);
    assert_eq!(world.calls.replace_namespace, 0);
    assert_eq!(world.calls.delete, 0);
    assert_eq!(world.calls.delete_namespace, 0);
    assert_eq!(world.calls.reset, 0);
}

#[test]
fn text_processing_settings_update_is_atomic_and_preserves_unrelated_fields() {
    let initial = settings(4, Some((ENDPOINT_A, "model-a")));
    let mut world = world(initial.clone());

    let stored =
        world.set_text_processing_settings(4, ProcessingMode::Structured, true)
            .expect("text processing settings should update");

    assert_eq!(stored.input.version, 5);
    assert_eq!(stored.input.processing_mode, ProcessingMode::Structured);
    assert!(stored.input.read_selected_text);
    assert_eq!(stored.input.llm, initial.input.llm);
    assert_eq!(
        stored.input.clipboard_bridge_allowed,
        initial.input.clipboard_bridge_allowed
    );
    assert_eq!(world.snapshot, stored);
    assert_eq!(world.replace_calls, 1);
}

#[test]
fn text_processing_settings_check_version_before_noop() {
    let mut world = world(settings(4, None));

    let result =
        world.set_text_processing_settings(3, ProcessingMode::Faithful, false);

    assert!(matches!(
        result,
        Err(LlmConfigurationError::Port(PortError { ref code, .. }))
            if code == "settings.version_conflict"
    ));
    assert_eq!(world.replace_calls, 0);
}

#[test]
fn text_processing_settings_noop_keeps_version() {
    let mut world = world(settings(4, None));

    let stored =
        world.set_text_processing_settings(4, ProcessingMode::Faithful, false)
            .expect("matching settings are a valid no-op");

    assert_eq!(stored.input.version, 4);
    assert_eq!(world.replace_calls, 0);
}

#[test]
fn active_session_blocks_text_processing_settings_update() {
    let mut world = world(settings(1, None));
    world.active = Some(true);

    let result =
        world.set_text_processing_settings(1, ProcessingMode::Raw, true);

    assert!(matches!(result, Err(LlmConfigurationError::Busy)));
    assert_eq!(world.replace_calls, 0);
}

#[test]
fn endpoint_switch_predeletes_destination_and_never_assigns_old_key_to_it() {
    let mut world = world(settings(1, Some((ENDPOINT_A, "model-a"))));
    world.put(SECRET_A, "key-a");
    world.put(SECRET_B, "orphan-key-b");

    let stored =
        world.set_llm_settings(1, Some(llm_settings(ENDPOINT_B, "model-b")))
            .expect("endpoint switch should succeed");

    assert_eq!(llm_of(&stored).base_url, ENDPOINT_B);
    assert_eq!(world.snapshot, stored);
    assert_eq!(world.value(SECRET_A), None);
    assert_eq!(world.value(SECRET_B), None);

    assert_eq!(
        world.set_api_key(SecretValue::new("key-b".to_owned()))
            .expect("set destination key"),
        LlmApiKeyStatus::Configured
    );
    assert_eq!(world.value(SECRET_A), None);
    assert_eq!(world.value(SECRET_B).as_deref(), Some("key-b"));
}

#[test]
fn first_endpoint_configuration_predeletes_any_destination_orphan() {
    let mut world = world(settings(1, None));
    world.put(SECRET_B, "orphan-key-b");

    let stored =
        world.set_llm_settings(1, Some(llm_settings(ENDPOINT_B, "model-b")))
            .expect("first endpoint configuration should succeed");

    assert_eq!(llm_of(&stored).base_url, ENDPOINT_B);
    assert_eq!(world.value(SECRET_B), None);
}

#[test]
fn destination_predelete_failure_preserves_current_settings_and_key() {
    let mut world = world(settings(1, Some((ENDPOINT_A, "model-a"))));
    world.put(SECRET_A, "key-a");
    world.put(SECRET_B, "orphan-key-b");
    world.delete_errors.insert(SECRET_B.to_owned(), test_error("secret.delete_failed"));

    let result =
        world.set_llm_settings(1, Some(llm_settings(ENDPOINT_B, "model-b")));

    assert!(matches!(
        result,
        Err(LlmConfigurationError::Port(PortError { ref code, .. }))
            if code == "secret.delete_failed"
    ));
    assert_eq!(
        llm_of(&world.snapshot).base_url,
        ENDPOINT_A
    );
    assert_eq!(world.replace_calls, 0);
    assert_eq!(world.value(SECRET_A).as_deref(), Some("key-a"));
    assert_eq!(world.value(SECRET_B).as_deref(), Some("orphan-key-b"));
}

#[test]
fn settings_cas_failure_after_destination_predelete_keeps_current_key() {
    let mut world = world(settings(1, Some((ENDPOINT_A, "model-a"))));
    world.put(SECRET_A, "key-a");
    world.put(SECRET_B, "orphan-key-b");
    world.replace_error = Some(test_error("settings.write_failed"));

    let result =
        world.set_llm_settings(1, Some(llm_settings(ENDPOINT_B, "model-b")));

    assert!(result.is_err());
    assert_eq!(
        llm_of(&world.snapshot).base_url,
        ENDPOINT_A
    );
    assert_eq!(world.value(SECRET_A).as_deref(), Some("key-a"));
    assert_eq!(world.value(SECRET_B), None);
}

#[test]
fn failed_old_key_cleanup_returns_new_settings_but_cannot_reactivate_orphan() {
    let mut world = world(settings(1, Some((ENDPOINT_A, "model-a"))));
    world.put(SECRET_A, "key-a");
    world.delete_errors.insert(SECRET_A.to_owned(), test_error("secret.delete_failed"));

    let stored =
        world.set_llm_settings(1, Some(llm_settings(ENDPOINT_B, "model-b")))
            .expect("durable endpoint switch should remain successful");

    assert_eq!(llm_of(&stored).base_url, ENDPOINT_B);
    assert_eq!(world.value(SECRET_A).as_deref(), Some("key-a"));
    assert_eq!(world.value(SECRET_B), None);

    world.delete_errors.remove(SECRET_A);
    world.put(SECRET_B, "key-b");
    let switched_back =
        world.set_llm_settings(2, Some(llm_settings(ENDPOINT_A, "model-a")))
            .expect("switching back should predelete the orphan");
    assert_eq!(
        llm_of(&switched_back).base_url,
        ENDPOINT_A
    );
    assert_eq!(world.value(SECRET_A), None);
    assert_eq!(world.value(SECRET_B), None);
    assert_eq!(world.snapshot, switched_back);
}

#[test]
fn model_change_on_same_endpoint_preserves_api_key() {
    let mut world = world(settings(1, Some((ENDPOINT_A, "model-a"))));
    world.put(SECRET_A, "key-a");

    world.set_llm_settings(1, Some(llm_settings(ENDPOINT_A, "model-b")))
        .expect("model-only change should succeed");

    assert_eq!(world.value(SECRET_A).as_deref(), Some("key-a"));
    assert_eq!(world.calls.delete, 0);
}

#[test]
fn atomic_namespace_replace_failure_preserves_existing_key() {
    let mut world = world(settings(1, Some((ENDPOINT_A, "model-a"))));
    world.put(SECRET_A, "old-key");
    world.replace_namespace_error = Some(test_error("secret.write_failed"));

    let result = world.set_api_key(SecretValue::new("new-key".to_owned()));

    assert!(result.is_err());
    assert_eq!(world.value(SECRET_A).as_deref(), Some("old-key"));
    assert_eq!(world.calls.replace, 0);
    assert_eq!(world.calls.replace_namespace, 1);
}

#[test]
fn unavailable_provider_does_not_hide_or_prevent_deleting_current_secret() {
    let mut world = world(settings(1, Some((ENDPOINT_A, "model-a"))));
    world.put(SECRET_A, "key-a");
    world.resolve_behavior = ResolveBehavior::UnavailableWithRoute(test_error(
        "llm.client_unavailable",
    ));

    assert_eq!(
        world.api_key_status(),
        LlmApiKeyStatus::Configured
    );
    assert_eq!(world.calls.read, 0);
    assert_eq!(
        world.reveal_api_key()
            .expect("configured secret should remain revealable")
            .expose(),
        "key-a"
    );
    assert_eq!(world.calls.read, 1);
    assert_eq!(
        world.delete_api_key().expect("delete current secret"),
        LlmApiKeyStatus::NotConfigured
    );
    assert_eq!(world.value(SECRET_A), None);
}

#[test]
fn api_key_status_authenticates_with_inspect_and_never_reads_plaintext() {
    let mut world = world(settings(1, Some((ENDPOINT_A, "model-a"))));
    world.put(SECRET_A, "key-a");
    world.resolve_behavior = ResolveBehavior::UnavailableWithRoute(test_error(
        "llm.provider_unavailable",
    ));

    assert_eq!(
        world.api_key_status(),
        LlmApiKeyStatus::Configured
    );
    assert_eq!(world.calls.inspect_store, 1);
    assert_eq!(world.calls.inspect, 1);
    assert_eq!(world.calls.read, 0);
}

#[test]
fn api_key_status_surfaces_store_wide_recovery_without_reading_plaintext() {
    let mut world = world(settings(1, Some((ENDPOINT_A, "model-a"))));
    world.put(SECRET_A, "unreadable-ciphertext-placeholder");
    world.store_result = Some(Ok(SecretMaterialState::RecoveryRequired));

    assert_eq!(
        world.api_key_status(),
        LlmApiKeyStatus::RecoveryRequired
    );
    assert_eq!(world.calls.inspect_store, 1);
    assert_eq!(world.calls.inspect, 0);
    assert_eq!(world.calls.read, 0);
    assert_eq!(world.resolve_calls, 0);
}

#[test]
fn connection_test_uses_only_provider_with_fixed_non_user_content() {
    let mut world = world(settings(1, Some((ENDPOINT_A, "model-a"))));

    assert!(world.test_connection() == LlmConnectionTestOutcome::Succeeded);

    let captured = world.captured.clone();
    assert_eq!(captured.len(), 1);
    let (route, request) = &captured[0];
    assert_eq!(route.endpoint(), ENDPOINT_A);
    assert_eq!(request.processing_mode, ProcessingMode::Faithful);
    assert_eq!(request.raw_transcript, CONNECTION_TEST_TEXT);
    assert_eq!(request.selected_text, None);
    assert_eq!(world.replace_calls, 0);
    assert_eq!(world.calls.inspect, 0);
    assert_eq!(world.calls.inspect_store, 0);
    assert_eq!(world.calls.read, 0);
    assert_eq!(world.calls.replace, 0);
    assert_eq!(world.calls.replace_namespace, 0);
    assert_eq!(world.calls.delete, 0);
    assert_eq!(world.process_calls, 1);
    assert_eq!(world.cancel_calls, 0);
}

#[test]
fn unavailable_route_errors_are_classified_before_any_network_request() {
    let mut world = world(settings(1, Some((ENDPOINT_A, "model-a"))));
    world.resolve_behavior = ResolveBehavior::UnavailableWithRoute(test_error(
        "llm.network",
    ));

    assert!(world.test_connection() == failed(LlmConnectionFailure::NotConfigured));
    world.put(SECRET_A, "key-a");
    assert!(world.test_connection() == failed(LlmConnectionFailure::Network));
    world.inspect_results.insert(SECRET_A.to_owned(), Ok(SecretMaterialState::RecoveryRequired));
    assert!(world.test_connection() == failed(LlmConnectionFailure::RecoveryRequired));
    world.resolve_behavior = ResolveBehavior::UnavailableWithoutRoute(test_error(
        "llm.invalid_config",
    ));
    assert!(world.test_connection() == failed(LlmConnectionFailure::InvalidConfiguration));
    assert_eq!(world.process_calls, 0);
}

#[test]
fn missing_route_is_not_configured_without_calling_provider_process() {
    let mut world = world(settings(1, Some((ENDPOINT_A, "model-a"))));
    world.resolve_behavior = ResolveBehavior::MissingSecret;

    assert!(world.test_connection() == failed(LlmConnectionFailure::NotConfigured));
    assert_eq!(world.process_calls, 0);
}

#[test]
fn session_that_acquires_configuration_gate_first_makes_mutation_observe_busy() {
    let mut world = world(settings(1, Some((ENDPOINT_A, "model-a"))));
    let controller = LlmConfigurationController::new();

    // The mutation waits at the lock that a starting session holds.
    let mut step = controller
        .set_llm_settings(1, Some(llm_settings(ENDPOINT_A, "model-b")));
    let flow = loop {
        match step {
            Step::Done(_) => panic!("the mutation has to wait"),
            Step::Ask {
                flow,
                request: Request::LockConfiguration,
            } => break flow,
            Step::Ask { flow, request } => {
                let answer = world.answer(request);
                step = controller.resume_settings(flow, answer);
            }
        }
    };
    assert_eq!(world.load_calls, 0, "nothing is read before the lock");

    world.active = Some(true);
    let result = world.run_settings(controller.resume_settings(flow, Answer::Ready));
    assert!(matches!(result, Err(LlmConfigurationError::Busy)));
    assert_eq!(world.replace_calls, 0);
}

#[test]
fn mutation_that_acquires_configuration_gate_first_is_fully_visible_to_next_session() {
    let mut world = world(settings(1, Some((ENDPOINT_A, "model-a"))));
    let controller = LlmConfigurationController::new();

    // The mutation stands at the settings write and holds the lock.
    let mut step = controller
        .set_llm_settings(1, Some(llm_settings(ENDPOINT_A, "model-b")));
    let (flow, request) = loop {
        match step {
            Step::Done(_) => panic!("the mutation writes settings"),
            Step::Ask {
                flow,
                request:
                    Request::ReplaceSettings {
                        expected_version,
                        settings,
                    },
            } => {
                break (
                    flow,
                    Request::ReplaceSettings {
                        expected_version,
                        settings,
                    },
                );
            }
            Step::Ask { flow, request } => {
                let answer = world.answer(request);
                step = controller.resume_settings(flow, answer);
            }
        }
    };
    assert!(world.gate_held, "no session starts during the write");

    let answer = world.answer(request);
    let stored = world
        .run_settings(controller.resume_settings(flow, answer))
        .expect("mutation should succeed");
    assert!(!world.gate_held);
    let session_visible = world.snapshot.clone();

    assert_eq!(stored.input.version, 2);
    assert_eq!(llm_of(&session_visible).model, "model-b");
    assert_eq!(session_visible.input.version, 2);
}

#[test]
fn read_only_status_is_not_blocked_by_long_running_connection_test() {
    let mut world = world(settings(1, Some((ENDPOINT_A, "model-a"))));
    world.put(SECRET_A, "key-a");
    let controller = LlmConfigurationController::new();

    // The connection test stands at the provider.
    let mut step = controller.test_connection();
    let (flow, request) = loop {
        match step {
            Step::Done(_) => panic!("connection test should reach Provider"),
            Step::Ask {
                flow,
                request: Request::ProbeConnection { route, request },
            } => break (flow, Request::ProbeConnection { route, request }),
            Step::Ask { flow, request } => {
                let answer = world.answer(request);
                step = controller.resume_connection_test(flow, answer);
            }
        }
    };
    assert!(!world.gate_held);

    assert_eq!(world.api_key_status(), LlmApiKeyStatus::Configured);
    assert!(world.is_llm_ready());

    let answer = world.answer(request);
    let outcome = world.run_connection(controller.resume_connection_test(flow, answer));
    assert!(outcome == LlmConnectionTestOutcome::Succeeded);
}

#[test]
fn connection_test_maps_provider_errors_and_rejects_invalid_successes() {
    let mut world = world(settings(1, Some((ENDPOINT_A, "model-a"))));
    let cases = [
        ("llm.api_key_missing", LlmConnectionFailure::NotConfigured),
        (
            "llm.secret_unavailable",
            LlmConnectionFailure::SecretUnavailable,
        ),
        (
            "llm.secret_recovery_required",
            LlmConnectionFailure::RecoveryRequired,
        ),
        (
            "llm.invalid_config",
            LlmConnectionFailure::InvalidConfiguration,
        ),
        ("llm.invalid_request", LlmConnectionFailure::Internal),
        (
            "llm.authentication_failed",
            LlmConnectionFailure::AuthenticationFailed,
        ),
        (
            "llm.permission_denied",
            LlmConnectionFailure::PermissionDenied,
        ),
        ("llm.rate_limited", LlmConnectionFailure::RateLimited),
        ("llm.timeout", LlmConnectionFailure::Timeout),
        ("llm.network", LlmConnectionFailure::Network),
        (
            "llm.provider_unavailable",
            LlmConnectionFailure::ProviderUnavailable,
        ),
        (
            "llm.client_unavailable",
            LlmConnectionFailure::ProviderUnavailable,
        ),
        (
            "llm.request_rejected",
            LlmConnectionFailure::RequestRejected,
        ),
        (
            "llm.invalid_response",
            LlmConnectionFailure::InvalidResponse,
        ),
        (
            "llm.response_too_large",
            LlmConnectionFailure::ResponseTooLarge,
        ),
        ("llm.cancelled", LlmConnectionFailure::Cancelled),
        ("llm.unknown", LlmConnectionFailure::Internal),
    ];

    for (code, expected) in cases {
        world.process_behavior = ProcessBehavior::Error(test_error(code));
        assert!(
            world.test_connection() == failed(expected),
            "unexpected mapping for {code}"
        );
        assert_eq!(map_connection_error(&test_error(code)), expected);
    }

    world.process_behavior = ProcessBehavior::Error(test_error("llm.invalid_canonical_response"));
    assert!(
        world.test_connection() == LlmConnectionTestOutcome::Succeeded,
        "a valid non-empty assistant response proves OpenAI-Compatible connectivity"
    );

    world.process_behavior = ProcessBehavior::Empty;
    assert!(world.test_connection() == failed(LlmConnectionFailure::InvalidResponse));
    world.process_behavior = ProcessBehavior::WrongIdentity;
    assert!(world.test_connection() == failed(LlmConnectionFailure::InvalidResponse));

    world.process_behavior = ProcessBehavior::Error(test_error("llm.authentication_failed"));
    world.probe_upstream = Some(LlmUpstreamError::new(
        401,
        r#"{"error":"upstream credential policy"}"#.to_owned(),
        false,
    ));
    let diagnostic = world.test_connection();
    assert!(
        diagnostic
            == LlmConnectionTestOutcome::FailedWithUpstream {
                failure: LlmConnectionFailure::AuthenticationFailed,
                upstream: LlmUpstreamError::new(
                    401,
                    r#"{"error":"upstream credential policy"}"#.to_owned(),
                    false,
                ),
            }
    );
    let LlmConnectionTestOutcome::FailedWithUpstream { upstream, .. } = diagnostic else {
        unreachable!("the upstream response was told");
    };
    assert!(!upstream
        .debug_text()
        .contains("upstream credential policy"));
}

#[test]
fn connection_test_distinguishes_busy_runtime_and_settings_failures() {
    let mut world = world(settings(1, Some((ENDPOINT_A, "model-a"))));
    world.active = Some(true);
    assert!(world.test_connection() == failed(LlmConnectionFailure::Busy));
    world.active = Some(false);
    world.load_error = Some(test_error("settings.unavailable"));
    assert!(world.test_connection() == failed(LlmConnectionFailure::SettingsUnavailable));

    world.active = None;
    assert!(world.test_connection() == failed(LlmConnectionFailure::RuntimeUnavailable));
}

#[test]
fn api_key_validation_accepts_only_bearer_header_safe_visible_ascii() {
    for valid in ["sk-test", "abc.DEF_123-~+/="] {
        assert!(validate_secret_value(valid).is_ok(), "{valid}");
    }
    for invalid in [
        "",
        " ",
        " leading",
        "trailing ",
        "line\nbreak",
        "tab\tvalue",
        "非 ASCII",
    ] {
        assert!(
            matches!(
                validate_secret_value(invalid),
                Err(LlmConfigurationError::InvalidSecret)
            ),
            "{invalid:?}"
        );
    }
    assert!(matches!(
        validate_secret_value(&"a".repeat(MAX_API_KEY_BYTES + 1)),
        Err(LlmConfigurationError::InvalidSecret)
    ));
}

#[test]
fn an_api_key_may_be_as_long_as_the_limit() {
    assert_eq!(MAX_API_KEY_BYTES, 8_192);
    assert!(validate_secret_value(&"a".repeat(MAX_API_KEY_BYTES)).is_ok());
}

#[test]
fn a_key_is_stored_only_for_a_configured_route() {
    let mut world = world(settings(1, None));

    assert_eq!(
        world.set_api_key(SecretValue::new("key".to_owned())),
        Err(LlmConfigurationError::NotConfigured)
    );
    assert_eq!(
        world.set_api_key(SecretValue::new("two words".to_owned())),
        Err(LlmConfigurationError::InvalidSecret)
    );
    assert_eq!(world.calls.replace_namespace, 0);
}

#[test]
fn an_unreadable_store_has_to_be_reset_before_it_takes_a_key() {
    let mut world = world(settings(1, Some((ENDPOINT_A, "model-a"))));
    world.put(SECRET_A, "unreadable");
    world.store_result = Some(Ok(SecretMaterialState::RecoveryRequired));

    assert_eq!(
        world.set_api_key(SecretValue::new("key".to_owned())),
        Err(LlmConfigurationError::RecoveryRequired)
    );
    assert_eq!(
        world.reset_unrecoverable_secrets(),
        Ok(LlmApiKeyStatus::NotConfigured)
    );
    assert_eq!(world.calls.reset, 1);
    assert_eq!(
        world.set_api_key(SecretValue::new("key".to_owned())),
        Ok(LlmApiKeyStatus::Configured)
    );
    assert_eq!(world.value(SECRET_A).as_deref(), Some("key"));
}

#[test]
fn revealing_a_key_that_is_not_there_says_so() {
    let mut world = world(settings(1, Some((ENDPOINT_A, "model-a"))));

    assert!(matches!(
        world.reveal_api_key(),
        Err(LlmConfigurationError::NotConfigured)
    ));
}

#[test]
fn readiness_needs_a_ready_route() {
    let mut world = world(settings(1, Some((ENDPOINT_A, "model-a"))));
    assert!(world.is_llm_ready());
    world.resolve_behavior = ResolveBehavior::MissingSecret;
    assert!(!world.is_llm_ready());
    world.load_error = Some(test_error("settings.unavailable"));
    assert!(!world.is_llm_ready());
}

#[test]
fn a_route_that_cannot_be_resolved_is_no_valid_destination() {
    assert!(matches!(
        validated_route(LlmRouteResolution::NoConfiguration),
        Err(LlmConfigurationError::NotConfigured)
    ));
    assert!(matches!(
        validated_route(LlmRouteResolution::Unavailable {
            route: None,
            error: test_error("llm.invalid_config"),
        }),
        Err(LlmConfigurationError::InvalidConfiguration(error))
            if error.code == "llm.invalid_config"
    ));
    let candidate = LlmRouteCandidate::new(ENDPOINT_A.to_owned(), "model-a".to_owned());
    let route = validated_route(LlmRouteResolution::MissingSecret(route_for(&candidate)));
    assert_eq!(
        route.expect("a missing secret leaves the route valid").secret_id(),
        SECRET_A
    );
    assert!(SECRET_A.starts_with(LLM_SECRET_NAMESPACE));
}

#[test]
fn a_reply_for_somebody_else_is_no_success() {
    let session_id = SessionId::from_uuid(1);
    let request_id = RequestId::from_uuid(2);
    let reply = |text: &str| {
        Ok(TextProcessingResult {
            session_id,
            request_id,
            intent: IntentDecision::Dictation,
            final_text: text.to_owned(),
        })
    };

    assert!(
        connection_outcome(session_id, request_id, reply("text"))
            == LlmConnectionTestOutcome::Succeeded
    );
    assert!(
        connection_outcome(session_id, RequestId::from_uuid(3), reply("text"))
            == failed(LlmConnectionFailure::InvalidResponse)
    );
    assert!(
        connection_outcome(session_id, request_id, reply(" "))
            == failed(LlmConnectionFailure::InvalidResponse)
    );
}

#[test]
fn the_clipboard_bridge_is_switched_without_a_version() {
    let mut world = world(settings(3, None));

    let stored = world
        .run_settings(LlmConfigurationController::new().set_clipboard_bridge_allowed(true))
        .expect("the bridge is allowed");

    assert!(stored.input.clipboard_bridge_allowed);
    assert_eq!(stored.input.version, 4);
}
