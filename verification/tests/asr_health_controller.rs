use remtene_application::asr_health_controller::{
    switch_activity_error, switch_preparation_error,
};
use remtene_application::configuration::{Answer, Request, Step};
use remtene_application::domain::{
    AsrEngine, AsrPreference, HistoryPolicy, ProcessingMode, RecordingMode, Seconds,
    SettingsSnapshot, SettingsSnapshotInput,
};
use remtene_application::orchestrator::state::ApplicationActivity;
use remtene_application::ports::{AsrModelPreparationError, EngineHealth, PortError};
use remtene_application::{
    AsrHealthCheckError, AsrHealthCheckOutcome, AsrHealthController, AsrModelSwitchError,
};

/// The surroundings of the controller, as the test has set them up.
struct World {
    settings: SettingsSnapshot,
    replace_error: Option<PortError>,
    qwen: Result<EngineHealth, PortError>,
    whisper: Result<EngineHealth, PortError>,
    preparation: Result<(), AsrModelPreparationError>,
    activity: Option<ApplicationActivity>,
    turn_is_free: bool,
    health_calls: Vec<AsrEngine>,
    model_calls: Vec<AsrEngine>,
    settings_reads: usize,
}

impl World {
    fn answer(&mut self, request: Request) -> Answer {
        match request {
            Request::TryTurn => Answer::Granted(self.turn_is_free),
            Request::EnterApplication => Answer::Granted(true),
            Request::LockConfiguration => Answer::Ready,
            Request::ProbeActivity => Answer::Activity(self.activity),
            Request::LoadSettings => {
                self.settings_reads += 1;
                Answer::Settings(Ok(self.settings.clone()))
            }
            Request::ValidateSettings(_) => Answer::Valid(true),
            Request::ReplaceSettings {
                expected_version,
                settings,
            } => Answer::Settings(match self.replace_error.clone() {
                Some(error) => Err(error),
                None => {
                    let mut input = settings.into_input();
                    input.version = expected_version + 1;
                    self.settings = SettingsSnapshot::new(input);
                    Ok(self.settings.clone())
                }
            }),
            Request::PrepareModel(engine) => {
                self.model_calls.push(engine);
                Answer::Prepared(self.preparation.clone())
            }
            Request::CheckEngine(engine) => {
                self.health_calls.push(engine);
                Answer::Health(match engine {
                    AsrEngine::Qwen => self.qwen.clone(),
                    AsrEngine::Whisper => self.whisper.clone(),
                })
            }
            _ => panic!("the recogniser controller asks for nothing else"),
        }
    }

    fn check(&mut self) -> Result<AsrHealthCheckOutcome, AsrHealthCheckError> {
        let controller = AsrHealthController::new();
        let mut step = controller.check();
        loop {
            match step {
                Step::Done(result) => return result,
                Step::Ask { flow, request } => {
                    let answer = self.answer(request);
                    step = controller.resume_check(flow, answer);
                }
            }
        }
    }

    fn switch_to(
        &mut self,
        engine: AsrEngine,
    ) -> Result<AsrHealthCheckOutcome, AsrModelSwitchError> {
        let controller = AsrHealthController::new();
        let mut step = controller.switch_to(engine);
        loop {
            match step {
                Step::Done(result) => return result,
                Step::Ask { flow, request } => {
                    let answer = self.answer(request);
                    step = controller.resume_switch(flow, answer);
                }
            }
        }
    }
}

fn world(
    preference: AsrPreference,
    qwen: Result<EngineHealth, PortError>,
    whisper: Result<EngineHealth, PortError>,
) -> World {
    World {
        settings: settings(preference),
        replace_error: None,
        qwen,
        whisper,
        preparation: Ok(()),
        activity: Some(ApplicationActivity::Idle),
        turn_is_free: true,
        health_calls: Vec::new(),
        model_calls: Vec::new(),
        settings_reads: 0,
    }
}

fn healthy_world(preference: AsrPreference) -> World {
    world(
        preference,
        Ok(EngineHealth::Healthy),
        Ok(EngineHealth::Healthy),
    )
}

fn settings(preference: AsrPreference) -> SettingsSnapshot {
    SettingsSnapshot::new(SettingsSnapshotInput {
        version: 0,
        recording_mode: RecordingMode::Toggle,
        max_recording_duration: Seconds(600),
        recording_shortcut: None,
        processing_mode: ProcessingMode::Raw,
        asr_preference: preference,
        llm: None,
        read_selected_text: false,
        clipboard_bridge_allowed: false,
        auto_copy_result: false,
        local_diagnostics_enabled: true,
        history_policy: HistoryPolicy {
            enabled: true,
            limit: 10,
            retention_days: None,
        },
    })
}

fn test_error(code: &str) -> PortError {
    PortError {
        code: code.to_owned(),
        safe_message_key: format!("errors.{code}"),
        retryable: true,
    }
}

#[test]
fn healthy_qwen_does_not_warm_whisper() {
    let mut world = healthy_world(AsrPreference::Qwen);
    let outcome = world.check().expect("health check");

    assert_eq!(outcome.qwen, Some(EngineHealth::Healthy));
    assert_eq!(outcome.whisper, None);
    assert_eq!(outcome.preference, AsrPreference::Qwen);
    assert_eq!(world.health_calls, vec![AsrEngine::Qwen]);
}

#[test]
fn unhealthy_qwen_does_not_fall_back_to_whisper() {
    let mut world = world(
        AsrPreference::Qwen,
        Ok(EngineHealth::Missing),
        Ok(EngineHealth::Healthy),
    );
    let outcome = world.check().expect("health check");

    assert_eq!(outcome.qwen, Some(EngineHealth::Missing));
    assert_eq!(outcome.whisper, None);
    assert_eq!(world.health_calls, vec![AsrEngine::Qwen]);
}

#[test]
fn whisper_selection_never_calls_qwen() {
    let mut world = world(
        AsrPreference::Whisper,
        Ok(EngineHealth::Healthy),
        Ok(EngineHealth::Incompatible),
    );
    let outcome = world.check().expect("health check");

    assert_eq!(outcome.qwen, None);
    assert_eq!(outcome.whisper, Some(EngineHealth::Incompatible));
    assert_eq!(outcome.preference, AsrPreference::Whisper);
    assert_eq!(world.health_calls, vec![AsrEngine::Whisper]);
}

#[test]
fn duplicate_check_is_rejected_before_reaching_the_worker() {
    let mut world = healthy_world(AsrPreference::Qwen);
    world.turn_is_free = false;

    assert_eq!(world.check(), Err(AsrHealthCheckError::Busy));
    assert!(world.health_calls.is_empty());
}

#[test]
fn health_port_error_is_unhealthy_without_fallback() {
    let mut world = world(
        AsrPreference::Qwen,
        Err(test_error("asr.worker_failed")),
        Ok(EngineHealth::Healthy),
    );
    let outcome = world.check().expect("health check");

    assert_eq!(outcome.qwen, Some(EngineHealth::Unhealthy));
    assert_eq!(outcome.whisper, None);
    assert_eq!(world.health_calls, vec![AsrEngine::Qwen]);
}

#[test]
fn quitting_after_the_operation_barrier_rejects_before_health() {
    let mut world = healthy_world(AsrPreference::Qwen);
    world.activity = Some(ApplicationActivity::Quitting);

    assert_eq!(world.check(), Err(AsrHealthCheckError::Quitting));
    assert!(world.health_calls.is_empty());
}

#[test]
fn an_activity_that_cannot_be_told_rejects_a_check() {
    let mut world = healthy_world(AsrPreference::Qwen);
    world.activity = None;

    assert_eq!(world.check(), Err(AsrHealthCheckError::RuntimeUnavailable));
    assert_eq!(
        world.switch_to(AsrEngine::Whisper),
        Err(AsrModelSwitchError::RuntimeUnavailable)
    );
}

#[test]
fn successful_switch_prewarms_before_persisting_the_explicit_selection() {
    let mut world = healthy_world(AsrPreference::Qwen);

    let outcome = world.switch_to(AsrEngine::Whisper).expect("model switch");

    assert_eq!(outcome.preference, AsrPreference::Whisper);
    assert_eq!(outcome.whisper, Some(EngineHealth::Healthy));
    assert_eq!(world.settings.input.asr_preference, AsrPreference::Whisper);
    assert_eq!(world.model_calls, vec![AsrEngine::Whisper]);
    assert_eq!(world.health_calls, vec![AsrEngine::Whisper]);
}

#[test]
fn missing_and_hash_mismatch_are_distinct_and_preserve_the_previous_selection() {
    for (preparation, expected) in [
        (
            AsrModelPreparationError::Missing,
            AsrModelSwitchError::Missing,
        ),
        (
            AsrModelPreparationError::HashMismatch,
            AsrModelSwitchError::HashMismatch,
        ),
    ] {
        let mut world = healthy_world(AsrPreference::Qwen);
        world.preparation = Err(preparation);

        assert_eq!(world.switch_to(AsrEngine::Whisper), Err(expected));
        assert_eq!(world.settings.input.asr_preference, AsrPreference::Qwen);
        assert!(world.health_calls.is_empty());
    }
}

#[test]
fn persistence_failure_rewarms_the_previous_model_before_returning() {
    let mut world = healthy_world(AsrPreference::Qwen);
    world.replace_error = Some(test_error("settings.write_failed"));

    assert!(matches!(
        world.switch_to(AsrEngine::Whisper),
        Err(AsrModelSwitchError::Settings(_))
    ));
    assert_eq!(world.settings.input.asr_preference, AsrPreference::Qwen);
    assert_eq!(
        world.model_calls,
        vec![AsrEngine::Whisper, AsrEngine::Qwen]
    );
    assert_eq!(
        world.health_calls,
        vec![AsrEngine::Whisper, AsrEngine::Qwen]
    );
}

#[test]
fn target_health_error_rewarms_the_previous_model_before_returning() {
    let mut world = world(
        AsrPreference::Qwen,
        Ok(EngineHealth::Healthy),
        Err(test_error("asr.worker_failed")),
    );

    assert!(matches!(
        world.switch_to(AsrEngine::Whisper),
        Err(AsrModelSwitchError::Runtime(error)) if error.code == "asr.worker_failed"
    ));
    assert_eq!(world.settings.input.asr_preference, AsrPreference::Qwen);
    assert_eq!(
        world.model_calls,
        vec![AsrEngine::Whisper, AsrEngine::Qwen]
    );
    assert_eq!(
        world.health_calls,
        vec![AsrEngine::Whisper, AsrEngine::Qwen]
    );
}

#[test]
fn active_session_blocks_switch_before_model_or_settings_access() {
    let mut world = healthy_world(AsrPreference::Qwen);
    world.activity = Some(ApplicationActivity::Busy);

    assert_eq!(
        world.switch_to(AsrEngine::Whisper),
        Err(AsrModelSwitchError::Busy)
    );
    assert!(world.health_calls.is_empty());
    assert!(world.model_calls.is_empty());
    assert_eq!(world.settings_reads, 0);
}

#[test]
fn an_unhealthy_engine_is_never_stored() {
    let mut world = world(
        AsrPreference::Qwen,
        Ok(EngineHealth::Healthy),
        Ok(EngineHealth::Incompatible),
    );

    assert!(world.switch_to(AsrEngine::Whisper).is_err());
    assert_eq!(world.settings.input.asr_preference, AsrPreference::Qwen);
    assert_eq!(world.settings.input.version, 0);
}

#[test]
fn refusals_and_preparation_failures_keep_their_kind_in_a_switch() {
    assert_eq!(
        switch_activity_error(AsrHealthCheckError::Busy),
        AsrModelSwitchError::Busy
    );
    assert_eq!(
        switch_activity_error(AsrHealthCheckError::Quitting),
        AsrModelSwitchError::Quitting
    );
    assert_eq!(
        switch_activity_error(AsrHealthCheckError::RuntimeUnavailable),
        AsrModelSwitchError::RuntimeUnavailable
    );
    assert_eq!(
        switch_activity_error(AsrHealthCheckError::Settings(test_error("settings.io"))),
        AsrModelSwitchError::Settings(test_error("settings.io"))
    );
    assert_eq!(
        switch_preparation_error(AsrModelPreparationError::Missing),
        AsrModelSwitchError::Missing
    );
    assert_eq!(
        switch_preparation_error(AsrModelPreparationError::HashMismatch),
        AsrModelSwitchError::HashMismatch
    );
}
