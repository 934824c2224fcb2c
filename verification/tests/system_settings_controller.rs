use remtene_application::configuration::{Answer, Request, Step};
use remtene_application::domain::{
    AsrPreference, HistoryPolicy, ProcessingMode, RecordingMode, Seconds, SettingsSnapshot,
    SettingsSnapshotInput,
};
use remtene_application::ports::PortError;
use remtene_application::system_settings_controller::{SystemSettingsFlow, SystemSettingsResult};
use remtene_application::{SystemSettingsController, SystemSettingsError};

/// The surroundings of the controller, as the test has set them up.
struct World {
    settings: SettingsSnapshot,
    fail_replace: bool,
    diagnostics: bool,
    active: Option<bool>,
}

fn world() -> World {
    World {
        settings: snapshot(),
        fail_replace: false,
        diagnostics: true,
        active: Some(false),
    }
}

impl World {
    fn answer(&mut self, request: Request) -> Answer {
        match request {
            Request::TakeTurn | Request::LockConfiguration => Answer::Ready,
            Request::ProbeWork => Answer::Work(self.active),
            Request::LoadSettings => Answer::Settings(Ok(self.settings.clone())),
            Request::ValidateSettings(_) => Answer::Valid(true),
            Request::ReplaceSettings {
                expected_version,
                settings,
            } => Answer::Settings(if self.fail_replace {
                self.fail_replace = false;
                Err(port_error("settings.write_failed"))
            } else if self.settings.input.version != expected_version {
                Err(port_error("settings.version_conflict"))
            } else {
                let mut input = settings.into_input();
                input.version = expected_version + 1;
                self.settings = SettingsSnapshot::new(input);
                Ok(self.settings.clone())
            }),
            Request::SetDiagnostics(enabled) => {
                self.diagnostics = enabled;
                Answer::Ready
            }
            _ => panic!("the system settings controller asks for nothing else"),
        }
    }

    fn run(
        &mut self,
        begin: Step<SystemSettingsFlow, SystemSettingsResult>,
    ) -> SystemSettingsResult {
        let controller = SystemSettingsController::new();
        let mut step = begin;
        loop {
            match step {
                Step::Done(result) => return result,
                Step::Ask { flow, request } => {
                    let answer = self.answer(request);
                    step = controller.resume(flow, answer);
                }
            }
        }
    }

    fn set_auto_copy_result(
        &mut self,
        expected_version: u64,
        enabled: bool,
    ) -> SystemSettingsResult {
        self.run(SystemSettingsController::new().set_auto_copy_result(expected_version, enabled))
    }

    fn set_local_diagnostics_enabled(
        &mut self,
        expected_version: u64,
        enabled: bool,
    ) -> SystemSettingsResult {
        self.run(
            SystemSettingsController::new()
                .set_local_diagnostics_enabled(expected_version, enabled),
        )
    }
}

fn snapshot() -> SettingsSnapshot {
    SettingsSnapshot::new(SettingsSnapshotInput {
        version: 4,
        recording_mode: RecordingMode::Toggle,
        max_recording_duration: Seconds(600),
        recording_shortcut: None,
        processing_mode: ProcessingMode::Faithful,
        asr_preference: AsrPreference::Qwen,
        llm: None,
        read_selected_text: false,
        clipboard_bridge_allowed: false,
        auto_copy_result: false,
        local_diagnostics_enabled: true,
        history_policy: HistoryPolicy {
            enabled: true,
            limit: 10,
            retention_days: None,
        },
    })
}

fn port_error(code: &str) -> PortError {
    PortError {
        code: code.to_owned(),
        safe_message_key: format!("errors.{code}"),
        retryable: false,
    }
}

#[test]
fn auto_copy_is_versioned_and_disabled_until_explicitly_enabled() {
    let mut world = world();

    assert!(!world.settings.input.auto_copy_result);
    let saved = world.set_auto_copy_result(4, true).unwrap();
    assert_eq!(saved.input.version, 5);
    assert!(saved.input.auto_copy_result);
    assert!(matches!(
        world.set_auto_copy_result(4, false),
        Err(SystemSettingsError::Port(_))
    ));
}

#[test]
fn diagnostics_switch_changes_runtime_only_after_persistence_succeeds() {
    let mut world = world();

    world.fail_replace = true;
    assert!(matches!(
        world.set_local_diagnostics_enabled(4, false),
        Err(SystemSettingsError::Port(_))
    ));
    assert!(world.diagnostics);
    assert!(world.settings.input.local_diagnostics_enabled);

    let saved = world.set_local_diagnostics_enabled(4, false).unwrap();
    assert_eq!(saved.input.version, 5);
    assert!(!saved.input.local_diagnostics_enabled);
    assert!(!world.diagnostics);
}

#[test]
fn system_settings_are_refused_while_there_is_work() {
    let mut world = world();
    world.active = Some(true);
    assert_eq!(
        world.set_auto_copy_result(4, true),
        Err(SystemSettingsError::Busy)
    );
    world.active = None;
    assert_eq!(
        world.set_local_diagnostics_enabled(4, false),
        Err(SystemSettingsError::RuntimeUnavailable)
    );
    assert_eq!(world.settings, snapshot());
    assert!(world.diagnostics);
}
