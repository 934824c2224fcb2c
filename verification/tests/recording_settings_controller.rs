use remtene_application::configuration::{Answer, Request, Step};
use remtene_application::domain::{
    AsrPreference, HistoryPolicy, ProcessingMode, RecordingMode, RecordingShortcut, Seconds,
    SettingsSnapshot, SettingsSnapshotInput,
};
use remtene_application::ports::PortError;
use remtene_application::recording_settings_controller::{
    RecordingSettingsFlow, RecordingSettingsResult,
};
use remtene_application::{
    RecordingSettingsController, RecordingSettingsError, RECORDING_DURATION_OPTIONS_SECONDS,
};

/// The surroundings of the controller, as the test has set them up.
struct World {
    settings: SettingsSnapshot,
    fail_replace: bool,
    fail_next_binding: bool,
    active: Option<bool>,
    acceptable: bool,
    bindings: Vec<(Option<String>, Option<String>)>,
}

fn world(shortcut: Option<&str>) -> World {
    World {
        settings: snapshot(shortcut),
        fail_replace: false,
        fail_next_binding: false,
        active: Some(false),
        acceptable: true,
        bindings: Vec::new(),
    }
}

fn accelerator(shortcut: &Option<RecordingShortcut>) -> Option<String> {
    shortcut.as_ref().map(|value| value.as_str().to_owned())
}

impl World {
    fn answer(&mut self, request: Request) -> Answer {
        match request {
            Request::TakeTurn | Request::LockConfiguration => Answer::Ready,
            Request::ProbeWork => Answer::Work(self.active),
            Request::LoadSettings => Answer::Settings(Ok(self.settings.clone())),
            Request::ValidateSettings(_) => Answer::Valid(self.acceptable),
            Request::ReplaceSettings {
                expected_version,
                settings,
            } => Answer::Settings(if self.fail_replace {
                self.fail_replace = false;
                Err(port_error("settings.write_failed"))
            } else if self.settings.input.version != expected_version {
                Err(port_error("settings.version_conflict"))
            } else {
                let mut input = settings.into_input();
                input.version = expected_version + 1;
                self.settings = SettingsSnapshot::new(input);
                Ok(self.settings.clone())
            }),
            Request::ReplaceBinding { previous, next } => {
                self.bindings
                    .push((accelerator(&previous), accelerator(&next)));
                Answer::Acted(if self.fail_next_binding {
                    self.fail_next_binding = false;
                    Err(port_error("shortcut.register_failed"))
                } else {
                    Ok(())
                })
            }
            _ => panic!("the recording settings controller asks for nothing else"),
        }
    }

    fn run(
        &mut self,
        begin: Step<RecordingSettingsFlow, RecordingSettingsResult>,
    ) -> RecordingSettingsResult {
        let controller = RecordingSettingsController::new();
        let mut step = begin;
        loop {
            match step {
                Step::Done(result) => return result,
                Step::Ask { flow, request } => {
                    let answer = self.answer(request);
                    step = controller.resume(flow, answer);
                }
            }
        }
    }

    fn set_recording_preferences(
        &mut self,
        expected_version: u64,
        mode: RecordingMode,
        seconds: u64,
    ) -> RecordingSettingsResult {
        self.run(RecordingSettingsController::new().set_recording_preferences(
            expected_version,
            mode,
            seconds,
        ))
    }

    fn set_recording_shortcut(
        &mut self,
        expected_version: u64,
        shortcut: &str,
    ) -> RecordingSettingsResult {
        self.run(RecordingSettingsController::new().set_recording_shortcut(
            expected_version,
            Some(RecordingShortcut::new(shortcut.to_owned())),
        ))
    }
}

fn snapshot(shortcut: Option<&str>) -> SettingsSnapshot {
    SettingsSnapshot::new(SettingsSnapshotInput {
        version: 4,
        recording_mode: RecordingMode::Toggle,
        max_recording_duration: Seconds(600),
        recording_shortcut: shortcut.map(|value| RecordingShortcut::new(value.to_owned())),
        processing_mode: ProcessingMode::Faithful,
        asr_preference: AsrPreference::Qwen,
        llm: None,
        read_selected_text: false,
        clipboard_bridge_allowed: false,
        auto_copy_result: false,
        local_diagnostics_enabled: true,
        history_policy: HistoryPolicy {
            enabled: true,
            limit: 10,
            retention_days: None,
        },
    })
}

fn port_error(code: &str) -> PortError {
    PortError {
        code: code.to_owned(),
        safe_message_key: format!("errors.{code}"),
        retryable: false,
    }
}

#[test]
fn recording_preferences_accept_only_the_four_product_options() {
    let mut world = world(None);

    let saved = world
        .set_recording_preferences(4, RecordingMode::PushToTalk, 1_200)
        .unwrap();
    assert_eq!(saved.input.version, 5);
    assert_eq!(saved.input.recording_mode, RecordingMode::PushToTalk);
    assert_eq!(saved.input.max_recording_duration, Seconds(1_200));

    assert!(matches!(
        world.set_recording_preferences(5, RecordingMode::Toggle, 61),
        Err(RecordingSettingsError::InvalidDuration)
    ));
}

#[test]
fn shortcut_registration_failure_does_not_change_persisted_settings() {
    let mut world = world(None);
    world.fail_next_binding = true;

    let error = world
        .set_recording_shortcut(4, "Command+Shift+KeyR")
        .unwrap_err();

    assert!(matches!(error, RecordingSettingsError::Port(_)));
    assert!(world.settings.input.recording_shortcut.is_none());
    assert_eq!(world.bindings.len(), 1);
}

#[test]
fn unchanged_persisted_shortcut_can_be_re_registered_without_version_bump() {
    let mut world = world(Some("Command+Shift+KeyR"));

    let saved = world
        .set_recording_shortcut(4, "Command+Shift+KeyR")
        .unwrap();

    assert_eq!(saved.input.version, 4);
    assert_eq!(world.bindings.len(), 1);
}

#[test]
fn persistence_failure_rolls_the_system_binding_back() {
    let mut world = world(Some("Command+Shift+KeyR"));
    world.fail_replace = true;

    let error = world
        .set_recording_shortcut(4, "Command+Shift+KeyT")
        .unwrap_err();

    assert!(matches!(error, RecordingSettingsError::Port(_)));
    assert_eq!(world.bindings.len(), 2);
    assert_eq!(world.bindings[0].1.as_deref(), Some("Command+Shift+KeyT"));
    assert_eq!(world.bindings[1].1.as_deref(), Some("Command+Shift+KeyR"));
    assert_eq!(
        accelerator(&world.settings.input.recording_shortcut).as_deref(),
        Some("Command+Shift+KeyR")
    );
}

#[test]
fn a_stored_shortcut_is_bound_and_bumps_the_version() {
    let mut world = world(None);

    let saved = world
        .set_recording_shortcut(4, "Command+Shift+KeyR")
        .unwrap();

    assert_eq!(saved.input.version, 5);
    assert_eq!(
        world.bindings,
        vec![(None, Some("Command+Shift+KeyR".to_owned()))]
    );
}

#[test]
fn recording_settings_are_refused_while_there_is_work() {
    let mut world = world(None);
    world.active = Some(true);
    assert_eq!(
        world.set_recording_preferences(4, RecordingMode::Toggle, 300),
        Err(RecordingSettingsError::Busy)
    );
    world.active = None;
    assert_eq!(
        world.set_recording_shortcut(4, "Command+Shift+KeyR"),
        Err(RecordingSettingsError::RuntimeUnavailable)
    );
    assert!(world.bindings.is_empty());
}

#[test]
fn a_shortcut_that_is_not_acceptable_is_not_bound() {
    let mut world = world(None);
    world.acceptable = false;

    assert_eq!(
        world.set_recording_shortcut(4, "Command"),
        Err(RecordingSettingsError::InvalidShortcut)
    );
    assert!(world.bindings.is_empty());
}

#[test]
fn a_stale_recording_change_is_a_version_conflict() {
    let mut world = world(None);

    assert!(matches!(
        world.set_recording_preferences(3, RecordingMode::Toggle, 300),
        Err(RecordingSettingsError::Port(PortError { code, .. }))
            if code == "settings.version_conflict"
    ));
}

#[test]
fn the_duration_options_are_three_to_twenty_minutes() {
    assert_eq!(RECORDING_DURATION_OPTIONS_SECONDS, [180, 300, 600, 1_200]);
}
