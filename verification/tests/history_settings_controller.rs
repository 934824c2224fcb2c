use remtene_application::configuration::{Answer, Request, Step};
use remtene_application::domain::{
    AsrPreference, DeliveryId, HistoryPolicy, ProcessingMode, RecordingMode, Seconds,
    SettingsSnapshot, SettingsSnapshotInput, TimestampMs,
};
use remtene_application::history_settings_controller::{
    any_older, retention_cutoff_ms, HistorySettingsFlow, HistorySettingsResult, HISTORY_DAY_MS,
};
use remtene_application::ports::{HistoryRecord, PortError};
use remtene_application::{HistorySettingsController, HistorySettingsError};

/// The surroundings of the controller, as the test has set them up.
struct World {
    settings: SettingsSnapshot,
    acceptable: bool,
    active: Option<bool>,
    operation_open: bool,
    record_count: usize,
    enforce_calls: usize,
}

fn world(active: bool, record_count: usize) -> World {
    World {
        settings: settings(),
        acceptable: true,
        active: Some(active),
        operation_open: true,
        record_count,
        enforce_calls: 0,
    }
}

impl World {
    fn answer(&mut self, request: Request) -> Answer {
        match request {
            Request::TakeTurn | Request::LockConfiguration => Answer::Ready,
            Request::EnterApplication => Answer::Granted(self.operation_open),
            Request::ProbeWork => Answer::Work(self.active),
            Request::LoadSettings => Answer::Settings(Ok(self.settings.clone())),
            Request::ValidateSettings(_) => Answer::Valid(self.acceptable),
            Request::ReadClock => Answer::Now(TimestampMs::new(100 * HISTORY_DAY_MS)),
            Request::ListHistory => Answer::Records(Ok((0..self.record_count)
                .map(|index| HistoryRecord {
                    delivery_id: DeliveryId::from_uuid(index as u128 + 1),
                    final_text: format!("record-{index}"),
                    created_at: TimestampMs::new(index as u64),
                })
                .collect())),
            Request::ReplaceSettings {
                expected_version,
                settings,
            } => Answer::Settings(if self.settings.input.version != expected_version {
                Err(port_error("settings.version_conflict"))
            } else {
                let mut input = settings.into_input();
                input.version = expected_version + 1;
                self.settings = SettingsSnapshot::new(input);
                Ok(self.settings.clone())
            }),
            Request::EnforcePolicy(_) => {
                self.enforce_calls += 1;
                Answer::Acted(Ok(()))
            }
            _ => panic!("the history settings controller asks for nothing else"),
        }
    }

    fn run(
        &mut self,
        begin: Step<HistorySettingsFlow, HistorySettingsResult>,
    ) -> HistorySettingsResult {
        let controller = HistorySettingsController::new();
        let mut step = begin;
        loop {
            match step {
                Step::Done(result) => return result,
                Step::Ask { flow, request } => {
                    let answer = self.answer(request);
                    step = controller.resume(flow, answer);
                }
            }
        }
    }

    fn set_enabled(&mut self, expected_version: u64, enabled: bool) -> HistorySettingsResult {
        self.run(HistorySettingsController::new().set_enabled(expected_version, enabled))
    }

    fn set_limit(
        &mut self,
        expected_version: u64,
        limit: u16,
        acknowledge_data_loss: bool,
    ) -> HistorySettingsResult {
        self.run(HistorySettingsController::new().set_limit(
            expected_version,
            limit,
            acknowledge_data_loss,
        ))
    }

    fn set_retention_days(
        &mut self,
        expected_version: u64,
        retention_days: Option<u16>,
        acknowledge_data_loss: bool,
    ) -> HistorySettingsResult {
        self.run(HistorySettingsController::new().set_retention_days(
            expected_version,
            retention_days,
            acknowledge_data_loss,
        ))
    }
}

fn settings() -> SettingsSnapshot {
    SettingsSnapshot::new(SettingsSnapshotInput {
        version: 4,
        recording_mode: RecordingMode::Toggle,
        max_recording_duration: Seconds(600),
        recording_shortcut: None,
        processing_mode: ProcessingMode::Faithful,
        asr_preference: AsrPreference::Qwen,
        llm: None,
        read_selected_text: false,
        clipboard_bridge_allowed: false,
        auto_copy_result: false,
        local_diagnostics_enabled: true,
        history_policy: HistoryPolicy {
            enabled: true,
            limit: 25,
            retention_days: Some(30),
        },
    })
}

fn port_error(code: &str) -> PortError {
    PortError {
        code: code.to_owned(),
        safe_message_key: format!("errors.{code}"),
        retryable: false,
    }
}

#[test]
fn toggling_enabled_preserves_limit_and_retention() {
    let mut world = world(false, 0);
    let stored = world.set_enabled(4, false).expect("toggle history");

    assert_eq!(stored.input.version, 5);
    assert_eq!(
        stored.input.history_policy,
        HistoryPolicy {
            enabled: false,
            limit: 25,
            retention_days: Some(30),
        }
    );
}

#[test]
fn stale_version_and_active_session_fail_closed() {
    let stale = world(false, 0).set_enabled(3, false).expect_err("stale write");
    assert!(matches!(
        stale,
        HistorySettingsError::Port(PortError { code, .. })
            if code == "settings.version_conflict"
    ));

    let busy = world(true, 0)
        .set_enabled(4, false)
        .expect_err("active session");
    assert!(matches!(busy, HistorySettingsError::Busy));

    let mut quitting = world(false, 0);
    quitting.operation_open = false;
    let quitting = quitting.set_enabled(4, false).expect_err("quitting");
    assert!(matches!(quitting, HistorySettingsError::Quitting));
}

#[test]
fn lowering_limit_requires_confirmation_and_enforces_immediately() {
    let mut world = world(false, 4);

    let confirmation = world
        .set_limit(4, 2, false)
        .expect_err("trimming requires acknowledgement");
    assert!(matches!(
        confirmation,
        HistorySettingsError::ConfirmationRequired
    ));
    assert_eq!(world.enforce_calls, 0);

    let stored = world.set_limit(4, 2, true).expect("confirmed limit");
    assert_eq!(stored.input.version, 5);
    assert_eq!(stored.input.history_policy.limit, 2);
    assert_eq!(world.enforce_calls, 1);
}

#[test]
fn disabled_history_updates_limit_without_deleting_existing_records() {
    let mut world = world(false, 4);
    let disabled = world.set_enabled(4, false).expect("disable history");

    let stored = world
        .set_limit(disabled.input.version, 2, false)
        .expect("disabled policy does not trim");
    assert!(!stored.input.history_policy.enabled);
    assert_eq!(stored.input.history_policy.limit, 2);
    assert_eq!(world.enforce_calls, 0);
}

#[test]
fn retention_requires_confirmation_when_real_rows_would_expire() {
    let mut world = world(false, 2);

    let confirmation = world
        .set_retention_days(4, Some(3), false)
        .expect_err("expired rows require acknowledgement");
    assert!(matches!(
        confirmation,
        HistorySettingsError::RetentionConfirmationRequired
    ));
    assert_eq!(world.enforce_calls, 0);

    let stored = world
        .set_retention_days(4, Some(3), true)
        .expect("confirmed retention");
    assert_eq!(stored.input.history_policy.retention_days, Some(3));
    assert_eq!(world.enforce_calls, 1);
}

#[test]
fn disabling_retention_preserves_rows_without_confirmation() {
    let mut world = world(false, 2);
    let stored = world
        .set_retention_days(4, None, false)
        .expect("disabling retention is non-destructive");

    assert_eq!(stored.input.history_policy.retention_days, None);
    assert_eq!(world.enforce_calls, 0);
}

#[test]
fn a_limit_above_the_stored_count_needs_no_confirmation() {
    let mut world = world(false, 4);
    let stored = world.set_limit(4, 4, false).expect("nothing is trimmed");

    assert_eq!(stored.input.history_policy.limit, 4);
}

#[test]
fn a_policy_that_is_not_acceptable_is_not_stored() {
    let mut world = world(false, 0);
    world.acceptable = false;

    assert_eq!(
        world.set_limit(4, 0, true),
        Err(HistorySettingsError::InvalidPolicy)
    );
    assert_eq!(world.settings, settings());
}

#[test]
fn work_that_cannot_be_told_refuses_a_policy_change() {
    let mut world = world(false, 0);
    world.active = None;

    assert_eq!(
        world.set_enabled(4, false),
        Err(HistorySettingsError::RuntimeUnavailable)
    );
}

#[test]
fn the_retention_cutoff_counts_days_back_and_stops_at_zero() {
    assert_eq!(
        retention_cutoff_ms(TimestampMs::new(100 * HISTORY_DAY_MS), 3),
        97 * HISTORY_DAY_MS
    );
    assert_eq!(retention_cutoff_ms(TimestampMs::new(HISTORY_DAY_MS), 2), 0);
}

#[test]
fn a_record_at_the_cutoff_is_not_older() {
    let records = vec![HistoryRecord {
        delivery_id: DeliveryId::from_uuid(1),
        final_text: "text".to_owned(),
        created_at: TimestampMs::new(10),
    }];

    assert!(!any_older(&records, 10));
    assert!(any_older(&records, 11));
    assert!(!any_older(&Vec::new(), 11));
}
