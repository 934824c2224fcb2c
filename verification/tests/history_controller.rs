use remtene_application::configuration::{Answer, Request, Step};
use remtene_application::domain::{
    AsrPreference, DeliveryId, HistoryPolicy, ProcessingMode, RecordingMode, Seconds,
    SettingsSnapshot, SettingsSnapshotInput, TimestampMs,
};
use remtene_application::history_controller::{
    validated_records, HistoryFlow, HistoryOutcome, HistoryResult,
};
use remtene_application::lifecycle::{CommitGuard, LifecycleFence};
use remtene_application::ports::{HistoryRecord, PortError};
use remtene_application::{HistoryController, HistoryError};

/// The surroundings of the controller, as the test has set them up.
struct World {
    records: Result<Vec<HistoryRecord>, PortError>,
    active: Option<bool>,
    operation_open: bool,
    list_calls: usize,
    clear_calls: usize,
    enforce_calls: usize,
    writes: Vec<String>,
}

fn world(records: Vec<HistoryRecord>, active: bool) -> World {
    World {
        records: Ok(records),
        active: Some(active),
        operation_open: true,
        list_calls: 0,
        clear_calls: 0,
        enforce_calls: 0,
        writes: Vec::new(),
    }
}

impl World {
    fn answer(&mut self, request: Request) -> Answer {
        match request {
            Request::TakeTurn | Request::LockConfiguration => Answer::Ready,
            Request::EnterApplication => Answer::Granted(self.operation_open),
            Request::ProbeWork => Answer::Work(self.active),
            Request::LoadSettings => Answer::Settings(Ok(settings())),
            Request::EnforcePolicy(_) => {
                self.enforce_calls += 1;
                Answer::Acted(Ok(()))
            }
            Request::ListHistory => {
                self.list_calls += 1;
                Answer::Records(self.records.clone())
            }
            Request::ClearHistory => {
                self.clear_calls += 1;
                self.records = Ok(Vec::new());
                Answer::Acted(Ok(()))
            }
            Request::WriteClipboard(text) => {
                self.writes.push(text);
                Answer::Acted(Ok(()))
            }
            _ => panic!("the history controller asks for nothing else"),
        }
    }

    fn run(
        &mut self,
        controller: HistoryController,
        begin: Step<HistoryFlow, HistoryResult>,
    ) -> HistoryResult {
        let mut step = begin;
        loop {
            match step {
                Step::Done(result) => return result,
                Step::Ask { flow, request } => {
                    let answer = self.answer(request);
                    step = controller.resume(flow, answer);
                }
            }
        }
    }

    fn list(&mut self) -> Result<Vec<HistoryRecord>, HistoryError> {
        let controller = HistoryController::new();
        listed(self.run(controller, controller.list()))
    }

    fn copy(&mut self, record_id: DeliveryId) -> Result<(), HistoryError> {
        let controller = HistoryController::new();
        match self.run(controller, controller.copy(record_id)) {
            Ok(HistoryOutcome::Copied) => Ok(()),
            Ok(_) => panic!("a copy copies"),
            Err(error) => Err(error),
        }
    }

    fn clear_all(&mut self) -> Result<usize, HistoryError> {
        let controller = HistoryController::new();
        match self.run(controller, controller.clear_all()) {
            Ok(HistoryOutcome::Cleared(count)) => Ok(count),
            Ok(_) => panic!("a clearing clears"),
            Err(error) => Err(error),
        }
    }
}

fn listed(result: HistoryResult) -> Result<Vec<HistoryRecord>, HistoryError> {
    match result {
        Ok(HistoryOutcome::Listed(records)) => Ok(records),
        Ok(_) => panic!("a listing lists"),
        Err(error) => Err(error),
    }
}

fn settings() -> SettingsSnapshot {
    SettingsSnapshot::new(SettingsSnapshotInput {
        version: 1,
        recording_mode: RecordingMode::Toggle,
        max_recording_duration: Seconds(600),
        recording_shortcut: None,
        processing_mode: ProcessingMode::Faithful,
        asr_preference: AsrPreference::Qwen,
        llm: None,
        read_selected_text: false,
        clipboard_bridge_allowed: false,
        auto_copy_result: false,
        local_diagnostics_enabled: true,
        history_policy: HistoryPolicy {
            enabled: true,
            limit: 10,
            retention_days: None,
        },
    })
}

fn id(value: u128) -> DeliveryId {
    DeliveryId::from_uuid(value)
}

fn record(id: DeliveryId, text: &str, created_at_ms: u64) -> HistoryRecord {
    HistoryRecord {
        delivery_id: id,
        final_text: text.to_owned(),
        created_at: TimestampMs::new(created_at_ms),
    }
}

#[test]
fn list_sorts_newest_first_with_stable_opaque_id_tiebreaker() {
    let older = id(3);
    let tied_a = id(1);
    let tied_b = id(2);
    let mut world = world(
        vec![
            record(tied_a, "同一时间 A", 2_000),
            record(older, "较早", 1_000),
            record(tied_b, "同一时间 B", 2_000),
        ],
        false,
    );

    let records = world.list().expect("history list");

    assert_eq!(records.len(), 3);
    assert_eq!(records[2].delivery_id, older);
    assert_eq!(records[0].created_at, TimestampMs::new(2_000));
    assert_eq!(records[1].created_at, TimestampMs::new(2_000));
    assert!(
        records[0].delivery_id.as_uuid() > records[1].delivery_id.as_uuid(),
        "equal timestamps must sort by opaque ID descending"
    );
    assert_eq!(world.list_calls, 1);
}

#[test]
fn unavailable_is_not_reported_as_an_empty_history() {
    let mut world = world(Vec::new(), false);
    let controller = HistoryController::unavailable();
    let error = listed(world.run(controller, controller.list()))
        .expect_err("unsupported history must remain explicit");

    assert_eq!(error, HistoryError::Unavailable);
}

#[test]
fn store_failure_and_invalid_content_fail_closed() {
    let port_error = PortError {
        code: "history.read_failed".to_owned(),
        safe_message_key: "errors.history.io".to_owned(),
        retryable: true,
    };
    let mut failing = world(Vec::new(), false);
    failing.records = Err(port_error.clone());
    assert_eq!(
        failing.list().expect_err("store failure"),
        HistoryError::Port(port_error)
    );

    for invalid_records in [vec![record(id(1), "   ", 1)], {
        let duplicate = id(2);
        vec![
            record(duplicate, "第一条", 1),
            record(duplicate, "重复标识", 2),
        ]
    }] {
        let mut invalid = world(invalid_records, false);
        assert_eq!(
            invalid.list().expect_err("invalid history record"),
            HistoryError::InvalidRecord
        );
    }
}

#[test]
fn copy_resolves_exact_current_record_and_stale_id_never_writes() {
    let first_id = id(1);
    let selected_id = id(2);
    let mut world = world(
        vec![
            record(first_id, "第一条", 2_000),
            record(selected_id, "需要复制的完整文字", 2_000),
        ],
        false,
    );

    world.copy(selected_id).expect("copy current record");
    assert_eq!(world.writes.as_slice(), ["需要复制的完整文字"]);

    let stale_error = world.copy(id(3)).expect_err("stale row must fail closed");
    assert_eq!(stale_error, HistoryError::RecordStale);
    assert_eq!(world.writes.len(), 1);
}

#[test]
fn copy_is_busy_during_active_work_and_never_reads_or_writes() {
    let selected_id = id(1);
    let mut world = world(vec![record(selected_id, "不得复制", 1)], true);

    assert_eq!(
        world
            .copy(selected_id)
            .expect_err("active Session must serialize against history copy"),
        HistoryError::Busy
    );
    assert_eq!(world.list_calls, 0);
    assert!(world.writes.is_empty());
}

#[test]
fn quitting_rejects_new_copy_and_clear_without_mutation() {
    let selected_id = id(1);
    let mut world = world(vec![record(selected_id, "保留", 1)], false);
    world.operation_open = false;

    assert_eq!(
        world
            .list()
            .expect_err("retention-aware list cannot start after quiescing"),
        HistoryError::Quitting
    );
    assert_eq!(
        world
            .copy(selected_id)
            .expect_err("copy cannot start after quiescing"),
        HistoryError::Quitting
    );
    assert_eq!(
        world
            .clear_all()
            .expect_err("clear cannot start after quiescing"),
        HistoryError::Quitting
    );
    assert_eq!(world.list_calls, 0);
    assert_eq!(world.clear_calls, 0);
    assert!(world.writes.is_empty());
}

#[test]
fn copy_holds_session_gate_and_exit_guard_through_clipboard_commit() {
    let selected_id = id(1);
    let mut world = world(vec![record(selected_id, "完整正文", 1)], false);
    let mut application_fence = LifecycleFence::new();
    let mut entered: Option<CommitGuard> = None;
    let mut gate_held = false;

    // Everything up to the clipboard write, with what the copy takes on the way.
    let controller = HistoryController::new();
    let mut step = controller.copy(selected_id);
    let flow = loop {
        match step {
            Step::Done(_) => panic!("copy should reach clipboard commit"),
            Step::Ask { flow, request } => {
                let answer = match request {
                    Request::WriteClipboard(text) => {
                        assert_eq!(text, "完整正文");
                        break flow;
                    }
                    Request::EnterApplication => {
                        entered = application_fence.begin_commit();
                        Answer::Granted(entered.is_some())
                    }
                    Request::LockConfiguration => {
                        gate_held = true;
                        Answer::Ready
                    }
                    Request::ReleaseConfiguration => {
                        gate_held = false;
                        Answer::Ready
                    }
                    other => world.answer(other),
                };
                step = controller.resume(flow, answer);
            }
        }
    };

    let (exit_wait, due) = application_fence.invalidate_and_wait();
    assert!(due.is_empty());
    assert!(
        !exit_wait.poll(&mut application_fence, 7),
        "exit must wait while clipboard mutation is in progress"
    );
    assert!(
        gate_held,
        "a new Session cannot cross the configuration gate during copy"
    );

    match controller.resume(flow, Answer::Acted(Ok(()))) {
        Step::Done(Ok(HistoryOutcome::Copied)) => {}
        _ => panic!("copy should succeed"),
    }
    let due = application_fence.end_commit(entered.expect("the copy had entered"));
    assert_eq!(due, vec![7], "exit guard should drain after copy");
    assert!(exit_wait.poll(&mut application_fence, 7));
}

#[test]
fn clear_is_busy_during_active_work_and_reports_the_removed_count_when_idle() {
    let mut busy = world(vec![record(id(1), "保留", 1)], true);
    assert_eq!(
        busy.clear_all().expect_err("active Session"),
        HistoryError::Busy
    );
    assert_eq!(busy.list_calls, 0);
    assert_eq!(busy.clear_calls, 0);

    let mut idle = world(vec![record(id(2), "一", 1), record(id(3), "二", 2)], false);
    assert_eq!(idle.clear_all().expect("clear succeeds"), 2);
    assert_eq!(idle.clear_calls, 1);
    assert!(idle.list().expect("empty after clear").is_empty());
    assert_eq!(idle.clear_all().expect("idempotent clear"), 0);
}

#[test]
fn a_listing_with_settings_enforces_the_policy_first() {
    let mut world = world(vec![record(id(1), "text", 1)], false);
    let controller = HistoryController::new_with_settings();

    let records = listed(world.run(controller, controller.list())).expect("history list");

    assert_eq!(records, vec![record(id(1), "text", 1)]);
    assert_eq!(world.enforce_calls, 1);
}

#[test]
fn work_that_cannot_be_told_refuses_a_copy() {
    let mut world = world(vec![record(id(1), "text", 1)], false);
    world.active = None;

    assert_eq!(world.copy(id(1)), Err(HistoryError::RuntimeUnavailable));
    assert!(world.writes.is_empty());
}

#[test]
fn validation_keeps_every_record_exactly_once() {
    let shown = validated_records(vec![
        record(id(5), "five", 10),
        record(id(9), "nine", 30),
        record(id(7), "seven", 10),
    ])
    .expect("presentable records");

    assert_eq!(
        shown,
        vec![
            record(id(9), "nine", 30),
            record(id(7), "seven", 10),
            record(id(5), "five", 10),
        ]
    );
}
