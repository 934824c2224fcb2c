use remtene_application::domain::{
    AsrEngine, AsrPreference, HistoryPolicy, ProcessingMode, RecordingMode, Seconds,
    SessionEvent, SessionId, SessionPhase, SettingsSnapshot, SettingsSnapshotInput,
    TerminalOutcome, TimestampMs, TransitionEffect,
};
use remtene_application::{
    CoordinatorError, ResolvedAsrRoute, SessionCoordinator, SessionMutation, StartSessionOutcome,
};

fn settings() -> SettingsSnapshot {
    SettingsSnapshot::new(SettingsSnapshotInput {
        version: 1,
        recording_mode: RecordingMode::Toggle,
        max_recording_duration: Seconds(600),
        recording_shortcut: None,
        processing_mode: ProcessingMode::Faithful,
        asr_preference: AsrPreference::Qwen,
        llm: None,
        read_selected_text: false,
        clipboard_bridge_allowed: false,
        auto_copy_result: false,
        local_diagnostics_enabled: true,
        history_policy: HistoryPolicy {
            enabled: true,
            limit: 10,
            retention_days: None,
        },
    })
}

#[test]
fn concurrent_starts_accept_exactly_one_session() {
    const CONTENDERS: usize = 8;
    let mut coordinator = SessionCoordinator::new();
    let mut outcomes = Vec::new();
    for contender in 0..CONTENDERS {
        outcomes.push(coordinator.try_start(
            SessionId::from_uuid(contender as u128 + 1),
            TimestampMs::new(1),
            settings(),
            ResolvedAsrRoute::new(AsrEngine::Qwen),
        ));
    }

    assert_eq!(
        outcomes
            .iter()
            .filter(|outcome| matches!(outcome, StartSessionOutcome::Accepted { .. }))
            .count(),
        1
    );
    assert_eq!(
        outcomes
            .iter()
            .filter(|outcome| matches!(outcome, StartSessionOutcome::Busy { .. }))
            .count(),
        CONTENDERS - 1
    );
}

#[test]
fn terminal_session_releases_single_flight_slot() {
    let mut coordinator = SessionCoordinator::new();
    let first_id = SessionId::from_uuid(1);
    coordinator.try_start(
        first_id,
        TimestampMs::new(1),
        settings(),
        ResolvedAsrRoute::new(AsrEngine::Qwen),
    );
    coordinator
        .apply(first_id, SessionEvent::PreflightPassed)
        .expect("preflight must advance");
    coordinator
        .apply(first_id, SessionEvent::CancelRecording)
        .expect("cancel must terminate");

    let second_id = SessionId::from_uuid(2);
    assert_eq!(
        coordinator.try_start(
            second_id,
            TimestampMs::new(2),
            settings(),
            ResolvedAsrRoute::new(AsrEngine::Whisper),
        ),
        StartSessionOutcome::Accepted {
            session_id: second_id
        }
    );
}

#[test]
fn events_for_another_session_cannot_mutate_active_session() {
    let mut coordinator = SessionCoordinator::new();
    let active_id = SessionId::from_uuid(1);
    coordinator.try_start(
        active_id,
        TimestampMs::new(1),
        settings(),
        ResolvedAsrRoute::new(AsrEngine::Qwen),
    );

    assert_eq!(
        coordinator.apply(SessionId::from_uuid(2), SessionEvent::PreflightPassed),
        Err(CoordinatorError::SessionNotFound)
    );
    assert_eq!(
        coordinator
            .active_snapshot()
            .expect("session should remain active")
            .phase(),
        SessionPhase::Preparing
    );
}

#[test]
fn resolved_asr_route_is_frozen_for_the_active_session() {
    let mut coordinator = SessionCoordinator::new();
    let session_id = SessionId::from_uuid(1);
    let route = ResolvedAsrRoute::new(AsrEngine::Qwen);

    coordinator.try_start(session_id, TimestampMs::new(1), settings(), route);

    assert_eq!(coordinator.active_asr_route(), Some(route));
    assert_eq!(
        coordinator
            .active_snapshot()
            .expect("session should remain active")
            .selected_asr_engine(),
        AsrEngine::Qwen
    );
}

#[test]
fn a_busy_start_names_the_session_in_the_way() {
    let mut coordinator = SessionCoordinator::new();
    let route = ResolvedAsrRoute::new(AsrEngine::Qwen);
    let first = SessionId::from_uuid(1);
    coordinator.try_start(first, TimestampMs::new(1), settings(), route);

    assert_eq!(
        coordinator.try_start(SessionId::from_uuid(2), TimestampMs::new(2), settings(), route),
        StartSessionOutcome::Busy {
            active_session_id: first
        }
    );
}

#[test]
fn an_event_out_of_turn_is_an_invalid_transition() {
    let mut coordinator = SessionCoordinator::new();
    let session_id = SessionId::from_uuid(1);
    coordinator.try_start(
        session_id,
        TimestampMs::new(1),
        settings(),
        ResolvedAsrRoute::new(AsrEngine::Qwen),
    );

    assert!(matches!(
        coordinator.apply(session_id, SessionEvent::FinishRecording),
        Err(CoordinatorError::InvalidTransition(_))
    ));
    assert_eq!(
        coordinator.apply(session_id, SessionEvent::PreflightPassed),
        Ok(SessionMutation {
            effect: TransitionEffect::Advanced(SessionPhase::Recording),
            terminal_outcome: None,
        })
    );
    assert_eq!(
        coordinator.apply(session_id, SessionEvent::CancelRecording),
        Ok(SessionMutation {
            effect: TransitionEffect::Terminated(TerminalOutcome::Cancelled),
            terminal_outcome: Some(TerminalOutcome::Cancelled),
        })
    );
    assert_eq!(
        coordinator.apply(session_id, SessionEvent::CancelRecording),
        Err(CoordinatorError::SessionNotFound)
    );
}
