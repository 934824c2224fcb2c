//! The dictation workflow, driven step by step against surroundings that are
//! under the control of the test.

use std::collections::HashMap;

use remtene_application::domain::{
    AsrEngine, AsrPreference, DeliveryId, FailureCategory, HistoryPolicy, IntentDecision,
    LlmNonSecretSettings, ProcessingMode, RecordingMode, RejectReason, RequestId, Seconds,
    SessionId, SettingsSnapshot, SettingsSnapshotInput, TerminalOutcome, TimestampMs,
};
use remtene_application::lifecycle::{CommitGuard, LifecycleFence};
use remtene_application::orchestrator::cancel::{CancelFlow, CancelResult};
use remtene_application::orchestrator::deliver::FinishEnd;
use remtene_application::orchestrator::exit::ExitAttempt;
use remtene_application::orchestrator::finish::FinishFlow;
use remtene_application::orchestrator::limit::limit_diagnostic;
use remtene_application::orchestrator::prepare::{
    begin_preparation, engine_to_check, PrepareFlow, PrepareResult,
};
use remtene_application::orchestrator::protocol::{Command, Effect, Next, Progress, Reply};
use remtene_application::orchestrator::quit::{QuitFlow, QuitResult, QuitStart};
use remtene_application::orchestrator::retry::RetryResult;
use remtene_application::orchestrator::start::{StartFlow, StartResult};
use remtene_application::orchestrator::state::ApplicationActivity;
use remtene_application::ports::{
    AsrRequest, AsrResult, AudioCaptureRef, AudioFormat, AudioRef, CapturedTarget,
    DiagnosticEvent, EngineHealth, FinalizedAudio, HistoryRecord, InsertOutcome,
    LlmRouteCandidate, LlmRouteResolution, MicrophoneAccess, PortError, RecordingCue,
    RecordingDeadlineGuard, RecordingHudState, ResolvedLlmRoute, SelectionSnapshot,
    TargetDisplayHint, TargetRevalidation, TargetSecurity, TargetSnapshotRef,
    TemporaryTextStatus, TextProcessingRequest, TextProcessingResult, UserDirectedPasteOutcome,
    UserNotificationKind, ValidatedTargetRef, ASR_NO_SPEECH_CODE, AUDIO_EMPTY_CAPTURE_CODE,
};
use remtene_application::{
    AudioCleanupOutcome, CancelOutcome, DeliveryKind, DirectDeliveryReason, FinalizationWarning,
    FinishOutcome, OrchestratorError, QuitOutcome, StartOutcome, TranscriptionOrchestrator,
};

#[derive(Clone)]
enum AsrBehavior {
    Success(String),
    Failure(PortError),
}

#[derive(Clone)]
enum LlmBehavior {
    Success(String),
    CorrelationMismatch(String),
    Failure(PortError),
}

#[derive(Clone)]
struct MockConfig {
    settings: SettingsSnapshot,
    target: Result<CapturedTarget, PortError>,
    selection: Result<SelectionSnapshot, PortError>,
    clipboard_selection: Result<SelectionSnapshot, PortError>,
    microphone_access: Result<MicrophoneAccess, PortError>,
    qwen_health: EngineHealth,
    whisper_health: EngineHealth,
    audio_finish: Result<(), PortError>,
    recording_cue: Result<(), PortError>,
    audio_cancel_failures_remaining: usize,
    audio_cleanup_failures_remaining: usize,
    recording_deadline: Result<(), PortError>,
    recording_hud_show: Result<(), PortError>,
    recording_hud_update: Result<(), PortError>,
    recording_hud_terminal: Result<(), PortError>,
    recording_hud_hide: Result<(), PortError>,
    user_notification: Result<(), PortError>,
    asr_behavior: AsrBehavior,
    llm_route_error: Option<PortError>,
    llm_behavior: LlmBehavior,
    revalidation: Result<TargetRevalidation, PortError>,
    insert: Result<InsertOutcome, PortError>,
    clipboard_insert: Result<InsertOutcome, PortError>,
    user_directed_paste: Result<UserDirectedPasteOutcome, PortError>,
    temporary_text: Result<(), PortError>,
    clipboard_write: Result<(), PortError>,
    history_save: Result<(), PortError>,
    history_policy: Result<(), PortError>,
}

impl MockConfig {
    fn faithful() -> Self {
        Self {
            settings: settings(ProcessingMode::Faithful, true, true),
            target: Ok(target(TargetSecurity::Safe, true)),
            selection: Ok(SelectionSnapshot {
                text: Some("context".to_owned()),
                anchor_normalized_to_end: true,
                exceeded_limit: false,
            }),
            clipboard_selection: Ok(SelectionSnapshot {
                text: Some("clipboard context".to_owned()),
                anchor_normalized_to_end: true,
                exceeded_limit: false,
            }),
            microphone_access: Ok(MicrophoneAccess::Granted),
            qwen_health: EngineHealth::Healthy,
            whisper_health: EngineHealth::Healthy,
            audio_finish: Ok(()),
            recording_cue: Ok(()),
            audio_cancel_failures_remaining: 0,
            audio_cleanup_failures_remaining: 0,
            recording_deadline: Ok(()),
            recording_hud_show: Ok(()),
            recording_hud_update: Ok(()),
            recording_hud_terminal: Ok(()),
            recording_hud_hide: Ok(()),
            user_notification: Ok(()),
            asr_behavior: AsrBehavior::Success("raw text".to_owned()),
            llm_route_error: None,
            llm_behavior: LlmBehavior::Success("clean text".to_owned()),
            revalidation: Ok(TargetRevalidation::Valid(ValidatedTargetRef::new(
                "valid".to_owned(),
            ))),
            insert: Ok(InsertOutcome::Inserted),
            clipboard_insert: Ok(InsertOutcome::Inserted),
            user_directed_paste: Ok(UserDirectedPasteOutcome::Dispatched),
            temporary_text: Ok(()),
            clipboard_write: Ok(()),
            history_save: Ok(()),
            history_policy: Ok(()),
        }
    }
}

#[derive(Clone, Default)]
struct MockCalls {
    target_captures: usize,
    selection_reads: usize,
    target_revalidations: usize,
    clipboard_selection_reads: usize,
    clipboard_insert_attempts: usize,
    clipboard_inserted_texts: Vec<String>,
    user_directed_paste_attempts: usize,
    user_directed_pasted_texts: Vec<String>,
    microphone_permission_requests: usize,
    health_checks: usize,
    audio_starts: usize,
    audio_finishes: usize,
    audio_cancels: usize,
    audio_cleanups: usize,
    recording_cues: Vec<RecordingCue>,
    recording_lifecycle_events: Vec<&'static str>,
    recording_hud_shows: Vec<(SessionId, RecordingHudState)>,
    recording_hud_show_hints: Vec<Option<TargetDisplayHint>>,
    recording_hud_updates: Vec<(SessionId, RecordingHudState)>,
    recording_hud_terminals: Vec<(SessionId, TerminalOutcome)>,
    recording_hud_hides: Vec<SessionId>,
    user_notifications: Vec<(SessionId, UserNotificationKind)>,
    presentation_events: Vec<&'static str>,
    asr_requests: Vec<AsrRequest>,
    asr_cancels: usize,
    llm_route_resolutions: usize,
    llm_routes: Vec<ResolvedLlmRoute>,
    llm_requests: Vec<TextProcessingRequest>,
    llm_cancels: usize,
    insert_attempts: usize,
    inserted_texts: Vec<String>,
    temporary_texts: Vec<String>,
    temporary_text_statuses: Vec<TemporaryTextStatus>,
    clipboard_written_texts: Vec<String>,
    history_save_attempts: usize,
    history_records: Vec<HistoryRecord>,
    history_policy_enforcements: usize,
    diagnostics: Vec<DiagnosticEvent>,
    traces: Vec<DiagnosticEvent>,
    deadlines_stopped: Vec<u64>,
    session_marks: usize,
}

/// A workflow that stands still at a command.
struct Paused<F> {
    flow: F,
    command: Command,
    guard: Option<CommitGuard>,
}

/// A workflow that stands still, or its result.
enum Until<F, T> {
    Paused(Paused<F>),
    Done(T),
}

impl<F, T> Until<F, T> {
    fn paused(self) -> Paused<F> {
        match self {
            Until::Paused(paused) => paused,
            Until::Done(_) => panic!("the workflow ended before the expected command"),
        }
    }

    fn done(self) -> T {
        match self {
            Until::Done(result) => result,
            Until::Paused(_) => panic!("the workflow did not end"),
        }
    }
}

/// What a request to quit came to.
enum Quitting {
    Leading { attempt: u64, until: Until<QuitFlow, QuitResult> },
    Following { attempt: u64 },
    Completed(QuitOutcome),
}

struct Harness {
    orchestrator: TranscriptionOrchestrator,
    config: MockConfig,
    calls: MockCalls,
    fences: HashMap<u128, LifecycleFence>,
    attempts: HashMap<u64, ExitAttempt>,
    next_id: u128,
    next_deadline: u64,
}

fn never(_: &Command) -> bool {
    false
}

impl Harness {
    fn fresh_id(&mut self) -> u128 {
        self.next_id += 1;
        self.next_id
    }

    fn apply(&mut self, effects: Vec<Effect>) {
        for effect in effects {
            match effect {
                Effect::OpenLifecycle(session_id) => {
                    self.fences.insert(session_id.0, LifecycleFence::new());
                }
                Effect::InvalidateLifecycle(session_id) => {
                    if let Some(fence) = self.fences.get_mut(&session_id.0) {
                        let _ = fence.invalidate();
                    }
                }
                Effect::CancelDeadline(guard) => self.calls.deadlines_stopped.push(guard.deadline),
                Effect::ReleaseConfigurationGate => {}
                Effect::MarkSession => self.calls.session_marks += 1,
                Effect::Record(diagnostic) => self.calls.diagnostics.push(diagnostic.event()),
                Effect::Trace(decision) => self.calls.traces.push(decision.event()),
            }
        }
    }

    fn begin_commit(&mut self, session_id: SessionId) -> Option<CommitGuard> {
        self.fences
            .get_mut(&session_id.0)
            .and_then(|fence| fence.begin_commit())
    }

    fn end_commit(&mut self, session_id: SessionId, guard: CommitGuard) {
        if let Some(fence) = self.fences.get_mut(&session_id.0) {
            let _ = fence.end_commit(guard);
        }
    }

    /// Carries out a command. `None` where the command waits for something that
    /// has not happened yet.
    fn perform(&mut self, command: Command) -> Option<Reply> {
        Some(match command {
            Command::AcquireConfigurationGate => Reply::Ready,
            Command::LoadSettings => Reply::Settings(Ok(self.config.settings.clone())),
            Command::ResolveLlmRoute(candidate) => {
                Reply::LlmRoute(self.resolve_llm_route(candidate))
            }
            Command::CaptureTarget => {
                self.calls.target_captures += 1;
                Reply::Target(self.config.target.clone())
            }
            Command::ReadSelection(_) => {
                self.calls.selection_reads += 1;
                Reply::Selection(self.config.selection.clone())
            }
            Command::ReadSelectionViaClipboard(_) => {
                self.calls.clipboard_selection_reads += 1;
                Reply::Selection(self.config.clipboard_selection.clone())
            }
            Command::RequestMicrophone => {
                self.calls.microphone_permission_requests += 1;
                Reply::Microphone(self.config.microphone_access.clone())
            }
            Command::PrepareRecording {
                session_id,
                display_hint,
                limit,
                preference,
            } => {
                let recording = self
                    .prepare_until(session_id, display_hint, limit, never)
                    .done();
                self.check_and_resolve(session_id, preference, recording)
            }
            Command::ReadClock => Reply::Now(TimestampMs::new(100)),
            Command::FinishRecording(session_id) => {
                Reply::Finished(self.finish_recording(session_id))
            }
            Command::PlayCue(cue) => {
                self.calls.recording_cues.push(cue);
                self.calls.recording_lifecycle_events.push(match cue {
                    RecordingCue::Start => "cue_start",
                    RecordingCue::Finish => "cue_finish",
                    RecordingCue::Cancel => "cue_cancel",
                });
                Reply::Acted(self.config.recording_cue.clone())
            }
            Command::StartAudio(_) => {
                self.calls.audio_starts += 1;
                self.calls.recording_lifecycle_events.push("audio_start");
                Reply::Capture(Ok(AudioCaptureRef::new("capture".to_owned())))
            }
            Command::ScheduleDeadline { .. } => {
                self.next_deadline += 1;
                let deadline = self.next_deadline;
                Reply::Deadline(
                    self.config
                        .recording_deadline
                        .clone()
                        .map(|()| RecordingDeadlineGuard::new(deadline)),
                )
            }
            Command::ShowHud {
                session_id,
                state,
                display_hint,
                limit: _,
            } => {
                self.calls.recording_hud_shows.push((session_id, state));
                self.calls.recording_hud_show_hints.push(display_hint);
                Reply::Acted(self.config.recording_hud_show.clone())
            }
            Command::UpdateHud(session_id, state) => {
                self.calls.recording_hud_updates.push((session_id, state));
                Reply::Acted(self.config.recording_hud_update.clone())
            }
            Command::PublishTerminal(session_id, outcome) => {
                self.calls.recording_hud_terminals.push((session_id, outcome));
                self.calls.presentation_events.push("terminal");
                Reply::Acted(self.config.recording_hud_terminal.clone())
            }
            Command::HideHud(session_id) => {
                self.calls.recording_hud_hides.push(session_id);
                self.calls.presentation_events.push("hide");
                Reply::Acted(self.config.recording_hud_hide.clone())
            }
            Command::Notify(session_id, kind) => {
                self.calls.user_notifications.push((session_id, kind));
                self.calls.presentation_events.push("notification");
                Reply::Acted(self.config.user_notification.clone())
            }
            Command::CheckEngine(engine) => Reply::Health(Ok(self.check_engine(engine))),
            Command::FinishAudio(_) => {
                self.calls.audio_finishes += 1;
                self.calls.recording_lifecycle_events.push("audio_finish");
                Reply::Audio(self.config.audio_finish.clone().map(|()| FinalizedAudio {
                    audio_ref: AudioRef::new("audio".to_owned()),
                    format: AudioFormat {
                        sample_rate_hz: 16_000,
                        channels: 1,
                        bits_per_sample: 16,
                    },
                    duration_ms: 1_000,
                }))
            }
            Command::CancelCapture(_) => {
                self.calls.audio_cancels += 1;
                self.calls.recording_lifecycle_events.push("audio_cancel");
                Reply::Acted(if self.config.audio_cancel_failures_remaining == 0 {
                    Ok(())
                } else {
                    self.config.audio_cancel_failures_remaining -= 1;
                    Err(retryable_port_error("audio_cancel_failed"))
                })
            }
            Command::CleanupAudio(_) => {
                self.calls.audio_cleanups += 1;
                Reply::Acted(if self.config.audio_cleanup_failures_remaining == 0 {
                    Ok(())
                } else {
                    self.config.audio_cleanup_failures_remaining -= 1;
                    Err(retryable_port_error("audio_cleanup_failed"))
                })
            }
            Command::IssueRequestId => Reply::Request(RequestId::from_uuid(self.fresh_id())),
            Command::IssueDeliveryId => Reply::Delivery(DeliveryId::from_uuid(self.fresh_id())),
            Command::Transcribe(request) => {
                self.calls.asr_requests.push(request.clone());
                Reply::Transcript(match self.config.asr_behavior.clone() {
                    AsrBehavior::Success(final_text) => Ok(AsrResult {
                        session_id: request.session_id,
                        request_id: request.request_id,
                        engine: request.engine,
                        final_text,
                        detected_language: Some("zh".to_owned()),
                        inference_duration_ms: 10,
                    }),
                    AsrBehavior::Failure(error) => Err(error),
                })
            }
            Command::CancelTranscription(_) => {
                self.calls.asr_cancels += 1;
                Reply::Acted(Ok(()))
            }
            Command::ProcessText { route, request } => {
                self.calls.llm_routes.push(route);
                self.calls.llm_requests.push(request.clone());
                let result = match self.config.llm_behavior.clone() {
                    LlmBehavior::Success(final_text) => Ok(TextProcessingResult {
                        session_id: request.session_id,
                        request_id: request.request_id,
                        intent: IntentDecision::Dictation,
                        final_text,
                    }),
                    LlmBehavior::CorrelationMismatch(final_text) => Ok(TextProcessingResult {
                        session_id: SessionId::from_uuid(self.fresh_id()),
                        request_id: RequestId::from_uuid(self.fresh_id()),
                        intent: IntentDecision::Dictation,
                        final_text,
                    }),
                    LlmBehavior::Failure(error) => Err(error),
                };
                Reply::Text {
                    result,
                    elapsed_ms: 5,
                }
            }
            Command::CancelProcessing(_) => {
                self.calls.llm_cancels += 1;
                Reply::Acted(Ok(()))
            }
            Command::Revalidate(_) => {
                self.calls.target_revalidations += 1;
                Reply::Revalidation(self.config.revalidation.clone())
            }
            Command::Insert {
                text, lifecycle, ..
            } => {
                self.calls.insert_attempts += 1;
                Reply::Insertion(match self.begin_commit(lifecycle) {
                    None => Err(port_error("lifecycle_invalidated")),
                    Some(guard) => {
                        let result = self.config.insert.clone();
                        if matches!(result, Ok(InsertOutcome::Inserted)) {
                            self.calls.inserted_texts.push(text);
                        }
                        self.end_commit(lifecycle, guard);
                        result
                    }
                })
            }
            Command::PasteAtTarget {
                text, lifecycle, ..
            } => {
                self.calls.clipboard_insert_attempts += 1;
                Reply::Insertion(match self.begin_commit(lifecycle) {
                    None => Err(port_error("lifecycle_invalidated")),
                    Some(guard) => {
                        let result = self.config.clipboard_insert.clone();
                        if matches!(result, Ok(InsertOutcome::Inserted)) {
                            self.calls.clipboard_inserted_texts.push(text);
                        }
                        self.end_commit(lifecycle, guard);
                        result
                    }
                })
            }
            Command::PasteAtFocus {
                text, lifecycle, ..
            } => {
                self.calls.user_directed_paste_attempts += 1;
                Reply::Paste(match self.begin_commit(lifecycle) {
                    None => Err(port_error("lifecycle_invalidated")),
                    Some(guard) => {
                        let result = self.config.user_directed_paste.clone();
                        if matches!(result, Ok(UserDirectedPasteOutcome::Dispatched)) {
                            self.calls.user_directed_pasted_texts.push(text);
                        }
                        self.end_commit(lifecycle, guard);
                        result
                    }
                })
            }
            Command::ShowTemporaryText {
                text,
                status,
                lifecycle,
                ..
            } => Reply::Acted(match self.config.temporary_text.clone() {
                Err(error) => Err(error),
                Ok(()) => match self.begin_commit(lifecycle) {
                    None => Err(port_error("lifecycle_invalidated")),
                    Some(guard) => {
                        self.calls.temporary_texts.push(text);
                        self.calls.temporary_text_statuses.push(status);
                        self.end_commit(lifecycle, guard);
                        Ok(())
                    }
                },
            }),
            Command::WriteClipboard(text) => {
                Reply::Acted(self.config.clipboard_write.clone().map(|()| {
                    self.calls.clipboard_written_texts.push(text);
                }))
            }
            Command::SaveHistory {
                record, lifecycle, ..
            } => {
                self.calls.history_save_attempts += 1;
                Reply::Acted(
                    match (
                        self.config.history_save.clone(),
                        self.config.history_policy.clone(),
                    ) {
                        (Err(error), _) | (_, Err(error)) => Err(error),
                        (Ok(()), Ok(())) => match self.begin_commit(lifecycle) {
                            None => Err(port_error("lifecycle_invalidated")),
                            Some(guard) => {
                                self.calls.history_records.push(record);
                                self.calls.history_policy_enforcements += 1;
                                self.end_commit(lifecycle, guard);
                                Ok(())
                            }
                        },
                    },
                )
            }
            Command::AwaitOperations => {
                if self.orchestrator.poll_operations(1) {
                    Reply::Ready
                } else {
                    return None;
                }
            }
            Command::AwaitLifecycle(session_id) => match self.fences.get_mut(&session_id.0) {
                Some(fence) => {
                    let quiescence = fence.wait_quiescent();
                    if quiescence.poll(fence, 1) {
                        Reply::Ready
                    } else {
                        return None;
                    }
                }
                None => Reply::Ready,
            },
        })
    }

    fn resolve_llm_route(&mut self, candidate: Option<LlmRouteCandidate>) -> LlmRouteResolution {
        self.calls.llm_route_resolutions += 1;
        if let Some(error) = self.config.llm_route_error.clone() {
            return LlmRouteResolution::Unavailable { route: None, error };
        }
        match candidate {
            None => LlmRouteResolution::NoConfiguration,
            Some(candidate) => LlmRouteResolution::Ready(ResolvedLlmRoute::new(
                "primary".to_owned(),
                format!(
                    "{}/chat/completions",
                    candidate.base_url().trim_end_matches('/')
                ),
                candidate.model().to_owned(),
                "llm.openai_compatible.test-fingerprint".to_owned(),
            )),
        }
    }

    fn check_engine(&mut self, engine: AsrEngine) -> EngineHealth {
        self.calls.health_checks += 1;
        match engine {
            AsrEngine::Qwen => self.config.qwen_health,
            AsrEngine::Whisper => self.config.whisper_health,
        }
    }

    /// The health check that runs beside the preparation, and what both came to.
    fn check_and_resolve(
        &mut self,
        session_id: SessionId,
        preference: AsrPreference,
        recording: PrepareResult,
    ) -> Reply {
        let health = match engine_to_check(preference) {
            Command::CheckEngine(engine) => self.check_engine(engine),
            _ => unreachable!("only an engine is checked"),
        };
        let (asr_route, effects) =
            self.orchestrator
                .resolve_route(session_id, preference, Ok(health));
        self.apply(effects);
        Reply::Prepared {
            recording,
            asr_route,
        }
    }

    fn leave(&mut self, guard: Option<CommitGuard>) {
        if let Some(guard) = guard {
            let _ = self.orchestrator.leave_operation(guard);
        }
    }

    fn prepare_until(
        &mut self,
        session_id: SessionId,
        display_hint: Option<TargetDisplayHint>,
        limit: Seconds,
        stop: fn(&Command) -> bool,
    ) -> Until<PrepareFlow, PrepareResult> {
        let (flow, command) = begin_preparation(session_id, display_hint, limit);
        self.prepare_on(
            Paused {
                flow,
                command,
                guard: None,
            },
            stop,
        )
    }

    fn prepare_on(
        &mut self,
        paused: Paused<PrepareFlow>,
        stop: fn(&Command) -> bool,
    ) -> Until<PrepareFlow, PrepareResult> {
        let Paused {
            mut flow,
            mut command,
            guard,
        } = paused;
        loop {
            if stop(&command) {
                return Until::Paused(Paused {
                    flow,
                    command,
                    guard,
                });
            }
            let reply = self.perform(command).expect("a preparation never waits");
            match self.prepare_reply(flow, reply) {
                Next::Await {
                    flow: after,
                    command: next,
                } => {
                    flow = after;
                    command = next;
                }
                Next::Done(result) => return Until::Done(result),
            }
        }
    }

    fn prepare_reply(
        &mut self,
        flow: PrepareFlow,
        reply: Reply,
    ) -> Next<PrepareFlow, PrepareResult> {
        let progress = self.orchestrator.resume_preparation(flow, reply);
        self.apply(progress.effects);
        progress.next
    }

    fn start_until(&mut self, stop: fn(&Command) -> bool) -> Until<StartFlow, StartResult> {
        let session_id = SessionId::from_uuid(self.fresh_id());
        let entered = self.orchestrator.start(session_id);
        self.start_on(entered.guard, entered.progress, stop)
    }

    fn start_on(
        &mut self,
        guard: Option<CommitGuard>,
        progress: Progress<StartFlow, StartResult>,
        stop: fn(&Command) -> bool,
    ) -> Until<StartFlow, StartResult> {
        let mut progress = progress;
        loop {
            self.apply(progress.effects);
            match progress.next {
                Next::Done(result) => {
                    self.leave(guard);
                    return Until::Done(result);
                }
                Next::Await { flow, command } => {
                    if stop(&command) {
                        return Until::Paused(Paused {
                            flow,
                            command,
                            guard,
                        });
                    }
                    let reply = self.perform(command).expect("a start never waits");
                    progress = self.orchestrator.resume_start(flow, reply);
                }
            }
        }
    }

    fn start_reply(&mut self, paused: Paused<StartFlow>, reply: Reply) -> StartResult {
        let progress = self.orchestrator.resume_start(paused.flow, reply);
        self.start_on(paused.guard, progress, never).done()
    }

    fn start(&mut self) -> StartResult {
        self.start_until(never).done()
    }

    fn finish_until(
        &mut self,
        session_id: SessionId,
        stop: fn(&Command) -> bool,
    ) -> Until<FinishFlow, FinishEnd> {
        let entered = self.orchestrator.finish_recording(session_id);
        self.finish_on(entered.guard, entered.progress, stop)
    }

    fn finish_on(
        &mut self,
        guard: Option<CommitGuard>,
        progress: Progress<FinishFlow, FinishEnd>,
        stop: fn(&Command) -> bool,
    ) -> Until<FinishFlow, FinishEnd> {
        let mut progress = progress;
        loop {
            self.apply(progress.effects);
            match progress.next {
                Next::Done(end) => {
                    self.leave(guard);
                    return Until::Done(end);
                }
                Next::Await { flow, command } => {
                    if stop(&command) {
                        return Until::Paused(Paused {
                            flow,
                            command,
                            guard,
                        });
                    }
                    let reply = self.perform(command).expect("a finish never waits");
                    progress = self.orchestrator.resume_finish(flow, reply);
                }
            }
        }
    }

    fn finish_reply(
        &mut self,
        paused: Paused<FinishFlow>,
        reply: Reply,
    ) -> Result<FinishOutcome, OrchestratorError> {
        let progress = self.orchestrator.resume_finish(paused.flow, reply);
        self.finish_on(paused.guard, progress, never)
            .done()
            .into_result()
    }

    /// Carries out the command at which a finish stands still, and the rest.
    fn finish_released(
        &mut self,
        paused: Paused<FinishFlow>,
    ) -> Result<FinishOutcome, OrchestratorError> {
        let reply = self
            .perform(paused.command.clone())
            .expect("a finish never waits");
        self.finish_reply(paused, reply)
    }

    fn finish_recording(
        &mut self,
        session_id: SessionId,
    ) -> Result<FinishOutcome, OrchestratorError> {
        self.finish_until(session_id, never).done().into_result()
    }

    fn cancel_until(
        &mut self,
        session_id: SessionId,
        stop: fn(&Command) -> bool,
    ) -> Until<CancelFlow, CancelResult> {
        let entered = self.orchestrator.cancel_recording(session_id);
        self.cancel_on(entered.guard, entered.progress, stop)
    }

    fn cancel_on(
        &mut self,
        guard: Option<CommitGuard>,
        progress: Progress<CancelFlow, CancelResult>,
        stop: fn(&Command) -> bool,
    ) -> Until<CancelFlow, CancelResult> {
        let mut progress = progress;
        loop {
            self.apply(progress.effects);
            match progress.next {
                Next::Done(result) => {
                    self.leave(guard);
                    return Until::Done(result);
                }
                Next::Await { flow, command } => {
                    if stop(&command) {
                        return Until::Paused(Paused {
                            flow,
                            command,
                            guard,
                        });
                    }
                    let reply = self.perform(command).expect("a cancellation never waits");
                    progress = self.orchestrator.resume_cancel(flow, reply);
                }
            }
        }
    }

    fn cancel_reply(&mut self, paused: Paused<CancelFlow>, reply: Reply) -> CancelResult {
        let progress = self.orchestrator.resume_cancel(paused.flow, reply);
        self.cancel_on(paused.guard, progress, never).done()
    }

    fn cancel_released(&mut self, paused: Paused<CancelFlow>) -> CancelResult {
        let reply = self
            .perform(paused.command.clone())
            .expect("a cancellation never waits");
        self.cancel_reply(paused, reply)
    }

    fn cancel_recording(&mut self, session_id: SessionId) -> CancelResult {
        self.cancel_until(session_id, never).done()
    }

    fn retry_audio_cleanup(&mut self, session_id: SessionId) -> RetryResult {
        let entered = self.orchestrator.retry_audio_cleanup(session_id);
        let mut progress = entered.progress;
        loop {
            self.apply(progress.effects);
            match progress.next {
                Next::Done(result) => {
                    self.leave(entered.guard);
                    return result;
                }
                Next::Await { flow, command } => {
                    let reply = self.perform(command).expect("a retry never waits");
                    progress = self.orchestrator.resume_retry(flow, reply);
                }
            }
        }
    }

    fn recording_limit_elapsed(&mut self, session_id: SessionId) {
        if self.orchestrator.mark_recording_limit(session_id) {
            let finished = self.finish_recording(session_id);
            if let Some(diagnostic) = limit_diagnostic(session_id, &finished) {
                self.calls.diagnostics.push(diagnostic.event());
            }
        }
    }

    fn quit_until(&mut self, stop: fn(&Command) -> bool) -> Quitting {
        match self.orchestrator.quit() {
            QuitStart::Completed(outcome) => Quitting::Completed(outcome),
            QuitStart::Following { attempt } => Quitting::Following { attempt },
            QuitStart::Leading {
                attempt, progress, ..
            } => {
                self.attempts.insert(attempt, ExitAttempt::new());
                let until = self.quit_on(attempt, progress, stop);
                Quitting::Leading { attempt, until }
            }
        }
    }

    /// Goes on until the exit is over, stands at a command, or has to wait.
    fn quit_on(
        &mut self,
        attempt: u64,
        progress: Progress<QuitFlow, QuitResult>,
        stop: fn(&Command) -> bool,
    ) -> Until<QuitFlow, QuitResult> {
        let mut progress = progress;
        loop {
            self.apply(progress.effects);
            match progress.next {
                Next::Done(result) => {
                    let shared = self.attempts.get_mut(&attempt).expect("a known attempt");
                    let _ = shared.complete(result.clone());
                    return Until::Done(result);
                }
                Next::Await { flow, command } => {
                    if stop(&command) {
                        return Until::Paused(Paused {
                            flow,
                            command,
                            guard: None,
                        });
                    }
                    match self.perform(command.clone()) {
                        Some(reply) => progress = self.orchestrator.resume_quit(flow, reply),
                        None => {
                            return Until::Paused(Paused {
                                flow,
                                command,
                                guard: None,
                            });
                        }
                    }
                }
            }
        }
    }

    fn quit_reply(
        &mut self,
        attempt: u64,
        paused: Paused<QuitFlow>,
        reply: Reply,
    ) -> Until<QuitFlow, QuitResult> {
        let progress = self.orchestrator.resume_quit(paused.flow, reply);
        self.quit_on(attempt, progress, never)
    }

    /// Carries out the command at which an exit stands still, and the rest as far
    /// as it goes.
    fn quit_released(
        &mut self,
        attempt: u64,
        paused: Paused<QuitFlow>,
    ) -> Until<QuitFlow, QuitResult> {
        match self.perform(paused.command.clone()) {
            Some(reply) => self.quit_reply(attempt, paused, reply),
            None => Until::Paused(paused),
        }
    }

    /// What a follower hears of an attempt so far.
    fn heard(&mut self, attempt: u64) -> Option<QuitResult> {
        self.attempts
            .get_mut(&attempt)
            .expect("a known attempt")
            .poll(7)
    }

    fn quit(&mut self) -> QuitResult {
        match self.quit_until(never) {
            Quitting::Leading { until, .. } => until.done(),
            Quitting::Completed(outcome) => Ok(outcome),
            Quitting::Following { .. } => panic!("nobody else is quitting"),
        }
    }
}

fn harness(config: MockConfig) -> Harness {
    Harness {
        orchestrator: TranscriptionOrchestrator::new(),
        config,
        calls: MockCalls::default(),
        fences: HashMap::new(),
        attempts: HashMap::new(),
        next_id: 0,
        next_deadline: 0,
    }
}

fn start_session(h: &mut Harness) -> SessionId {
    match h.start().expect("start should not violate invariants") {
        StartOutcome::Started { session_id } => session_id,
        outcome => panic!("expected started session, got {outcome:?}"),
    }
}

fn settings(
    processing_mode: ProcessingMode,
    llm_configured: bool,
    history_enabled: bool,
) -> SettingsSnapshot {
    settings_with_clipboard(processing_mode, llm_configured, history_enabled, false)
}

fn settings_with_clipboard(
    processing_mode: ProcessingMode,
    llm_configured: bool,
    history_enabled: bool,
    clipboard_bridge_allowed: bool,
) -> SettingsSnapshot {
    SettingsSnapshot::new(SettingsSnapshotInput {
        version: 1,
        recording_mode: RecordingMode::Toggle,
        max_recording_duration: Seconds(600),
        recording_shortcut: None,
        processing_mode,
        asr_preference: AsrPreference::Qwen,
        llm: if llm_configured {
            Some(LlmNonSecretSettings::new(
                "https://provider.invalid/v1".to_owned(),
                "model".to_owned(),
            ))
        } else {
            None
        },
        read_selected_text: true,
        clipboard_bridge_allowed,
        auto_copy_result: false,
        local_diagnostics_enabled: true,
        history_policy: HistoryPolicy {
            enabled: history_enabled,
            limit: 10,
            retention_days: None,
        },
    })
}

fn target(security: TargetSecurity, has_selection: bool) -> CapturedTarget {
    CapturedTarget {
        target_ref: TargetSnapshotRef::new("target".to_owned()),
        security,
        has_selection,
        display_hint: None,
    }
}

fn port_error(code: &str) -> PortError {
    PortError {
        code: code.to_owned(),
        safe_message_key: format!("error.{code}"),
        retryable: false,
    }
}

fn retryable_port_error(code: &str) -> PortError {
    PortError {
        retryable: true,
        ..port_error(code)
    }
}

fn is_preparation(command: &Command) -> bool {
    matches!(command, Command::PrepareRecording { .. })
}

fn is_audio_start(command: &Command) -> bool {
    matches!(command, Command::StartAudio(_))
}

fn is_capture_cancel(command: &Command) -> bool {
    matches!(command, Command::CancelCapture(_))
}

fn is_transcription(command: &Command) -> bool {
    matches!(command, Command::Transcribe(_))
}

fn is_transcription_cancel(command: &Command) -> bool {
    matches!(command, Command::CancelTranscription(_))
}

fn is_processing(command: &Command) -> bool {
    matches!(command, Command::ProcessText { .. })
}

fn is_processing_cancel(command: &Command) -> bool {
    matches!(command, Command::CancelProcessing(_))
}

fn is_insertion(command: &Command) -> bool {
    matches!(command, Command::Insert { .. })
}

fn is_temporary_text(command: &Command) -> bool {
    matches!(command, Command::ShowTemporaryText { .. })
}

fn is_history_save(command: &Command) -> bool {
    matches!(command, Command::SaveHistory { .. })
}

fn preparation_of(
    command: &Command,
) -> (SessionId, Option<TargetDisplayHint>, Seconds, AsrPreference) {
    match command {
        Command::PrepareRecording {
            session_id,
            display_hint,
            limit,
            preference,
        } => (*session_id, *display_hint, *limit, *preference),
        _ => panic!("expected the preparation of a recording"),
    }
}

/// A start whose recording is prepared while the health check is still open.
struct PendingHealth {
    start: Paused<StartFlow>,
    session_id: SessionId,
    preference: AsrPreference,
    recording: PrepareResult,
}

fn start_with_pending_health(h: &mut Harness) -> PendingHealth {
    let start = h.start_until(is_preparation).paused();
    let (session_id, display_hint, limit, preference) = preparation_of(&start.command);
    let recording = h
        .prepare_until(session_id, display_hint, limit, never)
        .done();
    PendingHealth {
        start,
        session_id,
        preference,
        recording,
    }
}

fn release_health(h: &mut Harness, pending: PendingHealth) -> StartResult {
    let prepared = h.check_and_resolve(pending.session_id, pending.preference, pending.recording);
    h.start_reply(pending.start, prepared)
}

/// Begins an exit that stands still at a command.
fn quitting_until(h: &mut Harness, stop: fn(&Command) -> bool) -> (u64, Paused<QuitFlow>) {
    match h.quit_until(stop) {
        Quitting::Leading { attempt, until } => (attempt, until.paused()),
        _ => panic!("nobody else is quitting"),
    }
}

/// Begins an exit that has to wait for what is still running.
fn quitting_and_waiting(h: &mut Harness) -> (u64, Paused<QuitFlow>) {
    quitting_until(h, never)
}

/// Asks to quit while somebody else is quitting.
fn following(h: &mut Harness) -> u64 {
    match h.quit_until(never) {
        Quitting::Following { attempt } => attempt,
        _ => panic!("somebody else is quitting"),
    }
}

#[test]
fn faithful_flow_runs_all_stages_and_saves_only_final_text() {
    let mut config = MockConfig::faithful();
    config.target = Ok(CapturedTarget {
        display_hint: Some(TargetDisplayHint { x: -900, y: 420 }),
        ..target(TargetSecurity::Safe, true)
    });
    let mut h = harness(config);
    let session_id = start_session(&mut h);

    let outcome = h.finish_recording(session_id)
        .expect("faithful flow should not violate orchestration invariants");

    let FinishOutcome::Completed(completion) = outcome else {
        panic!("expected completion, got {outcome:?}");
    };
    assert_eq!(completion.final_text, "clean text");
    assert_eq!(completion.delivery, DeliveryKind::Inserted);
    assert_eq!(completion.direct_delivery_reason, None);
    assert!(completion.warnings.is_empty());

    let calls = h.calls.clone();
    assert_eq!(calls.selection_reads, 1);
    assert_eq!(calls.asr_requests.len(), 1);
    assert_eq!(calls.llm_requests.len(), 1);
    assert_eq!(
        calls.llm_requests[0].selected_text.as_deref(),
        Some("context")
    );
    assert_eq!(calls.audio_cleanups, 1);
    assert_eq!(calls.inserted_texts, vec!["clean text"]);
    assert!(calls.temporary_texts.is_empty());
    assert_eq!(calls.history_records.len(), 1);
    assert_eq!(calls.history_records[0].final_text, "clean text");
    assert_eq!(calls.history_policy_enforcements, 1);
    assert_eq!(
        calls.recording_hud_shows,
        vec![(session_id, RecordingHudState::Preparing)]
    );
    assert_eq!(
        calls.recording_hud_show_hints,
        vec![Some(TargetDisplayHint { x: -900, y: 420 })]
    );
    assert_eq!(
        calls.recording_hud_updates,
        vec![
            (session_id, RecordingHudState::Recording),
            (session_id, RecordingHudState::Recognizing),
            (session_id, RecordingHudState::Processing),
            (session_id, RecordingHudState::Delivering),
            (session_id, RecordingHudState::Finalizing),
            (session_id, RecordingHudState::Completed),
        ]
    );
    assert_eq!(
        calls.recording_hud_terminals,
        vec![(session_id, TerminalOutcome::Completed)]
    );
    assert_eq!(calls.recording_hud_hides, vec![session_id]);
}

#[test]
fn recording_limit_uses_the_normal_finish_path_and_submits_only_once() {
    let mut h = harness(MockConfig::faithful());
    let session_id = start_session(&mut h);

    h.recording_limit_elapsed(session_id);
    assert_eq!(
        h.finish_recording(session_id)
            .expect("a simultaneous manual finish remains typed"),
        FinishOutcome::NotRecording
    );

    let calls = h.calls.clone();
    assert_eq!(calls.audio_finishes, 1);
    assert_eq!(calls.asr_requests.len(), 1);
    assert_eq!(calls.llm_requests.len(), 1);
    assert_eq!(calls.inserted_texts, vec!["clean text"]);
    assert_eq!(calls.history_records.len(), 1);
}

#[test]
fn recording_cues_wrap_microphone_ownership_in_the_expected_order() {
    let mut h = harness(MockConfig::faithful());
    let session_id = start_session(&mut h);

    let outcome = h.finish_recording(session_id)
        .expect("finish should remain valid");
    assert!(matches!(outcome, FinishOutcome::Completed(_)));

    let calls = h.calls.clone();
    assert_eq!(
        calls.recording_cues,
        vec![RecordingCue::Start, RecordingCue::Finish]
    );
    assert_eq!(
        calls.recording_lifecycle_events,
        vec!["cue_start", "audio_start", "audio_finish", "cue_finish"]
    );
}

#[test]
fn user_cancellation_plays_cancel_cue_only_after_capture_closes() {
    let mut h = harness(MockConfig::faithful());
    let session_id = start_session(&mut h);

    assert_eq!(
        h.cancel_recording(session_id).expect("cancel"),
        CancelOutcome::Cancelled
    );
    let calls = h.calls.clone();
    assert_eq!(
        calls.recording_cues,
        vec![RecordingCue::Start, RecordingCue::Cancel]
    );
    assert_eq!(
        calls.recording_lifecycle_events,
        vec!["cue_start", "audio_start", "audio_cancel", "cue_cancel"]
    );
}

#[test]
fn cue_failure_is_diagnostic_only_and_never_blocks_the_workflow() {
    let mut config = MockConfig::faithful();
    config.recording_cue = Err(port_error("recording_cue.play_failed"));
    let mut h = harness(config);
    let session_id = start_session(&mut h);

    let outcome = h.finish_recording(session_id)
        .expect("cue failure is best effort");
    assert!(matches!(outcome, FinishOutcome::Completed(_)));
    assert_eq!(h.calls.clone().recording_cues.len(), 2);
    assert_eq!(
        h.calls.clone()
            .diagnostics
            .iter()
            .filter(|event| event.error_code.as_deref() == Some("recording_cue.play_failed"))
            .count(),
        2
    );
}

#[test]
fn a_completed_session_does_not_block_the_next_one() {
    // Single-flight bounds concurrency, not lifetime: once a dictation completes, the
    // next trigger must run the whole chain again.
    let mut config = MockConfig::faithful();
    config.settings = settings(ProcessingMode::Raw, false, true);
    let mut h = harness(config);

    let first = start_session(&mut h);
    let first_outcome = h.finish_recording(first)
        .expect("first dictation should not violate orchestration invariants");
    assert!(
        matches!(first_outcome, FinishOutcome::Completed(_)),
        "expected the first dictation to complete, got {first_outcome:?}"
    );

    let second = match h.start()
        .expect("second start should not violate invariants")
    {
        StartOutcome::Started { session_id } => session_id,
        outcome => panic!("a completed session must not keep the slot: {outcome:?}"),
    };
    assert_ne!(first, second, "each dictation gets a fresh session");

    let second_outcome = h.finish_recording(second)
        .expect("second dictation should not violate orchestration invariants");
    let FinishOutcome::Completed(completion) = second_outcome else {
        panic!("expected the second dictation to complete, got {second_outcome:?}");
    };
    assert_eq!(completion.final_text, "raw text");

    let calls = h.calls.clone();
    assert_eq!(calls.asr_requests.len(), 2, "both dictations reach ASR");
    assert_eq!(
        calls.inserted_texts,
        vec!["raw text", "raw text"],
        "both dictations deliver their text"
    );
    assert_eq!(calls.audio_cleanups, 2, "neither dictation leaks its audio");
}

#[test]
fn raw_mode_bypasses_selection_and_llm_and_can_disable_history() {
    let mut config = MockConfig::faithful();
    config.settings = settings(ProcessingMode::Raw, true, false);
    let mut h = harness(config);
    let session_id = start_session(&mut h);

    let outcome =
        h.finish_recording(session_id).expect("raw flow should be valid");
    let FinishOutcome::Completed(completion) = outcome else {
        panic!("expected completion, got {outcome:?}");
    };

    assert_eq!(
        completion.direct_delivery_reason,
        Some(DirectDeliveryReason::RawMode)
    );
    let calls = h.calls.clone();
    assert_eq!(calls.selection_reads, 0);
    assert_eq!(
        calls.llm_route_resolutions, 0,
        "raw mode must not inspect Provider configuration or SecretStore"
    );
    assert!(calls.llm_requests.is_empty());
    assert!(calls.history_records.is_empty());
    assert_eq!(calls.history_policy_enforcements, 0);
    assert_eq!(
        calls.recording_hud_updates,
        vec![
            (session_id, RecordingHudState::Recording),
            (session_id, RecordingHudState::Recognizing),
            (session_id, RecordingHudState::Delivering),
            (session_id, RecordingHudState::Finalizing),
            (session_id, RecordingHudState::Completed),
        ]
    );
}

#[test]
fn missing_api_delivers_asr_without_reading_selection_or_calling_llm() {
    let mut config = MockConfig::faithful();
    config.settings = settings(ProcessingMode::Faithful, false, true);
    let mut h = harness(config);
    let session_id = start_session(&mut h);

    let outcome = h.finish_recording(session_id)
        .expect("missing API is a supported direct-delivery route");
    let FinishOutcome::Completed(completion) = outcome else {
        panic!("expected completion, got {outcome:?}");
    };

    assert_eq!(completion.final_text, "raw text");
    assert_eq!(
        completion.direct_delivery_reason,
        Some(DirectDeliveryReason::LlmNotConfigured)
    );
    let calls = h.calls.clone();
    assert_eq!(calls.selection_reads, 0);
    assert!(calls.llm_requests.is_empty());
    assert_eq!(calls.inserted_texts, vec!["raw text"]);
    assert_eq!(calls.clipboard_selection_reads, 0);
    assert_eq!(calls.clipboard_insert_attempts, 0);
}

#[test]
fn unavailable_llm_route_preserves_raw_text_in_temporary_output() {
    let mut config = MockConfig::faithful();
    config.llm_route_error = Some(retryable_port_error("llm.secret_unavailable"));
    let mut h = harness(config);
    let session_id = start_session(&mut h);

    let outcome = h.finish_recording(session_id)
        .expect("unavailable LLM route should preserve the local transcript");
    let FinishOutcome::Completed(completion) = outcome else {
        panic!("expected fallback completion, got {outcome:?}");
    };

    assert_eq!(completion.final_text, "raw text");
    assert_eq!(completion.delivery, DeliveryKind::TemporaryText);
    assert_eq!(
        completion.direct_delivery_reason,
        Some(DirectDeliveryReason::LlmUnavailable)
    );
    let calls = h.calls.clone();
    assert_eq!(calls.llm_route_resolutions, 1);
    assert_eq!(calls.selection_reads, 0);
    assert!(calls.llm_requests.is_empty());
    assert!(calls.inserted_texts.is_empty());
    assert_eq!(
        calls.temporary_text_statuses,
        vec![TemporaryTextStatus::LlmFallback]
    );
}

#[test]
fn resolved_llm_route_is_frozen_for_the_active_session() {
    let mut h = harness(MockConfig::faithful());
    let session_id = start_session(&mut h);

    let current = h.config.settings.clone();
    let mut changed = current.into_input();
    changed.llm = Some(LlmNonSecretSettings::new(
        "https://changed.invalid/v1".to_owned(),
        "changed-model".to_owned(),
    ));
    h.config.settings = SettingsSnapshot::new(changed);

    let outcome = h.finish_recording(session_id)
        .expect("a settings change must not reroute an active session");
    assert!(matches!(outcome, FinishOutcome::Completed(_)));

    let calls = h.calls.clone();
    assert_eq!(calls.llm_routes.len(), 1);
    assert_eq!(
        calls.llm_routes[0].endpoint(),
        "https://provider.invalid/v1/chat/completions"
    );
    assert_eq!(calls.llm_routes[0].model(), "model");
}

#[test]
fn secure_input_uses_user_directed_paste_without_reading_selection() {
    let mut config = MockConfig::faithful();
    config.settings = settings_with_clipboard(ProcessingMode::Faithful, true, true, true);
    config.target = Ok(target(TargetSecurity::SecureInput, true));
    let mut h = harness(config);
    let session_id = start_session(&mut h);

    let outcome = h.finish_recording(session_id)
        .expect("user owns the secure input focus under compatibility mode");
    let FinishOutcome::Completed(completion) = outcome else {
        panic!("expected user-directed completion, got {outcome:?}");
    };

    assert_eq!(completion.delivery, DeliveryKind::ClipboardBridge);
    let calls = h.calls.clone();
    assert_eq!(calls.audio_starts, 1);
    assert_eq!(calls.microphone_permission_requests, 1);
    assert_eq!(calls.selection_reads, 0);
    assert_eq!(calls.user_directed_paste_attempts, 1);
    assert_eq!(calls.user_directed_pasted_texts, vec!["clean text"]);
    assert!(calls.inserted_texts.is_empty());
    assert!(calls.temporary_texts.is_empty());
    assert_eq!(calls.history_records.len(), 1);
}

#[test]
fn oversized_selection_is_rejected_without_recording() {
    let mut config = MockConfig::faithful();
    config.selection = Ok(SelectionSnapshot {
        text: Some("too much context".to_owned()),
        anchor_normalized_to_end: true,
        exceeded_limit: true,
    });
    let mut h = harness(config);

    assert_eq!(
        h.start().expect("selection rejection should be deterministic"),
        StartOutcome::Rejected(RejectReason::SelectionTooLong)
    );
    let calls = h.calls.clone();
    assert_eq!(calls.selection_reads, 1);
    assert_eq!(calls.audio_starts, 0);
    assert_eq!(calls.health_checks, 0);
    assert!(calls.user_notifications.is_empty());
}

#[test]
fn selection_permission_failure_does_not_claim_microphone_is_disabled() {
    let mut config = MockConfig::faithful();
    config.selection = Err(port_error("selection_permission_unavailable"));
    let mut h = harness(config);

    assert_eq!(
        h.start().expect("selection rejection should remain typed"),
        StartOutcome::Rejected(RejectReason::PermissionUnavailable)
    );
    let calls = h.calls.clone();
    assert_eq!(calls.selection_reads, 1);
    assert_eq!(calls.microphone_permission_requests, 0);
    assert!(calls.user_notifications.is_empty());
}

#[test]
fn unavailable_asr_cancels_parallel_recording_without_downstream_effects() {
    let mut config = MockConfig::faithful();
    config.qwen_health = EngineHealth::Unhealthy;
    config.whisper_health = EngineHealth::Missing;
    let mut h = harness(config);

    assert_eq!(
        h.start().expect("ASR rejection should be deterministic"),
        StartOutcome::Rejected(RejectReason::AsrUnavailable)
    );
    let calls = h.calls.clone();
    assert_eq!(calls.health_checks, 1);
    assert_eq!(calls.microphone_permission_requests, 1);
    assert_eq!(calls.audio_starts, 1);
    assert_eq!(calls.audio_cancels, 1);
    assert_eq!(calls.audio_finishes, 0);
    assert_eq!(calls.recording_hud_shows.len(), 1);
    assert_eq!(calls.recording_hud_shows[0].1, RecordingHudState::Preparing);
    assert!(calls.recording_hud_updates.is_empty());
    assert_eq!(calls.recording_hud_hides.len(), 1);
    assert!(calls.asr_requests.is_empty());
    assert!(calls.llm_requests.is_empty());
    assert!(calls.inserted_texts.is_empty());
    assert!(calls.history_records.is_empty());
    assert_eq!(
        calls.user_notifications,
        vec![(calls.recording_hud_shows[0].0, UserNotificationKind::Asr)]
    );
}

#[test]
fn authorized_clipboard_selection_fallback_is_used_only_after_native_read_failure() {
    let mut config = MockConfig::faithful();
    config.settings = settings_with_clipboard(ProcessingMode::Faithful, true, true, true);
    config.selection = Err(port_error("native_selection_unavailable"));
    config.clipboard_selection = Ok(SelectionSnapshot {
        text: Some("clipboard context".to_owned()),
        anchor_normalized_to_end: true,
        exceeded_limit: false,
    });
    let mut h = harness(config);
    let session_id = start_session(&mut h);

    h.cancel_recording(session_id)
        .expect("fallback selection must not affect cancellation");
    let calls = h.calls.clone();
    assert_eq!(calls.selection_reads, 1);
    assert_eq!(calls.clipboard_selection_reads, 1);
    assert_eq!(calls.audio_starts, 1);
}

#[test]
fn denied_microphone_permission_rejects_before_opening_audio_or_hud() {
    let mut config = MockConfig::faithful();
    config.microphone_access = Ok(MicrophoneAccess::Denied);
    let mut h = harness(config);

    assert_eq!(
        h.start().expect("permission rejection should be deterministic"),
        StartOutcome::Rejected(RejectReason::PermissionUnavailable)
    );

    let calls = h.calls.clone();
    assert_eq!(calls.microphone_permission_requests, 1);
    assert_eq!(calls.audio_starts, 0);
    assert!(calls.recording_hud_shows.is_empty());
    assert!(calls.asr_requests.is_empty());
    assert!(calls.llm_requests.is_empty());
    assert!(calls.inserted_texts.is_empty());
    assert!(calls.history_records.is_empty());
    assert_eq!(calls.user_notifications.len(), 1);
    assert_eq!(
        calls.user_notifications[0].1,
        UserNotificationKind::MicrophonePermission
    );
}

#[test]
fn recording_deadline_failure_cancels_the_registered_capture_and_allows_recovery() {
    let mut config = MockConfig::faithful();
    config.recording_deadline = Err(port_error("recording_deadline_unavailable"));
    let mut h = harness(config);

    assert_eq!(
        h.start().expect("deadline rejection should remain typed"),
        StartOutcome::Failed(FailureCategory::Lifecycle)
    );
    let calls = h.calls.clone();
    assert_eq!(calls.audio_starts, 1);
    assert_eq!(calls.audio_cancels, 1);
    assert!(calls.recording_hud_shows.is_empty());
    assert!(calls.diagnostics.iter().any(|event| {
        event.phase.as_deref() == Some("recording_deadline")
            && event.error_code.as_deref() == Some("recording_deadline_unavailable")
    }));

    h.config.recording_deadline = Ok(());
    let session_id = start_session(&mut h);
    assert_eq!(
        h.cancel_recording(session_id)
            .expect("a later recording should recover"),
        CancelOutcome::Cancelled
    );
}

#[test]
fn hud_show_failure_with_failed_cancel_retains_cleanup_debt_and_single_flight() {
    let mut config = MockConfig::faithful();
    config.recording_hud_show = Err(port_error("recording_hud_unavailable"));
    config.audio_cancel_failures_remaining = 1;
    let mut h = harness(config);

    let error = h.start()
        .expect_err("failed microphone cancellation must retain ownership");
    let session_id = h.calls.clone().recording_hud_shows[0].0;
    assert!(matches!(
        error,
        OrchestratorError::AudioCleanupFailed {
            session_id: failed_session_id,
            phase: "audio_cancel",
            ..
        } if failed_session_id == session_id
    ));
    assert_eq!(
        h.start().expect("cleanup debt should occupy Single-flight"),
        StartOutcome::Busy {
            active_session_id: session_id,
        }
    );
    assert!(h.calls.clone().recording_hud_hides.is_empty());

    assert_eq!(
        h.retry_audio_cleanup(session_id)
            .expect("retained capture should be retryable"),
        AudioCleanupOutcome::Recovered
    );
    let calls = h.calls.clone();
    assert_eq!(calls.audio_cancels, 2);
    assert_eq!(calls.recording_hud_hides, vec![session_id]);
    assert!(calls.asr_requests.is_empty());
    assert!(calls.llm_requests.is_empty());

    h.config.recording_hud_show = Ok(());
    let next_session = start_session(&mut h);
    assert_ne!(next_session, session_id);
    assert_eq!(
        h.cancel_recording(next_session)
            .expect("recovered slot should accept a new Session"),
        CancelOutcome::Cancelled
    );
}

#[test]
fn hud_ready_update_failure_cancels_capture_before_rejection() {
    let mut config = MockConfig::faithful();
    config.recording_hud_update = Err(port_error("recording_hud_ready_failed"));
    let mut h = harness(config);

    assert_eq!(
        h.start().expect("HUD ready rejection should remain valid"),
        StartOutcome::Rejected(RejectReason::RecordingHudUnavailable)
    );

    let calls = h.calls.clone();
    let session_id = calls.recording_hud_shows[0].0;
    assert_eq!(calls.audio_starts, 1);
    assert_eq!(calls.audio_cancels, 1);
    assert_eq!(
        calls.recording_hud_shows,
        vec![(session_id, RecordingHudState::Preparing)]
    );
    assert_eq!(
        calls.recording_hud_updates,
        vec![(session_id, RecordingHudState::Recording)]
    );
    assert!(calls.recording_hud_terminals.is_empty());
    assert_eq!(calls.recording_hud_hides, vec![session_id]);
    assert!(calls.asr_requests.is_empty());
    assert!(calls.llm_requests.is_empty());
    assert!(calls.history_records.is_empty());
    assert!(calls.diagnostics.iter().any(|event| {
        event.session_id == Some(session_id)
            && event.phase.as_deref() == Some("recording_hud_update_ready")
            && event.error_code.as_deref() == Some("recording_hud_ready_failed")
    }));
}

#[test]
fn hud_update_and_hide_failures_are_diagnostic_only() {
    let mut h = harness(MockConfig::faithful());
    let session_id = start_session(&mut h);
    {
        let config = &mut h.config;
        config.recording_hud_update = Err(port_error("recording_hud_update_failed"));
        config.recording_hud_terminal = Err(port_error("recording_hud_terminal_failed"));
        config.recording_hud_hide = Err(port_error("recording_hud_hide_failed"));
}

let outcome = h.finish_recording(session_id)
    .expect("non-critical HUD projection failures must not break delivery");
assert!(matches!(outcome, FinishOutcome::Completed(_)));

let calls = h.calls.clone();
assert_eq!(calls.inserted_texts, vec!["clean text"]);
assert_eq!(calls.recording_hud_updates.len(), 6);
assert_eq!(
    calls.recording_hud_terminals,
    vec![(session_id, TerminalOutcome::Completed)]
);
assert_eq!(calls.recording_hud_hides, vec![session_id]);
assert!(calls.diagnostics.iter().any(|event| {
    event.phase.as_deref() == Some("recording_hud_update")
        && event.error_code.as_deref() == Some("recording_hud_update_failed")
}));
assert!(calls.diagnostics.iter().any(|event| {
    event.phase.as_deref() == Some("recording_hud_publish_terminal")
        && event.error_code.as_deref() == Some("recording_hud_terminal_failed")
}));
assert!(calls.diagnostics.iter().any(|event| {
    event.phase.as_deref() == Some("recording_hud_hide")
        && event.error_code.as_deref() == Some("recording_hud_hide_failed")
}));
}

#[test]
fn unknown_security_uses_user_directed_paste_when_compatibility_is_enabled() {
    let mut config = MockConfig::faithful();
    config.settings = settings_with_clipboard(ProcessingMode::Faithful, true, true, true);
    config.target = Ok(target(TargetSecurity::Unknown, true));
    let mut h = harness(config);
    let session_id = start_session(&mut h);

    let outcome = h.finish_recording(session_id)
        .expect("unknown target should use user-directed paste");
    let FinishOutcome::Completed(completion) = outcome else {
        panic!("expected completion, got {outcome:?}");
    };

    assert_eq!(completion.delivery, DeliveryKind::ClipboardBridge);
    let calls = h.calls.clone();
    assert_eq!(calls.selection_reads, 0);
    assert_eq!(calls.target_revalidations, 0);
    assert_eq!(calls.clipboard_insert_attempts, 0);
    assert_eq!(calls.user_directed_paste_attempts, 1);
    assert_eq!(calls.user_directed_pasted_texts, vec!["clean text"]);
    assert!(calls.inserted_texts.is_empty());
    assert!(calls.temporary_texts.is_empty());
    assert_eq!(calls.history_records.len(), 1);
}

#[test]
fn unknown_security_still_uses_temporary_text_when_compatibility_is_disabled() {
    let mut config = MockConfig::faithful();
    config.target = Ok(target(TargetSecurity::Unknown, true));
    let mut h = harness(config);
    let session_id = start_session(&mut h);

    let outcome = h.finish_recording(session_id)
        .expect("disabled compatibility mode should preserve the visible fallback");
    let FinishOutcome::Completed(completion) = outcome else {
        panic!("expected completion, got {outcome:?}");
    };

    assert_eq!(completion.delivery, DeliveryKind::TemporaryText);
    let calls = h.calls.clone();
    assert_eq!(calls.user_directed_paste_attempts, 0);
    assert_eq!(calls.temporary_texts, vec!["clean text"]);
    assert_eq!(
        calls.temporary_text_statuses,
        vec![TemporaryTextStatus::NotInserted]
    );
}

#[test]
fn recording_cancel_has_zero_asr_llm_output_and_history_calls() {
    let mut h = harness(MockConfig::faithful());
    let session_id = start_session(&mut h);

    assert_eq!(
        h.cancel_recording(session_id)
            .expect("recording cancellation should be valid"),
        CancelOutcome::Cancelled
    );
    assert_eq!(
        h.cancel_recording(session_id)
            .expect("duplicate cancellation should be harmless"),
        CancelOutcome::NotFound
    );

    let calls = h.calls.clone();
    assert_eq!(calls.audio_cancels, 1);
    assert_eq!(calls.audio_finishes, 0);
    assert_eq!(
        calls.recording_hud_shows,
        vec![(session_id, RecordingHudState::Preparing)]
    );
    assert_eq!(
        calls.recording_hud_updates,
        vec![(session_id, RecordingHudState::Recording)]
    );
    assert_eq!(
        calls.recording_hud_terminals,
        vec![(session_id, TerminalOutcome::Cancelled)]
    );
    assert_eq!(calls.recording_hud_hides, vec![session_id]);
    assert!(calls.asr_requests.is_empty());
    assert!(calls.llm_requests.is_empty());
    assert!(calls.inserted_texts.is_empty());
    assert!(calls.temporary_texts.is_empty());
    assert!(calls.history_records.is_empty());
}

#[test]
fn failed_audio_cancel_keeps_single_flight_until_a_confirmed_retry() {
    let mut config = MockConfig::faithful();
    config.audio_cancel_failures_remaining = 1;
    let mut h = harness(config);
    let session_id = start_session(&mut h);

    let error = h.cancel_recording(session_id)
        .expect_err("a failed cancellation must not be reported as cancelled");
    assert!(matches!(
        error,
        OrchestratorError::AudioCleanupFailed {
            phase: "audio_cancel",
            ..
        }
    ));
    assert_eq!(
        h.start().expect("cleanup debt should be typed as busy"),
        StartOutcome::Busy {
            active_session_id: session_id
        }
    );

    assert_eq!(
        h.cancel_recording(session_id)
            .expect("the retained capture should be retryable"),
        CancelOutcome::Cancelled
    );
    assert_eq!(h.calls.clone().audio_cancels, 2);

    let next_session = start_session(&mut h);
    assert_eq!(
        h.cancel_recording(next_session)
            .expect("a confirmed cleanup may release the slot"),
        CancelOutcome::Cancelled
    );
}

#[test]
fn failed_audio_finish_cancels_retained_capture_before_releasing_session() {
    let mut config = MockConfig::faithful();
    config.audio_finish = Err(port_error("audio_finish_failed"));
    let mut h = harness(config);
    let session_id = start_session(&mut h);

    assert_eq!(
        h.finish_recording(session_id)
            .expect("audio finish failure should be terminal"),
        FinishOutcome::Failed(FailureCategory::Audio)
    );

    let calls = h.calls.clone();
    assert_eq!(calls.audio_finishes, 1);
    assert_eq!(calls.audio_cancels, 1);
    assert!(calls.asr_requests.is_empty());
    assert_eq!(
        calls.recording_hud_terminals,
        vec![(session_id, TerminalOutcome::Failed(FailureCategory::Audio))]
    );

    let next_session = start_session(&mut h);
    assert_eq!(
        h.cancel_recording(next_session)
            .expect("failed finish must release single-flight after cleanup"),
        CancelOutcome::Cancelled
    );
}

#[test]
fn empty_audio_capture_from_fast_finish_is_a_benign_no_output_result() {
    let mut config = MockConfig::faithful();
    config.audio_finish = Err(port_error(AUDIO_EMPTY_CAPTURE_CODE));
    let mut h = harness(config);
    let session_id = start_session(&mut h);

    assert_eq!(
        h.finish_recording(session_id)
            .expect("an empty capture should be discarded safely"),
        FinishOutcome::NoSpeech
    );

    let calls = h.calls.clone();
    assert_eq!(calls.audio_finishes, 1);
    assert_eq!(calls.audio_cancels, 1);
    assert_eq!(calls.recording_cues.last(), Some(&RecordingCue::Cancel));
    assert!(calls.asr_requests.is_empty());
    assert!(calls.llm_requests.is_empty());
    assert!(calls.inserted_texts.is_empty());
    assert!(calls.temporary_texts.is_empty());
    assert!(calls.history_records.is_empty());
    assert!(calls.user_notifications.is_empty());
    assert_eq!(
        calls.recording_hud_terminals,
        vec![(session_id, TerminalOutcome::Cancelled)]
    );
    assert!(calls.diagnostics.iter().any(|event| {
        event.phase.as_deref() == Some("audio_finish")
            && event.state.as_deref() == Some("no_speech")
            && event.error_code.is_none()
    }));

    let next_session = start_session(&mut h);
    assert_eq!(
        h.cancel_recording(next_session)
            .expect("empty capture cleanup must release single-flight"),
        CancelOutcome::Cancelled
    );
}

#[test]
fn failed_finish_and_failed_cancel_retain_capture_until_recovery() {
    let mut config = MockConfig::faithful();
    config.audio_finish = Err(port_error("audio_finish_failed"));
    config.audio_cancel_failures_remaining = 1;
    let mut h = harness(config);
    let session_id = start_session(&mut h);

    assert!(matches!(
        h.finish_recording(session_id),
        Err(OrchestratorError::AudioCleanupFailed {
            phase: "audio_cancel",
            ..
        })
    ));
    assert_eq!(
        h.start().expect("failed cleanup must keep the slot"),
        StartOutcome::Busy {
            active_session_id: session_id
        }
    );
    assert_eq!(
        h.cancel_recording(session_id)
            .expect("retained finish capture should be recoverable"),
        CancelOutcome::CleanupRecovered
    );
    assert_eq!(h.calls.clone().audio_finishes, 1);
    assert_eq!(h.calls.clone().audio_cancels, 2);
}

#[test]
fn asr_failure_cleans_audio_and_never_retries_whisper_in_same_session() {
    let mut config = MockConfig::faithful();
    config.asr_behavior = AsrBehavior::Failure(port_error("asr_failed"));
    let mut h = harness(config);
    let session_id = start_session(&mut h);

    assert_eq!(
        h.finish_recording(session_id)
            .expect("ASR failure should be represented as a terminal outcome"),
        FinishOutcome::Failed(FailureCategory::Asr)
    );

    let calls = h.calls.clone();
    assert_eq!(calls.asr_requests.len(), 1);
    assert_eq!(calls.asr_requests[0].engine, AsrEngine::Qwen);
    assert_eq!(calls.audio_cleanups, 1);
    assert!(calls.llm_requests.is_empty());
    assert!(calls.inserted_texts.is_empty());
    assert!(calls.history_records.is_empty());
    assert_eq!(
        calls.recording_hud_terminals,
        vec![(session_id, TerminalOutcome::Failed(FailureCategory::Asr))]
    );
    assert_eq!(
        calls.user_notifications,
        vec![(session_id, UserNotificationKind::Asr)]
    );
    assert_eq!(
        calls.presentation_events,
        vec!["terminal", "hide", "notification"]
    );
}

#[test]
fn explicit_no_speech_asr_signal_finishes_without_error_feedback() {
    let mut config = MockConfig::faithful();
    config.asr_behavior = AsrBehavior::Failure(port_error(ASR_NO_SPEECH_CODE));
    let mut h = harness(config);
    let session_id = start_session(&mut h);

    assert_eq!(
        h.finish_recording(session_id)
            .expect("no speech should be a valid no-output outcome"),
        FinishOutcome::NoSpeech
    );

    let calls = h.calls.clone();
    assert_eq!(calls.asr_requests.len(), 1);
    assert_eq!(calls.audio_cleanups, 1);
    assert!(calls.llm_requests.is_empty());
    assert!(calls.inserted_texts.is_empty());
    assert!(calls.temporary_texts.is_empty());
    assert!(calls.history_records.is_empty());
    assert!(calls.user_notifications.is_empty());
    assert_eq!(
        calls.recording_hud_terminals,
        vec![(session_id, TerminalOutcome::Cancelled)]
    );
    assert_eq!(calls.presentation_events, vec!["terminal", "hide"]);
    assert!(calls.diagnostics.iter().any(|event| {
        event.phase.as_deref() == Some("asr")
            && event.state.as_deref() == Some("no_speech")
            && event.error_code.is_none()
    }));
}

#[test]
fn defensive_empty_asr_success_is_also_silent_and_never_delivered() {
    let mut config = MockConfig::faithful();
    config.asr_behavior = AsrBehavior::Success("  \n".to_owned());
    let mut h = harness(config);
    let session_id = start_session(&mut h);

    assert_eq!(
        h.finish_recording(session_id)
            .expect("an empty successful transcript should be discarded"),
        FinishOutcome::NoSpeech
    );

    let calls = h.calls.clone();
    assert_eq!(calls.asr_requests.len(), 1);
    assert_eq!(calls.audio_cleanups, 1);
    assert!(calls.llm_requests.is_empty());
    assert!(calls.inserted_texts.is_empty());
    assert!(calls.temporary_texts.is_empty());
    assert!(calls.history_records.is_empty());
    assert!(calls.user_notifications.is_empty());
    assert_eq!(
        calls.recording_hud_terminals,
        vec![(session_id, TerminalOutcome::Cancelled)]
    );
}

#[test]
fn finalized_audio_cleanup_failure_blocks_delivery_and_is_retryable() {
    let mut config = MockConfig::faithful();
    config.audio_cleanup_failures_remaining = 1;
    let mut h = harness(config);
    let session_id = start_session(&mut h);

    assert!(matches!(
        h.finish_recording(session_id),
        Err(OrchestratorError::AudioCleanupFailed {
            phase: "audio_cleanup",
            ..
        })
    ));
    let calls = h.calls.clone();
    assert_eq!(calls.asr_requests.len(), 1);
    assert_eq!(calls.audio_cleanups, 1);
    assert!(calls.llm_requests.is_empty());
    assert!(calls.inserted_texts.is_empty());
    assert!(calls.temporary_texts.is_empty());
    assert!(calls.history_records.is_empty());
    assert_eq!(
        h.start().expect("artifact debt must retain single-flight"),
        StartOutcome::Busy {
            active_session_id: session_id
        }
    );

    assert_eq!(
        h.retry_audio_cleanup(session_id)
            .expect("artifact deletion should be retryable"),
        AudioCleanupOutcome::Recovered
    );
    assert_eq!(h.calls.clone().audio_cleanups, 2);
    assert_eq!(h.calls.clone().asr_requests.len(), 1, "ASR must not rerun");
    let next_session = start_session(&mut h);
    assert_eq!(
        h.cancel_recording(next_session)
            .expect("recovered cleanup may release the slot"),
        CancelOutcome::Cancelled
    );
}

#[test]
fn llm_failure_preserves_raw_asr_text_in_temporary_output_and_history() {
    let mut config = MockConfig::faithful();
    config.llm_behavior = LlmBehavior::Failure(port_error("llm_failed"));
    let mut h = harness(config);
    let session_id = start_session(&mut h);

    let outcome = h.finish_recording(session_id)
        .expect("LLM failure should preserve the local transcript");
    let FinishOutcome::Completed(completion) = outcome else {
        panic!("expected fallback completion, got {outcome:?}");
    };

    assert_eq!(completion.final_text, "raw text");
    assert_eq!(completion.delivery, DeliveryKind::TemporaryText);
    let calls = h.calls.clone();
    assert!(calls.inserted_texts.is_empty());
    assert_eq!(calls.temporary_texts, vec!["raw text"]);
    assert_eq!(
        calls.temporary_text_statuses,
        vec![TemporaryTextStatus::LlmFallback]
    );
    assert_eq!(calls.history_records[0].final_text, "raw text");
    assert_eq!(
        calls.user_notifications,
        vec![(session_id, UserNotificationKind::Llm)]
    );
    assert_eq!(
        calls.presentation_events,
        vec!["terminal", "hide", "notification"]
    );
}

#[test]
fn notification_failure_does_not_rollback_a_safe_llm_fallback() {
    let mut config = MockConfig::faithful();
    config.llm_behavior = LlmBehavior::Failure(port_error("llm_failed"));
    config.user_notification = Err(port_error("notification_unavailable"));
    let mut h = harness(config);
    let session_id = start_session(&mut h);

    let outcome = h.finish_recording(session_id)
        .expect("feedback is ancillary after the safe fallback commits");
    let FinishOutcome::Completed(completion) = outcome else {
        panic!("expected fallback completion, got {outcome:?}");
    };
    assert_eq!(completion.final_text, "raw text");
    assert_eq!(completion.delivery, DeliveryKind::TemporaryText);

    let calls = h.calls.clone();
    assert_eq!(
        calls.user_notifications,
        vec![(session_id, UserNotificationKind::Llm)]
    );
    assert!(calls.diagnostics.iter().any(|event| {
        event.phase.as_deref() == Some("user_notification")
            && event.error_code.as_deref() == Some("notification_unavailable")
    }));
}

#[test]
fn mismatched_llm_correlation_discards_untrusted_text_and_preserves_raw_fallback() {
    let mut config = MockConfig::faithful();
    config.llm_behavior = LlmBehavior::CorrelationMismatch("untrusted text".to_owned());
    let mut h = harness(config);
    let session_id = start_session(&mut h);

    let outcome = h.finish_recording(session_id)
        .expect("correlation mismatch should preserve the local transcript");
    let FinishOutcome::Completed(completion) = outcome else {
        panic!("expected safe fallback completion, got {outcome:?}");
    };
    assert_eq!(completion.final_text, "raw text");
    assert_eq!(completion.delivery, DeliveryKind::TemporaryText);

    let calls = h.calls.clone();
    assert_eq!(calls.llm_requests.len(), 1);
    assert!(calls.inserted_texts.is_empty());
    assert_eq!(calls.temporary_texts, vec!["raw text"]);
    assert_eq!(
        calls.temporary_text_statuses,
        vec![TemporaryTextStatus::LlmFallback]
    );
    assert_eq!(calls.history_records[0].final_text, "raw text");
    assert!(
        calls
            .temporary_texts
            .iter()
            .all(|text| text != "untrusted text")
    );
}

#[test]
fn correlated_empty_llm_response_preserves_raw_text_in_safe_fallback() {
    let mut config = MockConfig::faithful();
    config.llm_behavior = LlmBehavior::Success("   ".to_owned());
    let mut h = harness(config);
    let session_id = start_session(&mut h);

    let outcome = h.finish_recording(session_id)
        .expect("empty but correlated response may use raw fallback");
    let FinishOutcome::Completed(completion) = outcome else {
        panic!("expected safe fallback, got {outcome:?}");
    };
    assert_eq!(completion.final_text, "raw text");
    assert_eq!(completion.delivery, DeliveryKind::TemporaryText);
    let calls = h.calls.clone();
    assert_eq!(calls.temporary_texts, vec!["raw text"]);
    assert_eq!(
        calls.temporary_text_statuses,
        vec![TemporaryTextStatus::LlmFallback]
    );
    assert_eq!(calls.history_records[0].final_text, "raw text");
}

#[test]
fn authorized_clipboard_bridge_runs_only_after_proven_native_non_insertion() {
    let mut config = MockConfig::faithful();
    config.settings = settings_with_clipboard(ProcessingMode::Faithful, true, true, true);
    config.insert = Ok(InsertOutcome::NotInserted);
    config.clipboard_insert = Ok(InsertOutcome::Inserted);
    let mut h = harness(config);
    let session_id = start_session(&mut h);

    let outcome = h.finish_recording(session_id)
        .expect("authorized clipboard bridge should be a supported delivery route");
    let FinishOutcome::Completed(completion) = outcome else {
        panic!("expected completed bridge delivery, got {outcome:?}");
    };
    assert_eq!(completion.delivery, DeliveryKind::ClipboardBridge);
    let calls = h.calls.clone();
    assert_eq!(calls.insert_attempts, 1);
    assert_eq!(calls.clipboard_insert_attempts, 1);
    assert_eq!(calls.clipboard_inserted_texts, vec!["clean text"]);
    assert!(calls.temporary_texts.is_empty());
}

#[test]
fn indeterminate_native_insertion_never_attempts_clipboard_second_write() {
    let mut config = MockConfig::faithful();
    config.settings = settings_with_clipboard(ProcessingMode::Faithful, true, true, true);
    config.insert = Ok(InsertOutcome::Indeterminate);
    let mut h = harness(config);
    let session_id = start_session(&mut h);

    let outcome = h.finish_recording(session_id)
        .expect("indeterminate insertion must preserve text without retrying");
    let FinishOutcome::Completed(completion) = outcome else {
        panic!("expected safe fallback, got {outcome:?}");
    };
    assert_eq!(completion.delivery, DeliveryKind::TemporaryText);
    let calls = h.calls.clone();
    assert_eq!(calls.clipboard_insert_attempts, 0);
    assert_eq!(calls.user_directed_paste_attempts, 0);
    assert_eq!(
        calls.temporary_text_statuses,
        vec![TemporaryTextStatus::Indeterminate]
    );
    assert!(calls.user_notifications.is_empty());
}

#[test]
fn insertion_failure_falls_back_once_without_second_automatic_write() {
    let mut config = MockConfig::faithful();
    config.insert = Ok(InsertOutcome::NotInserted);
    let mut h = harness(config);
    let session_id = start_session(&mut h);

    let outcome = h.finish_recording(session_id)
        .expect("not-inserted result should use the safe fallback");
    let FinishOutcome::Completed(completion) = outcome else {
        panic!("expected fallback completion, got {outcome:?}");
    };

    assert_eq!(completion.delivery, DeliveryKind::TemporaryText);
    let calls = h.calls.clone();
    assert_eq!(calls.insert_attempts, 1);
    assert!(calls.inserted_texts.is_empty());
    assert_eq!(calls.temporary_texts, vec!["clean text"]);
    assert_eq!(
        calls.temporary_text_statuses,
        vec![TemporaryTextStatus::NotInserted]
    );
    assert_eq!(calls.history_records.len(), 1);
    assert!(calls.user_notifications.is_empty());
}

#[test]
fn indeterminate_insertion_warns_the_temporary_text_surface() {
    let mut config = MockConfig::faithful();
    config.insert = Ok(InsertOutcome::Indeterminate);
    let mut h = harness(config);
    let session_id = start_session(&mut h);

    let outcome = h.finish_recording(session_id)
        .expect("indeterminate insertion should preserve the final text");
    let FinishOutcome::Completed(completion) = outcome else {
        panic!("expected fallback completion, got {outcome:?}");
    };

    assert_eq!(completion.delivery, DeliveryKind::TemporaryText);
    let calls = h.calls.clone();
    assert_eq!(calls.insert_attempts, 1);
    assert!(calls.inserted_texts.is_empty());
    assert_eq!(calls.temporary_texts, vec!["clean text"]);
    assert_eq!(
        calls.temporary_text_statuses,
        vec![TemporaryTextStatus::Indeterminate]
    );
    assert_eq!(calls.history_records.len(), 1);
    assert!(calls.user_notifications.is_empty());
}

#[test]
fn temporary_text_failure_terminates_delivery_without_history() {
    let mut config = MockConfig::faithful();
    config.insert = Ok(InsertOutcome::NotInserted);
    config.temporary_text = Err(port_error("temporary_text_failed"));
    let mut h = harness(config);
    let session_id = start_session(&mut h);

    assert_eq!(
        h.finish_recording(session_id)
            .expect("temporary text failure should remain a typed delivery failure"),
        FinishOutcome::Failed(FailureCategory::Delivery)
    );

    let calls = h.calls.clone();
    assert_eq!(calls.insert_attempts, 1);
    assert!(calls.temporary_texts.is_empty());
    assert!(calls.temporary_text_statuses.is_empty());
    assert_eq!(calls.history_save_attempts, 0);
    assert!(calls.history_records.is_empty());
    assert_eq!(
        calls.recording_hud_terminals,
        vec![(
            session_id,
            TerminalOutcome::Failed(FailureCategory::Delivery)
        )]
    );
    assert!(
        calls.user_notifications.is_empty(),
        "generic delivery failure must not reuse the indeterminate-write copy"
    );
}

#[test]
fn lost_focus_at_delivery_falls_back_to_temporary_text_without_inserting() {
    let mut config = MockConfig::faithful();
    config.settings = settings(ProcessingMode::Raw, false, false);
    config.revalidation = Ok(TargetRevalidation::Invalid);
    let mut h = harness(config);
    let session_id = start_session(&mut h);

    let outcome = h.finish_recording(session_id)
        .expect("lost focus must degrade to a temporary-text delivery, not an error");
    let FinishOutcome::Completed(completion) = outcome else {
        panic!("expected temporary-text completion, got {outcome:?}");
    };
    assert_eq!(completion.delivery, DeliveryKind::TemporaryText);
    let calls = h.calls.clone();
    assert_eq!(calls.target_revalidations, 1);
    assert_eq!(calls.insert_attempts, 0);
    assert!(calls.inserted_texts.is_empty());
    assert_eq!(calls.temporary_texts, vec!["raw text"]);
    assert_eq!(
        calls.temporary_text_statuses,
        vec![TemporaryTextStatus::NotInserted]
    );
}

#[test]
fn lost_exact_target_uses_current_focus_when_compatibility_is_enabled() {
    let mut config = MockConfig::faithful();
    config.settings = settings_with_clipboard(ProcessingMode::Raw, false, false, true);
    config.revalidation = Ok(TargetRevalidation::Invalid);
    let mut h = harness(config);
    let session_id = start_session(&mut h);

    let outcome = h.finish_recording(session_id)
        .expect("pre-dispatch target loss may use the user-selected current focus");
    let FinishOutcome::Completed(completion) = outcome else {
        panic!("expected user-directed completion, got {outcome:?}");
    };

    assert_eq!(completion.delivery, DeliveryKind::ClipboardBridge);
    let calls = h.calls.clone();
    assert_eq!(calls.target_revalidations, 1);
    assert_eq!(calls.insert_attempts, 0);
    assert_eq!(calls.clipboard_insert_attempts, 0);
    assert_eq!(calls.user_directed_paste_attempts, 1);
    assert_eq!(calls.user_directed_pasted_texts, vec!["raw text"]);
    assert!(calls.temporary_texts.is_empty());
}

#[test]
fn indeterminate_user_directed_dispatch_is_never_claimed_as_delivery() {
    let mut config = MockConfig::faithful();
    config.settings = settings_with_clipboard(ProcessingMode::Faithful, true, true, true);
    config.target = Ok(target(TargetSecurity::Unknown, false));
    config.user_directed_paste = Ok(UserDirectedPasteOutcome::Indeterminate);
    let mut h = harness(config);
    let session_id = start_session(&mut h);

    let outcome = h.finish_recording(session_id)
        .expect("dispatch uncertainty should preserve the final text visibly");
    let FinishOutcome::Completed(completion) = outcome else {
        panic!("expected temporary-text completion, got {outcome:?}");
    };

    assert_eq!(completion.delivery, DeliveryKind::TemporaryText);
    let calls = h.calls.clone();
    assert_eq!(calls.user_directed_paste_attempts, 1);
    assert!(calls.user_directed_pasted_texts.is_empty());
    assert_eq!(calls.temporary_texts, vec!["clean text"]);
    assert_eq!(
        calls.temporary_text_statuses,
        vec![TemporaryTextStatus::Indeterminate]
    );
}

#[test]
fn finishing_an_already_finished_session_is_a_noop() {
    let config = MockConfig::faithful();
    let mut h = harness(config);
    let session_id = start_session(&mut h);
    let first = h.finish_recording(session_id)
        .expect("first finish should complete");
    assert!(matches!(first, FinishOutcome::Completed(_)));

    let after_first = h.calls.clone();
    let inserts_after_first = after_first.insert_attempts;
    let history_after_first = after_first.history_save_attempts;
    let terminals_after_first = after_first.recording_hud_terminals.len();
    let second = h.finish_recording(session_id)
        .expect("second finish must be a no-op, not an error");
    assert_eq!(second, FinishOutcome::NotRecording);

    let after_second = h.calls.clone();
    assert_eq!(after_second.insert_attempts, inserts_after_first);
    assert_eq!(after_second.history_save_attempts, history_after_first);
    assert_eq!(
        after_second.recording_hud_terminals.len(),
        terminals_after_first,
        "a duplicate finish must not publish another terminal event"
    );
}

#[test]
fn history_failure_does_not_rollback_successful_text_delivery() {
    let mut config = MockConfig::faithful();
    config.history_save = Err(port_error("history_failed"));
    let mut h = harness(config);
    let session_id = start_session(&mut h);

    let outcome = h.finish_recording(session_id)
        .expect("history is an ancillary operation");
    let FinishOutcome::Completed(completion) = outcome else {
        panic!("expected completed delivery, got {outcome:?}");
    };

    assert_eq!(completion.delivery, DeliveryKind::Inserted);
    assert_eq!(
        completion.warnings,
        vec![FinalizationWarning::HistorySaveFailed]
    );
    let calls = h.calls.clone();
    assert_eq!(calls.inserted_texts, vec!["clean text"]);
    assert_eq!(calls.history_save_attempts, 1);
    assert_eq!(calls.history_policy_enforcements, 0);
}

#[test]
fn enabled_auto_copy_writes_only_the_final_result_after_delivery() {
    let mut config = MockConfig::faithful();
    let mut input = config.settings.clone().into_input();
    input.auto_copy_result = true;
    config.settings = SettingsSnapshot::new(input);
    let mut h = harness(config);
    let session_id = start_session(&mut h);

    let outcome = h.finish_recording(session_id)
        .expect("auto-copy is an ancillary finalization step");
    let FinishOutcome::Completed(completion) = outcome else {
        panic!("expected completed delivery, got {outcome:?}");
    };

    assert!(completion.warnings.is_empty());
    assert_eq!(h.calls.clone().clipboard_written_texts, vec!["clean text"]);
}

#[test]
fn recording_limit_during_health_finishes_immediately_after_preflight() {
    let mut h = harness(MockConfig::faithful());
    let pending = start_with_pending_health(&mut h);
    let session_id = h.calls.clone().recording_hud_shows[0].0;

    h.recording_limit_elapsed(session_id);
    assert_eq!(
        release_health(&mut h, pending).expect("start should remain typed"),
        StartOutcome::Started { session_id }
    );
    assert_eq!(
        h.finish_recording(session_id)
            .expect("automatic finish should consume the recording"),
        FinishOutcome::NotRecording
    );

    let calls = h.calls.clone();
    assert_eq!(calls.audio_finishes, 1);
    assert_eq!(calls.asr_requests.len(), 1);
    assert_eq!(calls.llm_requests.len(), 1);
    assert_eq!(calls.history_records.len(), 1);
}

#[test]
fn recording_and_preparing_hud_are_active_while_health_is_pending() {
    let mut h = harness(MockConfig::faithful());
    let pending = start_with_pending_health(&mut h);

    let pending_calls = h.calls.clone();
    assert_eq!(pending_calls.audio_starts, 1);
    assert_eq!(pending_calls.recording_hud_shows.len(), 1);
    assert_eq!(
        pending_calls.recording_hud_shows[0].1,
        RecordingHudState::Preparing
    );
    assert!(pending_calls.recording_hud_updates.is_empty());

    let StartOutcome::Started { session_id } =
        release_health(&mut h, pending).expect("parallel start must remain valid")
    else {
        panic!("healthy route should activate the recording Session");
    };
    assert_eq!(
        h.calls.clone().recording_hud_updates,
        vec![(session_id, RecordingHudState::Recording)]
    );
    assert_eq!(
        h.cancel_recording(session_id)
            .expect("test recording should cancel cleanly"),
        CancelOutcome::Cancelled
    );
}

#[test]
fn cancel_during_pending_health_discards_preparation_without_session_revival() {
    let mut h = harness(MockConfig::faithful());
    let pending = start_with_pending_health(&mut h);
    let session_id = h.calls.clone().recording_hud_shows[0].0;

    assert_eq!(
        h.finish_recording(session_id)
            .expect("preparing HUD must not finish before route freeze"),
        FinishOutcome::NotRecording
    );
    assert_eq!(
        h.cancel_recording(session_id)
            .expect("preparing recording cancellation should be valid"),
        CancelOutcome::Cancelled
    );
    assert_eq!(
        release_health(&mut h, pending).expect("parallel start must remain valid"),
        StartOutcome::Quitting
    );

    let calls = h.calls.clone();
    assert_eq!(calls.audio_cancels, 1);
    assert_eq!(calls.recording_hud_hides, vec![session_id]);
    assert!(calls.recording_hud_updates.is_empty());
    assert!(calls.asr_requests.is_empty());
    assert!(calls.llm_requests.is_empty());
    assert!(calls.history_records.is_empty());
}

#[test]
fn hud_show_failure_rejects_only_after_capture_is_cancelled() {
    let mut config = MockConfig::faithful();
    config.recording_hud_show = Err(port_error("recording_hud_unavailable"));
    let mut h = harness(config);

    // The start stands still while the microphone is being closed.
    let start = h.start_until(is_preparation).paused();
    let (session_id, display_hint, limit, preference) = preparation_of(&start.command);
    let preparation = h
        .prepare_until(session_id, display_hint, limit, is_capture_cancel)
        .paused();

    let session_id = h.calls.clone().recording_hud_shows[0].0;
    assert_eq!(
        h.start().expect("cleanup in progress should remain typed"),
        StartOutcome::Busy {
            active_session_id: session_id,
        }
    );

    let recording = h.prepare_on(preparation, never).done();
    let prepared = h.check_and_resolve(session_id, preference, recording);
    assert_eq!(
        h.start_reply(start, prepared)
            .expect("HUD rejection should remain valid"),
        StartOutcome::Rejected(RejectReason::RecordingHudUnavailable)
    );

    let calls = h.calls.clone();
    assert_eq!(calls.audio_starts, 1);
    assert_eq!(calls.audio_cancels, 1);
    assert_eq!(calls.recording_hud_hides, vec![session_id]);
    assert!(calls.asr_requests.is_empty());
    assert!(calls.llm_requests.is_empty());
    assert!(calls.inserted_texts.is_empty());
    assert!(calls.history_records.is_empty());
    assert!(calls.diagnostics.iter().any(|event| {
        event.session_id == Some(session_id)
            && event.phase.as_deref() == Some("recording_hud_show")
            && event.error_code.as_deref() == Some("recording_hud_unavailable")
    }));
}

#[test]
fn cancellation_retains_single_flight_slot_until_audio_cleanup_finishes() {
    let mut h = harness(MockConfig::faithful());
    let session_id = start_session(&mut h);
    let cancel = h.cancel_until(session_id, is_capture_cancel).paused();

    assert_eq!(
        h.start().expect("concurrent start should be typed"),
        StartOutcome::Busy {
            active_session_id: session_id
        }
    );

    assert_eq!(
        h.cancel_released(cancel)
            .expect("cancel workflow should remain valid"),
        CancelOutcome::Cancelled
    );

    let next_session = start_session(&mut h);
    assert_eq!(h.calls.clone().audio_cancels, 1);
    assert_eq!(
        h.cancel_recording(next_session)
            .expect("new session should own the released slot"),
        CancelOutcome::Cancelled
    );
}

#[test]
fn concurrent_cancel_does_not_duplicate_an_in_flight_adapter_call() {
    let mut h = harness(MockConfig::faithful());
    let session_id = start_session(&mut h);
    let first = h.cancel_until(session_id, is_capture_cancel).paused();
    let reply = h.perform(first.command.clone()).expect("the adapter call");

    assert_eq!(
        h.cancel_recording(session_id)
            .expect("the duplicate should receive an explicit state"),
        CancelOutcome::CleanupInProgress
    );
    assert_eq!(h.calls.clone().audio_cancels, 1);

    assert_eq!(
        h.cancel_reply(first, reply)
            .expect("first cancellation should remain valid"),
        CancelOutcome::Cancelled
    );
    assert_eq!(h.calls.clone().audio_cancels, 1);
}

#[test]
fn late_asr_result_after_quit_is_discarded_without_output_or_history() {
    let mut h = harness(MockConfig::faithful());
    let session_id = start_session(&mut h);
    let finish = h.finish_until(session_id, is_transcription).paused();
    let late_result = h.perform(finish.command.clone()).expect("the adapter call");

    let (attempt, waiting) = quitting_and_waiting(&mut h);
    assert_eq!(
        h.heard(attempt),
        None,
        "quit must await the already-entered finish workflow"
    );
    assert_eq!(
        h.finish_reply(finish, late_result)
            .expect("finish future should not violate invariants"),
        FinishOutcome::Discarded
    );
    assert_eq!(
        h.quit_released(attempt, waiting)
            .done()
            .expect("quit should finish after ASR operation drains"),
        QuitOutcome::Terminated(session_id)
    );
    assert_eq!(
        h.start().expect("quitting state should remain stable"),
        StartOutcome::Quitting
    );

    let calls = h.calls.clone();
    assert_eq!(calls.asr_cancels, 1);
    assert_eq!(calls.audio_cleanups, 1);
    assert!(calls.llm_requests.is_empty());
    assert!(calls.inserted_texts.is_empty());
    assert!(calls.temporary_texts.is_empty());
    assert!(calls.history_records.is_empty());
}

#[test]
fn quit_waits_for_starting_audio_cleanup_before_returning() {
    let mut h = harness(MockConfig::faithful());
    let start = h.start_until(is_preparation).paused();
    let (session_id, display_hint, limit, preference) = preparation_of(&start.command);
    let preparation = h
        .prepare_until(session_id, display_hint, limit, is_audio_start)
        .paused();

    let (attempt, waiting) = quitting_and_waiting(&mut h);
    assert!(h.orchestrator.is_quitting());
    assert_eq!(
        h.heard(attempt),
        None,
        "quit cannot return while audio start may still open a microphone"
    );

    let recording = h.prepare_on(preparation, never).done();
    let prepared = h.check_and_resolve(session_id, preference, recording);
    assert_eq!(
        h.start_reply(start, prepared)
            .expect("start workflow should remain valid"),
        StartOutcome::Quitting
    );
    assert!(matches!(
        h.quit_released(attempt, waiting)
            .done()
            .expect("quit should finish after start cleanup"),
        QuitOutcome::Terminated(_)
    ));

    let calls = h.calls.clone();
    assert_eq!(calls.audio_starts, 1);
    assert_eq!(calls.audio_cancels, 1);
    assert!(calls.asr_requests.is_empty());
}

#[test]
fn concurrent_quit_waits_for_one_blocked_audio_cancel_and_reuses_result() {
    let mut h = harness(MockConfig::faithful());
    let session_id = start_session(&mut h);
    let (attempt, leader) = quitting_until(&mut h, is_capture_cancel);
    let reply = h.perform(leader.command.clone()).expect("the adapter call");
    let follower = following(&mut h);

    assert_eq!(
        h.heard(follower),
        None,
        "follower quit must not return before leader cancellation"
    );
    assert_eq!(h.calls.clone().audio_cancels, 1);

    let expected = QuitOutcome::Terminated(session_id);
    assert_eq!(
        h.quit_reply(attempt, leader, reply)
            .done()
            .expect("leader quit should complete"),
        expected
    );
    assert_eq!(
        h.heard(follower)
            .expect("follower should be told")
            .expect("follower should receive the same result"),
        expected
    );
    assert_eq!(h.quit().expect("completed quit should be cached"), expected);
    assert_eq!(h.calls.clone().audio_cancels, 1);
}

#[test]
fn failed_quit_cleanup_is_shared_then_a_new_exit_attempt_can_retry() {
    let mut config = MockConfig::faithful();
    // The leader performs one direct cancellation and one post-barrier retry.
    // Both must fail so the first exit attempt remains blocked by cleanup.
    config.audio_cancel_failures_remaining = 2;
    let mut h = harness(config);
    let session_id = start_session(&mut h);
    let (attempt, leader) = quitting_until(&mut h, is_capture_cancel);
    let follower = following(&mut h);
    assert_eq!(
        h.heard(follower),
        None,
        "the follower must wait for the same exit attempt"
    );

    let leader_error = h
        .quit_released(attempt, leader)
        .done()
        .expect_err("cleanup debt must block termination");
    let follower_error = h
        .heard(follower)
        .expect("follower should receive the same attempt result")
        .expect_err("follower must not observe termination");
    assert_eq!(leader_error, follower_error);
    assert!(matches!(
        leader_error,
        OrchestratorError::AudioCleanupFailed {
            phase: "audio_cancel",
            ..
        }
    ));
    assert_eq!(h.calls.clone().audio_cancels, 2);

    let recovered = h
        .quit()
        .expect("a new exit attempt should retry retained cleanup");
    assert_eq!(recovered, QuitOutcome::Terminated(session_id));
    assert_eq!(h.calls.clone().audio_cancels, 3);
    assert_eq!(
        h.quit().expect("successful exit should be cached"),
        recovered
    );
    assert_eq!(h.calls.clone().audio_cancels, 3);
}

#[test]
fn concurrent_quit_waits_for_one_blocked_asr_cancel_and_reuses_result() {
    let mut h = harness(MockConfig::faithful());
    let session_id = start_session(&mut h);
    let finish = h.finish_until(session_id, is_transcription).paused();
    let transcript = h.perform(finish.command.clone()).expect("the adapter call");

    let (attempt, leader) = quitting_until(&mut h, is_transcription_cancel);
    let cancelled = h.perform(leader.command.clone()).expect("the adapter call");
    let follower = following(&mut h);
    assert_eq!(
        h.heard(follower),
        None,
        "follower quit must wait for the single ASR cancellation"
    );
    assert_eq!(h.calls.clone().asr_cancels, 1);
    let waiting = h.quit_reply(attempt, leader, cancelled).paused();
    assert_eq!(h.heard(follower), None);

    assert_eq!(
        h.finish_reply(finish, transcript)
            .expect("finish workflow should remain valid"),
        FinishOutcome::Discarded
    );
    let expected = QuitOutcome::Terminated(session_id);
    assert_eq!(
        h.quit_released(attempt, waiting)
            .done()
            .expect("leader quit should complete"),
        expected
    );
    assert_eq!(
        h.heard(follower)
            .expect("follower should be told")
            .expect("follower should receive the same result"),
        expected
    );
    assert_eq!(h.calls.clone().asr_cancels, 1);
}

#[test]
fn concurrent_quit_waits_for_one_blocked_llm_cancel_and_reuses_result() {
    let mut h = harness(MockConfig::faithful());
    let session_id = start_session(&mut h);
    let finish = h.finish_until(session_id, is_processing).paused();
    let text = h.perform(finish.command.clone()).expect("the adapter call");

    let (attempt, leader) = quitting_until(&mut h, is_processing_cancel);
    let cancelled = h.perform(leader.command.clone()).expect("the adapter call");
    let follower = following(&mut h);
    assert_eq!(
        h.heard(follower),
        None,
        "follower quit must wait for the single LLM cancellation"
    );
    assert_eq!(h.calls.clone().llm_cancels, 1);
    let waiting = h.quit_reply(attempt, leader, cancelled).paused();
    assert_eq!(h.heard(follower), None);

    assert_eq!(
        h.finish_reply(finish, text)
            .expect("finish workflow should remain valid"),
        FinishOutcome::Discarded
    );
    let expected = QuitOutcome::Terminated(session_id);
    assert_eq!(
        h.quit_released(attempt, waiting)
            .done()
            .expect("leader quit should complete"),
        expected
    );
    assert_eq!(
        h.heard(follower)
            .expect("follower should be told")
            .expect("follower should receive the same result"),
        expected
    );
    assert_eq!(h.calls.clone().llm_cancels, 1);
}

#[test]
fn quit_cancels_processing_llm_and_waits_for_workflow_quiescence() {
    let mut h = harness(MockConfig::faithful());
    let session_id = start_session(&mut h);
    let finish = h.finish_until(session_id, is_processing).paused();
    let text = h.perform(finish.command.clone()).expect("the adapter call");

    let (attempt, waiting) = quitting_and_waiting(&mut h);
    assert_eq!(h.calls.clone().llm_cancels, 1);
    assert_eq!(h.heard(attempt), None);

    assert_eq!(
        h.finish_reply(finish, text)
            .expect("finish workflow should remain valid"),
        FinishOutcome::Discarded
    );
    assert_eq!(
        h.quit_released(attempt, waiting)
            .done()
            .expect("quit should finish after Processing drains"),
        QuitOutcome::Terminated(session_id)
    );
    let calls = h.calls.clone();
    assert_eq!(calls.llm_cancels, 1);
    assert!(calls.inserted_texts.is_empty());
    assert!(calls.temporary_texts.is_empty());
    assert!(calls.history_records.is_empty());
}

#[test]
fn quit_waits_for_external_operation_and_rejects_new_entries() {
    let mut h = harness(MockConfig::faithful());
    let operation = h
        .orchestrator
        .enter_operation()
        .expect("history operation may enter before shutdown");

    let (attempt, waiting) = quitting_and_waiting(&mut h);
    assert!(h.orchestrator.is_quitting());

    assert!(
        h.orchestrator.enter_operation().is_none(),
        "quiescing must reject new history mutations"
    );
    assert_eq!(
        h.heard(attempt),
        None,
        "quit must wait for an already-entered history mutation"
    );

    let due = h.orchestrator.leave_operation(operation);
    assert_eq!(due, vec![1], "the waiting exit is due");
    assert_eq!(
        h.quit_released(attempt, waiting)
            .done()
            .expect("quit should complete after history mutation drains"),
        QuitOutcome::Idle
    );
}

#[test]
fn quit_rejects_output_that_has_not_crossed_irreversible_commit_point() {
    let mut h = harness(MockConfig::faithful());
    let session_id = start_session(&mut h);
    let finish = h.finish_until(session_id, is_insertion).paused();

    let (attempt, waiting) = quitting_and_waiting(&mut h);
    assert!(h.orchestrator.is_quitting());
    assert_eq!(h.heard(attempt), None);

    assert_eq!(
        h.finish_released(finish)
            .expect("finish workflow should remain valid"),
        FinishOutcome::Discarded
    );
    assert_eq!(
        h.quit_released(attempt, waiting)
            .done()
            .expect("quit should finish after Delivering drains"),
        QuitOutcome::Terminated(session_id)
    );
    let calls = h.calls.clone();
    assert_eq!(calls.insert_attempts, 1);
    assert!(calls.inserted_texts.is_empty());
    assert!(calls.temporary_texts.is_empty());
    assert!(calls.history_records.is_empty());
}

#[test]
fn quit_rejects_temporary_text_that_has_not_crossed_commit_point() {
    let mut config = MockConfig::faithful();
    config.target = Ok(target(TargetSecurity::Unknown, false));
    let mut h = harness(config);
    let session_id = start_session(&mut h);
    let finish = h.finish_until(session_id, is_temporary_text).paused();

    let (attempt, waiting) = quitting_and_waiting(&mut h);
    assert!(h.orchestrator.is_quitting());

    assert_eq!(
        h.finish_released(finish)
            .expect("finish workflow should remain valid"),
        FinishOutcome::Discarded
    );
    assert_eq!(
        h.quit_released(attempt, waiting)
            .done()
            .expect("quit should finish after temporary output drains"),
        QuitOutcome::Terminated(session_id)
    );
    let calls = h.calls.clone();
    assert!(calls.inserted_texts.is_empty());
    assert!(calls.temporary_texts.is_empty());
    assert!(calls.history_records.is_empty());
}

#[test]
fn quit_waits_for_history_commit_that_started_before_invalidation() {
    let mut h = harness(MockConfig::faithful());
    let session_id = start_session(&mut h);
    let finish = h.finish_until(session_id, is_history_save).paused();
    let Command::SaveHistory { record, .. } = finish.command.clone() else {
        unreachable!("the workflow stands at the history save");
    };
    let commit = h
        .begin_commit(session_id)
        .expect("history should pause after acquiring its commit");
    assert!(h.calls.clone().history_records.is_empty());

    let (attempt, waiting) = quitting_and_waiting(&mut h);
    assert!(h.orchestrator.is_quitting());
    assert_eq!(
        h.heard(attempt),
        None,
        "quit must await an already-started irreversible commit"
    );

    // The commit that had begun goes through.
    h.calls.history_records.push(record);
    h.calls.history_policy_enforcements += 1;
    h.end_commit(session_id, commit);
    assert_eq!(
        h.finish_reply(finish, Reply::Acted(Ok(())))
            .expect("finish workflow should remain valid"),
        FinishOutcome::Discarded
    );
    assert_eq!(
        h.quit_released(attempt, waiting)
            .done()
            .expect("quit should finish only after history commit"),
        QuitOutcome::Terminated(session_id)
    );
    let committed = h.calls.clone();
    assert_eq!(committed.history_records.len(), 1);
    assert_eq!(committed.history_policy_enforcements, 1);
}

#[test]
fn public_async_workflows_are_send_and_do_not_capture_mutex_guards() {
    fn assert_send<T: Send>(_: T) {}

    let mut h = harness(MockConfig::faithful());
    assert_send(h.orchestrator.start(SessionId::from_uuid(1)).progress);
    assert_send(h.orchestrator.finish_recording(SessionId::from_uuid(2)).progress);
    assert_send(h.orchestrator.cancel_recording(SessionId::from_uuid(3)).progress);
    assert_send(h.orchestrator.quit());
}

#[test]
fn a_failed_capture_starts_no_session() {
    let mut config = MockConfig::faithful();
    config.target = Err(port_error("target_unavailable"));
    let mut h = harness(config);

    assert_eq!(
        h.start().expect("a failed capture remains typed"),
        StartOutcome::Rejected(RejectReason::PermissionUnavailable)
    );
    assert_eq!(h.calls.audio_starts, 0);
    assert_eq!(h.orchestrator.active_session_id(), None);
    assert!(!h.orchestrator.has_active_work());
}

#[test]
fn the_activity_follows_the_session() {
    let mut h = harness(MockConfig::faithful());
    assert_eq!(
        h.orchestrator.application_activity(),
        ApplicationActivity::Idle
    );
    let session_id = start_session(&mut h);
    assert_eq!(
        h.orchestrator.application_activity(),
        ApplicationActivity::Busy
    );
    assert_eq!(h.orchestrator.active_session_id(), Some(session_id));
    assert_eq!(h.orchestrator.operations_in_flight(), 0);
    h.finish_recording(session_id).expect("a plain dictation");
    assert_eq!(
        h.orchestrator.application_activity(),
        ApplicationActivity::Idle
    );
    h.quit().expect("an idle exit");
    assert_eq!(
        h.orchestrator.application_activity(),
        ApplicationActivity::Quitting
    );
}

#[test]
fn a_cancelled_or_finished_recording_stops_its_deadline() {
    let mut h = harness(MockConfig::faithful());
    let first = start_session(&mut h);
    h.cancel_recording(first).expect("cancel");
    assert_eq!(h.calls.deadlines_stopped, vec![1]);
    let second = start_session(&mut h);
    h.finish_recording(second).expect("finish");
    assert_eq!(h.calls.deadlines_stopped, vec![1, 2]);
}

#[test]
fn a_lifecycle_is_open_exactly_while_its_session_lasts() {
    let mut h = harness(MockConfig::faithful());
    let first = start_session(&mut h);
    let guard = h.begin_commit(first).expect("the lifecycle is open");
    h.end_commit(first, guard);
    h.cancel_recording(first).expect("cancel");
    assert!(h.begin_commit(first).is_none());

    let second = start_session(&mut h);
    let guard = h.begin_commit(second).expect("the lifecycle is open");
    h.end_commit(second, guard);
    h.finish_recording(second).expect("finish");
    assert!(h.begin_commit(second).is_none());

    let third = start_session(&mut h);
    assert_eq!(h.quit(), Ok(QuitOutcome::Terminated(third)));
    assert!(h.begin_commit(third).is_none());
    assert_eq!(h.calls.deadlines_stopped, vec![1, 2, 3]);
}

#[test]
fn a_debt_is_listed_until_it_is_settled() {
    let mut config = MockConfig::faithful();
    config.audio_cleanup_failures_remaining = 1;
    let mut h = harness(config);
    let session_id = start_session(&mut h);

    assert!(h.finish_recording(session_id).is_err());
    assert_eq!(h.orchestrator.audio_cleanup_debts().len(), 1);
    assert!(h.orchestrator.has_active_work());
    assert_eq!(
        h.retry_audio_cleanup(session_id),
        Ok(AudioCleanupOutcome::Recovered)
    );
    assert!(h.orchestrator.audio_cleanup_debts().is_empty());
    assert_eq!(
        h.retry_audio_cleanup(session_id),
        Ok(AudioCleanupOutcome::NotPending)
    );
}

#[test]
fn nothing_begins_once_the_application_has_quit() {
    let mut h = harness(MockConfig::faithful());
    assert_eq!(h.quit(), Ok(QuitOutcome::Idle));
    let session_id = SessionId::from_uuid(77);

    assert_eq!(h.start(), Ok(StartOutcome::Quitting));
    assert_eq!(
        h.finish_recording(session_id),
        Ok(FinishOutcome::Discarded)
    );
    assert_eq!(
        h.cancel_recording(session_id),
        Ok(CancelOutcome::NotFound)
    );
    assert_eq!(
        h.retry_audio_cleanup(session_id),
        Ok(AudioCleanupOutcome::Quitting)
    );
    assert_eq!(h.calls.audio_starts, 0);
}

#[test]
fn a_limit_that_nobody_waits_for_finishes_nothing() {
    let mut h = harness(MockConfig::faithful());
    assert!(!h.orchestrator.mark_recording_limit(SessionId::from_uuid(5)));
    let session_id = start_session(&mut h);
    h.cancel_recording(session_id).expect("cancel");
    h.recording_limit_elapsed(session_id);

    assert_eq!(h.calls.audio_finishes, 0);
    assert!(h.calls.diagnostics.is_empty());
}

#[test]
fn auto_copy_failure_does_not_rollback_delivery_or_history() {
    let mut config = MockConfig::faithful();
    let mut input = config.settings.clone().into_input();
    input.auto_copy_result = true;
    config.settings = SettingsSnapshot::new(input);
    config.clipboard_write = Err(port_error("clipboard.write_failed"));
    let mut h = harness(config);
    let session_id = start_session(&mut h);

    let outcome = h
        .finish_recording(session_id)
        .expect("clipboard failure must stay ancillary");
    let FinishOutcome::Completed(completion) = outcome else {
        panic!("expected completed delivery, got {outcome:?}");
    };

    assert_eq!(completion.delivery, DeliveryKind::Inserted);
    assert_eq!(
        completion.warnings,
        vec![FinalizationWarning::AutoCopyFailed]
    );
    let calls = h.calls.clone();
    assert!(calls.clipboard_written_texts.is_empty());
    assert_eq!(calls.history_records.len(), 1);
}

/// A start whose HUD and whose first attempt to close the capture both failed.
fn start_that_owes_its_capture() -> (Harness, SessionId) {
    let mut config = MockConfig::faithful();
    config.recording_hud_update = Err(port_error("recording_hud_ready_failed"));
    config.audio_cancel_failures_remaining = 1;
    let mut h = harness(config);
    let error = h.start().expect_err("the capture is still open");
    let session_id = h.calls.recording_hud_shows[0].0;
    assert!(matches!(
        error,
        OrchestratorError::AudioCleanupFailed {
            session_id: owing,
            phase: "audio_cancel",
            ..
        } if owing == session_id
    ));
    assert_eq!(
        h.start(),
        Ok(StartOutcome::Busy {
            active_session_id: session_id
        })
    );
    (h, session_id)
}

/// The place and the slot are free: a new session is accepted and can be cancelled.
fn accepts_a_new_session(h: &mut Harness, session_id: SessionId) {
    assert!(!h.orchestrator.has_active_work());
    assert!(h.orchestrator.audio_cleanup_debts().is_empty());
    h.config.recording_hud_update = Ok(());
    let next = start_session(h);
    assert_ne!(next, session_id);
    assert_eq!(h.cancel_recording(next), Ok(CancelOutcome::Cancelled));
}

#[test]
fn a_retry_after_a_failed_ready_update_frees_the_slot() {
    let (mut h, session_id) = start_that_owes_its_capture();

    assert_eq!(
        h.retry_audio_cleanup(session_id),
        Ok(AudioCleanupOutcome::Recovered)
    );
    assert_eq!(h.calls.audio_cancels, 2);
    assert_eq!(h.calls.recording_hud_hides, vec![session_id]);
    accepts_a_new_session(&mut h, session_id);
}

#[test]
fn a_cancellation_after_a_failed_ready_update_frees_the_slot() {
    let (mut h, session_id) = start_that_owes_its_capture();

    assert_eq!(h.cancel_recording(session_id), Ok(CancelOutcome::Cancelled));
    assert_eq!(h.calls.audio_cancels, 2);
    assert_eq!(h.calls.recording_hud_hides, vec![session_id]);
    accepts_a_new_session(&mut h, session_id);
}

fn is_ready_update(command: &Command) -> bool {
    matches!(command, Command::UpdateHud(_, RecordingHudState::Recording))
}

#[test]
fn a_start_under_way_keeps_the_slot_of_a_cancelled_preparation() {
    let mut h = harness(MockConfig::faithful());
    let start = h.start_until(is_ready_update).paused();
    let session_id = start.flow.session_id;
    assert_eq!(h.cancel_recording(session_id), Ok(CancelOutcome::Cancelled));
    assert!(!h.orchestrator.has_active_work());

    assert_eq!(
        h.start(),
        Ok(StartOutcome::Busy {
            active_session_id: session_id
        })
    );
    assert_eq!(h.calls.audio_cancels, 2);
    assert_eq!(
        h.start_reply(start, Reply::Acted(Ok(()))),
        Ok(StartOutcome::Quitting)
    );
    let next = start_session(&mut h);
    assert_ne!(next, session_id);
}

#[test]
fn a_cancellation_that_failed_under_a_start_leaves_the_slot_to_it() {
    let mut config = MockConfig::faithful();
    config.audio_cancel_failures_remaining = 1;
    let mut h = harness(config);
    let start = h.start_until(is_ready_update).paused();
    let session_id = start.flow.session_id;
    assert!(h.cancel_recording(session_id).is_err());
    assert_eq!(
        h.retry_audio_cleanup(session_id),
        Ok(AudioCleanupOutcome::Recovered)
    );

    assert_eq!(
        h.start(),
        Ok(StartOutcome::Busy {
            active_session_id: session_id
        })
    );
    assert_eq!(
        h.start_reply(start, Reply::Acted(Ok(()))),
        Ok(StartOutcome::Quitting)
    );
    start_session(&mut h);
}

#[test]
fn a_finish_takes_no_notice_of_settings_changed_since_the_start() {
    let mut config = MockConfig::faithful();
    config.settings = settings_with_clipboard(ProcessingMode::Faithful, true, true, true);
    let mut input = config.settings.clone().into_input();
    input.auto_copy_result = true;
    config.settings = SettingsSnapshot::new(input);
    let mut h = harness(config);
    let session_id = start_session(&mut h);
    let health_checks = h.calls.health_checks;
    h.config.settings = settings(ProcessingMode::Raw, false, false);
    h.config.llm_route_error = Some(port_error("llm.gone"));
    h.config.qwen_health = EngineHealth::Missing;

    let FinishOutcome::Completed(completion) =
        h.finish_recording(session_id).expect("a delivery")
    else {
        panic!("expected a completed delivery");
    };
    assert_eq!(completion.final_text, "clean text");
    assert_eq!(completion.direct_delivery_reason, None);
    assert_eq!(h.calls.llm_route_resolutions, 1);
    assert_eq!(h.calls.health_checks, health_checks);
    assert_eq!(
        h.calls.llm_requests[0].processing_mode,
        ProcessingMode::Faithful
    );
    assert_eq!(h.calls.clipboard_written_texts, vec!["clean text"]);
    assert_eq!(h.calls.history_records.len(), 1);
}

#[test]
fn records_are_the_same_whatever_is_said() {
    let records = |said: &str, selected: &str, written: &str| {
        let mut config = MockConfig::faithful();
        config.selection = Ok(SelectionSnapshot {
            text: Some(selected.to_owned()),
            anchor_normalized_to_end: true,
            exceeded_limit: false,
        });
        config.asr_behavior = AsrBehavior::Success(said.to_owned());
        config.llm_behavior = LlmBehavior::Success(written.to_owned());
        config.insert = Ok(InsertOutcome::NotInserted);
        config.history_save = Err(port_error("history_failed"));
        let mut h = harness(config);
        let session_id = start_session(&mut h);
        let FinishOutcome::Completed(completion) =
            h.finish_recording(session_id).expect("a delivery")
        else {
            panic!("expected a completed delivery");
        };
        assert_eq!(completion.final_text, written);
        let mut events = h.calls.diagnostics.clone();
        for event in &mut events {
            event.duration_ms = None;
        }
        (events, h.calls.traces.clone())
    };
    let (events, traces) = records("first words", "a selection", "first text");

    assert!(events.len() >= 3);
    assert_eq!(
        records("other words altogether", "something else", "another text"),
        (events.clone(), traces)
    );
    for event in events {
        for text in ["first words", "a selection", "first text"] {
            assert!(!format!("{event:?}").contains(text));
        }
    }
}

#[test]
fn raw_mode_stays_local_from_start_to_completion() {
    let mut config = MockConfig::faithful();
    config.settings = settings(ProcessingMode::Raw, true, true);
    let mut h = harness(config);
    let session_id = start_session(&mut h);
    let FinishOutcome::Completed(completion) =
        h.finish_recording(session_id).expect("a delivery")
    else {
        panic!("expected a completed delivery");
    };

    assert_eq!(completion.final_text, "raw text");
    assert_eq!(
        completion.direct_delivery_reason,
        Some(DirectDeliveryReason::RawMode)
    );
    assert_eq!(h.calls.llm_route_resolutions, 0);
    assert!(h.calls.llm_requests.is_empty());
    assert_eq!(h.calls.selection_reads, 0);
    assert_eq!(h.calls.clipboard_selection_reads, 0);
}

#[test]
fn a_session_never_writes_a_text_twice() {
    for (insert, paste) in [
        (InsertOutcome::NotInserted, InsertOutcome::NotInserted),
        (InsertOutcome::NotInserted, InsertOutcome::Indeterminate),
        (InsertOutcome::NotInserted, InsertOutcome::Inserted),
        (InsertOutcome::Indeterminate, InsertOutcome::Inserted),
        (InsertOutcome::Inserted, InsertOutcome::Inserted),
    ] {
        let mut config = MockConfig::faithful();
        config.settings = settings_with_clipboard(ProcessingMode::Faithful, true, true, true);
        config.insert = Ok(insert);
        config.clipboard_insert = Ok(paste);
        let mut h = harness(config);
        let session_id = start_session(&mut h);
        h.finish_recording(session_id).expect("a delivery");

        let calls = &h.calls;
        assert!(
            calls.inserted_texts.len()
                + calls.clipboard_inserted_texts.len()
                + calls.user_directed_pasted_texts.len()
                <= 1
        );
        assert_eq!(calls.insert_attempts, 1);
        assert_eq!(calls.history_records.len(), 1);
    }
}
