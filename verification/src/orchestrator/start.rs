//! Starting a session: settings and routes are frozen, the target is captured,
//! and the recording is prepared while the recogniser is checked.

use crate::asr_route::ResolvedAsrRoute;
use crate::domain::{
    FailureCategory, ProcessingMode, RejectReason, SessionEvent, SessionId, SettingsSnapshot,
    TimestampMs,
};
use crate::orchestrator::cancel::{capture_settled, settlement};
use crate::orchestrator::protocol::{
    acted, failure, note_failure, note_result, noted, Command, Effect, Entered, Move, Next,
    Progress, Reply,
};
use crate::orchestrator::state::{
    ActiveWorkflow, OrchestratorError, OrchestratorView, PreparingStage,
    PreparingWorkflow, RecordingPreparation, RuntimeStage, StartOutcome,
    TranscriptionOrchestrator,
};
use crate::ports::{
    AudioCaptureRef, CapturedTarget, LlmRouteCandidate, LlmRouteResolution, MicrophoneAccess,
    PortError, RecordingHudState, SelectionSnapshot, TargetSecurity, UserNotificationKind,
};
use crate::session_coordinator::{mutation_of, new_session, slot_after, StartSessionOutcome};
use crate::text_route::{
    spec_text_route, text_processing_route, DirectDeliveryReason, TextProcessingRoute,
};
use crate::trace::Decision;
use vstd::prelude::*;

verus! {

/// Why a start gives its capture up.
#[derive(Clone, Copy, Debug, PartialEq, Eq, Structural)]
pub enum StartRefusal {
    AsrUnavailable,
    Busy(SessionId),
    HudUnavailable,
}

/// How far a start has come.
pub enum StartStep {
    AcquiringGate,
    LoadingSettings,
    ResolvingRoute { settings: SettingsSnapshot },
    CapturingTarget { settings: SettingsSnapshot, route: TextProcessingRoute },
    ReadingSelection {
        settings: SettingsSnapshot,
        route: TextProcessingRoute,
        target: CapturedTarget,
    },
    ReadingClipboardSelection {
        settings: SettingsSnapshot,
        route: TextProcessingRoute,
        target: CapturedTarget,
    },
    RequestingMicrophone {
        settings: SettingsSnapshot,
        route: TextProcessingRoute,
        target: CapturedTarget,
        selected_text: Option<String>,
    },
    Preparing { settings: SettingsSnapshot },
    ReadingClock {
        settings: SettingsSnapshot,
        capture: AudioCaptureRef,
        asr_route: ResolvedAsrRoute,
    },
    AnnouncingRecording { capture: AudioCaptureRef, asr_route: ResolvedAsrRoute },
    CancellingCapture { capture: AudioCaptureRef, refusal: StartRefusal },
    HidingHud { refusal: StartRefusal },
    Notifying { reason: RejectReason },
    Finishing,
}

/// A start under way.
pub struct StartFlow {
    pub session_id: SessionId,
    pub step: StartStep,
}

pub type StartResult = Result<StartOutcome, OrchestratorError>;

pub type StartMove = Move<StartFlow, StartResult>;

pub open spec fn start_end(o: OrchestratorView, outcome: StartOutcome) -> StartMove {
    Move { after: o, effects: Seq::empty(), next: Next::Done(Ok(outcome)) }
}

pub open spec fn start_error(o: OrchestratorView, error: OrchestratorError) -> StartMove {
    Move { after: o, effects: Seq::empty(), next: Next::Done(Err(error)) }
}

pub open spec fn start_wait(
    o: OrchestratorView,
    session_id: SessionId,
    step: StartStep,
    command: Command,
) -> StartMove {
    Move {
        after: o,
        effects: Seq::empty(),
        next: Next::Await { flow: StartFlow { session_id, step }, command },
    }
}

/// How a start begins: it waits until no settings are being changed.
pub open spec fn start_begin(o: OrchestratorView, session_id: SessionId) -> StartMove {
    if !o.operations.open {
        start_end(o, StartOutcome::Quitting)
    } else {
        start_wait(
            OrchestratorView { operations: o.operations.entered(), ..o },
            session_id,
            StartStep::AcquiringGate,
            Command::AcquireConfigurationGate,
        ).following(seq![Effect::MarkSession])
    }
}

/// Single flight: a start is turned away while anything occupies the place.
pub open spec fn start_on_gate(o: OrchestratorView, session_id: SessionId) -> StartMove {
    if o.quitting {
        start_end(o, StartOutcome::Quitting)
    } else {
        match o.occupant() {
            Some(active_session_id) => start_end(o, StartOutcome::Busy { active_session_id }),
            None => start_wait(
                OrchestratorView { starting: Some(session_id), ..o },
                session_id,
                StartStep::LoadingSettings,
                Command::LoadSettings,
            ),
        }
    }
}

/// Settings may change again; the target is captured.
pub open spec fn start_capturing(
    o: OrchestratorView,
    session_id: SessionId,
    settings: SettingsSnapshot,
    route: TextProcessingRoute,
) -> StartMove {
    start_wait(
        o,
        session_id,
        StartStep::CapturingTarget { settings, route },
        Command::CaptureTarget,
    ).following(seq![Effect::ReleaseConfigurationGate])
}

/// The language model that the settings propose.
pub open spec fn proposed_route(settings: SettingsSnapshot) -> Option<LlmRouteCandidate> {
    match settings.input.llm {
        Some(llm) => Some(LlmRouteCandidate { base_url: llm.base_url, model: llm.model }),
        None => None,
    }
}

/// Raw mode asks nobody about the language model.
pub open spec fn start_on_settings(
    o: OrchestratorView,
    session_id: SessionId,
    result: Result<SettingsSnapshot, PortError>,
) -> StartMove {
    match result {
        Err(error) => start_end(
            o.released(session_id),
            StartOutcome::Failed(FailureCategory::Storage),
        ).following(seq![failure(session_id, "preparing", error)]),
        Ok(settings) => if !o.reserved(session_id) {
            start_end(o, StartOutcome::Quitting)
        } else if settings.input.processing_mode == ProcessingMode::Raw {
            start_capturing(
                o,
                session_id,
                settings,
                TextProcessingRoute::DirectAsr(DirectDeliveryReason::RawMode),
            )
        } else {
            start_wait(
                o,
                session_id,
                StartStep::ResolvingRoute { settings },
                Command::ResolveLlmRoute(proposed_route(settings)),
            )
        },
    }
}

pub open spec fn start_on_route(
    o: OrchestratorView,
    session_id: SessionId,
    settings: SettingsSnapshot,
    resolution: LlmRouteResolution,
) -> StartMove {
    (if !o.reserved(session_id) {
        start_end(o, StartOutcome::Quitting)
    } else {
        start_capturing(
            o,
            session_id,
            settings,
            spec_text_route(settings.input.processing_mode, resolution),
        )
    }).following(
        match resolution {
            LlmRouteResolution::Unavailable { error, .. } => seq![
                failure(session_id, "llm_route", error),
            ],
            _ => Seq::empty(),
        },
    )
}

/// The microphone is asked for once it is known what will be said to whom.
pub open spec fn start_requesting(
    o: OrchestratorView,
    session_id: SessionId,
    settings: SettingsSnapshot,
    route: TextProcessingRoute,
    target: CapturedTarget,
    selected_text: Option<String>,
) -> StartMove {
    start_wait(
        o,
        session_id,
        StartStep::RequestingMicrophone { settings, route, target, selected_text },
        Command::RequestMicrophone,
    )
}

/// Whether the selection is read: only from a safe target that has one, only
/// where the settings say so, and only for the language model.
pub open spec fn reads_selection(
    settings: SettingsSnapshot,
    route: TextProcessingRoute,
    target: CapturedTarget,
) -> bool {
    &&& target.security == TargetSecurity::Safe
    &&& target.has_selection
    &&& settings.input.read_selected_text
    &&& route is Llm
}

pub open spec fn start_on_target(
    o: OrchestratorView,
    session_id: SessionId,
    settings: SettingsSnapshot,
    route: TextProcessingRoute,
    result: Result<CapturedTarget, PortError>,
) -> StartMove {
    if !o.reserved(session_id) {
        start_end(o, StartOutcome::Quitting)
    } else {
        match result {
            Err(error) => start_end(
                o.released(session_id),
                StartOutcome::Rejected(RejectReason::PermissionUnavailable),
            ).following(
                seq![
                    failure(session_id, "target_capture", error),
                    Effect::Trace(Decision::CaptureFailed { code: error.code }),
                ],
            ),
            Ok(target) => (if reads_selection(settings, route, target) {
                start_wait(
                    o,
                    session_id,
                    StartStep::ReadingSelection { settings, route, target },
                    Command::ReadSelection(target.target_ref),
                )
            } else {
                start_requesting(o, session_id, settings, route, target, None)
            }).following(
                seq![
                    Effect::Trace(
                        Decision::TargetCaptured {
                            security: target.security,
                            has_selection: target.has_selection,
                        },
                    ),
                ],
            ),
        }
    }
}

/// A selection that is too long, or that cannot be read, turns the start away.
pub open spec fn start_selecting(
    o: OrchestratorView,
    session_id: SessionId,
    settings: SettingsSnapshot,
    route: TextProcessingRoute,
    target: CapturedTarget,
    result: Result<SelectionSnapshot, PortError>,
) -> StartMove {
    match result {
        Ok(selection) => if selection.exceeded_limit {
            start_end(
                o.released(session_id),
                StartOutcome::Rejected(RejectReason::SelectionTooLong),
            )
        } else {
            start_requesting(o, session_id, settings, route, target, selection.text)
        },
        Err(error) => start_end(
            o.released(session_id),
            StartOutcome::Rejected(RejectReason::PermissionUnavailable),
        ).following(seq![failure(session_id, "selection_read", error)]),
    }
}

/// The clipboard may help out where the native way failed and the settings allow
/// it.
pub open spec fn start_on_selection(
    o: OrchestratorView,
    session_id: SessionId,
    settings: SettingsSnapshot,
    route: TextProcessingRoute,
    target: CapturedTarget,
    result: Result<SelectionSnapshot, PortError>,
) -> StartMove {
    if !o.reserved(session_id) {
        start_end(o, StartOutcome::Quitting)
    } else if result is Err && settings.input.clipboard_bridge_allowed {
        start_wait(
            o,
            session_id,
            StartStep::ReadingClipboardSelection { settings, route, target },
            Command::ReadSelectionViaClipboard(target.target_ref),
        ).following(seq![failure(session_id, "selection_read_native", result->Err_0)])
    } else {
        start_selecting(o, session_id, settings, route, target, result)
    }
}

pub open spec fn start_on_clipboard_selection(
    o: OrchestratorView,
    session_id: SessionId,
    settings: SettingsSnapshot,
    route: TextProcessingRoute,
    target: CapturedTarget,
    result: Result<SelectionSnapshot, PortError>,
) -> StartMove {
    if !o.reserved(session_id) {
        start_end(o, StartOutcome::Quitting)
    } else {
        start_selecting(o, session_id, settings, route, target, result)
    }
}

/// The preparation that a granted microphone leads to.
pub open spec fn new_preparation(
    session_id: SessionId,
    settings: SettingsSnapshot,
    route: TextProcessingRoute,
    target: CapturedTarget,
    selected_text: Option<String>,
) -> PreparingWorkflow {
    PreparingWorkflow {
        session_id,
        settings,
        processing_route: route,
        target_ref: target.target_ref,
        target_security: target.security,
        selected_text,
        recording_deadline: None,
        recording_limit_elapsed: false,
        given_up: false,
        stage: PreparingStage::StartingAudio,
    }
}

/// A microphone that was not granted turns the start away, and the user is told.
pub open spec fn start_without_microphone(o: OrchestratorView, session_id: SessionId) -> StartMove {
    start_wait(
        o.released(session_id),
        session_id,
        StartStep::Notifying { reason: RejectReason::PermissionUnavailable },
        Command::Notify(session_id, UserNotificationKind::MicrophonePermission),
    )
}

pub open spec fn start_on_microphone(
    o: OrchestratorView,
    session_id: SessionId,
    settings: SettingsSnapshot,
    route: TextProcessingRoute,
    target: CapturedTarget,
    selected_text: Option<String>,
    result: Result<MicrophoneAccess, PortError>,
) -> StartMove {
    if !o.reserved(session_id) {
        start_end(o, StartOutcome::Quitting)
    } else {
        match result {
            Ok(MicrophoneAccess::Granted) => if o.starting != Some(session_id) {
                start_end(o, StartOutcome::Quitting)
            } else {
                start_wait(
                    OrchestratorView {
                        starting: None,
                        preparing: Some(
                            new_preparation(session_id, settings, route, target, selected_text),
                        ),
                        ..o
                    },
                    session_id,
                    StartStep::Preparing { settings },
                    Command::PrepareRecording {
                        session_id,
                        display_hint: target.display_hint,
                        limit: settings.input.max_recording_duration,
                        preference: settings.input.asr_preference,
                    },
                ).following(seq![Effect::OpenLifecycle(session_id)])
            },
            Ok(_) => start_without_microphone(o, session_id),
            Err(error) => start_without_microphone(o, session_id).following(
                seq![failure(session_id, "microphone_permission", error)],
            ),
        }
    }
}

/// The capture is taken over for cancellation, and the start gives up. Where its
/// session has the single slot already, the preparation remembers that.
pub open spec fn start_giving_up(
    o: OrchestratorView,
    session_id: SessionId,
    capture: AudioCaptureRef,
    refusal: StartRefusal,
) -> StartMove {
    let claimed = o.prepared_to(PreparingStage::Cancelling { capture, in_flight: true });
    start_wait(
        if refusal == StartRefusal::HudUnavailable {
            claimed.given_up()
        } else {
            claimed
        },
        session_id,
        StartStep::CancellingCapture { capture, refusal },
        Command::CancelCapture(capture),
    )
}

pub open spec fn start_on_prepared(
    o: OrchestratorView,
    session_id: SessionId,
    settings: SettingsSnapshot,
    recording: Result<RecordingPreparation, OrchestratorError>,
    asr_route: Option<ResolvedAsrRoute>,
) -> StartMove {
    match recording {
        Err(error) => start_error(o, error),
        Ok(RecordingPreparation::FailedAudio) => start_end(
            o,
            StartOutcome::Failed(FailureCategory::Audio),
        ),
        Ok(RecordingPreparation::FailedLifecycle) => start_end(
            o,
            StartOutcome::Failed(FailureCategory::Lifecycle),
        ),
        Ok(RecordingPreparation::RejectedHud) => start_end(
            o,
            StartOutcome::Rejected(RejectReason::RecordingHudUnavailable),
        ),
        Ok(RecordingPreparation::Aborted) => start_end(o, StartOutcome::Quitting),
        Ok(RecordingPreparation::Ready(capture)) => if !o.captures(session_id, capture) {
            start_end(o, StartOutcome::Quitting)
        } else {
            match asr_route {
                None => start_giving_up(o, session_id, capture, StartRefusal::AsrUnavailable),
                Some(asr_route) => start_wait(
                    o,
                    session_id,
                    StartStep::ReadingClock { settings, capture, asr_route },
                    Command::ReadClock,
                ),
            }
        },
    }
}

/// The session takes the single slot, if it is free.
pub open spec fn start_on_clock(
    o: OrchestratorView,
    session_id: SessionId,
    settings: SettingsSnapshot,
    capture: AudioCaptureRef,
    asr_route: ResolvedAsrRoute,
    now: TimestampMs,
) -> StartMove {
    match o.session {
        Some(active) => {
            let active_session_id = active.session.id;
            if o.captures(session_id, capture) {
                start_giving_up(o, session_id, capture, StartRefusal::Busy(active_session_id))
            } else {
                start_end(o, StartOutcome::Busy { active_session_id })
            }
        },
        None => start_wait(
            OrchestratorView {
                session: Some(new_session(session_id, now, settings, asr_route)),
                ..o
            },
            session_id,
            StartStep::AnnouncingRecording { capture, asr_route },
            Command::UpdateHud(session_id, RecordingHudState::Recording),
        ),
    }
}

/// The single slot after an event, whatever the session makes of it.
pub open spec fn told(
    o: OrchestratorView,
    session_id: SessionId,
    event: SessionEvent,
) -> OrchestratorView {
    OrchestratorView { session: slot_after(o.session, session_id, event), ..o }
}

/// The recording that a preparation turns into.
pub open spec fn new_recording(
    preparing: PreparingWorkflow,
    capture: AudioCaptureRef,
    asr_route: ResolvedAsrRoute,
) -> ActiveWorkflow {
    ActiveWorkflow {
        session_id: preparing.session_id,
        settings: preparing.settings,
        processing_route: preparing.processing_route,
        asr_route,
        target_ref: preparing.target_ref,
        target_security: preparing.target_security,
        selected_text: preparing.selected_text,
        recording_deadline: preparing.recording_deadline,
        stage: RuntimeStage::Recording { capture },
    }
}

/// The session records. A limit that has passed meanwhile finishes it at once.
pub open spec fn start_recording(
    o: OrchestratorView,
    session_id: SessionId,
    capture: AudioCaptureRef,
    asr_route: ResolvedAsrRoute,
) -> StartMove {
    let event = SessionEvent::PreflightPassed;
    let after = OrchestratorView {
        preparing: None,
        active: Some(new_recording(o.preparing->0, capture, asr_route)),
        session: slot_after(o.session, session_id, event),
        ..o
    };
    match mutation_of(o.session, session_id, event) {
        Err(error) => start_error(after, OrchestratorError::Coordinator(error)),
        Ok(_) => if o.preparing->0.recording_limit_elapsed {
            start_wait(
                after,
                session_id,
                StartStep::Finishing,
                Command::FinishRecording(session_id),
            )
        } else {
            start_end(after, StartOutcome::Started { session_id })
        },
    }
}

/// A HUD that cannot show the recording turns the start away; a preparation that
/// has lost its place ends the session.
pub open spec fn start_on_announced(
    o: OrchestratorView,
    session_id: SessionId,
    capture: AudioCaptureRef,
    asr_route: ResolvedAsrRoute,
    result: Result<(), PortError>,
) -> StartMove {
    (if !o.captures(session_id, capture) {
        start_end(
            told(o, session_id, SessionEvent::Fail(FailureCategory::Lifecycle)),
            StartOutcome::Quitting,
        )
    } else if result is Err {
        start_giving_up(o, session_id, capture, StartRefusal::HudUnavailable)
    } else {
        start_recording(o, session_id, capture, asr_route)
    }).following(noted(session_id, "recording_hud_update_ready", result))
}

/// A capture that could not be closed keeps the session's place.
pub open spec fn start_on_cancelled(
    o: OrchestratorView,
    session_id: SessionId,
    capture: AudioCaptureRef,
    refusal: StartRefusal,
    result: Result<(), PortError>,
) -> StartMove {
    let after = capture_settled(o, session_id, capture, result);
    match settlement(session_id, "audio_cancel", result) {
        Err(error) => start_error(
            after.with_cleanup_in_flight(session_id, false),
            error,
        ).following(noted(session_id, "audio_cancel", result)),
        Ok(_) => start_wait(
            after.unprepared(session_id),
            session_id,
            StartStep::HidingHud { refusal },
            Command::HideHud(session_id),
        ).following(after.unpreparing(session_id)),
    }
}

pub open spec fn start_on_hidden(
    o: OrchestratorView,
    session_id: SessionId,
    refusal: StartRefusal,
) -> StartMove {
    match refusal {
        StartRefusal::AsrUnavailable => start_wait(
            o,
            session_id,
            StartStep::Notifying { reason: RejectReason::AsrUnavailable },
            Command::Notify(session_id, UserNotificationKind::Asr),
        ),
        StartRefusal::Busy(active_session_id) => start_end(
            o,
            StartOutcome::Busy { active_session_id },
        ),
        StartRefusal::HudUnavailable => start_end(
            told(o, session_id, SessionEvent::Reject(RejectReason::RecordingHudUnavailable)),
            StartOutcome::Rejected(RejectReason::RecordingHudUnavailable),
        ),
    }
}

/// Whether a reply is what a start waits for.
pub open spec fn start_awaits(step: StartStep, reply: Reply) -> bool {
    match step {
        StartStep::AcquiringGate => reply is Ready,
        StartStep::LoadingSettings => reply is Settings,
        StartStep::ResolvingRoute { .. } => reply is LlmRoute,
        StartStep::CapturingTarget { .. } => reply is Target,
        StartStep::ReadingSelection { .. } | StartStep::ReadingClipboardSelection { .. } => {
            reply is Selection
        },
        StartStep::RequestingMicrophone { .. } => reply is Microphone,
        StartStep::Preparing { .. } => reply is Prepared,
        StartStep::ReadingClock { .. } => reply is Now,
        StartStep::Finishing => reply is Finished,
        _ => reply is Acted,
    }
}

/// The whole start, one answer at a time.
pub open spec fn start_step(o: OrchestratorView, flow: StartFlow, reply: Reply) -> StartMove {
    let session_id = flow.session_id;
    match flow.step {
        StartStep::AcquiringGate => start_on_gate(o, session_id),
        StartStep::LoadingSettings => start_on_settings(o, session_id, reply->Settings_0),
        StartStep::ResolvingRoute { settings } => start_on_route(
            o,
            session_id,
            settings,
            reply->LlmRoute_0,
        ),
        StartStep::CapturingTarget { settings, route } => start_on_target(
            o,
            session_id,
            settings,
            route,
            reply->Target_0,
        ),
        StartStep::ReadingSelection { settings, route, target } => start_on_selection(
            o,
            session_id,
            settings,
            route,
            target,
            reply->Selection_0,
        ),
        StartStep::ReadingClipboardSelection { settings, route, target } => {
            start_on_clipboard_selection(
                o,
                session_id,
                settings,
                route,
                target,
                reply->Selection_0,
            )
        },
        StartStep::RequestingMicrophone { settings, route, target, selected_text } => {
            start_on_microphone(
                o,
                session_id,
                settings,
                route,
                target,
                selected_text,
                reply->Microphone_0,
            )
        },
        StartStep::Preparing { settings } => start_on_prepared(
            o,
            session_id,
            settings,
            reply->recording,
            reply->asr_route,
        ),
        StartStep::ReadingClock { settings, capture, asr_route } => start_on_clock(
            o,
            session_id,
            settings,
            capture,
            asr_route,
            reply->Now_0,
        ),
        StartStep::AnnouncingRecording { capture, asr_route } => start_on_announced(
            o,
            session_id,
            capture,
            asr_route,
            reply->Acted_0,
        ),
        StartStep::CancellingCapture { capture, refusal } => start_on_cancelled(
            o,
            session_id,
            capture,
            refusal,
            reply->Acted_0,
        ),
        StartStep::HidingHud { refusal } => start_on_hidden(o, session_id, refusal).following(
            noted(session_id, "recording_hud_hide", reply->Acted_0),
        ),
        StartStep::Notifying { reason } => start_end(o, StartOutcome::Rejected(reason)).following(
            noted(session_id, "user_notification", reply->Acted_0),
        ),
        StartStep::Finishing => match reply->Finished_0 {
            Ok(_) => start_end(o, StartOutcome::Started { session_id }),
            Err(error) => start_error(o, error),
        },
    }
}

fn wait(session_id: SessionId, step: StartStep, command: Command) -> (next: Next<
    StartFlow,
    StartResult,
>)
    ensures
        next == (Next::<StartFlow, StartResult>::Await {
            flow: StartFlow { session_id, step },
            command,
        }),
{
    Next::Await { flow: StartFlow { session_id, step }, command }
}

fn done(outcome: StartOutcome) -> (next: Next<StartFlow, StartResult>)
    ensures
        next == Next::<StartFlow, StartResult>::Done(Ok(outcome)),
{
    Next::Done(Ok(outcome))
}

impl TranscriptionOrchestrator {
    /// Starts a session with the given identity.
    pub fn start(&mut self, session_id: SessionId) -> (r: Entered<StartFlow, StartResult>)
        requires
            old(self)@.operations.in_flight < usize::MAX,
        ensures
            r.guard is Some <==> old(self)@.operations.open,
            r.progress.effects@ == start_begin(old(self)@, session_id).effects,
            r.progress.next == start_begin(old(self)@, session_id).next,
            final(self)@ == start_begin(old(self)@, session_id).after,
    {
        let guard = self.enter_operation();
        let mut effects: Vec<Effect> = Vec::new();
        if guard.is_none() {
            return Entered {
                guard,
                progress: Progress { effects, next: done(StartOutcome::Quitting) },
            };
        }
        effects.push(Effect::MarkSession);
        Entered {
            guard,
            progress: Progress {
                effects,
                next: wait(
                    session_id,
                    StartStep::AcquiringGate,
                    Command::AcquireConfigurationGate,
                ),
            },
        }
    }

    fn start_with_gate(&mut self, session_id: SessionId) -> (next: Next<StartFlow, StartResult>)
        ensures
            next == start_on_gate(old(self)@, session_id).next,
            final(self)@ == start_on_gate(old(self)@, session_id).after,
    {
        if self.is_quitting() {
            return done(StartOutcome::Quitting);
        }
        if let Some(active_session_id) = self.active_session_id() {
            return done(StartOutcome::Busy { active_session_id });
        }
        self.reserve_start(session_id);
        wait(session_id, StartStep::LoadingSettings, Command::LoadSettings)
    }

    fn start_with_settings(
        &mut self,
        session_id: SessionId,
        result: Result<SettingsSnapshot, PortError>,
        effects: &mut Vec<Effect>,
    ) -> (next: Next<StartFlow, StartResult>)
        ensures
            next == start_on_settings(old(self)@, session_id, result).next,
            final(self)@ == start_on_settings(old(self)@, session_id, result).after,
            final(effects)@ == old(effects)@ + start_on_settings(
                old(self)@,
                session_id,
                result,
            ).effects,
    {
        let settings = match result {
            Ok(settings) => settings,
            Err(error) => {
                note_failure(effects, session_id, "preparing", &error);
                self.release_start_reservation(session_id);
                return done(StartOutcome::Failed(FailureCategory::Storage));
            },
        };
        if !self.start_reservation_is_current(session_id) {
            return done(StartOutcome::Quitting);
        }
        if settings.input.processing_mode == ProcessingMode::Raw {
            effects.push(Effect::ReleaseConfigurationGate);
            let route = TextProcessingRoute::DirectAsr(DirectDeliveryReason::RawMode);
            return wait(
                session_id,
                StartStep::CapturingTarget { settings, route },
                Command::CaptureTarget,
            );
        }
        let candidate = match &settings.input.llm {
            Some(llm) => Some(LlmRouteCandidate::new(llm.base_url.clone(), llm.model.clone())),
            None => None,
        };
        wait(
            session_id,
            StartStep::ResolvingRoute { settings },
            Command::ResolveLlmRoute(candidate),
        )
    }

    fn start_with_route(
        &mut self,
        session_id: SessionId,
        settings: SettingsSnapshot,
        resolution: LlmRouteResolution,
        effects: &mut Vec<Effect>,
    ) -> (next: Next<StartFlow, StartResult>)
        ensures
            next == start_on_route(old(self)@, session_id, settings, resolution).next,
            final(self)@ == start_on_route(old(self)@, session_id, settings, resolution).after,
            final(effects)@ == old(effects)@ + start_on_route(
                old(self)@,
                session_id,
                settings,
                resolution,
            ).effects,
    {
        if let LlmRouteResolution::Unavailable { error, .. } = &resolution {
            note_failure(effects, session_id, "llm_route", error);
        }
        if !self.start_reservation_is_current(session_id) {
            return done(StartOutcome::Quitting);
        }
        effects.push(Effect::ReleaseConfigurationGate);
        let route = text_processing_route(settings.input.processing_mode, resolution);
        wait(session_id, StartStep::CapturingTarget { settings, route }, Command::CaptureTarget)
    }

    fn start_with_target(
        &mut self,
        session_id: SessionId,
        settings: SettingsSnapshot,
        route: TextProcessingRoute,
        result: Result<CapturedTarget, PortError>,
        effects: &mut Vec<Effect>,
    ) -> (next: Next<StartFlow, StartResult>)
        ensures
            next == start_on_target(old(self)@, session_id, settings, route, result).next,
            final(self)@ == start_on_target(old(self)@, session_id, settings, route, result).after,
            final(effects)@ == old(effects)@ + start_on_target(
                old(self)@,
                session_id,
                settings,
                route,
                result,
            ).effects,
    {
        if !self.start_reservation_is_current(session_id) {
            return done(StartOutcome::Quitting);
        }
        let target = match result {
            Ok(target) => target,
            Err(error) => {
                note_failure(effects, session_id, "target_capture", &error);
                self.release_start_reservation(session_id);
                effects.push(Effect::Trace(Decision::CaptureFailed { code: error.code }));
                return done(StartOutcome::Rejected(RejectReason::PermissionUnavailable));
            },
        };
        effects.push(
            Effect::Trace(
                Decision::TargetCaptured {
                    security: target.security,
                    has_selection: target.has_selection,
                },
            ),
        );
        let uses_llm = match &route {
            TextProcessingRoute::Llm(_) => true,
            TextProcessingRoute::DirectAsr(_) => false,
        };
        if target.security == TargetSecurity::Safe && target.has_selection
            && settings.input.read_selected_text && uses_llm {
            let command = Command::ReadSelection(target.target_ref.clone());
            return wait(
                session_id,
                StartStep::ReadingSelection { settings, route, target },
                command,
            );
        }
        wait(
            session_id,
            StartStep::RequestingMicrophone { settings, route, target, selected_text: None },
            Command::RequestMicrophone,
        )
    }

    fn start_with_selected(
        &mut self,
        session_id: SessionId,
        settings: SettingsSnapshot,
        route: TextProcessingRoute,
        target: CapturedTarget,
        result: Result<SelectionSnapshot, PortError>,
        effects: &mut Vec<Effect>,
    ) -> (next: Next<StartFlow, StartResult>)
        ensures
            next == start_selecting(old(self)@, session_id, settings, route, target, result).next,
            final(self)@ == start_selecting(
                old(self)@,
                session_id,
                settings,
                route,
                target,
                result,
            ).after,
            final(effects)@ == old(effects)@ + start_selecting(
                old(self)@,
                session_id,
                settings,
                route,
                target,
                result,
            ).effects,
    {
        match result {
            Ok(selection) => {
                if selection.exceeded_limit {
                    self.release_start_reservation(session_id);
                    return done(StartOutcome::Rejected(RejectReason::SelectionTooLong));
                }
                wait(
                    session_id,
                    StartStep::RequestingMicrophone {
                        settings,
                        route,
                        target,
                        selected_text: selection.text,
                    },
                    Command::RequestMicrophone,
                )
            },
            Err(error) => {
                note_failure(effects, session_id, "selection_read", &error);
                self.release_start_reservation(session_id);
                done(StartOutcome::Rejected(RejectReason::PermissionUnavailable))
            },
        }
    }

    fn start_with_selection(
        &mut self,
        session_id: SessionId,
        settings: SettingsSnapshot,
        route: TextProcessingRoute,
        target: CapturedTarget,
        result: Result<SelectionSnapshot, PortError>,
        effects: &mut Vec<Effect>,
    ) -> (next: Next<StartFlow, StartResult>)
        ensures
            next == start_on_selection(
                old(self)@,
                session_id,
                settings,
                route,
                target,
                result,
            ).next,
            final(self)@ == start_on_selection(
                old(self)@,
                session_id,
                settings,
                route,
                target,
                result,
            ).after,
            final(effects)@ == old(effects)@ + start_on_selection(
                old(self)@,
                session_id,
                settings,
                route,
                target,
                result,
            ).effects,
    {
        if !self.start_reservation_is_current(session_id) {
            return done(StartOutcome::Quitting);
        }
        if settings.input.clipboard_bridge_allowed {
            if let Err(error) = &result {
                note_failure(effects, session_id, "selection_read_native", error);
                let command = Command::ReadSelectionViaClipboard(target.target_ref.clone());
                return wait(
                    session_id,
                    StartStep::ReadingClipboardSelection { settings, route, target },
                    command,
                );
            }
        }
        self.start_with_selected(session_id, settings, route, target, result, effects)
    }

    fn start_refused_microphone(&mut self, session_id: SessionId) -> (next: Next<
        StartFlow,
        StartResult,
    >)
        ensures
            next == start_without_microphone(old(self)@, session_id).next,
            final(self)@ == start_without_microphone(old(self)@, session_id).after,
    {
        self.release_start_reservation(session_id);
        wait(
            session_id,
            StartStep::Notifying { reason: RejectReason::PermissionUnavailable },
            Command::Notify(session_id, UserNotificationKind::MicrophonePermission),
        )
    }

    fn start_with_microphone(
        &mut self,
        session_id: SessionId,
        settings: SettingsSnapshot,
        route: TextProcessingRoute,
        target: CapturedTarget,
        selected_text: Option<String>,
        result: Result<MicrophoneAccess, PortError>,
        effects: &mut Vec<Effect>,
    ) -> (next: Next<StartFlow, StartResult>)
        ensures
            next == start_on_microphone(
                old(self)@,
                session_id,
                settings,
                route,
                target,
                selected_text,
                result,
            ).next,
            final(self)@ == start_on_microphone(
                old(self)@,
                session_id,
                settings,
                route,
                target,
                selected_text,
                result,
            ).after,
            final(effects)@ == old(effects)@ + start_on_microphone(
                old(self)@,
                session_id,
                settings,
                route,
                target,
                selected_text,
                result,
            ).effects,
    {
        if !self.start_reservation_is_current(session_id) {
            return done(StartOutcome::Quitting);
        }
        match result {
            Ok(MicrophoneAccess::Granted) => {
                let display_hint = target.display_hint;
                let limit = settings.input.max_recording_duration;
                let preference = settings.input.asr_preference;
                let workflow = PreparingWorkflow {
                    session_id,
                    settings: settings.clone(),
                    processing_route: route,
                    target_ref: target.target_ref,
                    target_security: target.security,
                    selected_text,
                    recording_deadline: None,
                    recording_limit_elapsed: false,
                    given_up: false,
                    stage: PreparingStage::StartingAudio,
                };
                if !self.install_preparing(workflow) {
                    return done(StartOutcome::Quitting);
                }
                effects.push(Effect::OpenLifecycle(session_id));
                wait(
                    session_id,
                    StartStep::Preparing { settings },
                    Command::PrepareRecording { session_id, display_hint, limit, preference },
                )
            },
            Ok(_) => self.start_refused_microphone(session_id),
            Err(error) => {
                note_failure(effects, session_id, "microphone_permission", &error);
                self.start_refused_microphone(session_id)
            },
        }
    }

    fn start_with_preparation(
        &mut self,
        session_id: SessionId,
        settings: SettingsSnapshot,
        recording: Result<RecordingPreparation, OrchestratorError>,
        asr_route: Option<ResolvedAsrRoute>,
    ) -> (next: Next<StartFlow, StartResult>)
        ensures
            next == start_on_prepared(old(self)@, session_id, settings, recording, asr_route).next,
            final(self)@ == start_on_prepared(
                old(self)@,
                session_id,
                settings,
                recording,
                asr_route,
            ).after,
            start_on_prepared(old(self)@, session_id, settings, recording, asr_route).effects
                == Seq::<Effect>::empty(),
    {
        let capture = match recording {
            Err(error) => {
                return Next::Done(Err(error));
            },
            Ok(RecordingPreparation::FailedAudio) => {
                return done(StartOutcome::Failed(FailureCategory::Audio));
            },
            Ok(RecordingPreparation::FailedLifecycle) => {
                return done(StartOutcome::Failed(FailureCategory::Lifecycle));
            },
            Ok(RecordingPreparation::RejectedHud) => {
                return done(StartOutcome::Rejected(RejectReason::RecordingHudUnavailable));
            },
            Ok(RecordingPreparation::Aborted) => {
                return done(StartOutcome::Quitting);
            },
            Ok(RecordingPreparation::Ready(capture)) => capture,
        };
        match asr_route {
            None => {
                if !self.claim_preparing_capture(session_id, &capture) {
                    return done(StartOutcome::Quitting);
                }
                self.start_cancelling(session_id, capture, StartRefusal::AsrUnavailable)
            },
            Some(asr_route) => {
                if !self.is_current_preparing_capture(session_id, &capture) {
                    return done(StartOutcome::Quitting);
                }
                wait(
                    session_id,
                    StartStep::ReadingClock { settings, capture, asr_route },
                    Command::ReadClock,
                )
            },
        }
    }

    fn start_cancelling(
        &self,
        session_id: SessionId,
        capture: AudioCaptureRef,
        refusal: StartRefusal,
    ) -> (next: Next<StartFlow, StartResult>)
        ensures
            next == start_giving_up(self@, session_id, capture, refusal).next,
    {
        let command = Command::CancelCapture(capture.clone());
        wait(session_id, StartStep::CancellingCapture { capture, refusal }, command)
    }

    fn start_with_clock(
        &mut self,
        session_id: SessionId,
        settings: SettingsSnapshot,
        capture: AudioCaptureRef,
        asr_route: ResolvedAsrRoute,
        now: TimestampMs,
    ) -> (next: Next<StartFlow, StartResult>)
        ensures
            next == start_on_clock(
                old(self)@,
                session_id,
                settings,
                capture,
                asr_route,
                now,
            ).next,
            final(self)@ == start_on_clock(
                old(self)@,
                session_id,
                settings,
                capture,
                asr_route,
                now,
            ).after,
    {
        match self.try_start_session(session_id, now, settings, asr_route) {
            StartSessionOutcome::Accepted { .. } => wait(
                session_id,
                StartStep::AnnouncingRecording { capture, asr_route },
                Command::UpdateHud(session_id, RecordingHudState::Recording),
            ),
            StartSessionOutcome::Busy { active_session_id } => {
                if self.claim_preparing_capture(session_id, &capture) {
                    self.start_cancelling(
                        session_id,
                        capture,
                        StartRefusal::Busy(active_session_id),
                    )
                } else {
                    done(StartOutcome::Busy { active_session_id })
                }
            },
        }
    }

    fn start_with_announcement(
        &mut self,
        session_id: SessionId,
        capture: AudioCaptureRef,
        asr_route: ResolvedAsrRoute,
        result: Result<(), PortError>,
        effects: &mut Vec<Effect>,
    ) -> (next: Next<StartFlow, StartResult>)
        ensures
            next == start_on_announced(old(self)@, session_id, capture, asr_route, result).next,
            final(self)@ == start_on_announced(
                old(self)@,
                session_id,
                capture,
                asr_route,
                result,
            ).after,
            final(effects)@ == old(effects)@ + start_on_announced(
                old(self)@,
                session_id,
                capture,
                asr_route,
                result,
            ).effects,
    {
        note_result(effects, session_id, "recording_hud_update_ready", &result);
        if result.is_err() {
            if !self.claim_preparing_capture(session_id, &capture) {
                let _ = self.apply_event(
                    session_id,
                    SessionEvent::Fail(FailureCategory::Lifecycle),
                );
                return done(StartOutcome::Quitting);
            }
            self.give_preparing_up();
            return self.start_cancelling(session_id, capture, StartRefusal::HudUnavailable);
        }
        match self.activate(session_id, capture, asr_route) {
            None => {
                let _ = self.apply_event(
                    session_id,
                    SessionEvent::Fail(FailureCategory::Lifecycle),
                );
                done(StartOutcome::Quitting)
            },
            Some(recording_limit_elapsed) => {
                match self.apply_event(session_id, SessionEvent::PreflightPassed) {
                    Err(error) => Next::Done(Err(OrchestratorError::Coordinator(error))),
                    Ok(_) => {
                        if recording_limit_elapsed {
                            wait(
                                session_id,
                                StartStep::Finishing,
                                Command::FinishRecording(session_id),
                            )
                        } else {
                            done(StartOutcome::Started { session_id })
                        }
                    },
                }
            },
        }
    }

    fn start_with_cancelled(
        &mut self,
        session_id: SessionId,
        capture: AudioCaptureRef,
        refusal: StartRefusal,
        result: Result<(), PortError>,
        effects: &mut Vec<Effect>,
    ) -> (next: Next<StartFlow, StartResult>)
        ensures
            next == start_on_cancelled(old(self)@, session_id, capture, refusal, result).next,
            final(self)@ == start_on_cancelled(
                old(self)@,
                session_id,
                capture,
                refusal,
                result,
            ).after,
            final(effects)@ == old(effects)@ + start_on_cancelled(
                old(self)@,
                session_id,
                capture,
                refusal,
                result,
            ).effects,
    {
        match self.settle_capture(session_id, capture, result, effects) {
            Err(error) => {
                self.set_audio_cleanup_in_flight_if_current(session_id, false);
                Next::Done(Err(error))
            },
            Ok(_) => {
                let _ = self.remove_preparing_if_current(session_id, effects);
                wait(
                    session_id,
                    StartStep::HidingHud { refusal },
                    Command::HideHud(session_id),
                )
            },
        }
    }

    fn start_with_hidden(&mut self, session_id: SessionId, refusal: StartRefusal) -> (next: Next<
        StartFlow,
        StartResult,
    >)
        ensures
            next == start_on_hidden(old(self)@, session_id, refusal).next,
            final(self)@ == start_on_hidden(old(self)@, session_id, refusal).after,
    {
        match refusal {
            StartRefusal::AsrUnavailable => wait(
                session_id,
                StartStep::Notifying { reason: RejectReason::AsrUnavailable },
                Command::Notify(session_id, UserNotificationKind::Asr),
            ),
            StartRefusal::Busy(active_session_id) => done(
                StartOutcome::Busy { active_session_id },
            ),
            StartRefusal::HudUnavailable => {
                let _ = self.apply_event(
                    session_id,
                    SessionEvent::Reject(RejectReason::RecordingHudUnavailable),
                );
                done(StartOutcome::Rejected(RejectReason::RecordingHudUnavailable))
            },
        }
    }

    /// Goes on with a start.
    pub fn resume_start(&mut self, flow: StartFlow, reply: Reply) -> (r: Progress<
        StartFlow,
        StartResult,
    >)
        requires
            start_awaits(flow.step, reply),
        ensures
            r.effects@ == start_step(old(self)@, flow, reply).effects,
            r.next == start_step(old(self)@, flow, reply).next,
            final(self)@ == start_step(old(self)@, flow, reply).after,
    {
        let session_id = flow.session_id;
        let mut effects: Vec<Effect> = Vec::new();
        let next = match flow.step {
            StartStep::AcquiringGate => self.start_with_gate(session_id),
            StartStep::LoadingSettings => {
                let result = match reply {
                    Reply::Settings(result) => result,
                    _ => vstd::pervasive::unreached(),
                };
                self.start_with_settings(session_id, result, &mut effects)
            },
            StartStep::ResolvingRoute { settings } => {
                let resolution = match reply {
                    Reply::LlmRoute(resolution) => resolution,
                    _ => vstd::pervasive::unreached(),
                };
                self.start_with_route(session_id, settings, resolution, &mut effects)
            },
            StartStep::CapturingTarget { settings, route } => {
                let result = match reply {
                    Reply::Target(result) => result,
                    _ => vstd::pervasive::unreached(),
                };
                self.start_with_target(session_id, settings, route, result, &mut effects)
            },
            StartStep::ReadingSelection { settings, route, target } => {
                let result = match reply {
                    Reply::Selection(result) => result,
                    _ => vstd::pervasive::unreached(),
                };
                self.start_with_selection(
                    session_id,
                    settings,
                    route,
                    target,
                    result,
                    &mut effects,
                )
            },
            StartStep::ReadingClipboardSelection { settings, route, target } => {
                let result = match reply {
                    Reply::Selection(result) => result,
                    _ => vstd::pervasive::unreached(),
                };
                if self.start_reservation_is_current(session_id) {
                    self.start_with_selected(
                        session_id,
                        settings,
                        route,
                        target,
                        result,
                        &mut effects,
                    )
                } else {
                    done(StartOutcome::Quitting)
                }
            },
            StartStep::RequestingMicrophone { settings, route, target, selected_text } => {
                let result = match reply {
                    Reply::Microphone(result) => result,
                    _ => vstd::pervasive::unreached(),
                };
                self.start_with_microphone(
                    session_id,
                    settings,
                    route,
                    target,
                    selected_text,
                    result,
                    &mut effects,
                )
            },
            StartStep::Preparing { settings } => {
                let (recording, asr_route) = match reply {
                    Reply::Prepared { recording, asr_route } => (recording, asr_route),
                    _ => vstd::pervasive::unreached(),
                };
                self.start_with_preparation(session_id, settings, recording, asr_route)
            },
            StartStep::ReadingClock { settings, capture, asr_route } => {
                let now = match reply {
                    Reply::Now(now) => now,
                    _ => vstd::pervasive::unreached(),
                };
                self.start_with_clock(session_id, settings, capture, asr_route, now)
            },
            StartStep::AnnouncingRecording { capture, asr_route } => self.start_with_announcement(
                session_id,
                capture,
                asr_route,
                acted(reply),
                &mut effects,
            ),
            StartStep::CancellingCapture { capture, refusal } => self.start_with_cancelled(
                session_id,
                capture,
                refusal,
                acted(reply),
                &mut effects,
            ),
            StartStep::HidingHud { refusal } => {
                note_result(&mut effects, session_id, "recording_hud_hide", &acted(reply));
                self.start_with_hidden(session_id, refusal)
            },
            StartStep::Notifying { reason } => {
                note_result(&mut effects, session_id, "user_notification", &acted(reply));
                done(StartOutcome::Rejected(reason))
            },
            StartStep::Finishing => {
                let result = match reply {
                    Reply::Finished(result) => result,
                    _ => vstd::pervasive::unreached(),
                };
                match result {
                    Ok(_) => done(StartOutcome::Started { session_id }),
                    Err(error) => Next::Done(Err(error)),
                }
            },
        };
        Progress { effects, next }
    }
}

} // verus!
