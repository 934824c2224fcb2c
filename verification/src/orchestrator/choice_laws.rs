//! What a start hands on is what it was told: the route, the target, the selection, the
//! recogniser and the time of a session are those that the surroundings answered, and a
//! start that is turned away says for what.

use crate::asr_route::ResolvedAsrRoute;
use crate::domain::{
    AsrPreference, FailureCategory, RejectReason, SessionId, SettingsSnapshot, TimestampMs,
};
use crate::orchestrator::prepare::route_found;
use crate::orchestrator::protocol::{Command, Next, Reply};
use crate::orchestrator::start::{
    start_awaits, start_begin, start_step, StartFlow, StartMove, StartRefusal, StartResult,
    StartStep,
};
use crate::orchestrator::state::{
    OrchestratorError, OrchestratorView, PreparingWorkflow, RecordingPreparation, StartOutcome,
};
use crate::ports::{
    AudioCaptureRef, CapturedTarget, EngineHealth, LlmRouteResolution, MicrophoneAccess, PortError,
    SelectionSnapshot, UserNotificationKind,
};
use crate::text_route::{DirectDeliveryReason, TextProcessingRoute};
use vstd::prelude::*;

verus! {

/// What the surroundings have told a start so far.
pub struct Learned {
    pub settings: Option<Result<SettingsSnapshot, PortError>>,
    pub resolution: Option<LlmRouteResolution>,
    pub target: Option<Result<CapturedTarget, PortError>>,
    /// What the native way to the selection came to.
    pub selection: Option<Result<SelectionSnapshot, PortError>>,
    /// What the way over the clipboard came to.
    pub clipboard: Option<Result<SelectionSnapshot, PortError>>,
    pub microphone: Option<Result<MicrophoneAccess, PortError>>,
    pub recording: Option<Result<RecordingPreparation, OrchestratorError>>,
    pub asr_route: Option<ResolvedAsrRoute>,
    pub now: Option<TimestampMs>,
    /// The HUD could not show the recording.
    pub hud_failed: bool,
    /// The capture could not be closed.
    pub unclosed: Option<PortError>,
}

impl Learned {
    pub open spec fn nothing() -> Learned {
        Learned {
            settings: None,
            resolution: None,
            target: None,
            selection: None,
            clipboard: None,
            microphone: None,
            recording: None,
            asr_route: None,
            now: None,
            hud_failed: false,
            unclosed: None,
        }
    }

    /// What is known once a command has been answered too.
    pub open spec fn and(self, command: Command, reply: Reply) -> Learned {
        match reply {
            Reply::Settings(settings) => Learned { settings: Some(settings), ..self },
            Reply::LlmRoute(resolution) => Learned { resolution: Some(resolution), ..self },
            Reply::Target(target) => Learned { target: Some(target), ..self },
            Reply::Selection(selection) => if command is ReadSelection {
                Learned { selection: Some(selection), ..self }
            } else {
                Learned { clipboard: Some(selection), ..self }
            },
            Reply::Microphone(access) => Learned { microphone: Some(access), ..self },
            Reply::Prepared { recording, asr_route } => Learned {
                recording: Some(recording),
                asr_route,
                ..self
            },
            Reply::Now(now) => Learned { now: Some(now), ..self },
            Reply::Acted(Err(error)) => match command {
                Command::UpdateHud(_, _) => Learned { hud_failed: true, ..self },
                Command::CancelCapture(_) => Learned { unclosed: Some(error), ..self },
                _ => self,
            },
            _ => self,
        }
    }

    /// Whether these are the settings that were loaded.
    pub open spec fn has_loaded(self, settings: SettingsSnapshot) -> bool {
        self.settings == Some(Ok::<SettingsSnapshot, PortError>(settings))
    }

    /// Whether this is the target that was captured.
    pub open spec fn has_captured(self, target: CapturedTarget) -> bool {
        self.target == Some(Ok::<CapturedTarget, PortError>(target))
    }

    /// Whether a transcript goes where the mode and the answer about the language model
    /// say.
    pub open spec fn leads_to(
        self,
        settings: SettingsSnapshot,
        route: TextProcessingRoute,
    ) -> bool {
        let raw = settings.input.processing_mode is Raw;
        match route {
            TextProcessingRoute::Llm(ready) => !raw && self.resolution == Some(
                LlmRouteResolution::Ready(ready),
            ),
            TextProcessingRoute::DirectAsr(DirectDeliveryReason::RawMode) => raw,
            TextProcessingRoute::DirectAsr(DirectDeliveryReason::LlmNotConfigured) => {
                !raw && self.resolution is Some && (self.resolution->0 is NoConfiguration
                    || self.resolution->0 is MissingSecret)
            },
            TextProcessingRoute::DirectAsr(DirectDeliveryReason::LlmUnavailable) => {
                !raw && self.resolution is Some && self.resolution->0 is Unavailable
            },
        }
    }

    /// Whether the selection is asked for: there is one, in a safe target, the settings
    /// let it be read, and a language model is there to read it.
    pub open spec fn wants_selection(
        self,
        settings: SettingsSnapshot,
        route: TextProcessingRoute,
        target: CapturedTarget,
    ) -> bool {
        target.security is Safe && target.has_selection && settings.input.read_selected_text
            && route is Llm
    }

    /// What the selection came to: the native answer, or that of the clipboard where the
    /// native one failed and the settings allow it.
    pub open spec fn selection_found(self, settings: SettingsSnapshot) -> Option<
        Result<SelectionSnapshot, PortError>,
    > {
        match self.selection {
            Some(Err(_)) if settings.input.clipboard_bridge_allowed => self.clipboard,
            found => found,
        }
    }

    /// Whether a text is the selection that goes with a session.
    pub open spec fn has_selected(
        self,
        settings: SettingsSnapshot,
        route: TextProcessingRoute,
        target: CapturedTarget,
        text: Option<String>,
    ) -> bool {
        if self.wants_selection(settings, route, target) {
            match self.selection_found(settings) {
                Some(Ok(selection)) => !selection.exceeded_limit && text == selection.text,
                _ => false,
            }
        } else {
            text is None && self.selection is None && self.clipboard is None
        }
    }

    /// The capture that the preparation is ready with.
    pub open spec fn is_ready_with(self, capture: AudioCaptureRef) -> bool {
        self.recording == Some(
            Ok::<RecordingPreparation, OrchestratorError>(RecordingPreparation::Ready(capture)),
        )
    }
}

/// Whether a session in preparation holds what its start has learned.
pub open spec fn is_prepared_by(preparing: PreparingWorkflow, learned: Learned) -> bool {
    let settings = preparing.settings;
    &&& learned.has_loaded(settings)
    &&& learned.leads_to(settings, preparing.processing_route)
    &&& learned.target is Some && learned.target->0 is Ok
    &&& preparing.target_ref == learned.target->0->Ok_0.target_ref
    &&& preparing.target_security == learned.target->0->Ok_0.security
    &&& learned.has_selected(
        settings,
        preparing.processing_route,
        learned.target->0->Ok_0,
        preparing.selected_text,
    )
}

/// Whether the preparation of a session, where it has one, holds what its start has
/// learned.
pub open spec fn prepares_by(o: OrchestratorView, session_id: SessionId, learned: Learned) -> bool {
    o.preparing is Some && o.preparing->0.session_id == session_id ==> is_prepared_by(
        o.preparing->0,
        learned,
    )
}

/// Whether a session records with what its start has learned.
pub open spec fn records_by(
    after: OrchestratorView,
    session_id: SessionId,
    learned: Learned,
) -> bool {
    &&& after.active is Some
    &&& {
        let active = after.active->0;
        let settings = active.settings;
        &&& active.session_id == session_id
        &&& learned.has_loaded(settings)
        &&& learned.leads_to(settings, active.processing_route)
        &&& learned.asr_route == Some(active.asr_route)
        &&& learned.target is Some && learned.target->0 is Ok
        &&& active.target_ref == learned.target->0->Ok_0.target_ref
        &&& active.target_security == learned.target->0->Ok_0.security
        &&& learned.has_selected(
            settings,
            active.processing_route,
            learned.target->0->Ok_0,
            active.selected_text,
        )
        &&& active.stage is Recording
        &&& learned.is_ready_with(active.stage->Recording_capture)
    }
}

/// Whether a command of a start carries what was learned and is in order now.
pub open spec fn is_due(
    command: Command,
    after: OrchestratorView,
    session_id: SessionId,
    learned: Learned,
) -> bool {
    let settings = learned.settings->0->Ok_0;
    let target = learned.target->0->Ok_0;
    let loaded = learned.settings is Some && learned.settings->0 is Ok;
    let captured = learned.target is Some && learned.target->0 is Ok;
    match command {
        Command::LoadSettings => after.starting == Some(session_id) && learned.settings is None,
        Command::ResolveLlmRoute(candidate) => {
            &&& loaded && !(settings.input.processing_mode is Raw)
            &&& candidate is Some <==> settings.input.llm is Some
            &&& candidate is Some ==> candidate->0.base_url == settings.input.llm->0.base_url
                && candidate->0.model == settings.input.llm->0.model
        },
        Command::CaptureTarget => loaded && learned.target is None,
        Command::ReadSelection(target_ref) => {
            &&& loaded && captured
            &&& target_ref == target.target_ref
            &&& target.security is Safe && target.has_selection
            &&& settings.input.read_selected_text
            &&& learned.resolution is Some && learned.resolution->0 is Ready
        },
        Command::ReadSelectionViaClipboard(target_ref) => {
            &&& loaded && captured
            &&& target_ref == target.target_ref
            &&& target.security is Safe && target.has_selection
            &&& settings.input.read_selected_text && settings.input.clipboard_bridge_allowed
            &&& learned.selection is Some && learned.selection->0 is Err
        },
        Command::RequestMicrophone => loaded && captured,
        Command::PrepareRecording { session_id: told, display_hint, limit, preference } => {
            &&& loaded && captured
            &&& told == session_id
            &&& display_hint == target.display_hint
            &&& limit == settings.input.max_recording_duration
            &&& preference == settings.input.asr_preference
            &&& learned.microphone == Some(
                Ok::<MicrophoneAccess, PortError>(MicrophoneAccess::Granted),
            )
            &&& after.preparing is Some && after.preparing->0.session_id == session_id
            &&& after.preparing->0.stage is StartingAudio
            &&& after.preparing->0.recording_deadline is None
            &&& !after.preparing->0.recording_limit_elapsed && !after.preparing->0.given_up
        },
        Command::ReadClock => learned.recording is Some && learned.asr_route is Some,
        Command::UpdateHud(told, state) => {
            &&& told == session_id
            &&& state is Recording
            &&& after.session is Some
            &&& after.session->0.session.id == session_id
            &&& learned.now == Some(after.session->0.session.created_at)
            &&& learned.has_loaded(after.session->0.session.settings)
            &&& after.session->0.session.phase is Preparing
            &&& learned.asr_route == Some(after.session->0.asr_route)
            &&& learned.asr_route->0.engine == after.session->0.session.selected_asr_engine
        },
        Command::CancelCapture(capture) => learned.is_ready_with(capture),
        Command::HideHud(told) => told == session_id,
        Command::Notify(told, UserNotificationKind::MicrophonePermission) => {
            &&& told == session_id
            &&& is_refused(RejectReason::PermissionUnavailable, learned)
        },
        Command::Notify(told, UserNotificationKind::Asr) => {
            &&& told == session_id
            &&& is_refused(RejectReason::AsrUnavailable, learned)
        },
        Command::FinishRecording(told) => {
            &&& told == session_id
            &&& records_by(after, session_id, learned)
        },
        _ => false,
    }
}

/// Whether a start has reason to be turned away like this.
pub open spec fn is_refused(reason: RejectReason, learned: Learned) -> bool {
    match reason {
        RejectReason::PermissionUnavailable => {
            ||| learned.target is Some && learned.target->0 is Err
            ||| learned.settings is Some && learned.settings->0 is Ok && {
                let found = learned.selection_found(learned.settings->0->Ok_0);
                found is Some && found->0 is Err
            }
            ||| learned.microphone is Some && learned.microphone->0 != Ok::<
                MicrophoneAccess,
                PortError,
            >(MicrophoneAccess::Granted)
        },
        RejectReason::SelectionTooLong => {
            &&& learned.settings is Some && learned.settings->0 is Ok
            &&& {
                let found = learned.selection_found(learned.settings->0->Ok_0);
                found is Some && found->0 is Ok && found->0->Ok_0.exceeded_limit
            }
        },
        RejectReason::RecordingHudUnavailable => {
            ||| learned.recording == Some(
                Ok::<RecordingPreparation, OrchestratorError>(RecordingPreparation::RejectedHud),
            )
            ||| learned.hud_failed
        },
        RejectReason::AsrUnavailable => learned.recording is Some && learned.asr_route is None,
    }
}

/// Whether the end of a start says what has happened.
pub open spec fn start_ends_rightly(
    result: StartResult,
    flow: StartFlow,
    reply: Reply,
    o: OrchestratorView,
    after: OrchestratorView,
    learned: Learned,
) -> bool {
    match result {
        Ok(StartOutcome::Started { session_id }) => {
            &&& session_id == flow.session_id
            &&& flow.step is Finishing || records_by(after, session_id, learned)
                && !o.preparing->0.recording_limit_elapsed
        },
        Ok(StartOutcome::Busy { active_session_id }) => {
            &&& flow.step is AcquiringGate ==> o.occupant() == Some(active_session_id)
            &&& flow.step is ReadingClock ==> o.session is Some && o.session->0.session.id
                == active_session_id
        },
        Ok(StartOutcome::Rejected(reason)) => is_refused(reason, learned),
        Ok(StartOutcome::Failed(FailureCategory::Storage)) => {
            learned.settings is Some && learned.settings->0 is Err
        },
        Ok(StartOutcome::Failed(FailureCategory::Audio)) => learned.recording == Some(
            Ok::<RecordingPreparation, OrchestratorError>(RecordingPreparation::FailedAudio),
        ),
        Ok(StartOutcome::Failed(FailureCategory::Lifecycle)) => learned.recording == Some(
            Ok::<RecordingPreparation, OrchestratorError>(RecordingPreparation::FailedLifecycle),
        ),
        Ok(StartOutcome::Failed(_)) => false,
        // Only a start that has lost its place, or whose preparation has, ends like this.
        Ok(StartOutcome::Quitting) => {
            ||| flow.step is AcquiringGate && o.quitting
            ||| flow.step is Preparing && {
                ||| learned.recording == Some(
                    Ok::<RecordingPreparation, OrchestratorError>(RecordingPreparation::Aborted),
                )
                ||| learned.recording->0 is Ok && learned.recording->0->Ok_0 is Ready
                    && !o.captures(flow.session_id, learned.recording->0->Ok_0->Ready_0)
            }
            ||| flow.step is AnnouncingRecording && !o.captures(
                flow.session_id,
                flow.step->AnnouncingRecording_capture,
            )
            ||| !(flow.step is AcquiringGate) && !(!o.quitting && o.starting == Some(
                flow.session_id,
            ))
        },
        Err(error) => match error {
            OrchestratorError::AudioCleanupFailed { session_id, phase, source } => {
                ||| learned.recording == Some(Err::<RecordingPreparation, OrchestratorError>(error))
                ||| flow.step is Finishing && reply->Finished_0 is Err
                ||| session_id == flow.session_id && phase@ == "audio_cancel"@
                    && learned.unclosed == Some(source)
            },
            _ => true,
        },
    }
}

/// Whether a start stands where what it has learned has brought it.
pub open spec fn start_stands(
    step: StartStep,
    command: Command,
    session_id: SessionId,
    learned: Learned,
) -> bool {
    let unselected = learned.selection is None && learned.clipboard is None;
    let unprepared = learned.microphone is None && learned.recording is None
        && learned.asr_route is None && learned.now is None && !learned.hud_failed
        && learned.unclosed is None;
    match step {
        StartStep::AcquiringGate => {
            &&& command is AcquireConfigurationGate
            &&& learned == Learned::nothing()
        },
        StartStep::LoadingSettings => command is LoadSettings && learned == Learned::nothing(),
        StartStep::ResolvingRoute { settings } => {
            &&& command is ResolveLlmRoute
            &&& learned.has_loaded(settings)
            &&& !(settings.input.processing_mode is Raw)
            &&& learned.target is None && unselected && unprepared
        },
        StartStep::CapturingTarget { settings, route } => {
            &&& command is CaptureTarget
            &&& learned.has_loaded(settings)
            &&& learned.leads_to(settings, route)
            &&& unselected && unprepared
        },
        StartStep::ReadingSelection { settings, route, target } => {
            &&& command is ReadSelection
            &&& learned.has_loaded(settings)
            &&& learned.leads_to(settings, route)
            &&& learned.has_captured(target)
            &&& learned.wants_selection(settings, route, target)
            &&& unselected && unprepared
        },
        StartStep::ReadingClipboardSelection { settings, route, target } => {
            &&& command is ReadSelectionViaClipboard
            &&& learned.has_loaded(settings)
            &&& learned.leads_to(settings, route)
            &&& learned.has_captured(target)
            &&& learned.wants_selection(settings, route, target)
            &&& learned.selection is Some && learned.selection->0 is Err
            &&& settings.input.clipboard_bridge_allowed
            &&& unprepared
        },
        StartStep::RequestingMicrophone { settings, route, target, selected_text } => {
            &&& command is RequestMicrophone
            &&& learned.has_loaded(settings)
            &&& learned.leads_to(settings, route)
            &&& learned.has_captured(target)
            &&& learned.has_selected(settings, route, target, selected_text)
            &&& unprepared
        },
        StartStep::Preparing { settings } => {
            &&& command is PrepareRecording
            &&& learned.has_loaded(settings)
            &&& !learned.hud_failed && learned.unclosed is None
        },
        StartStep::ReadingClock { settings, capture, asr_route } => {
            &&& command is ReadClock
            &&& learned.has_loaded(settings)
            &&& learned.is_ready_with(capture)
            &&& learned.asr_route == Some(asr_route)
            &&& learned.unclosed is None
        },
        StartStep::AnnouncingRecording { capture, asr_route } => {
            &&& command is UpdateHud
            &&& learned.is_ready_with(capture)
            &&& learned.asr_route == Some(asr_route)
            &&& learned.unclosed is None
        },
        StartStep::CancellingCapture { capture, refusal } => {
            &&& command == Command::CancelCapture(capture)
            &&& learned.is_ready_with(capture)
            &&& is_given_up_for(refusal, learned)
        },
        StartStep::HidingHud { refusal } => {
            &&& command is HideHud
            &&& is_given_up_for(refusal, learned)
        },
        StartStep::Notifying { reason } => command is Notify && is_refused(reason, learned),
        StartStep::Finishing => command == Command::FinishRecording(session_id),
    }
}

/// Why a start gives a capture up that it had.
pub open spec fn is_given_up_for(refusal: StartRefusal, learned: Learned) -> bool {
    match refusal {
        StartRefusal::AsrUnavailable => is_refused(RejectReason::AsrUnavailable, learned),
        StartRefusal::HudUnavailable => learned.hud_failed,
        StartRefusal::Busy(_) => true,
    }
}

/// Whether one step of a start goes on from what was learned.
pub open spec fn start_goes_on(
    step: StartMove,
    flow: StartFlow,
    reply: Reply,
    o: OrchestratorView,
    learned: Learned,
) -> bool {
    &&& prepares_by(step.after, flow.session_id, learned)
    &&& match step.next {
        Next::Await { flow: after, command: next } => {
            &&& after.session_id == flow.session_id
            &&& start_stands(after.step, next, flow.session_id, learned)
            &&& is_due(next, step.after, flow.session_id, learned)
            // A limit that has passed meanwhile finishes the recording at once.
            &&& next is FinishRecording ==> o.preparing->0.recording_limit_elapsed
        },
        Next::Done(result) => start_ends_rightly(result, flow, reply, o, step.after, learned),
    }
}

proof fn a_start_goes_on_after_acquiring_gate(
    o: OrchestratorView,
    flow: StartFlow,
    command: Command,
    reply: Reply,
    learned: Learned,
)
    requires
        flow.step is AcquiringGate,
        start_awaits(flow.step, reply),
        start_stands(flow.step, command, flow.session_id, learned),
        o.preparing is Some ==> o.preparing->0.session_id != flow.session_id,
    ensures
        start_goes_on(
            start_step(o, flow, reply),
            flow,
            reply,
            o,
            learned.and(command, reply),
        ),
{
}

proof fn a_start_goes_on_after_loading_settings(
    o: OrchestratorView,
    flow: StartFlow,
    command: Command,
    reply: Reply,
    learned: Learned,
)
    requires
        flow.step is LoadingSettings,
        start_awaits(flow.step, reply),
        start_stands(flow.step, command, flow.session_id, learned),
        o.preparing is Some ==> o.preparing->0.session_id != flow.session_id,
    ensures
        start_goes_on(
            start_step(o, flow, reply),
            flow,
            reply,
            o,
            learned.and(command, reply),
        ),
{
}

proof fn a_start_goes_on_after_resolving_route(
    o: OrchestratorView,
    flow: StartFlow,
    command: Command,
    reply: Reply,
    learned: Learned,
)
    requires
        flow.step is ResolvingRoute,
        start_awaits(flow.step, reply),
        start_stands(flow.step, command, flow.session_id, learned),
        o.preparing is Some ==> o.preparing->0.session_id != flow.session_id,
    ensures
        start_goes_on(
            start_step(o, flow, reply),
            flow,
            reply,
            o,
            learned.and(command, reply),
        ),
{
}

proof fn a_start_goes_on_after_capturing_target(
    o: OrchestratorView,
    flow: StartFlow,
    command: Command,
    reply: Reply,
    learned: Learned,
)
    requires
        flow.step is CapturingTarget,
        start_awaits(flow.step, reply),
        start_stands(flow.step, command, flow.session_id, learned),
        o.preparing is Some ==> o.preparing->0.session_id != flow.session_id,
    ensures
        start_goes_on(
            start_step(o, flow, reply),
            flow,
            reply,
            o,
            learned.and(command, reply),
        ),
{
}

proof fn a_start_goes_on_after_reading_selection(
    o: OrchestratorView,
    flow: StartFlow,
    command: Command,
    reply: Reply,
    learned: Learned,
)
    requires
        flow.step is ReadingSelection,
        start_awaits(flow.step, reply),
        start_stands(flow.step, command, flow.session_id, learned),
        o.preparing is Some ==> o.preparing->0.session_id != flow.session_id,
    ensures
        start_goes_on(
            start_step(o, flow, reply),
            flow,
            reply,
            o,
            learned.and(command, reply),
        ),
{
}

proof fn a_start_goes_on_after_reading_clipboard_selection(
    o: OrchestratorView,
    flow: StartFlow,
    command: Command,
    reply: Reply,
    learned: Learned,
)
    requires
        flow.step is ReadingClipboardSelection,
        start_awaits(flow.step, reply),
        start_stands(flow.step, command, flow.session_id, learned),
        o.preparing is Some ==> o.preparing->0.session_id != flow.session_id,
    ensures
        start_goes_on(
            start_step(o, flow, reply),
            flow,
            reply,
            o,
            learned.and(command, reply),
        ),
{
}

proof fn a_start_goes_on_after_requesting_microphone(
    o: OrchestratorView,
    flow: StartFlow,
    command: Command,
    reply: Reply,
    learned: Learned,
)
    requires
        flow.step is RequestingMicrophone,
        start_awaits(flow.step, reply),
        start_stands(flow.step, command, flow.session_id, learned),
        o.preparing is Some ==> o.preparing->0.session_id != flow.session_id,
    ensures
        start_goes_on(
            start_step(o, flow, reply),
            flow,
            reply,
            o,
            learned.and(command, reply),
        ),
{
}

proof fn a_start_goes_on_after_preparing(
    o: OrchestratorView,
    flow: StartFlow,
    command: Command,
    reply: Reply,
    learned: Learned,
)
    requires
        flow.step is Preparing,
        start_awaits(flow.step, reply),
        start_stands(flow.step, command, flow.session_id, learned),
        prepares_by(o, flow.session_id, learned),
    ensures
        start_goes_on(
            start_step(o, flow, reply),
            flow,
            reply,
            o,
            learned.and(command, reply),
        ),
{
}

proof fn a_start_goes_on_after_reading_clock(
    o: OrchestratorView,
    flow: StartFlow,
    command: Command,
    reply: Reply,
    learned: Learned,
)
    requires
        flow.step is ReadingClock,
        start_awaits(flow.step, reply),
        start_stands(flow.step, command, flow.session_id, learned),
        prepares_by(o, flow.session_id, learned),
    ensures
        start_goes_on(
            start_step(o, flow, reply),
            flow,
            reply,
            o,
            learned.and(command, reply),
        ),
{
}

proof fn a_start_goes_on_after_announcing_recording(
    o: OrchestratorView,
    flow: StartFlow,
    command: Command,
    reply: Reply,
    learned: Learned,
)
    requires
        flow.step is AnnouncingRecording,
        start_awaits(flow.step, reply),
        start_stands(flow.step, command, flow.session_id, learned),
        prepares_by(o, flow.session_id, learned),
    ensures
        start_goes_on(
            start_step(o, flow, reply),
            flow,
            reply,
            o,
            learned.and(command, reply),
        ),
{
}

proof fn a_start_goes_on_after_cancelling_capture(
    o: OrchestratorView,
    flow: StartFlow,
    command: Command,
    reply: Reply,
    learned: Learned,
)
    requires
        flow.step is CancellingCapture,
        start_awaits(flow.step, reply),
        start_stands(flow.step, command, flow.session_id, learned),
        prepares_by(o, flow.session_id, learned),
    ensures
        start_goes_on(
            start_step(o, flow, reply),
            flow,
            reply,
            o,
            learned.and(command, reply),
        ),
{
}

proof fn a_start_goes_on_after_hiding_hud(
    o: OrchestratorView,
    flow: StartFlow,
    command: Command,
    reply: Reply,
    learned: Learned,
)
    requires
        flow.step is HidingHud,
        start_awaits(flow.step, reply),
        start_stands(flow.step, command, flow.session_id, learned),
        prepares_by(o, flow.session_id, learned),
    ensures
        start_goes_on(
            start_step(o, flow, reply),
            flow,
            reply,
            o,
            learned.and(command, reply),
        ),
{
}

proof fn a_start_goes_on_after_notifying(
    o: OrchestratorView,
    flow: StartFlow,
    command: Command,
    reply: Reply,
    learned: Learned,
)
    requires
        flow.step is Notifying,
        start_awaits(flow.step, reply),
        start_stands(flow.step, command, flow.session_id, learned),
        prepares_by(o, flow.session_id, learned),
    ensures
        start_goes_on(
            start_step(o, flow, reply),
            flow,
            reply,
            o,
            learned.and(command, reply),
        ),
{
}

proof fn a_start_goes_on_after_finishing(
    o: OrchestratorView,
    flow: StartFlow,
    command: Command,
    reply: Reply,
    learned: Learned,
)
    requires
        flow.step is Finishing,
        start_awaits(flow.step, reply),
        start_stands(flow.step, command, flow.session_id, learned),
        prepares_by(o, flow.session_id, learned),
    ensures
        start_goes_on(
            start_step(o, flow, reply),
            flow,
            reply,
            o,
            learned.and(command, reply),
        ),
{
}

/// Whether a start has not come to its preparation yet.
pub open spec fn is_early(step: StartStep) -> bool {
    match step {
        StartStep::AcquiringGate
        | StartStep::LoadingSettings
        | StartStep::ResolvingRoute { .. }
        | StartStep::CapturingTarget { .. }
        | StartStep::ReadingSelection { .. }
        | StartStep::ReadingClipboardSelection { .. }
        | StartStep::RequestingMicrophone { .. } => true,
        _ => false,
    }
}

/// Every step of a start hands on what it was told. The session prepares, and records,
/// with the settings that were loaded, the route that follows from the mode and from the
/// answer about the language model, the target that was captured, the selection that was
/// read from it, the recogniser and the capture that the preparation was answered with,
/// and the time that the clock told; a start that is turned away says for what.
pub proof fn a_start_hands_on_what_it_was_told(
    o: OrchestratorView,
    flow: StartFlow,
    command: Command,
    reply: Reply,
    learned: Learned,
)
    requires
        start_awaits(flow.step, reply),
        start_stands(flow.step, command, flow.session_id, learned),
        if is_early(flow.step) {
            o.preparing is Some ==> o.preparing->0.session_id != flow.session_id
        } else {
            prepares_by(o, flow.session_id, learned)
        },
    ensures
        start_goes_on(
            start_step(o, flow, reply),
            flow,
            reply,
            o,
            learned.and(command, reply),
        ),
{
    match flow.step {
        StartStep::AcquiringGate => {
            a_start_goes_on_after_acquiring_gate(o, flow, command, reply, learned);
        },
        StartStep::LoadingSettings => {
            a_start_goes_on_after_loading_settings(o, flow, command, reply, learned);
        },
        StartStep::ResolvingRoute { .. } => {
            a_start_goes_on_after_resolving_route(o, flow, command, reply, learned);
        },
        StartStep::CapturingTarget { .. } => {
            a_start_goes_on_after_capturing_target(o, flow, command, reply, learned);
        },
        StartStep::ReadingSelection { .. } => {
            a_start_goes_on_after_reading_selection(o, flow, command, reply, learned);
        },
        StartStep::ReadingClipboardSelection { .. } => {
            a_start_goes_on_after_reading_clipboard_selection(o, flow, command, reply, learned);
        },
        StartStep::RequestingMicrophone { .. } => {
            a_start_goes_on_after_requesting_microphone(o, flow, command, reply, learned);
        },
        StartStep::Preparing { .. } => {
            a_start_goes_on_after_preparing(o, flow, command, reply, learned);
        },
        StartStep::ReadingClock { .. } => {
            a_start_goes_on_after_reading_clock(o, flow, command, reply, learned);
        },
        StartStep::AnnouncingRecording { .. } => {
            a_start_goes_on_after_announcing_recording(o, flow, command, reply, learned);
        },
        StartStep::CancellingCapture { .. } => {
            a_start_goes_on_after_cancelling_capture(o, flow, command, reply, learned);
        },
        StartStep::HidingHud { .. } => {
            a_start_goes_on_after_hiding_hud(o, flow, command, reply, learned);
        },
        StartStep::Notifying { .. } => {
            a_start_goes_on_after_notifying(o, flow, command, reply, learned);
        },
        StartStep::Finishing => {
            a_start_goes_on_after_finishing(o, flow, command, reply, learned);
        },
    }
}

/// A start begins by waiting until no settings are being changed, and where the
/// application has been closed it does not begin.
pub proof fn a_start_begins_with_nothing(o: OrchestratorView, session_id: SessionId)
    ensures
        match start_begin(o, session_id).next {
            Next::Await { flow, command } => {
                &&& o.operations.open
                &&& flow.session_id == session_id
                &&& start_stands(flow.step, command, session_id, Learned::nothing())
                &&& command is AcquireConfigurationGate
            },
            Next::Done(result) => !o.operations.open && result == Ok::<
                StartOutcome,
                OrchestratorError,
            >(StartOutcome::Quitting),
        },
{
}

/// A recogniser is found for a start exactly where the preferred engine was found healthy
/// and the start still has its place, and it is that engine.
pub proof fn a_recogniser_is_found_only_healthy(
    o: OrchestratorView,
    session_id: SessionId,
    preference: AsrPreference,
    result: Result<EngineHealth, PortError>,
    route: ResolvedAsrRoute,
)
    ensures
        route_found(o, session_id, preference, result) == Some(route) <==> {
            &&& result == Ok::<EngineHealth, PortError>(EngineHealth::Healthy)
            &&& o.reserved(session_id)
            &&& preference is Qwen ==> route.engine is Qwen
            &&& preference is Whisper ==> route.engine is Whisper
        },
{
}

} // verus!
