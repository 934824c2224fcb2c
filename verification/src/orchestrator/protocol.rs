//! What a workflow asks of its surroundings, what it is told in return, and
//! what it leaves behind on the way.

use crate::asr_route::ResolvedAsrRoute;
use crate::domain::{
    AsrEngine, AsrPreference, DeliveryId, RequestId, Seconds, SessionId, SettingsSnapshot,
    TerminalOutcome, TimestampMs,
};
use crate::lifecycle::CommitGuard;
use crate::orchestrator::state::{
    FinishOutcome, OrchestratorError, OrchestratorView, RecordingPreparation,
};
use crate::ports::{
    AsrRequest, AsrResult, AudioCaptureRef, AudioRef, CapturedTarget, EngineHealth, FinalizedAudio,
    HistoryRecord, InsertOutcome, LlmRouteCandidate, LlmRouteResolution, MicrophoneAccess,
    PortError, RecordingCue, RecordingDeadlineGuard, RecordingHudState, ResolvedLlmRoute,
    SelectionSnapshot, TargetDisplayHint, TargetRevalidation, TargetSnapshotRef,
    TemporaryTextStatus, TextProcessingRequest, TextProcessingResult, UserDirectedPasteOutcome,
    UserNotificationKind, ValidatedTargetRef,
};
use crate::trace::{Decision, Diagnostic};
use vstd::prelude::*;

verus! {

/// One thing that the surroundings do for a workflow before it goes on.
#[derive(Clone, PartialEq, Eq)]
pub enum Command {
    AcquireConfigurationGate,
    LoadSettings,
    ResolveLlmRoute(Option<LlmRouteCandidate>),
    CaptureTarget,
    ReadSelection(TargetSnapshotRef),
    ReadSelectionViaClipboard(TargetSnapshotRef),
    RequestMicrophone,
    /// Run the preparation of the recording and the health check together.
    PrepareRecording {
        session_id: SessionId,
        display_hint: Option<TargetDisplayHint>,
        limit: Seconds,
        preference: AsrPreference,
    },
    ReadClock,
    /// Run the whole finish workflow.
    FinishRecording(SessionId),
    PlayCue(RecordingCue),
    StartAudio(SessionId),
    ScheduleDeadline { session_id: SessionId, limit: Seconds },
    ShowHud {
        session_id: SessionId,
        state: RecordingHudState,
        display_hint: Option<TargetDisplayHint>,
        limit: Seconds,
    },
    UpdateHud(SessionId, RecordingHudState),
    PublishTerminal(SessionId, TerminalOutcome),
    HideHud(SessionId),
    Notify(SessionId, UserNotificationKind),
    CheckEngine(AsrEngine),
    FinishAudio(AudioCaptureRef),
    CancelCapture(AudioCaptureRef),
    CleanupAudio(AudioRef),
    IssueRequestId,
    IssueDeliveryId,
    Transcribe(AsrRequest),
    CancelTranscription(RequestId),
    ProcessText { route: ResolvedLlmRoute, request: TextProcessingRequest },
    CancelProcessing(RequestId),
    Revalidate(TargetSnapshotRef),
    /// Write at a validated position, under the lifecycle of a session.
    Insert {
        target: ValidatedTargetRef,
        text: String,
        delivery_id: DeliveryId,
        lifecycle: SessionId,
    },
    /// Write at a validated position by way of the clipboard.
    PasteAtTarget {
        target: ValidatedTargetRef,
        text: String,
        delivery_id: DeliveryId,
        lifecycle: SessionId,
    },
    /// Send one paste to whatever has the keyboard focus.
    PasteAtFocus { text: String, delivery_id: DeliveryId, lifecycle: SessionId },
    ShowTemporaryText {
        delivery_id: DeliveryId,
        text: String,
        status: TemporaryTextStatus,
        lifecycle: SessionId,
    },
    WriteClipboard(String),
    SaveHistory { record: HistoryRecord, settings: SettingsSnapshot, lifecycle: SessionId },
    /// Wait until no entered operation is running any more.
    AwaitOperations,
    /// Wait until no commit of a session is running any more.
    AwaitLifecycle(SessionId),
}

/// What the surroundings found or did.
#[derive(PartialEq, Eq)]
pub enum Reply {
    /// What was awaited has happened.
    Ready,
    /// The deed was done, or failed.
    Acted(Result<(), PortError>),
    Settings(Result<SettingsSnapshot, PortError>),
    LlmRoute(LlmRouteResolution),
    Target(Result<CapturedTarget, PortError>),
    Selection(Result<SelectionSnapshot, PortError>),
    Microphone(Result<MicrophoneAccess, PortError>),
    Prepared {
        recording: Result<RecordingPreparation, OrchestratorError>,
        asr_route: Option<ResolvedAsrRoute>,
    },
    Now(TimestampMs),
    Finished(Result<FinishOutcome, OrchestratorError>),
    Capture(Result<AudioCaptureRef, PortError>),
    Deadline(Result<RecordingDeadlineGuard, PortError>),
    Health(Result<EngineHealth, PortError>),
    Audio(Result<FinalizedAudio, PortError>),
    Request(RequestId),
    Delivery(DeliveryId),
    Transcript(Result<AsrResult, PortError>),
    Text { result: Result<TextProcessingResult, PortError>, elapsed_ms: u64 },
    Revalidation(Result<TargetRevalidation, PortError>),
    Insertion(Result<InsertOutcome, PortError>),
    Paste(Result<UserDirectedPasteOutcome, PortError>),
}

/// Whether a reply is the kind of answer that a command asks for.
pub open spec fn answers(reply: Reply, command: Command) -> bool {
    match command {
        Command::AcquireConfigurationGate | Command::AwaitOperations
        | Command::AwaitLifecycle(_) => reply is Ready,
        Command::LoadSettings => reply is Settings,
        Command::ResolveLlmRoute(_) => reply is LlmRoute,
        Command::CaptureTarget => reply is Target,
        Command::ReadSelection(_) | Command::ReadSelectionViaClipboard(_) => reply is Selection,
        Command::RequestMicrophone => reply is Microphone,
        Command::PrepareRecording { .. } => reply is Prepared,
        Command::ReadClock => reply is Now,
        Command::FinishRecording(_) => reply is Finished,
        Command::StartAudio(_) => reply is Capture,
        Command::ScheduleDeadline { .. } => reply is Deadline,
        Command::CheckEngine(_) => reply is Health,
        Command::FinishAudio(_) => reply is Audio,
        Command::IssueRequestId => reply is Request,
        Command::IssueDeliveryId => reply is Delivery,
        Command::Transcribe(_) => reply is Transcript,
        Command::ProcessText { .. } => reply is Text,
        Command::Revalidate(_) => reply is Revalidation,
        Command::Insert { .. } | Command::PasteAtTarget { .. } => reply is Insertion,
        Command::PasteAtFocus { .. } => reply is Paste,
        Command::PlayCue(_)
        | Command::ShowHud { .. }
        | Command::UpdateHud(_, _)
        | Command::PublishTerminal(_, _)
        | Command::HideHud(_)
        | Command::Notify(_, _)
        | Command::CancelCapture(_)
        | Command::CleanupAudio(_)
        | Command::CancelTranscription(_)
        | Command::CancelProcessing(_)
        | Command::ShowTemporaryText { .. }
        | Command::WriteClipboard(_)
        | Command::SaveHistory { .. } => reply is Acted,
    }
}

/// Something that happens at once, without an answer.
#[derive(Debug, PartialEq, Eq)]
pub enum Effect {
    /// A session gets a lifecycle fence of its own.
    OpenLifecycle(SessionId),
    /// No commit of the session may begin any more.
    InvalidateLifecycle(SessionId),
    /// The deadline must not fire any more.
    CancelDeadline(RecordingDeadlineGuard),
    /// Settings may change again.
    ReleaseConfigurationGate,
    /// A recording was asked for.
    MarkSession,
    Record(Diagnostic),
    Trace(Decision),
}

/// Where a workflow stands after a step: it waits for a command to be carried
/// out, or it is over.
#[derive(PartialEq, Eq)]
pub enum Next<F, T> {
    Await { flow: F, command: Command },
    Done(T),
}

/// What one step of a workflow comes to.
#[derive(PartialEq, Eq)]
pub struct Progress<F, T> {
    pub effects: Vec<Effect>,
    pub next: Next<F, T>,
}

/// What a request to begin a workflow comes to. The guard is given back once the
/// workflow is over; there is none where the request was turned away.
pub struct Entered<F, T> {
    pub guard: Option<CommitGuard>,
    pub progress: Progress<F, T>,
}

/// One step of a workflow: the shared state after it, what it left behind, and
/// where the workflow stands.
pub struct Move<F, T> {
    pub after: OrchestratorView,
    pub effects: Seq<Effect>,
    pub next: Next<F, T>,
}

impl<F, T> Move<F, T> {
    /// The same step after something else has been left behind.
    pub open spec fn following(self, effects: Seq<Effect>) -> Move<F, T> {
        Move { effects: effects + self.effects, ..self }
    }
}

impl<F, T> Progress<F, T> {
    /// Whether this is what a step came to.
    pub open spec fn shows(self, step: Move<F, T>) -> bool {
        &&& self.effects@ == step.effects
        &&& self.next == step.next
    }
}

/// The diagnostic record of a failed capability.
pub open spec fn failure(session_id: SessionId, phase: &'static str, error: PortError) -> Effect {
    Effect::Record(Diagnostic::PortFailed { session_id, phase, code: error.code })
}

/// What a best-effort deed leaves behind: a record of its failure, if it failed.
pub open spec fn noted(
    session_id: SessionId,
    phase: &'static str,
    result: Result<(), PortError>,
) -> Seq<Effect> {
    match result {
        Ok(_) => Seq::empty(),
        Err(error) => seq![failure(session_id, phase, error)],
    }
}

/// Stopping a deadline, where there is one.
pub open spec fn stopping(deadline: Option<RecordingDeadlineGuard>) -> Seq<Effect> {
    match deadline {
        Some(guard) => seq![Effect::CancelDeadline(guard)],
        None => Seq::empty(),
    }
}

pub(crate) fn note_failure(
    effects: &mut Vec<Effect>,
    session_id: SessionId,
    phase: &'static str,
    error: &PortError,
)
    ensures
        final(effects)@ == old(effects)@.push(failure(session_id, phase, *error)),
{
    effects.push(
        Effect::Record(Diagnostic::PortFailed { session_id, phase, code: error.code.clone() }),
    );
}

pub(crate) fn note_result(
    effects: &mut Vec<Effect>,
    session_id: SessionId,
    phase: &'static str,
    result: &Result<(), PortError>,
)
    ensures
        final(effects)@ == old(effects)@ + noted(session_id, phase, *result),
{
    match result {
        Ok(_) => {},
        Err(error) => note_failure(effects, session_id, phase, error),
    }
}

pub(crate) fn stop_deadline(
    effects: &mut Vec<Effect>,
    deadline: Option<RecordingDeadlineGuard>,
)
    ensures
        final(effects)@ == old(effects)@ + stopping(deadline),
{
    match deadline {
        Some(guard) => effects.push(Effect::CancelDeadline(guard)),
        None => {},
    }
}

/// The answer to a command that only acts.
pub(crate) fn acted(reply: Reply) -> (r: Result<(), PortError>)
    requires
        reply is Acted,
    ensures
        r == reply->Acted_0,
{
    match reply {
        Reply::Acted(result) => result,
        _ => vstd::pervasive::unreached(),
    }
}

} // verus!
