//! The state that all workflows share, and the small steps on it.

use crate::asr_route::ResolvedAsrRoute;
use crate::domain::{
    DeliveryId, FailureCategory, RejectReason, RequestId, SessionEvent, SessionId,
    SettingsSnapshot, TimestampMs,
};
use crate::lifecycle::{CommitGuard, FenceView, LifecycleFence, LifecycleQuiescence};
use crate::orchestrator::exit::{ExitCompletion, ExitState, ExitView};
use crate::orchestrator::protocol::{stop_deadline, stopping, Effect};
use crate::ports::{
    AudioCaptureRef, AudioRef, PortError, RecordingDeadlineGuard, TargetSecurity,
    TargetSnapshotRef,
};
use crate::session_coordinator::{
    mutation_of, new_session, slot_after, ActiveSession, CoordinatorError, SessionCoordinator,
    SessionMutation, StartSessionOutcome,
};
use crate::text_route::{DirectDeliveryReason, TextProcessingRoute};
use vstd::prelude::*;

verus! {

#[derive(Clone, Copy, Debug, PartialEq, Eq, Structural)]
pub enum ApplicationActivity {
    Idle,
    Busy,
    Quitting,
}

#[derive(Clone, Copy, Debug, PartialEq, Eq, Structural)]
pub enum StartOutcome {
    Started { session_id: SessionId },
    Busy { active_session_id: SessionId },
    Rejected(RejectReason),
    Failed(FailureCategory),
    Quitting,
}

#[derive(Clone, Copy, Debug, PartialEq, Eq, Structural)]
pub enum CancelOutcome {
    Cancelled,
    CleanupRecovered,
    CleanupInProgress,
    NotRecording,
    NotFound,
}

#[derive(Clone, Copy, Debug, PartialEq, Eq, Structural)]
pub enum AudioCleanupOutcome {
    Recovered,
    InProgress,
    NotPending,
    Quitting,
}

#[derive(Clone, Debug, PartialEq, Eq)]
pub enum FinishOutcome {
    Completed(Completion),
    Failed(FailureCategory),
    NoSpeech,
    Discarded,
    NotRecording,
}

#[derive(Clone, Debug, PartialEq, Eq)]
pub struct Completion {
    pub final_text: String,
    pub delivery: DeliveryKind,
    pub direct_delivery_reason: Option<DirectDeliveryReason>,
    pub warnings: Vec<FinalizationWarning>,
}

#[derive(Clone, Copy, Debug, PartialEq, Eq, Structural)]
pub enum DeliveryKind {
    Inserted,
    ClipboardBridge,
    TemporaryText,
}

#[derive(Clone, Copy, Debug, PartialEq, Eq, Structural)]
pub enum FinalizationWarning {
    AutoCopyFailed,
    HistorySaveFailed,
}

#[derive(Clone, Copy, Debug, PartialEq, Eq, Structural)]
pub enum QuitOutcome {
    Idle,
    Terminated(SessionId),
}

#[derive(Debug, PartialEq, Eq)]
pub enum OrchestratorError {
    RuntimeLockPoisoned,
    AudioCleanupFailed { session_id: SessionId, phase: &'static str, source: PortError },
    Coordinator(CoordinatorError),
}

impl Clone for OrchestratorError {
    fn clone(&self) -> (r: OrchestratorError)
        ensures
            r == *self,
    {
        match self {
            OrchestratorError::RuntimeLockPoisoned => OrchestratorError::RuntimeLockPoisoned,
            OrchestratorError::AudioCleanupFailed { session_id, phase, source } => {
                OrchestratorError::AudioCleanupFailed {
                    session_id: *session_id,
                    phase,
                    source: source.clone(),
                }
            },
            OrchestratorError::Coordinator(error) => OrchestratorError::Coordinator(*error),
        }
    }
}

/// What preparing a recording came to.
#[derive(Debug, PartialEq, Eq)]
pub enum RecordingPreparation {
    Ready(AudioCaptureRef),
    FailedAudio,
    FailedLifecycle,
    RejectedHud,
    Aborted,
}

/// Audio that an adapter still owns although it should be gone.
#[derive(Debug, PartialEq, Eq)]
pub enum AudioCleanupResource {
    Capture(AudioCaptureRef),
    Finalized(AudioRef),
}

/// Whether both stand for the same piece of audio.
pub open spec fn same_resource(left: AudioCleanupResource, right: AudioCleanupResource) -> bool {
    match (left, right) {
        (AudioCleanupResource::Capture(a), AudioCleanupResource::Capture(b)) => a@ == b@,
        (AudioCleanupResource::Finalized(a), AudioCleanupResource::Finalized(b)) => a@ == b@,
        _ => false,
    }
}

impl Clone for AudioCleanupResource {
    fn clone(&self) -> (r: AudioCleanupResource)
        ensures
            r == *self,
    {
        match self {
            AudioCleanupResource::Capture(capture) => AudioCleanupResource::Capture(
                capture.clone(),
            ),
            AudioCleanupResource::Finalized(audio_ref) => AudioCleanupResource::Finalized(
                audio_ref.clone(),
            ),
        }
    }
}

impl AudioCleanupResource {
    fn same(&self, other: &AudioCleanupResource) -> (r: bool)
        ensures
            r == same_resource(*self, *other),
    {
        match (self, other) {
            (AudioCleanupResource::Capture(a), AudioCleanupResource::Capture(b)) => a.same(b),
            (AudioCleanupResource::Finalized(a), AudioCleanupResource::Finalized(b)) => a.same(b),
            _ => false,
        }
    }
}

/// A cleanup that failed and is still owed.
#[derive(Debug, PartialEq, Eq)]
pub struct AudioCleanupDebt {
    pub session_id: SessionId,
    pub phase: &'static str,
    pub resource: AudioCleanupResource,
    pub error: PortError,
}

impl Clone for AudioCleanupDebt {
    fn clone(&self) -> (r: AudioCleanupDebt)
        ensures
            r == *self,
    {
        AudioCleanupDebt {
            session_id: self.session_id,
            phase: self.phase,
            resource: self.resource.clone(),
            error: self.error.clone(),
        }
    }
}

impl AudioCleanupDebt {
    /// The error that tells of the debt.
    pub open spec fn spec_orchestrator_error(self) -> OrchestratorError {
        OrchestratorError::AudioCleanupFailed {
            session_id: self.session_id,
            phase: self.phase,
            source: self.error,
        }
    }

    /// Whether the debt is for one piece of audio of one session.
    pub open spec fn is_for(self, session_id: SessionId, resource: AudioCleanupResource) -> bool {
        self.session_id == session_id && same_resource(self.resource, resource)
    }

    pub fn orchestrator_error(&self) -> (r: OrchestratorError)
        ensures
            r == self.spec_orchestrator_error(),
    {
        OrchestratorError::AudioCleanupFailed {
            session_id: self.session_id,
            phase: self.phase,
            source: self.error.clone(),
        }
    }
}

/// How far the preparation of a recording has come.
#[derive(Debug, PartialEq, Eq)]
pub enum PreparingStage {
    StartingAudio,
    Capturing { capture: AudioCaptureRef },
    Cancelling { capture: AudioCaptureRef, in_flight: bool },
}

/// A session that is not recording yet.
pub struct PreparingWorkflow {
    pub session_id: SessionId,
    pub settings: SettingsSnapshot,
    pub processing_route: TextProcessingRoute,
    pub target_ref: TargetSnapshotRef,
    pub target_security: TargetSecurity,
    pub selected_text: Option<String>,
    pub recording_deadline: Option<RecordingDeadlineGuard>,
    pub recording_limit_elapsed: bool,
    /// Its start gives it up although the session has the single slot: whoever drops
    /// the preparation in the place of the start ends the session too.
    pub given_up: bool,
    pub stage: PreparingStage,
}

/// What closing a capture completes.
#[derive(Clone, Copy, Debug, PartialEq, Eq, Structural)]
pub enum CaptureCleanupCompletion {
    Cancelled,
    FailAudio,
}

/// What a session that records or works is doing.
#[derive(Debug, PartialEq, Eq)]
pub enum RuntimeStage {
    Recording { capture: AudioCaptureRef },
    Cancelling {
        capture: AudioCaptureRef,
        completion: CaptureCleanupCompletion,
        in_flight: bool,
    },
    FinishingAudio { capture: AudioCaptureRef },
    Recognizing { request_id: RequestId, audio_ref: Option<AudioRef> },
    CleaningAudio { request_id: RequestId, audio_ref: AudioRef, in_flight: bool },
    Processing { request_id: RequestId },
    Delivering { delivery_id: DeliveryId },
    Finalizing { delivery_id: DeliveryId },
}

/// A session that records, or whose recording is being turned into text.
pub struct ActiveWorkflow {
    pub session_id: SessionId,
    pub settings: SettingsSnapshot,
    pub processing_route: TextProcessingRoute,
    pub asr_route: ResolvedAsrRoute,
    pub target_ref: TargetSnapshotRef,
    pub target_security: TargetSecurity,
    pub selected_text: Option<String>,
    pub recording_deadline: Option<RecordingDeadlineGuard>,
    pub stage: RuntimeStage,
}

/// The choices frozen for an active session.
#[derive(PartialEq, Eq)]
pub struct ActiveContext {
    pub settings: SettingsSnapshot,
    pub processing_route: TextProcessingRoute,
    pub asr_route: ResolvedAsrRoute,
    pub target_ref: TargetSnapshotRef,
    pub target_security: TargetSecurity,
    pub selected_text: Option<String>,
}

impl ActiveWorkflow {
    pub open spec fn context(self) -> ActiveContext {
        ActiveContext {
            settings: self.settings,
            processing_route: self.processing_route,
            asr_route: self.asr_route,
            target_ref: self.target_ref,
            target_security: self.target_security,
            selected_text: self.selected_text,
        }
    }
}

impl ActiveContext {
    pub fn of(active: &ActiveWorkflow) -> (r: ActiveContext)
        ensures
            r == active.context(),
    {
        ActiveContext {
            settings: active.settings.clone(),
            processing_route: active.processing_route.clone(),
            asr_route: active.asr_route,
            target_ref: active.target_ref.clone(),
            target_security: active.target_security,
            selected_text: match &active.selected_text {
                Some(text) => Some(text.clone()),
                None => None,
            },
        }
    }
}

/// Which cancellation closes a capture.
#[derive(Clone, Copy, Debug, PartialEq, Eq, Structural)]
pub enum CaptureCancellationTarget {
    Preparing,
    Active(CaptureCleanupCompletion),
}

/// What a request to cancel comes to.
#[derive(Debug, PartialEq, Eq)]
pub enum CaptureCancellationSelection {
    Immediate(CancelOutcome),
    Capture { capture: AudioCaptureRef, target: CaptureCancellationTarget },
}

/// What a retried cleanup completes.
#[derive(Clone, Copy, Debug, PartialEq, Eq, Structural)]
pub enum AudioCleanupCompletion {
    Preparing,
    Capture(CaptureCleanupCompletion),
    FailAudio,
}

/// What a request to retry a cleanup comes to.
#[derive(Debug, PartialEq, Eq)]
pub enum RetrySelection {
    Immediate(AudioCleanupOutcome),
    Resource(AudioCleanupResource),
}

/// Everything that the workflows share.
#[verifier::ext_equal]
pub struct OrchestratorView {
    pub quitting: bool,
    pub starting: Option<SessionId>,
    pub preparing: Option<PreparingWorkflow>,
    pub active: Option<ActiveWorkflow>,
    pub debts: Seq<AudioCleanupDebt>,
    pub session: Option<ActiveSession>,
    pub operations: FenceView,
    pub exit: ExitView,
}

/// Position of the first debt for a piece of audio, or the number of debts.
pub open spec fn debt_index(
    debts: Seq<AudioCleanupDebt>,
    session_id: SessionId,
    resource: AudioCleanupResource,
) -> nat
    decreases debts.len(),
{
    if debts.len() == 0 || debts[0].is_for(session_id, resource) {
        0
    } else {
        1 + debt_index(debts.drop_first(), session_id, resource)
    }
}

/// Position of the first debt of a session, or the number of debts.
pub open spec fn session_debt_index(debts: Seq<AudioCleanupDebt>, session_id: SessionId) -> nat
    decreases debts.len(),
{
    if debts.len() == 0 || debts[0].session_id == session_id {
        0
    } else {
        1 + session_debt_index(debts.drop_first(), session_id)
    }
}

/// A debt replaces the one for the same audio, or joins the others.
pub open spec fn with_debt(debts: Seq<AudioCleanupDebt>, debt: AudioCleanupDebt) -> Seq<
    AudioCleanupDebt,
> {
    let index = debt_index(debts, debt.session_id, debt.resource);
    if index < debts.len() {
        debts.update(index as int, debt)
    } else {
        debts.push(debt)
    }
}

/// The debts for anything but one piece of audio of one session.
pub open spec fn without_debt(
    debts: Seq<AudioCleanupDebt>,
    session_id: SessionId,
    resource: AudioCleanupResource,
) -> Seq<AudioCleanupDebt> {
    debts.filter(|debt: AudioCleanupDebt| !debt.is_for(session_id, resource))
}

impl OrchestratorView {
    /// Nothing runs and nothing is owed.
    pub open spec fn fresh() -> OrchestratorView {
        OrchestratorView {
            quitting: false,
            starting: None,
            preparing: None,
            active: None,
            debts: Seq::empty(),
            session: None,
            operations: FenceView::fresh(),
            exit: ExitView { state: ExitState::Open, next_attempt: 0 },
        }
    }

    /// The session that occupies the single flight, if any: the one that works,
    /// prepares or starts, or else the first one with an unpaid cleanup.
    pub open spec fn occupant(self) -> Option<SessionId> {
        if self.active is Some {
            Some(self.active->0.session_id)
        } else if self.preparing is Some {
            Some(self.preparing->0.session_id)
        } else if self.starting is Some {
            self.starting
        } else if self.debts.len() > 0 {
            Some(self.debts[0].session_id)
        } else {
            None
        }
    }

    /// Whether a session starts, prepares or works.
    pub open spec fn has_work(self) -> bool {
        self.starting is Some || self.preparing is Some || self.active is Some
    }

    /// Whether a start still owns its reservation.
    pub open spec fn reserved(self, session_id: SessionId) -> bool {
        !self.quitting && (self.starting == Some(session_id) || self.prepares(session_id))
    }

    /// The reservation is gone.
    pub open spec fn released(self, session_id: SessionId) -> OrchestratorView {
        if self.starting == Some(session_id) {
            OrchestratorView { starting: None, ..self }
        } else {
            self
        }
    }

    /// Whether a session is the one in preparation.
    pub open spec fn prepares(self, session_id: SessionId) -> bool {
        self.preparing is Some && self.preparing->0.session_id == session_id
    }

    /// Whether the session in preparation captures with the given handle.
    pub open spec fn captures(self, session_id: SessionId, capture: AudioCaptureRef) -> bool {
        &&& !self.quitting
        &&& self.prepares(session_id)
        &&& match self.preparing->0.stage {
            PreparingStage::Capturing { capture: held } => held@ == capture@,
            _ => false,
        }
    }

    /// The preparation has reached another stage.
    pub open spec fn prepared_to(self, stage: PreparingStage) -> OrchestratorView {
        OrchestratorView {
            preparing: Some(PreparingWorkflow { stage, ..self.preparing->0 }),
            ..self
        }
    }

    /// The preparation is gone.
    pub open spec fn unprepared(self, session_id: SessionId) -> OrchestratorView {
        if self.prepares(session_id) {
            OrchestratorView { preparing: None, ..self }
        } else {
            self
        }
    }

    /// The start gives the preparation up although the session has the single slot.
    pub open spec fn given_up(self) -> OrchestratorView {
        OrchestratorView {
            preparing: Some(PreparingWorkflow { given_up: true, ..self.preparing->0 }),
            ..self
        }
    }

    /// The preparation is gone, and with it the session of one that was given up.
    pub open spec fn dropped(self, session_id: SessionId) -> OrchestratorView {
        let after = self.unprepared(session_id);
        if self.prepares(session_id) && self.preparing->0.given_up {
            OrchestratorView {
                session: slot_after(
                    after.session,
                    session_id,
                    SessionEvent::Fail(FailureCategory::Lifecycle),
                ),
                ..after
            }
        } else {
            after
        }
    }

    /// What dropping the preparation brings about.
    pub open spec fn unpreparing(self, session_id: SessionId) -> Seq<Effect> {
        if self.prepares(session_id) {
            seq![Effect::InvalidateLifecycle(session_id)] + stopping(
                self.preparing->0.recording_deadline,
            )
        } else {
            Seq::empty()
        }
    }

    /// Whether a session is the active one, be the application quitting or not.
    pub open spec fn works(self, session_id: SessionId) -> bool {
        self.active is Some && self.active->0.session_id == session_id
    }

    /// Whether a session is the active one and may go on.
    pub open spec fn current(self, session_id: SessionId) -> bool {
        !self.quitting && self.works(session_id)
    }

    /// The active session has reached another stage.
    pub open spec fn staged(self, stage: RuntimeStage) -> OrchestratorView {
        OrchestratorView { active: Some(ActiveWorkflow { stage, ..self.active->0 }), ..self }
    }

    /// The active session is gone.
    pub open spec fn cleared(self, session_id: SessionId) -> OrchestratorView {
        if self.works(session_id) {
            OrchestratorView { active: None, ..self }
        } else {
            self
        }
    }

    /// What dropping the active session brings about.
    pub open spec fn clearing(self, session_id: SessionId) -> Seq<Effect> {
        if self.works(session_id) {
            seq![Effect::InvalidateLifecycle(session_id)] + stopping(
                self.active->0.recording_deadline,
            )
        } else {
            Seq::empty()
        }
    }

    /// The single slot after an event for a session that may go on.
    pub open spec fn advanced(
        self,
        session_id: SessionId,
        event: SessionEvent,
    ) -> OrchestratorView {
        if self.current(session_id) {
            OrchestratorView { session: slot_after(self.session, session_id, event), ..self }
        } else {
            self
        }
    }

    /// Whether an event moved a session that may go on. An event that the
    /// session refuses is an error; a session that is not there is not.
    pub open spec fn advancing(self, session_id: SessionId, event: SessionEvent) -> Result<
        bool,
        OrchestratorError,
    > {
        if !self.current(session_id) {
            Ok(false)
        } else {
            match mutation_of(self.session, session_id, event) {
                Ok(_) => Ok(true),
                Err(CoordinatorError::SessionNotFound) => Ok(false),
                Err(error) => Err(OrchestratorError::Coordinator(error)),
            }
        }
    }

    /// The finalized audio that a recognition still holds.
    pub open spec fn cleanable_audio(self, session_id: SessionId, request_id: RequestId) -> Option<
        AudioRef,
    > {
        if self.current(session_id) {
            match self.active->0.stage {
                RuntimeStage::Recognizing { request_id: held, audio_ref } => if held == request_id {
                    audio_ref
                } else {
                    None
                },
                _ => None,
            }
        } else {
            None
        }
    }

    /// Whether the removal of a recognition's audio is the one under way.
    pub open spec fn cleans(
        self,
        session_id: SessionId,
        request_id: RequestId,
        cleaned: AudioRef,
    ) -> bool {
        &&& self.current(session_id)
        &&& match self.active->0.stage {
            RuntimeStage::CleaningAudio { request_id: held, audio_ref, in_flight } => in_flight
                && held == request_id && audio_ref@ == cleaned@,
            _ => false,
        }
    }

    /// What a request to cancel a session comes to.
    pub open spec fn cancellation(self, session_id: SessionId) -> CaptureCancellationSelection {
        if self.prepares(session_id) {
            match self.preparing->0.stage {
                PreparingStage::StartingAudio => CaptureCancellationSelection::Immediate(
                    CancelOutcome::NotRecording,
                ),
                PreparingStage::Cancelling { in_flight: true, .. } => {
                    CaptureCancellationSelection::Immediate(CancelOutcome::CleanupInProgress)
                },
                PreparingStage::Capturing { capture }
                | PreparingStage::Cancelling { capture, .. } => {
                    CaptureCancellationSelection::Capture {
                        capture,
                        target: CaptureCancellationTarget::Preparing,
                    }
                },
            }
        } else if self.works(session_id) {
            match self.active->0.stage {
                RuntimeStage::Recording { capture } => CaptureCancellationSelection::Capture {
                    capture,
                    target: CaptureCancellationTarget::Active(CaptureCleanupCompletion::Cancelled),
                },
                RuntimeStage::Cancelling { in_flight: true, .. } => {
                    CaptureCancellationSelection::Immediate(CancelOutcome::CleanupInProgress)
                },
                RuntimeStage::Cancelling { capture, completion, .. } => {
                    CaptureCancellationSelection::Capture {
                        capture,
                        target: CaptureCancellationTarget::Active(completion),
                    }
                },
                _ => CaptureCancellationSelection::Immediate(CancelOutcome::NotRecording),
            }
        } else {
            CaptureCancellationSelection::Immediate(CancelOutcome::NotFound)
        }
    }

    /// The deadline that a request to cancel stops.
    pub open spec fn cancelled_deadline(self, session_id: SessionId) -> Option<
        RecordingDeadlineGuard,
    > {
        if self.prepares(session_id) {
            if self.preparing->0.stage is Capturing {
                self.preparing->0.recording_deadline
            } else {
                None
            }
        } else if self.works(session_id) && self.active->0.stage is Recording {
            self.active->0.recording_deadline
        } else {
            None
        }
    }

    /// The session whose capture is being closed on request.
    pub open spec fn cancelling(self, session_id: SessionId) -> OrchestratorView {
        match self.cancellation(session_id) {
            CaptureCancellationSelection::Immediate(_) => self,
            CaptureCancellationSelection::Capture { capture, target } => match target {
                CaptureCancellationTarget::Preparing => OrchestratorView {
                    preparing: Some(
                        PreparingWorkflow {
                            recording_deadline: if self.preparing->0.stage is Capturing {
                                None
                            } else {
                                self.preparing->0.recording_deadline
                            },
                            stage: PreparingStage::Cancelling { capture, in_flight: true },
                            ..self.preparing->0
                        },
                    ),
                    ..self
                },
                CaptureCancellationTarget::Active(completion) => OrchestratorView {
                    active: Some(
                        ActiveWorkflow {
                            recording_deadline: if self.active->0.stage is Recording {
                                None
                            } else {
                                self.active->0.recording_deadline
                            },
                            stage: RuntimeStage::Cancelling {
                                capture,
                                completion,
                                in_flight: true,
                            },
                            ..self.active->0
                        },
                    ),
                    ..self
                },
            },
        }
    }

    /// Whether a session is recording, be the application quitting or not.
    pub open spec fn records(self, session_id: SessionId) -> bool {
        self.works(session_id) && self.active->0.stage is Recording
    }

    /// The session whose recording is being finalized.
    pub open spec fn finishing(self) -> OrchestratorView {
        OrchestratorView {
            active: Some(
                ActiveWorkflow {
                    recording_deadline: None,
                    stage: RuntimeStage::FinishingAudio {
                        capture: self.active->0.stage->Recording_capture,
                    },
                    ..self.active->0
                },
            ),
            ..self
        }
    }

    /// Whether the cleanup that a session's stage tracks is running; `None`
    /// where the stage tracks none.
    pub open spec fn cleanup_in_flight(self, session_id: SessionId) -> Option<bool> {
        if self.prepares(session_id) {
            match self.preparing->0.stage {
                PreparingStage::Cancelling { in_flight, .. } => Some(in_flight),
                _ => None,
            }
        } else if self.works(session_id) {
            match self.active->0.stage {
                RuntimeStage::Cancelling { in_flight, .. }
                | RuntimeStage::CleaningAudio { in_flight, .. } => Some(in_flight),
                _ => None,
            }
        } else {
            None
        }
    }

    /// What a request to retry a session's cleanup comes to.
    pub open spec fn retry(self, session_id: SessionId) -> RetrySelection {
        let index = session_debt_index(self.debts, session_id);
        if index >= self.debts.len() {
            RetrySelection::Immediate(AudioCleanupOutcome::NotPending)
        } else {
            match self.cleanup_in_flight(session_id) {
                None => RetrySelection::Immediate(AudioCleanupOutcome::NotPending),
                Some(true) => RetrySelection::Immediate(AudioCleanupOutcome::InProgress),
                Some(false) => RetrySelection::Resource(self.debts[index as int].resource),
            }
        }
    }

    /// The session whose cleanup is tried again.
    pub open spec fn retrying(self, session_id: SessionId) -> OrchestratorView {
        match self.retry(session_id) {
            RetrySelection::Immediate(_) => self,
            RetrySelection::Resource(_) => if self.prepares(session_id) {
                match self.preparing->0.stage {
                    PreparingStage::Cancelling { capture, .. } => self.prepared_to(
                        PreparingStage::Cancelling { capture, in_flight: true },
                    ),
                    _ => self,
                }
            } else {
                self.with_cleanup_in_flight(session_id, true)
            },
        }
    }

    /// What a session's cleanup completes.
    pub open spec fn completion(self, session_id: SessionId) -> Option<AudioCleanupCompletion> {
        if self.prepares(session_id) && self.preparing->0.stage is Cancelling {
            Some(AudioCleanupCompletion::Preparing)
        } else if self.works(session_id) {
            match self.active->0.stage {
                RuntimeStage::Cancelling { completion, .. } => Some(
                    AudioCleanupCompletion::Capture(completion),
                ),
                RuntimeStage::CleaningAudio { .. } => Some(AudioCleanupCompletion::FailAudio),
                _ => None,
            }
        } else {
            None
        }
    }

    /// The recording limit of a session in preparation has passed.
    pub open spec fn limit_marked(self, session_id: SessionId) -> OrchestratorView {
        if self.prepares(session_id) {
            OrchestratorView {
                preparing: Some(
                    PreparingWorkflow { recording_limit_elapsed: true, ..self.preparing->0 },
                ),
                ..self
            }
        } else {
            self
        }
    }

    /// Nothing runs any more, and the application is quitting.
    pub open spec fn emptied(self) -> OrchestratorView {
        OrchestratorView { quitting: true, starting: None, preparing: None, active: None, ..self }
    }

    /// A failed exit puts back what it had taken, unless something else is there.
    pub open spec fn restored(
        self,
        preparing: Option<PreparingWorkflow>,
        active: Option<ActiveWorkflow>,
    ) -> OrchestratorView {
        OrchestratorView {
            preparing: if self.preparing is None {
                preparing
            } else {
                self.preparing
            },
            active: if self.active is None {
                active
            } else {
                self.active
            },
            ..self
        }
    }

    /// The cleanup that a session's stage tracks is running, or not.
    pub open spec fn with_cleanup_in_flight(
        self,
        session_id: SessionId,
        value: bool,
    ) -> OrchestratorView {
        if self.works(session_id) {
            match self.active->0.stage {
                RuntimeStage::Cancelling { capture, completion, .. } => self.staged(
                    RuntimeStage::Cancelling { capture, completion, in_flight: value },
                ),
                RuntimeStage::CleaningAudio { request_id, audio_ref, .. } => self.staged(
                    RuntimeStage::CleaningAudio { request_id, audio_ref, in_flight: value },
                ),
                _ => self,
            }
        } else if self.prepares(session_id) {
            match self.preparing->0.stage {
                PreparingStage::Cancelling { capture, .. } => self.prepared_to(
                    PreparingStage::Cancelling { capture, in_flight: value },
                ),
                _ => self,
            }
        } else {
            self
        }
    }
}

/// The shared state of all workflows.
pub struct TranscriptionOrchestrator {
    quitting: bool,
    starting: Option<SessionId>,
    preparing: Option<PreparingWorkflow>,
    active: Option<ActiveWorkflow>,
    audio_cleanup_debts: Vec<AudioCleanupDebt>,
    sessions: SessionCoordinator,
    operations: LifecycleFence,
    exit: ExitCompletion,
}

impl View for TranscriptionOrchestrator {
    type V = OrchestratorView;

    closed spec fn view(&self) -> OrchestratorView {
        OrchestratorView {
            quitting: self.quitting,
            starting: self.starting,
            preparing: self.preparing,
            active: self.active,
            debts: self.audio_cleanup_debts@,
            session: self.sessions@,
            operations: self.operations@,
            exit: self.exit@,
        }
    }
}

impl TranscriptionOrchestrator {
    pub fn new() -> (r: TranscriptionOrchestrator)
        ensures
            r@ == OrchestratorView::fresh(),
    {
        TranscriptionOrchestrator {
            quitting: false,
            starting: None,
            preparing: None,
            active: None,
            audio_cleanup_debts: Vec::new(),
            sessions: SessionCoordinator::new(),
            operations: LifecycleFence::new(),
            exit: ExitCompletion::new(),
        }
    }
}

impl TranscriptionOrchestrator {
    /// Whether the application is quitting.
    pub fn is_quitting(&self) -> (r: bool)
        ensures
            r == self@.quitting,
    {
        self.quitting
    }

    /// Whether a session starts, prepares or works.
    pub fn has_active_work(&self) -> (r: bool)
        ensures
            r == self@.has_work(),
    {
        self.starting.is_some() || self.preparing.is_some() || self.active.is_some()
    }

    pub fn application_activity(&self) -> (r: ApplicationActivity)
        ensures
            r == (if self@.quitting {
                ApplicationActivity::Quitting
            } else if self@.has_work() {
                ApplicationActivity::Busy
            } else {
                ApplicationActivity::Idle
            }),
    {
        if self.quitting {
            return ApplicationActivity::Quitting;
        }
        if self.has_active_work() {
            return ApplicationActivity::Busy;
        }
        ApplicationActivity::Idle
    }

    /// The session that occupies the single flight.
    pub fn active_session_id(&self) -> (r: Option<SessionId>)
        ensures
            r == self@.occupant(),
    {
        if let Some(active) = &self.active {
            return Some(active.session_id);
        }
        if let Some(preparing) = &self.preparing {
            return Some(preparing.session_id);
        }
        if self.starting.is_some() {
            return self.starting;
        }
        if self.audio_cleanup_debts.len() > 0 {
            return Some(self.audio_cleanup_debts[0].session_id);
        }
        None
    }

    /// How many operations are running.
    pub fn operations_in_flight(&self) -> (r: usize)
        ensures
            r == self@.operations.in_flight,
    {
        self.operations.in_flight()
    }

    /// Enters the application-wide quiescence barrier. Once shutdown has begun,
    /// nothing enters any more.
    pub fn enter_operation(&mut self) -> (r: Option<CommitGuard>)
        requires
            old(self)@.operations.in_flight < usize::MAX,
        ensures
            r is Some <==> old(self)@.operations.open,
            final(self)@ == (if old(self)@.operations.open {
                OrchestratorView { operations: old(self)@.operations.entered(), ..old(self)@ }
            } else {
                old(self)@
            }),
    {
        self.operations.begin_commit()
    }

    /// Leaves the application-wide quiescence barrier. The waiters that are due
    /// are handed back.
    pub fn leave_operation(&mut self, guard: CommitGuard) -> (due: Vec<u64>)
        ensures
            final(self)@ == (OrchestratorView {
                operations: old(self)@.operations.left(),
                ..old(self)@
            }),
            due@ == (FenceView {
                waiters: old(self)@.operations.waiters,
                ..old(self)@.operations.left()
            }).due(),
    {
        self.operations.end_commit(guard)
    }

    /// Whether no entered operation is running. Where one is, the waiter is on
    /// record from now on, once.
    pub fn poll_operations(&mut self, waiter: u64) -> (ready: bool)
        ensures
            ready <==> old(self)@.operations.in_flight == 0,
            final(self)@ == (OrchestratorView {
                operations: old(self)@.operations.awaited_by(waiter),
                ..old(self)@
            }),
    {
        let wait: LifecycleQuiescence = self.operations.wait_quiescent();
        wait.poll(&mut self.operations, waiter)
    }

    /// Closes the barrier.
    pub(crate) fn begin_quiescing(&mut self) -> (due: Vec<u64>)
        ensures
            final(self)@ == (OrchestratorView {
                operations: old(self)@.operations.closed(),
                ..old(self)@
            }),
            due@ == old(self)@.operations.due(),
    {
        self.operations.invalidate()
    }

    /// Claims the single flight for a session that is about to start.
    pub(crate) fn reserve_start(&mut self, session_id: SessionId)
        ensures
            final(self)@ == (OrchestratorView { starting: Some(session_id), ..old(self)@ }),
    {
        self.starting = Some(session_id);
    }

    pub(crate) fn start_reservation_is_current(&self, session_id: SessionId) -> (r: bool)
        ensures
            r == self@.reserved(session_id),
    {
        if self.quitting {
            return false;
        }
        if let Some(starting) = &self.starting {
            if *starting == session_id {
                return true;
            }
        }
        match &self.preparing {
            Some(preparing) => preparing.session_id == session_id,
            None => false,
        }
    }

    pub(crate) fn release_start_reservation(&mut self, session_id: SessionId)
        ensures
            final(self)@ == old(self)@.released(session_id),
    {
        let owned = match &self.starting {
            Some(starting) => *starting == session_id,
            None => false,
        };
        if owned {
            self.starting = None;
        }
    }

    /// Turns the reservation of a session into its preparation.
    pub(crate) fn install_preparing(&mut self, workflow: PreparingWorkflow) -> (r: bool)
        ensures
            r == (!old(self)@.quitting && old(self)@.starting == Some(workflow.session_id)),
            final(self)@ == (if r {
                OrchestratorView { starting: None, preparing: Some(workflow), ..old(self)@ }
            } else {
                old(self)@
            }),
    {
        if self.quitting {
            return false;
        }
        let owned = match &self.starting {
            Some(starting) => *starting == workflow.session_id,
            None => false,
        };
        if !owned {
            return false;
        }
        self.starting = None;
        self.preparing = Some(workflow);
        true
    }

    pub(crate) fn is_current_preparing_start(&self, session_id: SessionId) -> (r: bool)
        ensures
            r == (!self@.quitting && self@.prepares(session_id)
                && self@.preparing->0.stage is StartingAudio),
    {
        if self.quitting {
            return false;
        }
        match &self.preparing {
            Some(preparing) => preparing.session_id == session_id && matches!(
                preparing.stage,
                PreparingStage::StartingAudio
            ),
            None => false,
        }
    }

    pub(crate) fn set_preparing_capture_if_current(
        &mut self,
        session_id: SessionId,
        capture: AudioCaptureRef,
    ) -> (r: bool)
        ensures
            r == (!old(self)@.quitting && old(self)@.prepares(session_id)
                && old(self)@.preparing->0.stage is StartingAudio),
            final(self)@ == (if r {
                old(self)@.prepared_to(PreparingStage::Capturing { capture })
            } else {
                old(self)@
            }),
    {
        if self.quitting {
            return false;
        }
        match &mut self.preparing {
            Some(preparing) => {
                if preparing.session_id != session_id {
                    return false;
                }
                if !matches!(preparing.stage, PreparingStage::StartingAudio) {
                    return false;
                }
                preparing.stage = PreparingStage::Capturing { capture };
                true
            },
            None => false,
        }
    }

    pub(crate) fn is_current_preparing_capture(
        &self,
        session_id: SessionId,
        capture: &AudioCaptureRef,
    ) -> (r: bool)
        ensures
            r == self@.captures(session_id, *capture),
    {
        if self.quitting {
            return false;
        }
        match &self.preparing {
            Some(preparing) => {
                if preparing.session_id != session_id {
                    return false;
                }
                match &preparing.stage {
                    PreparingStage::Capturing { capture: held } => held.same(capture),
                    _ => false,
                }
            },
            None => false,
        }
    }

    /// Binds a deadline to the session in preparation. A deadline that came too
    /// late is handed back.
    pub(crate) fn set_preparing_deadline_if_current(
        &mut self,
        session_id: SessionId,
        capture: &AudioCaptureRef,
        deadline: RecordingDeadlineGuard,
    ) -> (r: Result<Option<RecordingDeadlineGuard>, RecordingDeadlineGuard>)
        ensures
            if old(self)@.captures(session_id, *capture) {
                &&& r == Ok::<Option<RecordingDeadlineGuard>, RecordingDeadlineGuard>(
                    old(self)@.preparing->0.recording_deadline,
                )
                &&& final(self)@ == (OrchestratorView {
                    preparing: Some(
                        PreparingWorkflow {
                            recording_deadline: Some(deadline),
                            ..old(self)@.preparing->0
                        },
                    ),
                    ..old(self)@
                })
            } else {
                &&& r == Err::<Option<RecordingDeadlineGuard>, RecordingDeadlineGuard>(deadline)
                &&& final(self)@ == old(self)@
            },
    {
        if !self.is_current_preparing_capture(session_id, capture) {
            return Err(deadline);
        }
        match &mut self.preparing {
            Some(preparing) => {
                let replaced = preparing.recording_deadline.take();
                preparing.recording_deadline = Some(deadline);
                Ok(replaced)
            },
            None => Err(deadline),
        }
    }

    /// Takes a capture over for cancellation.
    pub(crate) fn claim_preparing_capture(
        &mut self,
        session_id: SessionId,
        capture: &AudioCaptureRef,
    ) -> (r: bool)
        ensures
            r == old(self)@.captures(session_id, *capture),
            final(self)@ == (if r {
                old(self)@.prepared_to(
                    PreparingStage::Cancelling { capture: *capture, in_flight: true },
                )
            } else {
                old(self)@
            }),
    {
        if !self.is_current_preparing_capture(session_id, capture) {
            return false;
        }
        match &mut self.preparing {
            Some(preparing) => {
                preparing.stage = PreparingStage::Cancelling {
                    capture: capture.clone(),
                    in_flight: true,
                };
                true
            },
            None => false,
        }
    }

    pub(crate) fn remove_preparing_if_current(
        &mut self,
        session_id: SessionId,
        effects: &mut Vec<Effect>,
    ) -> (r: bool)
        ensures
            r == old(self)@.prepares(session_id),
            final(self)@ == old(self)@.unprepared(session_id),
            final(effects)@ == old(effects)@ + old(self)@.unpreparing(session_id),
    {
        let current = match &self.preparing {
            Some(preparing) => preparing.session_id == session_id,
            None => false,
        };
        if !current {
            return false;
        }
        match self.preparing.take() {
            Some(preparing) => {
                effects.push(Effect::InvalidateLifecycle(session_id));
                stop_deadline(effects, preparing.recording_deadline);
            },
            None => {},
        }
        true
    }

    /// Marks the preparation as given up.
    pub(crate) fn give_preparing_up(&mut self)
        requires
            old(self)@.preparing is Some,
        ensures
            final(self)@ == old(self)@.given_up(),
    {
        match &mut self.preparing {
            Some(preparing) => {
                preparing.given_up = true;
            },
            None => {},
        }
    }

    /// Drops the preparation of a session, and ends the session where its start has
    /// given it up.
    pub(crate) fn drop_preparing_if_current(
        &mut self,
        session_id: SessionId,
        effects: &mut Vec<Effect>,
    )
        ensures
            final(self)@ == old(self)@.dropped(session_id),
            final(effects)@ == old(effects)@ + old(self)@.unpreparing(session_id),
    {
        let given_up = match &self.preparing {
            Some(preparing) => preparing.session_id == session_id && preparing.given_up,
            None => false,
        };
        let _ = self.remove_preparing_if_current(session_id, effects);
        if given_up {
            let _ = self.apply_event(session_id, SessionEvent::Fail(FailureCategory::Lifecycle));
        }
    }

    /// Turns a preparation that captures into the active session. The answer
    /// tells whether the recording limit has passed meanwhile.
    pub(crate) fn activate(
        &mut self,
        session_id: SessionId,
        capture: AudioCaptureRef,
        asr_route: ResolvedAsrRoute,
    ) -> (r: Option<bool>)
        ensures
            if old(self)@.captures(session_id, capture) {
                let preparing = old(self)@.preparing->0;
                &&& r == Some(preparing.recording_limit_elapsed)
                &&& final(self)@ == (OrchestratorView {
                    preparing: None,
                    active: Some(
                        ActiveWorkflow {
                            session_id,
                            settings: preparing.settings,
                            processing_route: preparing.processing_route,
                            asr_route,
                            target_ref: preparing.target_ref,
                            target_security: preparing.target_security,
                            selected_text: preparing.selected_text,
                            recording_deadline: preparing.recording_deadline,
                            stage: RuntimeStage::Recording { capture },
                        },
                    ),
                    ..old(self)@
                })
            } else {
                &&& r is None
                &&& final(self)@ == old(self)@
            },
    {
        if !self.is_current_preparing_capture(session_id, &capture) {
            return None;
        }
        match self.preparing.take() {
            Some(preparing) => {
                let recording_limit_elapsed = preparing.recording_limit_elapsed;
                self.active = Some(
                    ActiveWorkflow {
                        session_id,
                        settings: preparing.settings,
                        processing_route: preparing.processing_route,
                        asr_route,
                        target_ref: preparing.target_ref,
                        target_security: preparing.target_security,
                        selected_text: preparing.selected_text,
                        recording_deadline: preparing.recording_deadline,
                        stage: RuntimeStage::Recording { capture },
                    },
                );
                Some(recording_limit_elapsed)
            },
            None => None,
        }
    }

    /// Puts a session into the single slot.
    pub(crate) fn try_start_session(
        &mut self,
        session_id: SessionId,
        created_at: TimestampMs,
        settings: SettingsSnapshot,
        asr_route: ResolvedAsrRoute,
    ) -> (r: StartSessionOutcome)
        ensures
            match old(self)@.session {
                Some(active) => {
                    &&& r == (StartSessionOutcome::Busy { active_session_id: active.session.id })
                    &&& final(self)@ == old(self)@
                },
                None => {
                    &&& r == (StartSessionOutcome::Accepted { session_id })
                    &&& final(self)@ == (OrchestratorView {
                        session: Some(new_session(session_id, created_at, settings, asr_route)),
                        ..old(self)@
                    })
                },
            },
    {
        self.sessions.try_start(session_id, created_at, settings, asr_route)
    }

    /// Hands an event to the session in the single slot.
    pub(crate) fn apply_event(&mut self, session_id: SessionId, event: SessionEvent) -> (r: Result<
        SessionMutation,
        CoordinatorError,
    >)
        ensures
            r == mutation_of(old(self)@.session, session_id, event),
            final(self)@ == (OrchestratorView {
                session: slot_after(old(self)@.session, session_id, event),
                ..old(self)@
            }),
    {
        self.sessions.apply(session_id, event)
    }

    /// The stage of a session that may go on.
    pub(crate) fn current_stage(&self, session_id: SessionId) -> (r: Option<&RuntimeStage>)
        ensures
            r is Some <==> self@.current(session_id),
            r is Some ==> *r->0 == self@.active->0.stage,
    {
        if self.quitting {
            return None;
        }
        match &self.active {
            Some(active) => {
                if active.session_id == session_id {
                    Some(&active.stage)
                } else {
                    None
                }
            },
            None => None,
        }
    }

    pub(crate) fn set_stage_if_current(&mut self, session_id: SessionId, stage: RuntimeStage) -> (r:
        bool)
        ensures
            r == old(self)@.current(session_id),
            final(self)@ == (if r {
                old(self)@.staged(stage)
            } else {
                old(self)@
            }),
    {
        if self.quitting {
            return false;
        }
        match &mut self.active {
            Some(active) => {
                if active.session_id != session_id {
                    return false;
                }
                active.stage = stage;
                true
            },
            None => false,
        }
    }

    pub(crate) fn active_context(&self, session_id: SessionId) -> (r: Option<ActiveContext>)
        ensures
            r == (if self@.works(session_id) {
                Some(self@.active->0.context())
            } else {
                None
            }),
    {
        match &self.active {
            Some(active) => {
                if active.session_id == session_id {
                    Some(ActiveContext::of(active))
                } else {
                    None
                }
            },
            None => None,
        }
    }

    pub(crate) fn is_active(&self, session_id: SessionId) -> (r: bool)
        ensures
            r == self@.works(session_id),
    {
        match &self.active {
            Some(active) => active.session_id == session_id,
            None => false,
        }
    }

    pub(crate) fn apply_if_current(&mut self, session_id: SessionId, event: SessionEvent) -> (r:
        Result<bool, OrchestratorError>)
        ensures
            r == old(self)@.advancing(session_id, event),
            final(self)@ == old(self)@.advanced(session_id, event),
    {
        if self.current_stage(session_id).is_none() {
            return Ok(false);
        }
        match self.sessions.apply(session_id, event) {
            Ok(_) => Ok(true),
            Err(CoordinatorError::SessionNotFound) => Ok(false),
            Err(error) => Err(OrchestratorError::Coordinator(error)),
        }
    }

    pub(crate) fn clear_active_if_current(
        &mut self,
        session_id: SessionId,
        effects: &mut Vec<Effect>,
    ) -> (r: bool)
        ensures
            r == old(self)@.works(session_id),
            final(self)@ == old(self)@.cleared(session_id),
            final(effects)@ == old(effects)@ + old(self)@.clearing(session_id),
    {
        if !self.is_active(session_id) {
            return false;
        }
        match self.active.take() {
            Some(active) => {
                effects.push(Effect::InvalidateLifecycle(session_id));
                stop_deadline(effects, active.recording_deadline);
            },
            None => {},
        }
        true
    }

    /// Hands out the finalized audio of a recognition so that it can be removed.
    pub(crate) fn begin_recognizing_audio_cleanup(
        &mut self,
        session_id: SessionId,
        request_id: RequestId,
    ) -> (r: Option<AudioRef>)
        ensures
            r == old(self)@.cleanable_audio(session_id, request_id),
            final(self)@ == (match r {
                Some(audio_ref) => old(self)@.staged(
                    RuntimeStage::CleaningAudio { request_id, audio_ref, in_flight: true },
                ),
                None => old(self)@,
            }),
    {
        if self.quitting {
            return None;
        }
        match &mut self.active {
            Some(active) => {
                if active.session_id != session_id {
                    return None;
                }
                let audio_ref = match &active.stage {
                    RuntimeStage::Recognizing { request_id: held, audio_ref } => {
                        if *held == request_id {
                            match audio_ref {
                                Some(audio_ref) => audio_ref.clone(),
                                None => {
                                    return None;
                                },
                            }
                        } else {
                            return None;
                        }
                    },
                    _ => {
                        return None;
                    },
                };
                active.stage = RuntimeStage::CleaningAudio {
                    request_id,
                    audio_ref: audio_ref.clone(),
                    in_flight: true,
                };
                Some(audio_ref)
            },
            None => None,
        }
    }

    /// Goes back to recognition once the finalized audio is gone.
    pub(crate) fn complete_recognizing_audio_cleanup(
        &mut self,
        session_id: SessionId,
        request_id: RequestId,
        cleaned: &AudioRef,
    ) -> (r: bool)
        ensures
            r == old(self)@.cleans(session_id, request_id, *cleaned),
            final(self)@ == (if r {
                old(self)@.staged(RuntimeStage::Recognizing { request_id, audio_ref: None })
            } else {
                old(self)@
            }),
    {
        if self.quitting {
            return false;
        }
        match &mut self.active {
            Some(active) => {
                if active.session_id != session_id {
                    return false;
                }
                let matching = match &active.stage {
                    RuntimeStage::CleaningAudio { request_id: held, audio_ref, in_flight } => {
                        *in_flight && *held == request_id && audio_ref.same(cleaned)
                    },
                    _ => false,
                };
                if !matching {
                    return false;
                }
                active.stage = RuntimeStage::Recognizing { request_id, audio_ref: None };
                true
            },
            None => false,
        }
    }

    pub(crate) fn set_audio_cleanup_in_flight_if_current(
        &mut self,
        session_id: SessionId,
        value: bool,
    )
        ensures
            final(self)@ == old(self)@.with_cleanup_in_flight(session_id, value),
    {
        if self.is_active(session_id) {
            if let Some(active) = &mut self.active {
                match &mut active.stage {
                    RuntimeStage::Cancelling { in_flight, .. } => {
                        *in_flight = value;
                    },
                    RuntimeStage::CleaningAudio { in_flight, .. } => {
                        *in_flight = value;
                    },
                    _ => {},
                }
            }
            return;
        }
        if let Some(preparing) = &mut self.preparing {
            if preparing.session_id == session_id {
                match &mut preparing.stage {
                    PreparingStage::Cancelling { in_flight, .. } => {
                        *in_flight = value;
                    },
                    _ => {},
                }
            }
        }
    }
}

/// The first debt that matches, if any, lies where `debt_index` says.
proof fn debt_index_finds_first(
    debts: Seq<AudioCleanupDebt>,
    session_id: SessionId,
    resource: AudioCleanupResource,
    position: int,
)
    requires
        0 <= position <= debts.len(),
        forall|i: int| 0 <= i < position ==> !(#[trigger] debts[i]).is_for(session_id, resource),
        position < debts.len() ==> debts[position].is_for(session_id, resource),
    ensures
        debt_index(debts, session_id, resource) == position,
    decreases debts.len(),
{
    if debts.len() > 0 && position > 0 {
        assert(!debts[0].is_for(session_id, resource));
        let rest = debts.drop_first();
        assert forall|i: int| 0 <= i < position - 1 implies !(#[trigger] rest[i]).is_for(
            session_id,
            resource,
        ) by {
            assert(rest[i] == debts[i + 1]);
        }
        debt_index_finds_first(rest, session_id, resource, position - 1);
    }
}

/// The first debt of a session, if any, lies where `session_debt_index` says.
proof fn session_debt_index_finds_first(
    debts: Seq<AudioCleanupDebt>,
    session_id: SessionId,
    position: int,
)
    requires
        0 <= position <= debts.len(),
        forall|i: int| 0 <= i < position ==> (#[trigger] debts[i]).session_id != session_id,
        position < debts.len() ==> debts[position].session_id == session_id,
    ensures
        session_debt_index(debts, session_id) == position,
    decreases debts.len(),
{
    if debts.len() > 0 && position > 0 {
        assert(debts[0].session_id != session_id);
        let rest = debts.drop_first();
        assert forall|i: int| 0 <= i < position - 1 implies (#[trigger] rest[i]).session_id
            != session_id by {
            assert(rest[i] == debts[i + 1]);
        }
        session_debt_index_finds_first(rest, session_id, position - 1);
    }
}

impl TranscriptionOrchestrator {
    pub(crate) fn record_audio_cleanup_debt(&mut self, debt: AudioCleanupDebt)
        ensures
            final(self)@ == (OrchestratorView {
                debts: with_debt(old(self)@.debts, debt),
                ..old(self)@
            }),
    {
        let mut i: usize = 0;
        while i < self.audio_cleanup_debts.len()
            invariant
                i <= self.audio_cleanup_debts.len(),
                *self == *old(self),
                forall|j: int|
                    0 <= j < i ==> !(#[trigger] self.audio_cleanup_debts@[j]).is_for(
                        debt.session_id,
                        debt.resource,
                    ),
            decreases self.audio_cleanup_debts.len() - i,
        {
            let existing = &self.audio_cleanup_debts[i];
            if existing.session_id == debt.session_id && existing.resource.same(&debt.resource) {
                proof {
                    debt_index_finds_first(
                        self.audio_cleanup_debts@,
                        debt.session_id,
                        debt.resource,
                        i as int,
                    );
                }
                self.audio_cleanup_debts.set(i, debt);
                return;
            }
            i = i + 1;
        }
        proof {
            debt_index_finds_first(
                self.audio_cleanup_debts@,
                debt.session_id,
                debt.resource,
                i as int,
            );
        }
        self.audio_cleanup_debts.push(debt);
    }

    pub(crate) fn clear_audio_cleanup_debt(
        &mut self,
        session_id: SessionId,
        resource: &AudioCleanupResource,
    )
        ensures
            final(self)@ == (OrchestratorView {
                debts: without_debt(old(self)@.debts, session_id, *resource),
                ..old(self)@
            }),
    {
        let mut kept: Vec<AudioCleanupDebt> = Vec::new();
        let mut i: usize = 0;
        let ghost debts = self.audio_cleanup_debts@;
        let ghost keeps = |debt: AudioCleanupDebt| !debt.is_for(session_id, *resource);
        proof {
            reveal(Seq::filter);
            assert(debts.take(0).filter(keeps) =~= Seq::empty());
        }
        while i < self.audio_cleanup_debts.len()
            invariant
                i <= self.audio_cleanup_debts.len(),
                *self == *old(self),
                debts == self.audio_cleanup_debts@,
                keeps == (|debt: AudioCleanupDebt| !debt.is_for(session_id, *resource)),
                kept@ == debts.take(i as int).filter(keeps),
            decreases self.audio_cleanup_debts.len() - i,
        {
            let debt = &self.audio_cleanup_debts[i];
            proof {
                reveal(Seq::filter);
                assert(debts.take(i + 1).drop_last() =~= debts.take(i as int));
                assert(debts.take(i + 1).last() == *debt);
            }
            if debt.session_id != session_id || !debt.resource.same(resource) {
                kept.push(debt.clone());
            }
            i = i + 1;
        }
        proof {
            assert(debts.take(debts.len() as int) =~= debts);
        }
        self.audio_cleanup_debts = kept;
    }

    pub(crate) fn first_audio_cleanup_debt(&self) -> (r: Option<AudioCleanupDebt>)
        ensures
            r == (if self@.debts.len() > 0 {
                Some(self@.debts[0])
            } else {
                None
            }),
    {
        if self.audio_cleanup_debts.len() > 0 {
            Some(self.audio_cleanup_debts[0].clone())
        } else {
            None
        }
    }

    /// All cleanups that are owed, in the order in which they failed.
    pub fn audio_cleanup_debts(&self) -> (r: Vec<AudioCleanupDebt>)
        ensures
            r@ == self@.debts,
    {
        let mut all: Vec<AudioCleanupDebt> = Vec::new();
        let mut i: usize = 0;
        while i < self.audio_cleanup_debts.len()
            invariant
                i <= self.audio_cleanup_debts.len(),
                all@ == self.audio_cleanup_debts@.take(i as int),
            decreases self.audio_cleanup_debts.len() - i,
        {
            all.push(self.audio_cleanup_debts[i].clone());
            proof {
                assert(self.audio_cleanup_debts@.take(i + 1) =~= self.audio_cleanup_debts@.take(
                    i as int,
                ).push(self.audio_cleanup_debts@[i as int]));
            }
            i = i + 1;
        }
        proof {
            assert(self.audio_cleanup_debts@.take(i as int) =~= self.audio_cleanup_debts@);
        }
        all
    }

    /// Takes the capture of a session over for cancellation, where that is due.
    pub(crate) fn select_cancellation(&mut self, session_id: SessionId) -> (r: (
        CaptureCancellationSelection,
        Option<RecordingDeadlineGuard>,
    ))
        ensures
            r.0 == old(self)@.cancellation(session_id),
            r.1 == old(self)@.cancelled_deadline(session_id),
            final(self)@ == old(self)@.cancelling(session_id),
    {
        let preparing_owned = match &self.preparing {
            Some(preparing) => preparing.session_id == session_id,
            None => false,
        };
        if preparing_owned {
            if let Some(preparing) = &mut self.preparing {
                match &preparing.stage {
                    PreparingStage::StartingAudio => {
                        return (
                            CaptureCancellationSelection::Immediate(CancelOutcome::NotRecording),
                            None,
                        );
                    },
                    PreparingStage::Capturing { capture } => {
                        let capture = capture.clone();
                        let deadline = preparing.recording_deadline.take();
                        preparing.stage = PreparingStage::Cancelling {
                            capture: capture.clone(),
                            in_flight: true,
                        };
                        return (
                            CaptureCancellationSelection::Capture {
                                capture,
                                target: CaptureCancellationTarget::Preparing,
                            },
                            deadline,
                        );
                    },
                    PreparingStage::Cancelling { capture, in_flight } => {
                        if *in_flight {
                            return (
                                CaptureCancellationSelection::Immediate(
                                    CancelOutcome::CleanupInProgress,
                                ),
                                None,
                            );
                        }
                        let capture = capture.clone();
                        preparing.stage = PreparingStage::Cancelling {
                            capture: capture.clone(),
                            in_flight: true,
                        };
                        return (
                            CaptureCancellationSelection::Capture {
                                capture,
                                target: CaptureCancellationTarget::Preparing,
                            },
                            None,
                        );
                    },
                }
            }
        }
        if self.is_active(session_id) {
            if let Some(active) = &mut self.active {
                match &active.stage {
                    RuntimeStage::Recording { capture } => {
                        let capture = capture.clone();
                        let completion = CaptureCleanupCompletion::Cancelled;
                        let deadline = active.recording_deadline.take();
                        active.stage = RuntimeStage::Cancelling {
                            capture: capture.clone(),
                            completion,
                            in_flight: true,
                        };
                        return (
                            CaptureCancellationSelection::Capture {
                                capture,
                                target: CaptureCancellationTarget::Active(completion),
                            },
                            deadline,
                        );
                    },
                    RuntimeStage::Cancelling { capture, completion, in_flight } => {
                        if *in_flight {
                            return (
                                CaptureCancellationSelection::Immediate(
                                    CancelOutcome::CleanupInProgress,
                                ),
                                None,
                            );
                        }
                        let capture = capture.clone();
                        let completion = *completion;
                        active.stage = RuntimeStage::Cancelling {
                            capture: capture.clone(),
                            completion,
                            in_flight: true,
                        };
                        return (
                            CaptureCancellationSelection::Capture {
                                capture,
                                target: CaptureCancellationTarget::Active(completion),
                            },
                            None,
                        );
                    },
                    _ => {
                        return (
                            CaptureCancellationSelection::Immediate(CancelOutcome::NotRecording),
                            None,
                        );
                    },
                }
            }
        }
        (CaptureCancellationSelection::Immediate(CancelOutcome::NotFound), None)
    }

    /// Takes the recording of a session over for finalization.
    pub(crate) fn select_finish(&mut self, session_id: SessionId) -> (r: Option<
        (AudioCaptureRef, Option<RecordingDeadlineGuard>),
    >)
        ensures
            if old(self)@.records(session_id) {
                &&& r == Some(
                    (
                        old(self)@.active->0.stage->Recording_capture,
                        old(self)@.active->0.recording_deadline,
                    ),
                )
                &&& final(self)@ == old(self)@.finishing()
            } else {
                &&& r is None
                &&& final(self)@ == old(self)@
            },
    {
        match &mut self.active {
            Some(active) => {
                if active.session_id != session_id {
                    return None;
                }
                let capture = match &active.stage {
                    RuntimeStage::Recording { capture } => capture.clone(),
                    _ => {
                        return None;
                    },
                };
                let deadline = active.recording_deadline.take();
                active.stage = RuntimeStage::FinishingAudio { capture: capture.clone() };
                Some((capture, deadline))
            },
            None => None,
        }
    }

    fn session_debt(&self, session_id: SessionId) -> (r: Option<AudioCleanupResource>)
        ensures
            r == ({
                let index = session_debt_index(self@.debts, session_id);
                if index < self@.debts.len() {
                    Some(self@.debts[index as int].resource)
                } else {
                    None
                }
            }),
    {
        let mut i: usize = 0;
        while i < self.audio_cleanup_debts.len()
            invariant
                i <= self.audio_cleanup_debts.len(),
                forall|j: int|
                    0 <= j < i ==> (#[trigger] self.audio_cleanup_debts@[j]).session_id
                        != session_id,
            decreases self.audio_cleanup_debts.len() - i,
        {
            if self.audio_cleanup_debts[i].session_id == session_id {
                proof {
                    session_debt_index_finds_first(
                        self.audio_cleanup_debts@,
                        session_id,
                        i as int,
                    );
                }
                return Some(self.audio_cleanup_debts[i].resource.clone());
            }
            i = i + 1;
        }
        proof {
            session_debt_index_finds_first(self.audio_cleanup_debts@, session_id, i as int);
        }
        None
    }

    /// Takes an owed cleanup of a session over for another try, where that is due.
    pub(crate) fn select_retry(&mut self, session_id: SessionId) -> (r: RetrySelection)
        ensures
            r == old(self)@.retry(session_id),
            final(self)@ == old(self)@.retrying(session_id),
    {
        let resource = match self.session_debt(session_id) {
            Some(resource) => resource,
            None => {
                return RetrySelection::Immediate(AudioCleanupOutcome::NotPending);
            },
        };
        let preparing_owned = match &self.preparing {
            Some(preparing) => preparing.session_id == session_id,
            None => false,
        };
        if preparing_owned {
            if let Some(preparing) = &mut self.preparing {
                match &mut preparing.stage {
                    PreparingStage::Cancelling { in_flight, .. } => {
                        if *in_flight {
                            return RetrySelection::Immediate(AudioCleanupOutcome::InProgress);
                        }
                        *in_flight = true;
                    },
                    _ => {
                        return RetrySelection::Immediate(AudioCleanupOutcome::NotPending);
                    },
                }
            }
            return RetrySelection::Resource(resource);
        }
        if self.is_active(session_id) {
            if let Some(active) = &mut self.active {
                match &mut active.stage {
                    RuntimeStage::Cancelling { in_flight, .. } => {
                        if *in_flight {
                            return RetrySelection::Immediate(AudioCleanupOutcome::InProgress);
                        }
                        *in_flight = true;
                    },
                    RuntimeStage::CleaningAudio { in_flight, .. } => {
                        if *in_flight {
                            return RetrySelection::Immediate(AudioCleanupOutcome::InProgress);
                        }
                        *in_flight = true;
                    },
                    _ => {
                        return RetrySelection::Immediate(AudioCleanupOutcome::NotPending);
                    },
                }
            }
            return RetrySelection::Resource(resource);
        }
        RetrySelection::Immediate(AudioCleanupOutcome::NotPending)
    }

    pub(crate) fn retry_completion(&self, session_id: SessionId) -> (r: Option<
        AudioCleanupCompletion,
    >)
        ensures
            r == self@.completion(session_id),
    {
        if let Some(preparing) = &self.preparing {
            if preparing.session_id == session_id && matches!(
                preparing.stage,
                PreparingStage::Cancelling { .. }
            ) {
                return Some(AudioCleanupCompletion::Preparing);
            }
        }
        match &self.active {
            Some(active) => {
                if active.session_id != session_id {
                    return None;
                }
                match &active.stage {
                    RuntimeStage::Cancelling { completion, .. } => Some(
                        AudioCleanupCompletion::Capture(*completion),
                    ),
                    RuntimeStage::CleaningAudio { .. } => Some(AudioCleanupCompletion::FailAudio),
                    _ => None,
                }
            },
            None => None,
        }
    }

    /// Notes that the recording limit of a session has passed. The answer tells
    /// whether its recording is to be finished now.
    pub fn mark_recording_limit(&mut self, session_id: SessionId) -> (should_finish: bool)
        ensures
            final(self)@ == old(self)@.limit_marked(session_id),
            should_finish == (!old(self)@.prepares(session_id) && old(self)@.records(session_id)),
    {
        if let Some(preparing) = &mut self.preparing {
            if preparing.session_id == session_id {
                preparing.recording_limit_elapsed = true;
                return false;
            }
        }
        match &self.active {
            Some(active) => active.session_id == session_id && matches!(
                active.stage,
                RuntimeStage::Recording { .. }
            ),
            None => false,
        }
    }

    /// Takes everything that runs, and turns the application to quitting.
    pub(crate) fn take_for_quit(&mut self) -> (r: (
        Option<SessionId>,
        Option<PreparingWorkflow>,
        Option<ActiveWorkflow>,
    ))
        ensures
            r == (old(self)@.starting, old(self)@.preparing, old(self)@.active),
            final(self)@ == old(self)@.emptied(),
    {
        self.quitting = true;
        (self.starting.take(), self.preparing.take(), self.active.take())
    }

    /// Puts back what a failed exit had taken.
    pub(crate) fn restore(
        &mut self,
        preparing: Option<PreparingWorkflow>,
        active: Option<ActiveWorkflow>,
    )
        ensures
            final(self)@ == old(self)@.restored(preparing, active),
    {
        if self.preparing.is_none() {
            self.preparing = preparing;
        }
        if self.active.is_none() {
            self.active = active;
        }
    }

    /// Joins the running exit, or begins one.
    pub(crate) fn begin_exit(&mut self) -> (r: crate::orchestrator::exit::ExitRole)
        ensures
            r == old(self)@.exit.role(),
            final(self)@ == (OrchestratorView { exit: old(self)@.exit.begun(), ..old(self)@ }),
    {
        self.exit.begin()
    }

    /// Ends an attempt to quit.
    pub fn complete_exit(&mut self, attempt: u64, result: &Result<QuitOutcome, OrchestratorError>)
        ensures
            final(self)@ == (OrchestratorView {
                exit: old(self)@.exit.ended(attempt, *result),
                ..old(self)@
            }),
    {
        self.exit.complete(attempt, result);
    }
}

} // verus!
