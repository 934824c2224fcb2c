//! Cancelling a recording, and closing the capture that it owns.

use crate::domain::{FailureCategory, SessionEvent, SessionId, TerminalOutcome};
use crate::orchestrator::closing::{
    closing_begin, closing_step, failure_after, failure_effects, failure_start, Closing,
    ClosingMove, FailureStart,
};
use crate::orchestrator::protocol::{
    acted, note_failure, note_result, noted, stop_deadline, stopping, Command,
    Effect, Entered, Move, Next, Progress, Reply,
};
use crate::orchestrator::state::{
    with_debt, without_debt, AudioCleanupDebt, AudioCleanupResource, CancelOutcome,
    CaptureCancellationSelection, CaptureCancellationTarget, CaptureCleanupCompletion,
    OrchestratorError, OrchestratorView, RuntimeStage, TranscriptionOrchestrator,
};
use crate::ports::{AudioCaptureRef, AudioRef, PortError, RecordingCue};
use vstd::prelude::*;

verus! {

/// How far a cancellation has come.
#[derive(PartialEq, Eq)]
pub enum CancelStep {
    ClosingCapture { capture: AudioCaptureRef, target: CaptureCancellationTarget },
    PlayingCue { target: CaptureCancellationTarget },
    HidingPreparation,
    ClosingSession { closing: Closing, outcome: CancelOutcome },
}

/// A cancellation under way.
#[derive(PartialEq, Eq)]
pub struct CancelFlow {
    pub session_id: SessionId,
    pub step: CancelStep,
}

pub type CancelResult = Result<CancelOutcome, OrchestratorError>;

/// The debt that a failed attempt to close a capture leaves.
pub open spec fn capture_debt(
    session_id: SessionId,
    capture: AudioCaptureRef,
    error: PortError,
) -> AudioCleanupDebt {
    AudioCleanupDebt {
        session_id,
        phase: "audio_cancel",
        resource: AudioCleanupResource::Capture(capture),
        error,
    }
}

/// The debt that a failed attempt to remove finalized audio leaves.
pub open spec fn artifact_debt(
    session_id: SessionId,
    audio_ref: AudioRef,
    error: PortError,
) -> AudioCleanupDebt {
    AudioCleanupDebt {
        session_id,
        phase: "audio_cleanup",
        resource: AudioCleanupResource::Finalized(audio_ref),
        error,
    }
}

/// The shared state after an attempt to close a capture: the debt for it is
/// settled, or made.
pub open spec fn capture_settled(
    o: OrchestratorView,
    session_id: SessionId,
    capture: AudioCaptureRef,
    result: Result<(), PortError>,
) -> OrchestratorView {
    OrchestratorView {
        debts: match result {
            Ok(_) => without_debt(o.debts, session_id, AudioCleanupResource::Capture(capture)),
            Err(error) => with_debt(o.debts, capture_debt(session_id, capture, error)),
        },
        ..o
    }
}

/// The shared state after an attempt to remove finalized audio: the debt for it
/// is settled, or made.
pub open spec fn artifact_settled(
    o: OrchestratorView,
    session_id: SessionId,
    audio_ref: AudioRef,
    result: Result<(), PortError>,
) -> OrchestratorView {
    OrchestratorView {
        debts: match result {
            Ok(_) => without_debt(o.debts, session_id, AudioCleanupResource::Finalized(audio_ref)),
            Err(error) => with_debt(o.debts, artifact_debt(session_id, audio_ref, error)),
        },
        ..o
    }
}

/// What an attempt to clean up comes to: a failure is an error of its own.
pub open spec fn settlement(
    session_id: SessionId,
    phase: &'static str,
    result: Result<(), PortError>,
) -> Result<(), OrchestratorError> {
    match result {
        Ok(_) => Ok(()),
        Err(source) => Err(OrchestratorError::AudioCleanupFailed { session_id, phase, source }),
    }
}

/// An end of the session that leads to an outcome of the cancellation.
pub open spec fn cancel_closing(
    session_id: SessionId,
    step: ClosingMove,
    outcome: CancelOutcome,
) -> Move<CancelFlow, CancelResult> {
    Move {
        after: step.after,
        effects: step.effects,
        next: match step.next {
            Some((closing, command)) => Next::Await {
                flow: CancelFlow {
                    session_id,
                    step: CancelStep::ClosingSession { closing, outcome },
                },
                command,
            },
            None => Next::Done(Ok(outcome)),
        },
    }
}

/// The cue comes only once the capture is closed. Where closing it failed, the
/// session keeps its place and the cancellation can be asked for again.
pub open spec fn cancel_after_capture(
    o: OrchestratorView,
    session_id: SessionId,
    capture: AudioCaptureRef,
    target: CaptureCancellationTarget,
    result: Result<(), PortError>,
) -> Move<CancelFlow, CancelResult> {
    let after = capture_settled(o, session_id, capture, result);
    match settlement(session_id, "audio_cancel", result) {
        Err(error) => Move {
            after: after.with_cleanup_in_flight(session_id, false),
            effects: noted(session_id, "audio_cancel", result),
            next: Next::Done(Err(error)),
        },
        Ok(_) => Move {
            after,
            effects: Seq::empty(),
            next: Next::Await {
                flow: CancelFlow { session_id, step: CancelStep::PlayingCue { target } },
                command: Command::PlayCue(RecordingCue::Cancel),
            },
        },
    }
}

/// A closed capture ends the preparation or the session that owned it. A preparation
/// that its start gave up takes its session out of the single slot with it; one whose
/// start is still under way leaves the slot to that start.
pub open spec fn cancel_after_cue(
    o: OrchestratorView,
    session_id: SessionId,
    target: CaptureCancellationTarget,
) -> Move<CancelFlow, CancelResult> {
    match target {
        CaptureCancellationTarget::Preparing => Move {
            after: o.dropped(session_id),
            effects: o.unpreparing(session_id),
            next: Next::Await {
                flow: CancelFlow { session_id, step: CancelStep::HidingPreparation },
                command: Command::HideHud(session_id),
            },
        },
        CaptureCancellationTarget::Active(completion) => {
            if !(o.current(session_id) && o.active->0.stage is Cancelling) {
                Move {
                    after: o,
                    effects: Seq::empty(),
                    next: Next::Done(Ok(CancelOutcome::Cancelled)),
                }
            } else {
                match completion {
                    CaptureCleanupCompletion::Cancelled => {
                        let after = o.advanced(session_id, SessionEvent::CancelRecording);
                        match o.advancing(session_id, SessionEvent::CancelRecording) {
                            Err(error) => Move {
                                after,
                                effects: Seq::empty(),
                                next: Next::Done(Err(error)),
                            },
                            Ok(false) => Move {
                                after,
                                effects: Seq::empty(),
                                next: Next::Done(Ok(CancelOutcome::Cancelled)),
                            },
                            Ok(true) => cancel_closing(
                                session_id,
                                closing_begin(
                                    after,
                                    session_id,
                                    Some(TerminalOutcome::Cancelled),
                                    None,
                                ),
                                CancelOutcome::Cancelled,
                            ),
                        }
                    },
                    CaptureCleanupCompletion::FailAudio => {
                        let after = failure_after(o, session_id, FailureCategory::Audio);
                        let effects = failure_effects(o, session_id, FailureCategory::Audio);
                        match failure_start(o, session_id, FailureCategory::Audio) {
                            FailureStart::NotCurrent => Move {
                                after,
                                effects,
                                next: Next::Done(Ok(CancelOutcome::Cancelled)),
                            },
                            FailureStart::Refused(error) => Move {
                                after,
                                effects,
                                next: Next::Done(Err(error)),
                            },
                            FailureStart::Closing(next) => cancel_closing(
                                session_id,
                                ClosingMove { after, effects, next },
                                CancelOutcome::CleanupRecovered,
                            ),
                        }
                    },
                }
            }
        },
    }
}

/// The whole cancellation, one answer at a time.
pub open spec fn cancel_step(o: OrchestratorView, flow: CancelFlow, reply: Reply) -> Move<
    CancelFlow,
    CancelResult,
> {
    let session_id = flow.session_id;
    let result = reply->Acted_0;
    match flow.step {
        CancelStep::ClosingCapture { capture, target } => cancel_after_capture(
            o,
            session_id,
            capture,
            target,
            result,
        ),
        CancelStep::PlayingCue { target } => cancel_after_cue(o, session_id, target).following(
            noted(session_id, "recording_cue", result),
        ),
        CancelStep::HidingPreparation => Move {
            after: o,
            effects: noted(session_id, "recording_hud_hide", result),
            next: Next::Done(Ok(CancelOutcome::Cancelled)),
        },
        CancelStep::ClosingSession { closing, outcome } => cancel_closing(
            session_id,
            closing_step(o, closing, result),
            outcome,
        ),
    }
}

/// How a cancellation begins. Once shutdown has begun there is nothing to cancel.
pub open spec fn cancel_begin(o: OrchestratorView, session_id: SessionId) -> Move<
    CancelFlow,
    CancelResult,
> {
    if !o.operations.open {
        Move {
            after: o,
            effects: Seq::empty(),
            next: Next::Done(Ok(CancelOutcome::NotFound)),
        }
    } else {
        let entered = OrchestratorView { operations: o.operations.entered(), ..o };
        Move {
            after: entered.cancelling(session_id),
            effects: stopping(o.cancelled_deadline(session_id)),
            next: match o.cancellation(session_id) {
                CaptureCancellationSelection::Immediate(outcome) => Next::Done(Ok(outcome)),
                CaptureCancellationSelection::Capture { capture, target } => Next::Await {
                    flow: CancelFlow {
                        session_id,
                        step: CancelStep::ClosingCapture { capture, target },
                    },
                    command: Command::CancelCapture(capture),
                },
            },
        }
    }
}

impl TranscriptionOrchestrator {
    /// Takes in the outcome of closing a capture.
    pub(crate) fn settle_capture(
        &mut self,
        session_id: SessionId,
        capture: AudioCaptureRef,
        result: Result<(), PortError>,
        effects: &mut Vec<Effect>,
    ) -> (r: Result<(), OrchestratorError>)
        ensures
            r == settlement(session_id, "audio_cancel", result),
            final(self)@ == capture_settled(old(self)@, session_id, capture, result),
            final(effects)@ == old(effects)@ + noted(session_id, "audio_cancel", result),
    {
        match result {
            Ok(_) => {
                self.clear_audio_cleanup_debt(
                    session_id,
                    &AudioCleanupResource::Capture(capture),
                );
                Ok(())
            },
            Err(error) => {
                note_failure(effects, session_id, "audio_cancel", &error);
                let debt = AudioCleanupDebt {
                    session_id,
                    phase: "audio_cancel",
                    resource: AudioCleanupResource::Capture(capture),
                    error,
                };
                let told = debt.orchestrator_error();
                self.record_audio_cleanup_debt(debt);
                Err(told)
            },
        }
    }

    /// Takes in the outcome of removing finalized audio.
    pub(crate) fn settle_artifact(
        &mut self,
        session_id: SessionId,
        audio_ref: AudioRef,
        result: Result<(), PortError>,
        effects: &mut Vec<Effect>,
    ) -> (r: Result<(), OrchestratorError>)
        ensures
            r == settlement(session_id, "audio_cleanup", result),
            final(self)@ == artifact_settled(old(self)@, session_id, audio_ref, result),
            final(effects)@ == old(effects)@ + noted(session_id, "audio_cleanup", result),
    {
        match result {
            Ok(_) => {
                self.clear_audio_cleanup_debt(
                    session_id,
                    &AudioCleanupResource::Finalized(audio_ref),
                );
                Ok(())
            },
            Err(error) => {
                note_failure(effects, session_id, "audio_cleanup", &error);
                let debt = AudioCleanupDebt {
                    session_id,
                    phase: "audio_cleanup",
                    resource: AudioCleanupResource::Finalized(audio_ref),
                    error,
                };
                let told = debt.orchestrator_error();
                self.record_audio_cleanup_debt(debt);
                Err(told)
            },
        }
    }

    fn cancel_end(
        &mut self,
        session_id: SessionId,
        next: Option<(Closing, Command)>,
        outcome: CancelOutcome,
        effects: Vec<Effect>,
    ) -> (r: Progress<CancelFlow, CancelResult>)
        ensures
            r.effects@ == effects@,
            r.next == cancel_closing(
                session_id,
                ClosingMove { after: old(self)@, effects: effects@, next },
                outcome,
            ).next,
            final(self)@ == old(self)@,
    {
        Progress {
            effects,
            next: match next {
                Some((closing, command)) => Next::Await {
                    flow: CancelFlow {
                        session_id,
                        step: CancelStep::ClosingSession { closing, outcome },
                    },
                    command,
                },
                None => Next::Done(Ok(outcome)),
            },
        }
    }

    fn cancel_closed_capture(
        &mut self,
        session_id: SessionId,
        target: CaptureCancellationTarget,
        noted_so_far: Vec<Effect>,
    ) -> (r: Progress<CancelFlow, CancelResult>)
        ensures
            r.shows(cancel_after_cue(old(self)@, session_id, target).following(noted_so_far@)),
            final(self)@ == cancel_after_cue(old(self)@, session_id, target).after,
    {
        let mut effects = noted_so_far;
        match target {
            CaptureCancellationTarget::Preparing => {
                self.drop_preparing_if_current(session_id, &mut effects);
                Progress {
                    effects,
                    next: Next::Await {
                        flow: CancelFlow { session_id, step: CancelStep::HidingPreparation },
                        command: Command::HideHud(session_id),
                    },
                }
            },
            CaptureCancellationTarget::Active(completion) => {
                let cancelling = match self.current_stage(session_id) {
                    Some(RuntimeStage::Cancelling { .. }) => true,
                    _ => false,
                };
                if !cancelling {
                    return Progress { effects, next: Next::Done(Ok(CancelOutcome::Cancelled)) };
                }
                match completion {
                    CaptureCleanupCompletion::Cancelled => {
                        match self.apply_if_current(session_id, SessionEvent::CancelRecording) {
                            Err(error) => Progress { effects, next: Next::Done(Err(error)) },
                            Ok(false) => Progress {
                                effects,
                                next: Next::Done(Ok(CancelOutcome::Cancelled)),
                            },
                            Ok(true) => {
                                let next = self.begin_closing(
                                    session_id,
                                    Some(TerminalOutcome::Cancelled),
                                    None,
                                    &mut effects,
                                );
                                self.cancel_end(session_id, next, CancelOutcome::Cancelled, effects)
                            },
                        }
                    },
                    CaptureCleanupCompletion::FailAudio => {
                        match self.begin_failure(session_id, FailureCategory::Audio, &mut effects) {
                            FailureStart::NotCurrent => Progress {
                                effects,
                                next: Next::Done(Ok(CancelOutcome::Cancelled)),
                            },
                            FailureStart::Refused(error) => Progress {
                                effects,
                                next: Next::Done(Err(error)),
                            },
                            FailureStart::Closing(next) => self.cancel_end(
                                session_id,
                                next,
                                CancelOutcome::CleanupRecovered,
                                effects,
                            ),
                        }
                    },
                }
            },
        }
    }

    /// Cancels a session that has not been finished.
    pub fn cancel_recording(&mut self, session_id: SessionId) -> (r: Entered<
        CancelFlow,
        CancelResult,
    >)
        requires
            old(self)@.operations.in_flight < usize::MAX,
        ensures
            r.guard is Some <==> old(self)@.operations.open,
            r.progress.shows(cancel_begin(old(self)@, session_id)),
            final(self)@ == cancel_begin(old(self)@, session_id).after,
    {
        let guard = self.enter_operation();
        let mut effects: Vec<Effect> = Vec::new();
        if guard.is_none() {
            return Entered {
                guard,
                progress: Progress { effects, next: Next::Done(Ok(CancelOutcome::NotFound)) },
            };
        }
        let (selection, deadline) = self.select_cancellation(session_id);
        stop_deadline(&mut effects, deadline);
        let next = match selection {
            CaptureCancellationSelection::Immediate(outcome) => Next::Done(Ok(outcome)),
            CaptureCancellationSelection::Capture { capture, target } => {
                let command = Command::CancelCapture(capture.clone());
                Next::Await {
                    flow: CancelFlow {
                        session_id,
                        step: CancelStep::ClosingCapture { capture, target },
                    },
                    command,
                }
            },
        };
        Entered { guard, progress: Progress { effects, next } }
    }

    /// Goes on with a cancellation.
    pub fn resume_cancel(&mut self, flow: CancelFlow, reply: Reply) -> (r: Progress<
        CancelFlow,
        CancelResult,
    >)
        requires
            reply is Acted,
        ensures
            r.shows(cancel_step(old(self)@, flow, reply)),
            final(self)@ == cancel_step(old(self)@, flow, reply).after,
    {
        let result = acted(reply);
        let session_id = flow.session_id;
        let mut effects: Vec<Effect> = Vec::new();
        match flow.step {
            CancelStep::ClosingCapture { capture, target } => {
                match self.settle_capture(session_id, capture, result, &mut effects) {
                    Err(error) => {
                        self.set_audio_cleanup_in_flight_if_current(session_id, false);
                        Progress { effects, next: Next::Done(Err(error)) }
                    },
                    Ok(_) => Progress {
                        effects,
                        next: Next::Await {
                            flow: CancelFlow { session_id, step: CancelStep::PlayingCue { target } },
                            command: Command::PlayCue(RecordingCue::Cancel),
                        },
                    },
                }
            },
            CancelStep::PlayingCue { target } => {
                note_result(&mut effects, session_id, "recording_cue", &result);
                self.cancel_closed_capture(session_id, target, effects)
            },
            CancelStep::HidingPreparation => {
                note_result(&mut effects, session_id, "recording_hud_hide", &result);
                Progress { effects, next: Next::Done(Ok(CancelOutcome::Cancelled)) }
            },
            CancelStep::ClosingSession { closing, outcome } => {
                let next = self.continue_closing(closing, result, &mut effects);
                self.cancel_end(session_id, next, outcome, effects)
            },
        }
    }
}

} // verus!
