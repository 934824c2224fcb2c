//! Trying an owed audio cleanup again. Success ends the session that kept its
//! place for it, without recognising or delivering anything.

use crate::domain::{FailureCategory, SessionEvent, SessionId, TerminalOutcome};
use crate::orchestrator::cancel::{artifact_settled, capture_settled, settlement};
use crate::orchestrator::closing::{
    closing_begin, closing_step, failure_after, failure_effects, failure_start, Closing,
    ClosingMove, FailureStart,
};
use crate::orchestrator::protocol::{
    acted, note_result, noted, Command, Effect, Entered, Move, Next, Progress, Reply,
};
use crate::orchestrator::state::{
    AudioCleanupCompletion, AudioCleanupOutcome, AudioCleanupResource, CaptureCleanupCompletion,
    OrchestratorError, OrchestratorView, RetrySelection, TranscriptionOrchestrator,
};
use crate::ports::PortError;
use vstd::prelude::*;

verus! {

/// How far a retry has come.
#[derive(PartialEq, Eq)]
pub enum RetryStep {
    CleaningUp { resource: AudioCleanupResource },
    HidingPreparation,
    ClosingSession { closing: Closing },
}

/// A retry under way.
#[derive(PartialEq, Eq)]
pub struct RetryFlow {
    pub session_id: SessionId,
    pub step: RetryStep,
}

pub type RetryResult = Result<AudioCleanupOutcome, OrchestratorError>;

pub type RetryMove = Move<RetryFlow, RetryResult>;

/// The command that cleans up a piece of audio.
pub open spec fn cleanup_command(resource: AudioCleanupResource) -> Command {
    match resource {
        AudioCleanupResource::Capture(capture) => Command::CancelCapture(capture),
        AudioCleanupResource::Finalized(audio_ref) => Command::CleanupAudio(audio_ref),
    }
}

/// The phase that a cleanup is recorded under.
pub open spec fn cleanup_phase(resource: AudioCleanupResource) -> &'static str {
    match resource {
        AudioCleanupResource::Capture(_) => "audio_cancel",
        AudioCleanupResource::Finalized(_) => "audio_cleanup",
    }
}

/// The shared state after an attempt to clean up.
pub open spec fn resource_settled(
    o: OrchestratorView,
    session_id: SessionId,
    resource: AudioCleanupResource,
    result: Result<(), PortError>,
) -> OrchestratorView {
    match resource {
        AudioCleanupResource::Capture(capture) => capture_settled(o, session_id, capture, result),
        AudioCleanupResource::Finalized(audio_ref) => artifact_settled(
            o,
            session_id,
            audio_ref,
            result,
        ),
    }
}

pub open spec fn retry_end(o: OrchestratorView, result: RetryResult) -> RetryMove {
    Move { after: o, effects: Seq::empty(), next: Next::Done(result) }
}

/// An end of the session, after which the cleanup has been made good.
pub open spec fn retry_closing(session_id: SessionId, step: ClosingMove) -> RetryMove {
    Move {
        after: step.after,
        effects: step.effects,
        next: match step.next {
            Some((closing, command)) => Next::Await {
                flow: RetryFlow { session_id, step: RetryStep::ClosingSession { closing } },
                command,
            },
            None => Next::Done(Ok(AudioCleanupOutcome::Recovered)),
        },
    }
}

pub open spec fn retry_begin(o: OrchestratorView, session_id: SessionId) -> RetryMove {
    if !o.operations.open {
        retry_end(o, Ok(AudioCleanupOutcome::Quitting))
    } else {
        let entered = OrchestratorView { operations: o.operations.entered(), ..o };
        Move {
            after: entered.retrying(session_id),
            effects: Seq::empty(),
            next: match o.retry(session_id) {
                RetrySelection::Immediate(outcome) => Next::Done(Ok(outcome)),
                RetrySelection::Resource(resource) => Next::Await {
                    flow: RetryFlow { session_id, step: RetryStep::CleaningUp { resource } },
                    command: cleanup_command(resource),
                },
            },
        }
    }
}

/// What a cleanup that has been made good completes. A preparation that its start gave
/// up takes its session out of the single slot with it.
pub open spec fn retry_completing(o: OrchestratorView, session_id: SessionId) -> RetryMove {
    match o.completion(session_id) {
        Some(AudioCleanupCompletion::Preparing) => Move {
            after: o.dropped(session_id),
            effects: o.unpreparing(session_id),
            next: Next::Await {
                flow: RetryFlow { session_id, step: RetryStep::HidingPreparation },
                command: Command::HideHud(session_id),
            },
        },
        Some(AudioCleanupCompletion::Capture(CaptureCleanupCompletion::Cancelled)) => {
            let after = o.advanced(session_id, SessionEvent::CancelRecording);
            match o.advancing(session_id, SessionEvent::CancelRecording) {
                Err(error) => retry_end(after, Err(error)),
                Ok(false) => retry_end(after, Ok(AudioCleanupOutcome::Recovered)),
                Ok(true) => retry_closing(
                    session_id,
                    closing_begin(after, session_id, Some(TerminalOutcome::Cancelled), None),
                ),
            }
        },
        Some(
            AudioCleanupCompletion::Capture(CaptureCleanupCompletion::FailAudio)
            | AudioCleanupCompletion::FailAudio,
        ) => {
            let after = failure_after(o, session_id, FailureCategory::Audio);
            let effects = failure_effects(o, session_id, FailureCategory::Audio);
            match failure_start(o, session_id, FailureCategory::Audio) {
                FailureStart::NotCurrent => Move {
                    after,
                    effects,
                    next: Next::Done(Ok(AudioCleanupOutcome::Recovered)),
                },
                FailureStart::Refused(error) => Move {
                    after,
                    effects,
                    next: Next::Done(Err(error)),
                },
                FailureStart::Closing(next) => retry_closing(
                    session_id,
                    ClosingMove { after, effects, next },
                ),
            }
        },
        None => retry_end(o, Ok(AudioCleanupOutcome::Recovered)),
    }
}

/// A cleanup that failed again keeps the session's place.
pub open spec fn retry_on_cleaned(
    o: OrchestratorView,
    session_id: SessionId,
    resource: AudioCleanupResource,
    result: Result<(), PortError>,
) -> RetryMove {
    let after = resource_settled(o, session_id, resource, result);
    (match settlement(session_id, cleanup_phase(resource), result) {
        Err(error) => retry_end(after.with_cleanup_in_flight(session_id, false), Err(error)),
        Ok(_) => retry_completing(after, session_id),
    }).following(noted(session_id, cleanup_phase(resource), result))
}

/// The whole retry, one answer at a time.
pub open spec fn retry_step(o: OrchestratorView, flow: RetryFlow, reply: Reply) -> RetryMove {
    let session_id = flow.session_id;
    match flow.step {
        RetryStep::CleaningUp { resource } => retry_on_cleaned(
            o,
            session_id,
            resource,
            reply->Acted_0,
        ),
        RetryStep::HidingPreparation => retry_end(
            o,
            Ok(AudioCleanupOutcome::Recovered),
        ).following(noted(session_id, "recording_hud_hide", reply->Acted_0)),
        RetryStep::ClosingSession { closing } => retry_closing(
            session_id,
            closing_step(o, closing, reply->Acted_0),
        ),
    }
}

/// The command that cleans up a piece of audio.
pub(crate) fn command_for_cleanup(resource: &AudioCleanupResource) -> (r: Command)
    ensures
        r == cleanup_command(*resource),
{
    match resource {
        AudioCleanupResource::Capture(capture) => Command::CancelCapture(capture.clone()),
        AudioCleanupResource::Finalized(audio_ref) => Command::CleanupAudio(audio_ref.clone()),
    }
}

impl TranscriptionOrchestrator {
    /// Takes in the outcome of cleaning up a piece of audio.
    pub(crate) fn settle_resource(
        &mut self,
        session_id: SessionId,
        resource: AudioCleanupResource,
        result: Result<(), PortError>,
        effects: &mut Vec<Effect>,
    ) -> (r: Result<(), OrchestratorError>)
        ensures
            r == settlement(session_id, cleanup_phase(resource), result),
            final(self)@ == resource_settled(old(self)@, session_id, resource, result),
            final(effects)@ == old(effects)@ + noted(
                session_id,
                cleanup_phase(resource),
                result,
            ),
    {
        match resource {
            AudioCleanupResource::Capture(capture) => self.settle_capture(
                session_id,
                capture,
                result,
                effects,
            ),
            AudioCleanupResource::Finalized(audio_ref) => self.settle_artifact(
                session_id,
                audio_ref,
                result,
                effects,
            ),
        }
    }

    fn retry_end_session(&self, session_id: SessionId, next: Option<(Closing, Command)>) -> (r:
        Next<RetryFlow, RetryResult>)
        ensures
            r == retry_closing(
                session_id,
                ClosingMove { after: self@, effects: Seq::empty(), next },
            ).next,
    {
        match next {
            Some((closing, command)) => Next::Await {
                flow: RetryFlow { session_id, step: RetryStep::ClosingSession { closing } },
                command,
            },
            None => Next::Done(Ok(AudioCleanupOutcome::Recovered)),
        }
    }

    fn complete_retry(&mut self, session_id: SessionId, effects: &mut Vec<Effect>) -> (next: Next<
        RetryFlow,
        RetryResult,
    >)
        ensures
            next == retry_completing(old(self)@, session_id).next,
            final(self)@ == retry_completing(old(self)@, session_id).after,
            final(effects)@ == old(effects)@ + retry_completing(old(self)@, session_id).effects,
    {
        match self.retry_completion(session_id) {
            Some(AudioCleanupCompletion::Preparing) => {
                self.drop_preparing_if_current(session_id, effects);
                Next::Await {
                    flow: RetryFlow { session_id, step: RetryStep::HidingPreparation },
                    command: Command::HideHud(session_id),
                }
            },
            Some(AudioCleanupCompletion::Capture(CaptureCleanupCompletion::Cancelled)) => {
                match self.apply_if_current(session_id, SessionEvent::CancelRecording) {
                    Err(error) => Next::Done(Err(error)),
                    Ok(false) => Next::Done(Ok(AudioCleanupOutcome::Recovered)),
                    Ok(true) => {
                        let next = self.begin_closing(
                            session_id,
                            Some(TerminalOutcome::Cancelled),
                            None,
                            effects,
                        );
                        self.retry_end_session(session_id, next)
                    },
                }
            },
            Some(
                AudioCleanupCompletion::Capture(CaptureCleanupCompletion::FailAudio)
                | AudioCleanupCompletion::FailAudio,
            ) => match self.begin_failure(session_id, FailureCategory::Audio, effects) {
                FailureStart::NotCurrent => Next::Done(Ok(AudioCleanupOutcome::Recovered)),
                FailureStart::Refused(error) => Next::Done(Err(error)),
                FailureStart::Closing(next) => self.retry_end_session(session_id, next),
            },
            None => Next::Done(Ok(AudioCleanupOutcome::Recovered)),
        }
    }

    /// Tries an owed cleanup of a session again.
    pub fn retry_audio_cleanup(&mut self, session_id: SessionId) -> (r: Entered<
        RetryFlow,
        RetryResult,
    >)
        requires
            old(self)@.operations.in_flight < usize::MAX,
        ensures
            r.guard is Some <==> old(self)@.operations.open,
            r.progress.shows(retry_begin(old(self)@, session_id)),
            final(self)@ == retry_begin(old(self)@, session_id).after,
    {
        let guard = self.enter_operation();
        let effects: Vec<Effect> = Vec::new();
        if guard.is_none() {
            return Entered {
                guard,
                progress: Progress {
                    effects,
                    next: Next::Done(Ok(AudioCleanupOutcome::Quitting)),
                },
            };
        }
        let next = match self.select_retry(session_id) {
            RetrySelection::Immediate(outcome) => Next::Done(Ok(outcome)),
            RetrySelection::Resource(resource) => {
                let command = command_for_cleanup(&resource);
                Next::Await {
                    flow: RetryFlow { session_id, step: RetryStep::CleaningUp { resource } },
                    command,
                }
            },
        };
        Entered { guard, progress: Progress { effects, next } }
    }

    /// Goes on with a retry.
    pub fn resume_retry(&mut self, flow: RetryFlow, reply: Reply) -> (r: Progress<
        RetryFlow,
        RetryResult,
    >)
        requires
            reply is Acted,
        ensures
            r.effects@ == retry_step(old(self)@, flow, reply).effects,
            r.next == retry_step(old(self)@, flow, reply).next,
            final(self)@ == retry_step(old(self)@, flow, reply).after,
    {
        let session_id = flow.session_id;
        let result = acted(reply);
        let mut effects: Vec<Effect> = Vec::new();
        let next = match flow.step {
            RetryStep::CleaningUp { resource } => {
                match self.settle_resource(session_id, resource, result, &mut effects) {
                    Err(error) => {
                        self.set_audio_cleanup_in_flight_if_current(session_id, false);
                        Next::Done(Err(error))
                    },
                    Ok(_) => self.complete_retry(session_id, &mut effects),
                }
            },
            RetryStep::HidingPreparation => {
                note_result(&mut effects, session_id, "recording_hud_hide", &result);
                Next::Done(Ok(AudioCleanupOutcome::Recovered))
            },
            RetryStep::ClosingSession { closing } => {
                let next = self.continue_closing(closing, result, &mut effects);
                self.retry_end_session(session_id, next)
            },
        };
        Progress { effects, next }
    }
}

} // verus!
