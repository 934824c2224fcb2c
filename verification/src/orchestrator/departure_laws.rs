//! What cancelling, trying a cleanup again and quitting do to a session, told by where it
//! stands and by what was answered: what is called off is what the session was busy with,
//! and every end says what has become of it.

use crate::domain::{FailureCategory, SessionId, TerminalOutcome};
use crate::orchestrator::cancel::{cancel_begin, cancel_step, CancelFlow, CancelStep};
use crate::orchestrator::closing::{Closing, ClosingStep};
use crate::orchestrator::protocol::{Command, Next, Reply};
use crate::orchestrator::quit::{quit_awaits, quit_begin, quit_step, QuitFlow, QuitStep, QuitTaken};
use crate::orchestrator::retry::{retry_begin, retry_step, RetryFlow, RetryStep};
use crate::orchestrator::state::{
    session_debt_index, ActiveWorkflow, AudioCleanupDebt, AudioCleanupOutcome, AudioCleanupResource,
    CancelOutcome, CaptureCancellationTarget, CaptureCleanupCompletion, OrchestratorError,
    OrchestratorView, PreparingStage, PreparingWorkflow, QuitOutcome, RuntimeStage,
};
use crate::ports::{PortError, RecordingCue};
use vstd::prelude::*;

verus! {

/// Whether a session is closed without anybody being told: its outcome is published, its
/// HUD hidden, and nothing else.
pub open spec fn closes_quietly(closing: Closing, command: Command, session_id: SessionId) -> bool {
    &&& closing.session_id == session_id
    &&& closing.notification is None
    &&& match closing.step {
        ClosingStep::Publishing => command is PublishTerminal,
        ClosingStep::Hiding => command == Command::HideHud(session_id),
        ClosingStep::Notifying => false,
    }
}

/// Whether an error tells that a cleanup of a session failed.
pub open spec fn tells_of_cleanup(
    error: OrchestratorError,
    session: SessionId,
    told: Seq<char>,
    cause: PortError,
) -> bool {
    match error {
        OrchestratorError::AudioCleanupFailed { session_id, phase, source } => {
            &&& session_id == session
            &&& phase@ == told
            &&& source == cause
        },
        _ => false,
    }
}

/// A request to cancel closes the capture that the session holds, and is turned away where
/// the session holds none, where it is being closed already, or where there is no such
/// session.
pub proof fn a_cancellation_closes_what_is_held(o: OrchestratorView, session_id: SessionId)
    ensures
        ({
            let begun = cancel_begin(o, session_id);
            let prepares = o.preparing is Some && o.preparing->0.session_id == session_id;
            let works = o.active is Some && o.active->0.session_id == session_id;
            match begun.next {
                Next::Await { flow, command } => {
                    &&& o.operations.open
                    &&& flow.session_id == session_id
                    &&& flow.step is ClosingCapture
                    &&& command == Command::CancelCapture(flow.step->capture)
                    &&& if prepares {
                        &&& flow.step->ClosingCapture_target is Preparing
                        &&& match o.preparing->0.stage {
                            PreparingStage::Capturing { capture } => flow.step->capture == capture,
                            PreparingStage::Cancelling { capture, in_flight } => {
                                flow.step->capture == capture && !in_flight
                            },
                            PreparingStage::StartingAudio => false,
                        }
                        &&& begun.after.preparing == Some(
                            PreparingWorkflow {
                                stage: PreparingStage::Cancelling {
                                    capture: flow.step->capture,
                                    in_flight: true,
                                },
                                recording_deadline: begun.after.preparing->0.recording_deadline,
                                ..o.preparing->0
                            },
                        )
                    } else {
                        &&& works
                        &&& match o.active->0.stage {
                            RuntimeStage::Recording { capture } => {
                                &&& flow.step->capture == capture
                                &&& flow.step->ClosingCapture_target
                                    == CaptureCancellationTarget::Active(
                                    CaptureCleanupCompletion::Cancelled,
                                )
                            },
                            RuntimeStage::Cancelling { capture, completion, in_flight } => {
                                &&& flow.step->capture == capture && !in_flight
                                &&& flow.step->ClosingCapture_target
                                    == CaptureCancellationTarget::Active(completion)
                            },
                            _ => false,
                        }
                        &&& begun.after.active->0.stage is Cancelling
                        &&& begun.after.active->0.stage->Cancelling_capture == flow.step->capture
                    }
                },
                Next::Done(Ok(CancelOutcome::NotFound)) => !o.operations.open || !prepares
                    && !works,
                Next::Done(Ok(CancelOutcome::CleanupInProgress)) => if prepares {
                    o.preparing->0.stage is Cancelling
                        && o.preparing->0.stage->Cancelling_in_flight
                } else {
                    &&& works && o.active->0.stage is Cancelling
                    &&& o.active->0.stage->Cancelling_in_flight
                },
                Next::Done(Ok(CancelOutcome::NotRecording)) => if prepares {
                    o.preparing->0.stage is StartingAudio
                } else {
                    &&& works && !(o.active->0.stage is Recording)
                    &&& !(o.active->0.stage is Cancelling)
                },
                Next::Done(_) => false,
            }
        }),
{
}

/// Where a cancellation stands.
pub open spec fn cancellation_stands(flow: CancelFlow, command: Command) -> bool {
    match flow.step {
        CancelStep::ClosingCapture { capture, .. } => command == Command::CancelCapture(capture),
        CancelStep::PlayingCue { .. } => command == Command::PlayCue(RecordingCue::Cancel),
        CancelStep::HidingPreparation => command == Command::HideHud(flow.session_id),
        CancelStep::ClosingSession { closing, outcome } => {
            &&& closes_quietly(closing, command, flow.session_id)
            &&& outcome is Cancelled || outcome is CleanupRecovered
        },
    }
}

/// A cancellation goes on only once the capture is closed: the cue is heard, the HUD of a
/// preparation is hidden, and a session ends, as cancelled or, where its recording had been
/// lost before, as failed. It says which; a capture that could not be closed is told.
pub proof fn a_cancellation_says_what_has_happened(
    o: OrchestratorView,
    flow: CancelFlow,
    command: Command,
    reply: Reply,
)
    requires
        reply is Acted,
        cancellation_stands(flow, command),
    ensures
        match cancel_step(o, flow, reply).next {
            Next::Await { flow: after, command: next } => {
                &&& after.session_id == flow.session_id
                &&& cancellation_stands(after, next)
                &&& match flow.step {
                    CancelStep::ClosingCapture { target, .. } => {
                        &&& reply->Acted_0 is Ok
                        &&& after.step == (CancelStep::PlayingCue { target })
                    },
                    CancelStep::PlayingCue { target: CaptureCancellationTarget::Preparing } => {
                        &&& after.step is HidingPreparation
                        &&& !(cancel_step(o, flow, reply).after.prepares(flow.session_id))
                    },
                    CancelStep::PlayingCue {
                        target: CaptureCancellationTarget::Active(completion),
                    } => {
                        &&& after.step is ClosingSession
                        &&& match completion {
                            CaptureCleanupCompletion::Cancelled => {
                                &&& after.step->ClosingSession_outcome is Cancelled
                                &&& next == Command::PublishTerminal(
                                    flow.session_id,
                                    TerminalOutcome::Cancelled,
                                )
                            },
                            CaptureCleanupCompletion::FailAudio => {
                                &&& after.step->ClosingSession_outcome is CleanupRecovered
                                &&& next is PublishTerminal ==> next == Command::PublishTerminal(
                                    flow.session_id,
                                    TerminalOutcome::Failed(FailureCategory::Audio),
                                )
                            },
                        }
                    },
                    CancelStep::ClosingSession { outcome, .. } => {
                        &&& after.step is ClosingSession
                        &&& after.step->ClosingSession_outcome == outcome
                        &&& next == Command::HideHud(flow.session_id)
                    },
                    CancelStep::HidingPreparation => false,
                }
            },
            Next::Done(Ok(outcome)) => match flow.step {
                CancelStep::ClosingCapture { .. } => false,
                CancelStep::PlayingCue { target } => {
                    ||| outcome is Cancelled
                    ||| outcome is CleanupRecovered && target == CaptureCancellationTarget::Active(
                        CaptureCleanupCompletion::FailAudio,
                    )
                },
                CancelStep::HidingPreparation => outcome is Cancelled,
                CancelStep::ClosingSession { outcome: due, .. } => outcome == due,
            },
            Next::Done(Err(error)) => match flow.step {
                CancelStep::ClosingCapture { .. } => {
                    &&& reply->Acted_0 is Err
                    &&& tells_of_cleanup(
                        error,
                        flow.session_id,
                        "audio_cancel"@,
                        reply->Acted_0->Err_0,
                    )
                },
                CancelStep::PlayingCue { .. } => error is Coordinator,
                _ => false,
            },
        },
{
}

proof fn the_first_debt_of_a_session(debts: Seq<AudioCleanupDebt>, session_id: SessionId)
    ensures
        ({
            let index = session_debt_index(debts, session_id);
            &&& index <= debts.len()
            &&& index < debts.len() ==> debts[index as int].session_id == session_id
            &&& forall|i: int|
                0 <= i < index && i < debts.len() ==> (#[trigger] debts[i]).session_id
                    != session_id
        }),
    decreases debts.len(),
{
    if debts.len() > 0 && debts[0].session_id != session_id {
        let rest = debts.drop_first();
        the_first_debt_of_a_session(rest, session_id);
        let index = session_debt_index(debts, session_id);
        if index < debts.len() {
            assert(debts[index as int] == rest[index - 1]);
        }
        assert forall|i: int| 0 <= i < index && i < debts.len() implies (
        #[trigger] debts[i]).session_id != session_id by {
            if i > 0 {
                assert(debts[i] == rest[i - 1]);
            }
        }
    }
}

/// Whether a session owes a cleanup.
pub open spec fn owes(debts: Seq<AudioCleanupDebt>, session_id: SessionId) -> bool {
    exists|i: int| 0 <= i < debts.len() && (#[trigger] debts[i]).session_id == session_id
}

/// Whether a command cleans a piece of audio up.
pub open spec fn cleans(command: Command, resource: AudioCleanupResource) -> bool {
    match resource {
        AudioCleanupResource::Capture(capture) => command == Command::CancelCapture(capture),
        AudioCleanupResource::Finalized(audio_ref) => command == Command::CleanupAudio(audio_ref),
    }
}

/// A retry cleans up something that this very session owes, and is turned away where it
/// owes nothing or a cleanup is running already.
pub proof fn a_retry_cleans_up_what_is_owed(o: OrchestratorView, session_id: SessionId)
    ensures
        match retry_begin(o, session_id).next {
            Next::Await { flow, command } => {
                &&& o.operations.open
                &&& flow.session_id == session_id
                &&& flow.step is CleaningUp
                &&& cleans(command, flow.step->resource)
                &&& exists|i: int|
                    0 <= i < o.debts.len() && (#[trigger] o.debts[i]).session_id == session_id
                        && o.debts[i].resource == flow.step->resource
                &&& o.cleanup_in_flight(session_id) == Some(false)
            },
            Next::Done(Ok(AudioCleanupOutcome::Quitting)) => !o.operations.open,
            Next::Done(Ok(AudioCleanupOutcome::NotPending)) => {
                !owes(o.debts, session_id) || o.cleanup_in_flight(session_id) is None
            },
            Next::Done(Ok(AudioCleanupOutcome::InProgress)) => {
                &&& owes(o.debts, session_id)
                &&& o.cleanup_in_flight(session_id) == Some(true)
            },
            Next::Done(_) => false,
        },
{
    the_first_debt_of_a_session(o.debts, session_id);
}

/// Where a retry stands.
pub open spec fn retry_stands(flow: RetryFlow, command: Command) -> bool {
    match flow.step {
        RetryStep::CleaningUp { resource } => cleans(command, resource),
        RetryStep::HidingPreparation => command == Command::HideHud(flow.session_id),
        RetryStep::ClosingSession { closing } => closes_quietly(closing, command, flow.session_id),
    }
}

/// A retry that fails again tells so under the name of what it tried. One that succeeds
/// ends what had waited for it: a preparation, a cancelled recording, or a session that has
/// lost its audio.
pub proof fn a_retry_says_what_has_happened(
    o: OrchestratorView,
    flow: RetryFlow,
    command: Command,
    reply: Reply,
)
    requires
        reply is Acted,
        retry_stands(flow, command),
    ensures
        match retry_step(o, flow, reply).next {
            Next::Await { flow: after, command: next } => {
                &&& after.session_id == flow.session_id
                &&& retry_stands(after, next)
                &&& !(after.step is CleaningUp)
                &&& flow.step is CleaningUp ==> reply->Acted_0 is Ok
                &&& flow.step is CleaningUp && next is PublishTerminal ==> {
                    &&& o.active is Some && o.active->0.session_id == flow.session_id
                    &&& match o.active->0.stage {
                        RuntimeStage::Cancelling {
                            completion: CaptureCleanupCompletion::Cancelled,
                            ..
                        } => next == Command::PublishTerminal(
                            flow.session_id,
                            TerminalOutcome::Cancelled,
                        ),
                        RuntimeStage::Cancelling { .. } | RuntimeStage::CleaningAudio { .. } => next
                            == Command::PublishTerminal(
                            flow.session_id,
                            TerminalOutcome::Failed(FailureCategory::Audio),
                        ),
                        _ => false,
                    }
                }
                &&& flow.step is CleaningUp && after.step is HidingPreparation ==> {
                    &&& o.preparing is Some && o.preparing->0.session_id == flow.session_id
                    &&& o.preparing->0.stage is Cancelling
                }
            },
            Next::Done(Ok(outcome)) => outcome is Recovered && (flow.step is CleaningUp
                ==> reply->Acted_0 is Ok),
            Next::Done(Err(error)) => match flow.step {
                RetryStep::CleaningUp { resource } => if reply->Acted_0 is Err {
                    match resource {
                        AudioCleanupResource::Capture(_) => tells_of_cleanup(
                            error,
                            flow.session_id,
                            "audio_cancel"@,
                            reply->Acted_0->Err_0,
                        ),
                        AudioCleanupResource::Finalized(_) => tells_of_cleanup(
                            error,
                            flow.session_id,
                            "audio_cleanup"@,
                            reply->Acted_0->Err_0,
                        ),
                    }
                } else {
                    error is Coordinator
                },
                _ => false,
            },
        },
{
}

/// Whether an exit has taken what there was: the workflows without their deadlines, and
/// the session that it ends.
pub open spec fn has_taken(taken: QuitTaken, o: OrchestratorView) -> bool {
    &&& match o.preparing {
        Some(preparing) => taken.preparing == Some(
            PreparingWorkflow { recording_deadline: None, ..preparing },
        ),
        None => taken.preparing is None,
    }
    &&& match o.active {
        Some(active) => taken.active == Some(
            ActiveWorkflow { recording_deadline: None, ..active },
        ),
        None => taken.active is None,
    }
    &&& match (o.active, o.preparing, o.starting) {
        (Some(active), _, _) => {
            &&& taken.lifecycle == Some(active.session_id)
            &&& taken.outcome == QuitOutcome::Terminated(active.session_id)
        },
        (None, Some(preparing), _) => {
            &&& taken.lifecycle == Some(preparing.session_id)
            &&& taken.outcome == QuitOutcome::Terminated(preparing.session_id)
        },
        (None, None, Some(session_id)) => {
            &&& taken.lifecycle is None
            &&& taken.outcome == QuitOutcome::Terminated(session_id)
        },
        (None, None, None) => taken.lifecycle is None && taken.outcome is Idle,
    }
}

/// An exit takes everything that runs and calls off first what the session was busy with:
/// its capture, its recognition or its processing, each by its own name. A cleanup that is
/// running is left to run.
pub proof fn an_exit_calls_off_what_was_under_way(o: OrchestratorView, attempt: u64)
    ensures
        ({
            let begun = quit_begin(o, attempt);
            &&& begun.next is Await
            &&& begun.next->flow.taken.attempt == attempt
            &&& has_taken(begun.next->flow.taken, o)
            &&& begun.after.quitting
            &&& begun.after.active is None && begun.after.preparing is None
                && begun.after.starting is None
            &&& begun.next->command == match o.active {
                Some(active) => match active.stage {
                    RuntimeStage::Recording { capture } => Command::CancelCapture(capture),
                    RuntimeStage::FinishingAudio { capture } => Command::CancelCapture(capture),
                    RuntimeStage::Recognizing { request_id, .. } => {
                        Command::CancelTranscription(request_id)
                    },
                    RuntimeStage::Processing { request_id } => Command::CancelProcessing(
                        request_id,
                    ),
                    _ => Command::HideHud(active.session_id),
                },
                None => match o.preparing {
                    Some(preparing) => match preparing.stage {
                        PreparingStage::Capturing { capture } => Command::CancelCapture(capture),
                        PreparingStage::Cancelling { capture, in_flight } => if in_flight {
                            Command::HideHud(preparing.session_id)
                        } else {
                            Command::CancelCapture(capture)
                        },
                        PreparingStage::StartingAudio => Command::HideHud(preparing.session_id),
                    },
                    None => Command::AwaitOperations,
                },
            }
        }),
{
}

/// Where an exit stands.
pub open spec fn exit_stands(flow: QuitFlow, command: Command) -> bool {
    match flow.step {
        QuitStep::ClosingCapture { capture, .. } => command == Command::CancelCapture(capture),
        QuitStep::CancellingTranscription { .. } => command is CancelTranscription,
        QuitStep::RemovingAudio { audio_ref, .. } => command == Command::CleanupAudio(audio_ref),
        QuitStep::CancellingProcessing { .. } => command is CancelProcessing,
        QuitStep::HidingHud { session_id } => command == Command::HideHud(session_id),
        QuitStep::DrainingOperations => command is AwaitOperations,
        QuitStep::DrainingLifecycle => flow.taken.lifecycle is Some && command
            == Command::AwaitLifecycle(flow.taken.lifecycle->0),
        QuitStep::SettlingDebts { debt, .. } => cleans(command, debt.resource),
    }
}

/// An exit goes its way in order: what was under way is called off, the audio that a
/// recognition held is removed, the HUD is hidden, and only once nothing that had entered
/// runs any more is what is owed tried again. It succeeds, with what it has taken for its
/// outcome, exactly where nothing is owed at the end, and otherwise tells of the first debt.
#[verifier::rlimit(20)]
pub proof fn an_exit_goes_its_way(
    o: OrchestratorView,
    flow: QuitFlow,
    command: Command,
    reply: Reply,
)
    requires
        quit_awaits(flow.step, reply),
        exit_stands(flow, command),
    ensures
        match quit_step(o, flow, reply).next {
            Next::Await { flow: after, command: next } => {
                &&& after.taken == flow.taken
                &&& exit_stands(after, next)
                &&& match flow.step {
                    QuitStep::ClosingCapture { session_id, .. } => after.step == (
                    QuitStep::HidingHud { session_id }),
                    QuitStep::CancellingTranscription { session_id, audio_ref } => {
                        match audio_ref {
                            Some(audio_ref) => after.step == (QuitStep::RemovingAudio {
                                session_id,
                                audio_ref,
                            }),
                            None => after.step == (QuitStep::HidingHud { session_id }),
                        }
                    },
                    QuitStep::RemovingAudio { session_id, .. } => after.step == (
                    QuitStep::HidingHud { session_id }),
                    QuitStep::CancellingProcessing { session_id } => after.step == (
                    QuitStep::HidingHud { session_id }),
                    QuitStep::HidingHud { .. } => after.step is DrainingOperations,
                    QuitStep::DrainingOperations => {
                        ||| after.step is DrainingLifecycle
                        ||| flow.taken.lifecycle is None && after.step is SettlingDebts
                            && o.debts.len() > 0 && after.step->debt == o.debts[0]
                    },
                    QuitStep::DrainingLifecycle => {
                        &&& after.step is SettlingDebts
                        &&& o.debts.len() > 0 && after.step->debt == o.debts[0]
                    },
                    QuitStep::SettlingDebts { rest, .. } => {
                        &&& *rest is Owed
                        &&& after.step is SettlingDebts
                        &&& after.step->debt == (*rest)->debt
                        &&& after.step->SettlingDebts_rest == (*rest)->Owed_rest
                    },
                }
            },
            Next::Done(Ok(outcome)) => {
                &&& outcome == flow.taken.outcome
                &&& quit_step(o, flow, reply).after.debts.len() == 0
            },
            Next::Done(Err(error)) => {
                let after = quit_step(o, flow, reply).after;
                &&& after.debts.len() > 0
                &&& tells_of_cleanup(
                    error,
                    after.debts[0].session_id,
                    after.debts[0].phase@,
                    after.debts[0].error,
                )
                &&& o.preparing is None ==> after.preparing == flow.taken.preparing
                &&& o.active is None ==> after.active == flow.taken.active
            },
        },
{
    reveal_with_fuel(crate::orchestrator::quit::queue_from, 2);
}

} // verus!
