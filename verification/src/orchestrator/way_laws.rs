//! The way that a workflow takes: as long as its session has its place, each answer leads
//! to one thing only, and a workflow gives up without a word only where its session has
//! lost its place.

use crate::domain::{RequestId, SessionId, SessionPhase};
use crate::orchestrator::deliver::{deliver_awaits, deliver_step, DeliverStep, Delivered, Delivery};
use crate::orchestrator::finish::{finish_awaits, finish_on_recognized, finish_step, FinishFlow};
use crate::orchestrator::prepare::{
    prepare_awaits, prepare_step, PreparationEnd, PrepareFlow, PrepareStep,
};
use crate::orchestrator::protocol::{Command, Next, Reply};
use crate::orchestrator::state::{
    ActiveContext, OrchestratorView, PreparingStage, RecordingPreparation, RuntimeStage,
};
use crate::ports::{
    AsrResult, AudioCaptureRef, InsertOutcome, PortError, RecordingHudState, TargetRevalidation,
    UserDirectedPasteOutcome,
};
use crate::text::blank;
use crate::text_route::TextProcessingRoute;
use vstd::prelude::*;

verus! {

/// Whether a session has its place at a stage, and may go on.
pub open spec fn is_placed(
    o: OrchestratorView,
    session_id: SessionId,
    stage: RuntimeStage,
) -> bool {
    &&& !o.quitting
    &&& o.active is Some
    &&& o.active->0.session_id == session_id
    &&& o.active->0.stage == stage
}

/// Whether a session has the single slot, in a phase.
pub open spec fn has_slot(o: OrchestratorView, session_id: SessionId, phase: SessionPhase) -> bool {
    &&& o.session is Some
    &&& o.session->0.session.id == session_id
    &&& o.session->0.session.phase == phase
}

/// The command that a delivery gives next, if it gives one.
pub open spec fn next_of_delivery(
    o: OrchestratorView,
    session_id: SessionId,
    step: DeliverStep,
    reply: Reply,
) -> Option<Command> {
    match deliver_step(o, session_id, step, reply).next {
        Next::Await { command, .. } => Some(command),
        Next::Done(_) => None,
    }
}

/// Whether a text goes to the user's own focus, where that is allowed, and otherwise to the
/// temporary surface.
pub open spec fn goes_to_the_focus(next: Option<Command>, delivery: Delivery) -> bool {
    if delivery.context.settings.input.clipboard_bridge_allowed {
        next is Some && next->0 is PasteAtFocus
    } else {
        next is Some && next->0 is ShowTemporaryText
    }
}

/// A delivery that has its place takes one way: a fallback goes to the temporary surface at
/// once; a safe target is looked at again, and the text inserted there where it is still
/// valid; what is known not to have been inserted goes over the clipboard where that is
/// allowed, after another look; a target that is gone or was never safe leaves the text to
/// the user's own focus where that is allowed; and whatever else fails, or is uncertain,
/// leads to the temporary surface.
pub proof fn a_delivery_takes_its_way(
    o: OrchestratorView,
    session_id: SessionId,
    step: DeliverStep,
    reply: Reply,
    delivery: Delivery,
)
    requires
        deliver_awaits(step, reply),
        is_placed(
            o,
            session_id,
            RuntimeStage::Delivering { delivery_id: delivery.delivery_id },
        ),
    ensures
        ({
            let next = next_of_delivery(o, session_id, step, reply);
            let allowed = delivery.context.settings.input.clipboard_bridge_allowed;
            let temporary = next is Some && next->0 is ShowTemporaryText;
            match step {
                DeliverStep::Announcing { delivery: held, forced } => held == delivery ==> {
                    if forced is Some {
                        temporary
                    } else if delivery.context.target_security is Safe {
                        next is Some && next->0 is Revalidate
                    } else {
                        goes_to_the_focus(next, delivery)
                    }
                },
                DeliverStep::Revalidating { delivery: held } => held == delivery ==> {
                    match reply->Revalidation_0 {
                        Ok(TargetRevalidation::Valid(_)) => next is Some && next->0 is Insert,
                        _ => goes_to_the_focus(next, delivery),
                    }
                },
                DeliverStep::Inserting { delivery: held } => held == delivery ==> {
                    match reply->Insertion_0 {
                        Ok(InsertOutcome::Inserted) => true,
                        Ok(InsertOutcome::Indeterminate) => temporary,
                        Ok(InsertOutcome::NotInserted) | Err(_) => if allowed {
                            next is Some && next->0 is Revalidate
                        } else {
                            temporary
                        },
                    }
                },
                DeliverStep::RevalidatingBridge { delivery: held } => held == delivery ==> {
                    match reply->Revalidation_0 {
                        Ok(TargetRevalidation::Valid(_)) => next is Some && next->0
                            is PasteAtTarget,
                        _ => goes_to_the_focus(next, delivery),
                    }
                },
                DeliverStep::PastingAtTarget { delivery: held } => held == delivery ==> {
                    reply->Insertion_0 != Ok::<InsertOutcome, PortError>(InsertOutcome::Inserted)
                        ==> temporary
                },
                DeliverStep::PastingAtFocus { delivery: held } => held == delivery ==> {
                    reply->Paste_0 != Ok::<UserDirectedPasteOutcome, PortError>(
                        UserDirectedPasteOutcome::Dispatched,
                    ) ==> temporary
                },
                _ => true,
            }
        }),
{
}

/// A text that has reached the user is finalized, be it by an insertion, by a paste or by
/// the temporary surface.
pub proof fn a_delivered_text_is_finalized(
    o: OrchestratorView,
    session_id: SessionId,
    step: DeliverStep,
    reply: Reply,
    delivery: Delivery,
)
    requires
        deliver_awaits(step, reply),
        is_placed(
            o,
            session_id,
            RuntimeStage::Delivering { delivery_id: delivery.delivery_id },
        ),
        has_slot(o, session_id, SessionPhase::Delivering),
        match step {
            DeliverStep::Inserting { delivery: held }
            | DeliverStep::PastingAtTarget { delivery: held } => held == delivery && reply
                == Reply::Insertion(Ok(InsertOutcome::Inserted)),
            DeliverStep::PastingAtFocus { delivery: held } => held == delivery && reply
                == Reply::Paste(Ok(UserDirectedPasteOutcome::Dispatched)),
            DeliverStep::ShowingTemporary { delivery: held, .. } => held == delivery
                && reply->Acted_0 is Ok,
            _ => false,
        },
    ensures
        next_of_delivery(o, session_id, step, reply) == Some(
            Command::UpdateHud(session_id, RecordingHudState::Finalizing),
        ),
        has_slot(
            deliver_step(o, session_id, step, reply).after,
            session_id,
            SessionPhase::Finalizing,
        ),
{
}

/// What is finalized is copied where the settings say so, then kept where they say so, and
/// then complete, whatever became of the copy and the record.
pub proof fn a_finalized_text_is_copied_and_kept(
    o: OrchestratorView,
    session_id: SessionId,
    step: DeliverStep,
    reply: Reply,
    delivered: Delivered,
)
    requires
        deliver_awaits(step, reply),
        is_placed(
            o,
            session_id,
            RuntimeStage::Finalizing { delivery_id: delivered.delivery.delivery_id },
        ),
        has_slot(o, session_id, SessionPhase::Finalizing),
    ensures
        ({
            let next = next_of_delivery(o, session_id, step, reply);
            let settings = delivered.delivery.context.settings.input;
            let completes = next == Some(
                Command::UpdateHud(session_id, RecordingHudState::Completed),
            );
            match step {
                DeliverStep::AnnouncingFinalization { delivered: held } => held == delivered ==> {
                    if settings.auto_copy_result {
                        next is Some && next->0 is WriteClipboard
                    } else if settings.history_policy.enabled {
                        next is Some && next->0 is ReadClock
                    } else {
                        completes
                    }
                },
                DeliverStep::Copying { delivered: held } => held == delivered ==> {
                    if settings.history_policy.enabled {
                        next is Some && next->0 is ReadClock
                    } else {
                        completes
                    }
                },
                DeliverStep::ReadingClock { delivered: held } => held == delivered ==> {
                    next is Some && next->0 is SaveHistory
                },
                DeliverStep::Saving { delivered: held } => held == delivered ==> completes,
                _ => true,
            }
        }),
{
}

/// What an answer of the recogniser leads to while its session has its place: nothing said
/// ends the session, an answer to another request or of another engine fails it, and a
/// transcript goes to the language model or straight to delivery, as was decided.
pub proof fn a_recognition_takes_its_way(
    o: OrchestratorView,
    session_id: SessionId,
    context: ActiveContext,
    request_id: RequestId,
    result: Result<AsrResult, PortError>,
    stage: RuntimeStage,
)
    requires
        stage is Recognizing,
        stage->Recognizing_request_id == request_id,
        is_placed(o, session_id, stage),
        has_slot(o, session_id, SessionPhase::Recognizing),
    ensures
        ({
            let step = finish_on_recognized(o, session_id, context, request_id, result);
            let matched = result is Ok && result->Ok_0.session_id == session_id
                && result->Ok_0.request_id == request_id && result->Ok_0.engine
                == context.asr_route.engine;
            &&& step.next is Await
            &&& match result {
                Ok(transcript) if matched && !blank(transcript.final_text@) => {
                    match context.processing_route {
                        TextProcessingRoute::Llm(_) => {
                            &&& step.next->command is IssueRequestId
                            &&& has_slot(step.after, session_id, SessionPhase::Processing)
                        },
                        TextProcessingRoute::DirectAsr(_) => {
                            &&& step.next->command is IssueDeliveryId
                            &&& has_slot(step.after, session_id, SessionPhase::Delivering)
                        },
                    }
                },
                _ => step.next->command is PublishTerminal && step.after.session is None,
            }
        }),
{
}

/// What an answer of the language model leads to while its session has its place: to the
/// delivery, whatever was answered.
pub proof fn a_processing_leads_to_the_delivery(o: OrchestratorView, flow: FinishFlow, reply: Reply)
    requires
        flow.step is Processing,
        finish_awaits(flow.step, reply),
        is_placed(
            o,
            flow.session_id,
            RuntimeStage::Processing { request_id: flow.step->Processing_request_id },
        ),
        has_slot(o, flow.session_id, SessionPhase::Processing),
    ensures
        finish_step(o, flow, reply).next is Await,
        finish_step(o, flow, reply).next->command is IssueDeliveryId,
        has_slot(finish_step(o, flow, reply).after, flow.session_id, SessionPhase::Delivering),
{
}

/// Finished audio is recognised while its session has its place, and removed otherwise.
pub proof fn finished_audio_is_recognised_or_removed(
    o: OrchestratorView,
    flow: FinishFlow,
    reply: Reply,
    capture: AudioCaptureRef,
)
    requires
        flow.step is PlayingCue,
        finish_awaits(flow.step, reply),
    ensures
        ({
            let step = finish_step(o, flow, reply);
            let stage = RuntimeStage::FinishingAudio { capture };
            &&& is_placed(o, flow.session_id, stage) && has_slot(
                o,
                flow.session_id,
                SessionPhase::Recording,
            ) ==> step.next is Await && step.next->command is IssueRequestId && has_slot(
                step.after,
                flow.session_id,
                SessionPhase::Recognizing,
            )
            &&& o.active is None || o.quitting ==> step.next is Await && step.next->command
                == Command::CleanupAudio(flow.step->PlayingCue_audio.audio_ref)
        }),
{
}

/// Whether a preparation has its place, at a stage.
pub open spec fn is_preparing(
    o: OrchestratorView,
    session_id: SessionId,
    stage: PreparingStage,
) -> bool {
    &&& !o.quitting
    &&& o.preparing is Some
    &&& o.preparing->0.session_id == session_id
    &&& o.preparing->0.stage == stage
}

/// A preparation that has its place goes on to the recording: the capture is opened after
/// the cue, gets its deadline and its HUD, and is handed on once the HUD is there. Where one
/// of these fails the capture is closed; a preparation is aborted only where it has lost its
/// place.
pub proof fn a_preparation_takes_its_way(
    o: OrchestratorView,
    flow: PrepareFlow,
    reply: Reply,
    capture: AudioCaptureRef,
)
    requires
        prepare_awaits(flow.step, reply),
        match flow.step {
            PrepareStep::PlayingCue | PrepareStep::StartingAudio => is_preparing(
                o,
                flow.session_id,
                PreparingStage::StartingAudio,
            ),
            PrepareStep::SchedulingDeadline { capture: held }
            | PrepareStep::ShowingHud { capture: held } => held == capture && is_preparing(
                o,
                flow.session_id,
                PreparingStage::Capturing { capture },
            ),
            _ => true,
        },
    ensures
        ({
            let next = prepare_step(o, flow, reply).next;
            match flow.step {
                PrepareStep::PlayingCue => next is Await && next->command is StartAudio,
                PrepareStep::StartingAudio => match reply->Capture_0 {
                    Ok(_) => next is Await && next->command is ScheduleDeadline,
                    Err(_) => next is Done && next->Done_0 is Ok && next->Done_0->Ok_0
                        is FailedAudio,
                },
                PrepareStep::SchedulingDeadline { .. } => match reply->Deadline_0 {
                    Ok(_) => next is Await && next->command is ShowHud,
                    Err(_) => next is Await && next->command == Command::CancelCapture(capture)
                        && next->flow.step == (PrepareStep::CancellingCapture {
                        capture,
                        end: PreparationEnd::FailedLifecycle,
                    }),
                },
                PrepareStep::ShowingHud { .. } => match reply->Acted_0 {
                    Ok(_) => next is Done && next->Done_0 is Ok && next->Done_0->Ok_0
                        == RecordingPreparation::Ready(capture),
                    Err(_) => next is Await && next->command == Command::CancelCapture(capture)
                        && next->flow.step == (PrepareStep::CancellingCapture {
                        capture,
                        end: PreparationEnd::RejectedHud,
                    }),
                },
                PrepareStep::CancellingCapture { end, .. } => reply->Acted_0 is Ok ==> next is Await
                    && next->flow.step == (PrepareStep::HidingHud { end }),
                PrepareStep::HidingHud { end } => {
                    &&& next is Done && next->Done_0 is Ok
                    &&& match end {
                        PreparationEnd::FailedLifecycle => next->Done_0->Ok_0 is FailedLifecycle,
                        PreparationEnd::RejectedHud => next->Done_0->Ok_0 is RejectedHud,
                        PreparationEnd::Aborted => next->Done_0->Ok_0 is Aborted,
                    }
                },
                PrepareStep::AbandoningCapture { .. } => reply->Acted_0 is Ok ==> next is Await
                    && next->flow.step == (PrepareStep::HidingHud {
                    end: PreparationEnd::Aborted,
                }),
            }
        }),
{
}

} // verus!
