//! What is recorded of a session tells nothing of what was said, selected or written: runs
//! that differ in these texts alone leave the same records, but for durations.

use crate::domain::{FailureCategory, RequestId, SessionId, TerminalOutcome};
use crate::orchestrator::cancel::{
    artifact_settled, cancel_after_cue, cancel_step, capture_settled, CancelFlow, CancelStep,
};
use crate::orchestrator::closing::{
    closing_begin, closing_step, failure_after, failure_effects, failure_start, Closing,
};
use crate::orchestrator::deliver::{
    deliver_at_focus, deliver_awaits, deliver_begin, deliver_by_bridge, deliver_complete,
    deliver_done, deliver_step, deliver_temporary, deliver_to_history, temporary_notice,
    DeliverFlow, DeliverMove, DeliverStep, Delivered, Delivery, FinishEnd,
};
use crate::orchestrator::finish::{
    finish_awaits, finish_failure, finish_no_speech, finish_on_cleaned, finish_on_processed,
    finish_on_recognized, finish_processing, finish_step, forced_status, FinishFlow,
    FinishMove, FinishStep,
};
use crate::orchestrator::finish_laws::{finish_answered, Turn};
use crate::orchestrator::prepare::{prepare_awaits, prepare_step, PrepareFlow, PrepareStep};
use crate::orchestrator::protocol::{Effect, Next, Reply};
use crate::orchestrator::retry::{
    resource_settled, retry_completing, retry_step, RetryFlow, RetryStep,
};
use crate::orchestrator::start::{
    start_awaits, start_step, StartFlow, StartResult, StartStep,
};
use crate::orchestrator::start_laws::start_answered;
use crate::orchestrator::state::{
    ActiveContext, ActiveWorkflow, AudioCleanupCompletion, CaptureCancellationTarget,
    CaptureCleanupCompletion, DeliveryKind, OrchestratorView, PreparingWorkflow,
    RuntimeStage,
};
use crate::ports::{
    AsrResult, AudioRef, PortError, ResolvedLlmRoute, SelectionSnapshot, TemporaryTextStatus,
    TextProcessingResult, UserNotificationKind,
};
use crate::text::blank;
use crate::text_route::{DirectDeliveryReason, TextProcessingRoute};
use crate::trace::Diagnostic;
use vstd::prelude::*;

verus! {

/// Some text in the place of all the blank ones, and another one in the place of all the
/// others.
pub open spec fn hush(text: String) -> String {
    some_text(blank(text@))
}

pub open spec fn some_text(is_blank: bool) -> String {
    choose|text: String| is_as_blank(text, is_blank)
}

pub open spec fn is_as_blank(text: String, is_blank: bool) -> bool {
    blank(text@) == is_blank
}

broadcast proof fn a_hushed_text_is_as_blank(text: String)
    ensures
        blank(#[trigger] hush(text)@) == blank(text@),
{
    assert(is_as_blank(text, blank(text@)));
}

/// The choices of a session without the selection.
pub open spec fn hush_context(context: ActiveContext) -> ActiveContext {
    ActiveContext { selected_text: None, ..context }
}

/// The shared state without the selection of the session that prepares or works.
pub open spec fn hush_state(o: OrchestratorView) -> OrchestratorView {
    OrchestratorView {
        preparing: match o.preparing {
            Some(preparing) => Some(PreparingWorkflow { selected_text: None, ..preparing }),
            None => None,
        },
        active: match o.active {
            Some(active) => Some(ActiveWorkflow { selected_text: None, ..active }),
            None => None,
        },
        ..o
    }
}

/// A delivery without its text.
pub open spec fn hush_delivery(delivery: Delivery) -> Delivery {
    Delivery { 
        context: hush_context(delivery.context),
        final_text: hush(delivery.final_text),
        ..delivery
     }
}

pub open spec fn hush_delivered(delivered: Delivered) -> Delivered {
    Delivered { delivery: hush_delivery(delivered.delivery), ..delivered }
}

/// An end without its text.
pub open spec fn hush_end(end: FinishEnd) -> FinishEnd {
    match end {
        FinishEnd::Completed {
            final_text,
            delivery,
            direct_delivery_reason,
            auto_copy_failed,
            history_save_failed,
        } => FinishEnd::Completed {
            final_text: hush(final_text),
            delivery,
            direct_delivery_reason,
            auto_copy_failed,
            history_save_failed,
        },
        _ => end,
    }
}

/// How far a delivery has come, without its text.
pub open spec fn hush_delivery_step(step: DeliverStep) -> DeliverStep {
    match step {
        DeliverStep::IssuingId { context, final_text, direct_delivery_reason, forced } => {
            DeliverStep::IssuingId {
                context: hush_context(context),
                final_text: hush(final_text),
                direct_delivery_reason,
                forced,
            }
        },
        DeliverStep::Announcing { delivery, forced } => DeliverStep::Announcing {
            delivery: hush_delivery(delivery),
            forced,
        },
        DeliverStep::Revalidating { delivery } => DeliverStep::Revalidating {
            delivery: hush_delivery(delivery),
        },
        DeliverStep::Inserting { delivery } => DeliverStep::Inserting {
            delivery: hush_delivery(delivery),
        },
        DeliverStep::RevalidatingBridge { delivery } => DeliverStep::RevalidatingBridge {
            delivery: hush_delivery(delivery),
        },
        DeliverStep::PastingAtTarget { delivery } => DeliverStep::PastingAtTarget {
            delivery: hush_delivery(delivery),
        },
        DeliverStep::PastingAtFocus { delivery } => DeliverStep::PastingAtFocus {
            delivery: hush_delivery(delivery),
        },
        DeliverStep::ShowingTemporary { delivery, status } => DeliverStep::ShowingTemporary {
            delivery: hush_delivery(delivery),
            status,
        },
        DeliverStep::AnnouncingFinalization { delivered } => DeliverStep::AnnouncingFinalization {
            delivered: hush_delivered(delivered),
        },
        DeliverStep::Copying { delivered } => DeliverStep::Copying {
            delivered: hush_delivered(delivered),
        },
        DeliverStep::ReadingClock { delivered } => DeliverStep::ReadingClock {
            delivered: hush_delivered(delivered),
        },
        DeliverStep::Saving { delivered } => DeliverStep::Saving {
            delivered: hush_delivered(delivered),
        },
        DeliverStep::AnnouncingCompletion { delivered } => DeliverStep::AnnouncingCompletion {
            delivered: hush_delivered(delivered),
        },
        DeliverStep::ClosingSession { closing, end } => DeliverStep::ClosingSession {
            closing,
            end: hush_end(end),
        },
    }
}

/// A transcript without its text.
pub open spec fn hush_transcript(result: Result<AsrResult, PortError>) -> Result<
    AsrResult,
    PortError,
> {
    match result {
        Ok(transcript) => Ok(
            AsrResult { final_text: hush(transcript.final_text), ..transcript },
        ),
        Err(error) => Err(error),
    }
}

/// How far a finish workflow has come, without its texts.
pub open spec fn hush_finish_step(step: FinishStep) -> FinishStep {
    match step {
        FinishStep::IssuingRecognition { audio, context } => FinishStep::IssuingRecognition {
            audio,
            context: hush_context(context),
        },
        FinishStep::AnnouncingRecognition { audio, context, request_id } => {
            FinishStep::AnnouncingRecognition { audio, context: hush_context(context), request_id }
        },
        FinishStep::Transcribing { context, request_id } => FinishStep::Transcribing {
            context: hush_context(context),
            request_id,
        },
        FinishStep::CleaningAudio { context, request_id, audio_ref, result } => {
            FinishStep::CleaningAudio {
                context: hush_context(context),
                request_id,
                audio_ref,
                result: hush_transcript(result),
            }
        },
        FinishStep::IssuingProcessing { context, route, raw_transcript } => {
            FinishStep::IssuingProcessing {
                context: hush_context(context),
                route,
                raw_transcript: hush(raw_transcript),
            }
        },
        FinishStep::AnnouncingProcessing { context, route, raw_transcript, request_id } => {
            FinishStep::AnnouncingProcessing {
                context: hush_context(context),
                route,
                raw_transcript: hush(raw_transcript),
                request_id,
            }
        },
        FinishStep::Processing { raw_transcript, request_id } => FinishStep::Processing {
            raw_transcript: hush(raw_transcript),
            request_id,
        },
        FinishStep::Delivering { step } => FinishStep::Delivering {
            step: hush_delivery_step(step),
        },
        FinishStep::ClosingSession { closing, end } => FinishStep::ClosingSession {
            closing,
            end: hush_end(end),
        },
        _ => step,
    }
}

/// How far a start has come, without the selection.
pub open spec fn hush_start_step(step: StartStep) -> StartStep {
    match step {
        StartStep::RequestingMicrophone { settings, route, target, .. } => {
            StartStep::RequestingMicrophone { settings, route, target, selected_text: None }
        },
        _ => step,
    }
}

/// A finish workflow without its texts.
pub open spec fn hush_finish(flow: FinishFlow) -> FinishFlow {
    FinishFlow { step: hush_finish_step(flow.step), ..flow }
}

/// A start without the selection.
pub open spec fn hush_start(flow: StartFlow) -> StartFlow {
    StartFlow { step: hush_start_step(flow.step), ..flow }
}

/// An answer without what was said, selected or written, and without how long the language
/// model took.
pub open spec fn hush_reply(reply: Reply) -> Reply {
    match reply {
        Reply::Transcript(result) => Reply::Transcript(hush_transcript(result)),
        Reply::Text { result, .. } => Reply::Text {
            result: match result {
                Ok(text) => Ok(
                    TextProcessingResult { final_text: hush(text.final_text), ..text },
                ),
                Err(error) => Err(error),
            },
            elapsed_ms: 0,
        },
        Reply::Selection(Ok(selection)) => Reply::Selection(
            Ok(SelectionSnapshot { text: None, ..selection }),
        ),
        _ => reply,
    }
}

/// A record without its duration.
pub open spec fn untimed(effect: Effect) -> Effect {
    match effect {
        Effect::Record(Diagnostic::LlmAnswered { session_id, failure, .. }) => Effect::Record(
            Diagnostic::LlmAnswered { session_id, duration_ms: 0, failure },
        ),
        _ => effect,
    }
}

/// Whether two runs leave the same behind, but for durations.
pub open spec fn alike_effects(one: Seq<Effect>, other: Seq<Effect>) -> bool {
    &&& one.len() == other.len()
    &&& forall|i: int| 0 <= i < one.len() ==> untimed(#[trigger] one[i]) == untimed(other[i])
}

proof fn joined_effects_are_alike(
    one: Seq<Effect>,
    other: Seq<Effect>,
    then: Seq<Effect>,
    later: Seq<Effect>,
)
    requires
        alike_effects(one, other),
        alike_effects(then, later),
    ensures
        alike_effects(one + then, other + later),
{
    assert forall|i: int| 0 <= i < (one + then).len() implies untimed(#[trigger] (one + then)[i])
        == untimed((other + later)[i]) by {
        if i < one.len() {
            assert((one + then)[i] == one[i] && (other + later)[i] == other[i]);
        } else {
            assert((one + then)[i] == then[i - one.len()]);
            assert((other + later)[i] == later[i - one.len()]);
        }
    }
}

proof fn failures_are_alike(
    o: OrchestratorView,
    session_id: SessionId,
    category: FailureCategory,
)
    ensures
        failure_start(hush_state(o), session_id, category) == failure_start(
            o,
            session_id,
            category,
        ),
        failure_after(hush_state(o), session_id, category) == hush_state(
            failure_after(o, session_id, category),
        ),
        failure_effects(hush_state(o), session_id, category) == failure_effects(
            o,
            session_id,
            category,
        ),
{
}

/// Whether a step of a delivery without its texts is just another one without its texts.
pub open spec fn is_hushed_delivery(quiet: DeliverMove, one: DeliverMove) -> bool {
    &&& quiet.effects == one.effects
    &&& quiet.after == hush_state(one.after)
    &&& match one.next {
        Next::Await { flow, .. } => quiet.next is Await && quiet.next->flow == (DeliverFlow {
            session_id: flow.session_id,
            step: hush_delivery_step(flow.step),
        }),
        Next::Done(end) => quiet.next == Next::<DeliverFlow, FinishEnd>::Done(hush_end(end)),
    }
}

proof fn ways_of_a_delivery_are_alike(
    o: OrchestratorView,
    session_id: SessionId,
    delivery: Delivery,
    status: TemporaryTextStatus,
)
    ensures
        is_hushed_delivery(
            deliver_temporary(hush_state(o), session_id, hush_delivery(delivery), status),
            deliver_temporary(o, session_id, delivery, status),
        ),
        is_hushed_delivery(
            deliver_at_focus(hush_state(o), session_id, hush_delivery(delivery)),
            deliver_at_focus(o, session_id, delivery),
        ),
        is_hushed_delivery(
            deliver_by_bridge(hush_state(o), session_id, hush_delivery(delivery)),
            deliver_by_bridge(o, session_id, delivery),
        ),
        hush_state(o).delivers(session_id, delivery.delivery_id) == o.delivers(
            session_id,
            delivery.delivery_id,
        ),
{
}

proof fn ends_of_a_delivery_are_alike(
    o: OrchestratorView,
    session_id: SessionId,
    delivery: Delivery,
    kind: DeliveryKind,
    notification: Option<UserNotificationKind>,
)
    ensures
        is_hushed_delivery(
            deliver_done(hush_state(o), session_id, hush_delivery(delivery), kind, notification),
            deliver_done(o, session_id, delivery, kind, notification),
        ),
{
}

proof fn completions_are_alike(o: OrchestratorView, session_id: SessionId, delivered: Delivered)
    ensures
        is_hushed_delivery(
            deliver_complete(hush_state(o), session_id, hush_delivered(delivered)),
            deliver_complete(o, session_id, delivered),
        ),
        is_hushed_delivery(
            deliver_to_history(hush_state(o), session_id, hush_delivered(delivered)),
            deliver_to_history(o, session_id, delivered),
        ),
        hush_state(o).finalizes(session_id, delivered.delivery.delivery_id) == o.finalizes(
            session_id,
            delivered.delivery.delivery_id,
        ),
{
}

proof fn deliveries_are_alike_after_issuing_id(
    o: OrchestratorView,
    session_id: SessionId,
    step: DeliverStep,
    reply: Reply,
)
    requires
        step is IssuingId,
        deliver_awaits(step, reply),
    ensures
        is_hushed_delivery(
            deliver_step(hush_state(o), session_id, hush_delivery_step(step), reply),
            deliver_step(o, session_id, step, reply),
        ),
{
}

proof fn deliveries_are_alike_after_announcing(
    o: OrchestratorView,
    session_id: SessionId,
    step: DeliverStep,
    reply: Reply,
)
    requires
        step is Announcing,
        deliver_awaits(step, reply),
    ensures
        is_hushed_delivery(
            deliver_step(hush_state(o), session_id, hush_delivery_step(step), reply),
            deliver_step(o, session_id, step, reply),
        ),
{
    match step->Announcing_forced {
        Some(status) => {
            ways_of_a_delivery_are_alike(o, session_id, step->Announcing_delivery, status);
        },
        None => {
            ways_of_a_delivery_are_alike(
                o,
                session_id,
                step->Announcing_delivery,
                TemporaryTextStatus::NotInserted,
            );
        },
    }
}

proof fn deliveries_are_alike_after_revalidating(
    o: OrchestratorView,
    session_id: SessionId,
    step: DeliverStep,
    reply: Reply,
)
    requires
        step is Revalidating,
        deliver_awaits(step, reply),
    ensures
        is_hushed_delivery(
            deliver_step(hush_state(o), session_id, hush_delivery_step(step), reply),
            deliver_step(o, session_id, step, reply),
        ),
{
    ways_of_a_delivery_are_alike(
        o,
        session_id,
        step->Revalidating_delivery,
        TemporaryTextStatus::NotInserted,
    );
    ways_of_a_delivery_are_alike(
        o,
        session_id,
        step->Revalidating_delivery,
        TemporaryTextStatus::Indeterminate,
    );
}

proof fn deliveries_are_alike_after_inserting(
    o: OrchestratorView,
    session_id: SessionId,
    step: DeliverStep,
    reply: Reply,
)
    requires
        step is Inserting,
        deliver_awaits(step, reply),
    ensures
        is_hushed_delivery(
            deliver_step(hush_state(o), session_id, hush_delivery_step(step), reply),
            deliver_step(o, session_id, step, reply),
        ),
{
    ways_of_a_delivery_are_alike(
        o,
        session_id,
        step->Inserting_delivery,
        TemporaryTextStatus::NotInserted,
    );
    ways_of_a_delivery_are_alike(
        o,
        session_id,
        step->Inserting_delivery,
        TemporaryTextStatus::Indeterminate,
    );
    ends_of_a_delivery_are_alike(
        o,
        session_id,
        step->Inserting_delivery,
        DeliveryKind::Inserted,
        None,
    );
}

proof fn deliveries_are_alike_after_revalidating_bridge(
    o: OrchestratorView,
    session_id: SessionId,
    step: DeliverStep,
    reply: Reply,
)
    requires
        step is RevalidatingBridge,
        deliver_awaits(step, reply),
    ensures
        is_hushed_delivery(
            deliver_step(hush_state(o), session_id, hush_delivery_step(step), reply),
            deliver_step(o, session_id, step, reply),
        ),
{
    ways_of_a_delivery_are_alike(
        o,
        session_id,
        step->RevalidatingBridge_delivery,
        TemporaryTextStatus::NotInserted,
    );
    ways_of_a_delivery_are_alike(
        o,
        session_id,
        step->RevalidatingBridge_delivery,
        TemporaryTextStatus::Indeterminate,
    );
}

proof fn deliveries_are_alike_after_pasting_at_target(
    o: OrchestratorView,
    session_id: SessionId,
    step: DeliverStep,
    reply: Reply,
)
    requires
        step is PastingAtTarget,
        deliver_awaits(step, reply),
    ensures
        is_hushed_delivery(
            deliver_step(hush_state(o), session_id, hush_delivery_step(step), reply),
            deliver_step(o, session_id, step, reply),
        ),
{
    ways_of_a_delivery_are_alike(
        o,
        session_id,
        step->PastingAtTarget_delivery,
        TemporaryTextStatus::NotInserted,
    );
    ways_of_a_delivery_are_alike(
        o,
        session_id,
        step->PastingAtTarget_delivery,
        TemporaryTextStatus::Indeterminate,
    );
    ends_of_a_delivery_are_alike(
        o,
        session_id,
        step->PastingAtTarget_delivery,
        DeliveryKind::ClipboardBridge,
        None,
    );
}

proof fn deliveries_are_alike_after_pasting_at_focus(
    o: OrchestratorView,
    session_id: SessionId,
    step: DeliverStep,
    reply: Reply,
)
    requires
        step is PastingAtFocus,
        deliver_awaits(step, reply),
    ensures
        is_hushed_delivery(
            deliver_step(hush_state(o), session_id, hush_delivery_step(step), reply),
            deliver_step(o, session_id, step, reply),
        ),
{
    ways_of_a_delivery_are_alike(
        o,
        session_id,
        step->PastingAtFocus_delivery,
        TemporaryTextStatus::NotInserted,
    );
    ways_of_a_delivery_are_alike(
        o,
        session_id,
        step->PastingAtFocus_delivery,
        TemporaryTextStatus::Indeterminate,
    );
    ends_of_a_delivery_are_alike(
        o,
        session_id,
        step->PastingAtFocus_delivery,
        DeliveryKind::ClipboardBridge,
        None,
    );
}

proof fn deliveries_are_alike_after_showing_temporary(
    o: OrchestratorView,
    session_id: SessionId,
    step: DeliverStep,
    reply: Reply,
)
    requires
        step is ShowingTemporary,
        deliver_awaits(step, reply),
    ensures
        is_hushed_delivery(
            deliver_step(hush_state(o), session_id, hush_delivery_step(step), reply),
            deliver_step(o, session_id, step, reply),
        ),
{
    match reply->Acted_0 {
        Ok(_) => {
            ends_of_a_delivery_are_alike(
                o,
                session_id,
                step->ShowingTemporary_delivery,
                DeliveryKind::TemporaryText,
                temporary_notice(step->ShowingTemporary_status),
            );
        },
        Err(_) => {
            failures_are_alike(o, session_id, FailureCategory::Delivery);
        },
    }
}

proof fn deliveries_are_alike_after_announcing_finalization(
    o: OrchestratorView,
    session_id: SessionId,
    step: DeliverStep,
    reply: Reply,
)
    requires
        step is AnnouncingFinalization,
        deliver_awaits(step, reply),
    ensures
        is_hushed_delivery(
            deliver_step(hush_state(o), session_id, hush_delivery_step(step), reply),
            deliver_step(o, session_id, step, reply),
        ),
{
    completions_are_alike(o, session_id, step->AnnouncingFinalization_delivered);
}

proof fn deliveries_are_alike_after_copying(
    o: OrchestratorView,
    session_id: SessionId,
    step: DeliverStep,
    reply: Reply,
)
    requires
        step is Copying,
        deliver_awaits(step, reply),
    ensures
        is_hushed_delivery(
            deliver_step(hush_state(o), session_id, hush_delivery_step(step), reply),
            deliver_step(o, session_id, step, reply),
        ),
{
    let delivered = step->Copying_delivered;
    let then = Delivered {
        auto_copy_failed: delivered.auto_copy_failed || reply->Acted_0 is Err,
        ..delivered
    };
    completions_are_alike(o, session_id, then);
}

proof fn deliveries_are_alike_after_reading_clock(
    o: OrchestratorView,
    session_id: SessionId,
    step: DeliverStep,
    reply: Reply,
)
    requires
        step is ReadingClock,
        deliver_awaits(step, reply),
    ensures
        is_hushed_delivery(
            deliver_step(hush_state(o), session_id, hush_delivery_step(step), reply),
            deliver_step(o, session_id, step, reply),
        ),
{
}

proof fn deliveries_are_alike_after_saving(
    o: OrchestratorView,
    session_id: SessionId,
    step: DeliverStep,
    reply: Reply,
)
    requires
        step is Saving,
        deliver_awaits(step, reply),
    ensures
        is_hushed_delivery(
            deliver_step(hush_state(o), session_id, hush_delivery_step(step), reply),
            deliver_step(o, session_id, step, reply),
        ),
{
    let delivered = step->Saving_delivered;
    let then = Delivered {
        history_save_failed: delivered.history_save_failed || reply->Acted_0 is Err,
        ..delivered
    };
    completions_are_alike(o, session_id, then);
}

proof fn deliveries_are_alike_after_announcing_completion(
    o: OrchestratorView,
    session_id: SessionId,
    step: DeliverStep,
    reply: Reply,
)
    requires
        step is AnnouncingCompletion,
        deliver_awaits(step, reply),
    ensures
        is_hushed_delivery(
            deliver_step(hush_state(o), session_id, hush_delivery_step(step), reply),
            deliver_step(o, session_id, step, reply),
        ),
{
}

proof fn deliveries_are_alike_after_closing_session(
    o: OrchestratorView,
    session_id: SessionId,
    step: DeliverStep,
    reply: Reply,
)
    requires
        step is ClosingSession,
        deliver_awaits(step, reply),
    ensures
        is_hushed_delivery(
            deliver_step(hush_state(o), session_id, hush_delivery_step(step), reply),
            deliver_step(o, session_id, step, reply),
        ),
{
}

proof fn deliveries_are_alike(
    o: OrchestratorView,
    session_id: SessionId,
    step: DeliverStep,
    reply: Reply,
)
    requires
        deliver_awaits(step, reply),
    ensures
        is_hushed_delivery(
            deliver_step(hush_state(o), session_id, hush_delivery_step(step), reply),
            deliver_step(o, session_id, step, reply),
        ),
{
    match step {
        DeliverStep::IssuingId { .. } => {
            deliveries_are_alike_after_issuing_id(o, session_id, step, reply)
        },
        DeliverStep::Announcing { .. } => {
            deliveries_are_alike_after_announcing(o, session_id, step, reply)
        },
        DeliverStep::Revalidating { .. } => {
            deliveries_are_alike_after_revalidating(o, session_id, step, reply)
        },
        DeliverStep::Inserting { .. } => {
            deliveries_are_alike_after_inserting(o, session_id, step, reply)
        },
        DeliverStep::RevalidatingBridge { .. } => {
            deliveries_are_alike_after_revalidating_bridge(o, session_id, step, reply)
        },
        DeliverStep::PastingAtTarget { .. } => {
            deliveries_are_alike_after_pasting_at_target(o, session_id, step, reply)
        },
        DeliverStep::PastingAtFocus { .. } => {
            deliveries_are_alike_after_pasting_at_focus(o, session_id, step, reply)
        },
        DeliverStep::ShowingTemporary { .. } => {
            deliveries_are_alike_after_showing_temporary(o, session_id, step, reply)
        },
        DeliverStep::AnnouncingFinalization { .. } => {
            deliveries_are_alike_after_announcing_finalization(o, session_id, step, reply)
        },
        DeliverStep::Copying { .. } => {
            deliveries_are_alike_after_copying(o, session_id, step, reply)
        },
        DeliverStep::ReadingClock { .. } => {
            deliveries_are_alike_after_reading_clock(o, session_id, step, reply)
        },
        DeliverStep::Saving { .. } => {
            deliveries_are_alike_after_saving(o, session_id, step, reply)
        },
        DeliverStep::AnnouncingCompletion { .. } => {
            deliveries_are_alike_after_announcing_completion(o, session_id, step, reply)
        },
        DeliverStep::ClosingSession { .. } => {
            deliveries_are_alike_after_closing_session(o, session_id, step, reply)
        },
    }
}

proof fn closings_are_alike(
    o: OrchestratorView,
    session_id: SessionId,
    outcome: Option<TerminalOutcome>,
    notification: Option<UserNotificationKind>,
    closing: Closing,
    result: Result<(), PortError>,
)
    ensures
        ({
            let one = closing_begin(o, session_id, outcome, notification);
            let quiet = closing_begin(hush_state(o), session_id, outcome, notification);
            &&& quiet.effects == one.effects
            &&& quiet.next == one.next
            &&& quiet.after == hush_state(one.after)
        }),
        ({
            let one = closing_step(o, closing, result);
            let quiet = closing_step(hush_state(o), closing, result);
            &&& quiet.effects == one.effects
            &&& quiet.next == one.next
            &&& quiet.after == hush_state(one.after)
        }),
{
}

proof fn delivery_beginnings_are_alike(
    o: OrchestratorView,
    session_id: SessionId,
    final_text: String,
    reason: Option<DirectDeliveryReason>,
    forced: Option<TemporaryTextStatus>,
)
    ensures
        is_hushed_delivery(
            deliver_begin(hush_state(o), session_id, hush(final_text), reason, forced),
            deliver_begin(o, session_id, final_text, reason, forced),
        ),
{
}

/// Whether a step without its texts is just another one without its texts.
pub open spec fn is_hushed(quiet: FinishMove, one: FinishMove) -> bool {
    &&& quiet.effects == one.effects
    &&& quiet.after == hush_state(one.after)
    &&& match one.next {
        Next::Await { flow, .. } => quiet.next is Await && quiet.next->flow == hush_finish(flow),
        Next::Done(end) => quiet.next == Next::<FinishFlow, FinishEnd>::Done(hush_end(end)),
    }
}

proof fn failed_finishes_are_alike(
    o: OrchestratorView,
    session_id: SessionId,
    category: FailureCategory,
)
    ensures
        is_hushed(
            finish_failure(hush_state(o), session_id, category),
            finish_failure(o, session_id, category),
        ),
{
    failures_are_alike(o, session_id, category);
}

proof fn silent_finishes_are_alike(o: OrchestratorView, session_id: SessionId)
    ensures
        is_hushed(finish_no_speech(hush_state(o), session_id), finish_no_speech(o, session_id)),
{
}

proof fn processings_are_alike(
    o: OrchestratorView,
    session_id: SessionId,
    route: ResolvedLlmRoute,
    raw_transcript: String,
)
    ensures
        is_hushed(
            finish_processing(hush_state(o), session_id, route, hush(raw_transcript)),
            finish_processing(o, session_id, route, raw_transcript),
        ),
{
}

proof fn recognitions_are_alike(
    o: OrchestratorView,
    session_id: SessionId,
    context: ActiveContext,
    request_id: RequestId,
    result: Result<AsrResult, PortError>,
)
    ensures
        is_hushed(
            finish_on_recognized(
                hush_state(o),
                session_id,
                hush_context(context),
                request_id,
                hush_transcript(result),
            ),
            finish_on_recognized(o, session_id, context, request_id, result),
        ),
{
    broadcast use a_hushed_text_is_as_blank;

    failed_finishes_are_alike(o, session_id, FailureCategory::Asr);
    silent_finishes_are_alike(o, session_id);
    assert(hush_state(o).recognizes(session_id, request_id) == o.recognizes(
        session_id,
        request_id,
    ));
    match result {
        Ok(transcript) => {
            match context.processing_route {
                TextProcessingRoute::DirectAsr(reason) => {
                    delivery_beginnings_are_alike(
                        o,
                        session_id,
                        transcript.final_text,
                        Some(reason),
                        forced_status(reason),
                    );
                },
                TextProcessingRoute::Llm(route) => {
                    processings_are_alike(o, session_id, route, transcript.final_text);
                },
            }
        },
        Err(_) => {},
    }
}

proof fn cleanings_are_alike(
    o: OrchestratorView,
    session_id: SessionId,
    context: ActiveContext,
    request_id: RequestId,
    audio_ref: AudioRef,
    transcript: Result<AsrResult, PortError>,
    result: Result<(), PortError>,
)
    ensures
        is_hushed(
            finish_on_cleaned(
                hush_state(o),
                session_id,
                hush_context(context),
                request_id,
                audio_ref,
                hush_transcript(transcript),
                result,
            ),
            finish_on_cleaned(
                o,
                session_id,
                context,
                request_id,
                audio_ref,
                transcript,
                result,
            ),
        ),
{
    let after = artifact_settled(o, session_id, audio_ref, result);
    assert(artifact_settled(hush_state(o), session_id, audio_ref, result) == hush_state(after));
    match result {
        Ok(_) => {
            if after.cleans(session_id, request_id, audio_ref) {
                let staged = after.staged(
                    RuntimeStage::Recognizing { request_id, audio_ref: None },
                );
                assert(hush_state(after).staged(
                    RuntimeStage::Recognizing { request_id, audio_ref: None },
                ) == hush_state(staged));
                recognitions_are_alike(staged, session_id, context, request_id, transcript);
            }
        },
        Err(_) => {
            assert(hush_state(after).with_cleanup_in_flight(session_id, false) == hush_state(
                after.with_cleanup_in_flight(session_id, false),
            ));
        },
    }
}

proof fn processed_texts_are_alike(
    o: OrchestratorView,
    session_id: SessionId,
    raw_transcript: String,
    request_id: RequestId,
    reply: Reply,
)
    requires
        reply is Text,
    ensures
        is_hushed(
            finish_on_processed(
                hush_state(o),
                session_id,
                hush(raw_transcript),
                request_id,
                hush_reply(reply)->Text_result,
            ),
            finish_on_processed(o, session_id, raw_transcript, request_id, reply->Text_result),
        ),
{
    broadcast use a_hushed_text_is_as_blank;

    delivery_beginnings_are_alike(
        o,
        session_id,
        raw_transcript,
        None,
        Some(TemporaryTextStatus::LlmFallback),
    );
    match reply->Text_result {
        Ok(text) => {
            delivery_beginnings_are_alike(o, session_id, text.final_text, None, None);
        },
        Err(_) => {},
    }
}

proof fn closed_captures_are_alike(
    o: OrchestratorView,
    session_id: SessionId,
    target: CaptureCancellationTarget,
)
    ensures
        ({
            let one = cancel_after_cue(o, session_id, target);
            let quiet = cancel_after_cue(hush_state(o), session_id, target);
            &&& quiet.effects == one.effects
            &&& quiet.next == one.next
            &&& quiet.after == hush_state(one.after)
        }),
{
    match target {
        CaptureCancellationTarget::Preparing => {},
        CaptureCancellationTarget::Active(CaptureCleanupCompletion::Cancelled) => {},
        CaptureCancellationTarget::Active(CaptureCleanupCompletion::FailAudio) => {
            failures_are_alike(o, session_id, FailureCategory::Audio);
        },
    }
}

/// A cancellation takes no notice of the selection.
pub proof fn cancellations_are_alike(o: OrchestratorView, flow: CancelFlow, reply: Reply)
    requires
        reply is Acted,
    ensures
        ({
            let one = cancel_step(o, flow, reply);
            let quiet = cancel_step(hush_state(o), flow, reply);
            &&& quiet.effects == one.effects
            &&& quiet.next == one.next
            &&& quiet.after == hush_state(one.after)
        }),
{
    match flow.step {
        CancelStep::ClosingCapture { capture, .. } => {
            let settled = capture_settled(o, flow.session_id, capture, reply->Acted_0);
            assert(hush_state(settled).with_cleanup_in_flight(flow.session_id, false)
                == hush_state(settled.with_cleanup_in_flight(flow.session_id, false)));
        },
        CancelStep::PlayingCue { target } => {
            closed_captures_are_alike(o, flow.session_id, target);
        },
        CancelStep::HidingPreparation => {},
        CancelStep::ClosingSession { closing, .. } => {
            closings_are_alike(o, flow.session_id, None, None, closing, reply->Acted_0);
        },
    }
}

proof fn completed_retries_are_alike(o: OrchestratorView, session_id: SessionId)
    ensures
        ({
            let one = retry_completing(o, session_id);
            let quiet = retry_completing(hush_state(o), session_id);
            &&& quiet.effects == one.effects
            &&& quiet.next == one.next
            &&& quiet.after == hush_state(one.after)
        }),
{
    assert(hush_state(o).completion(session_id) == o.completion(session_id));
    match o.completion(session_id) {
        Some(AudioCleanupCompletion::Preparing) => {},
        Some(AudioCleanupCompletion::Capture(CaptureCleanupCompletion::Cancelled)) => {},
        Some(_) => {
            failures_are_alike(o, session_id, FailureCategory::Audio);
        },
        None => {},
    }
}

/// A retry takes no notice of the selection.
pub proof fn retries_are_alike(o: OrchestratorView, flow: RetryFlow, reply: Reply)
    requires
        reply is Acted,
    ensures
        ({
            let one = retry_step(o, flow, reply);
            let quiet = retry_step(hush_state(o), flow, reply);
            &&& quiet.effects == one.effects
            &&& quiet.next == one.next
            &&& quiet.after == hush_state(one.after)
        }),
{
    match flow.step {
        RetryStep::CleaningUp { resource } => {
            let settled = resource_settled(o, flow.session_id, resource, reply->Acted_0);
            assert(resource_settled(hush_state(o), flow.session_id, resource, reply->Acted_0)
                == hush_state(settled));
            match reply->Acted_0 {
                Ok(_) => completed_retries_are_alike(settled, flow.session_id),
                Err(_) => {
                    assert(hush_state(settled).with_cleanup_in_flight(flow.session_id, false)
                        == hush_state(settled.with_cleanup_in_flight(flow.session_id, false)));
                },
            }
        },
        RetryStep::HidingPreparation => {},
        RetryStep::ClosingSession { closing } => {
            closings_are_alike(o, flow.session_id, None, None, closing, reply->Acted_0);
        },
    }
}

proof fn preparations_are_alike_after_playing_cue(
    o: OrchestratorView,
    flow: PrepareFlow,
    reply: Reply,
)
    requires
        flow.step is PlayingCue,
        prepare_awaits(flow.step, reply),
    ensures
        ({
            let one = prepare_step(o, flow, reply);
            let quiet = prepare_step(hush_state(o), flow, reply);
            &&& quiet.effects == one.effects
            &&& quiet.next == one.next
            &&& quiet.after == hush_state(one.after)
        }),
{
}

proof fn preparations_are_alike_after_starting_audio(
    o: OrchestratorView,
    flow: PrepareFlow,
    reply: Reply,
)
    requires
        flow.step is StartingAudio,
        prepare_awaits(flow.step, reply),
    ensures
        ({
            let one = prepare_step(o, flow, reply);
            let quiet = prepare_step(hush_state(o), flow, reply);
            &&& quiet.effects == one.effects
            &&& quiet.next == one.next
            &&& quiet.after == hush_state(one.after)
        }),
{
}

proof fn preparations_are_alike_after_abandoning_capture(
    o: OrchestratorView,
    flow: PrepareFlow,
    reply: Reply,
)
    requires
        flow.step is AbandoningCapture,
        prepare_awaits(flow.step, reply),
    ensures
        ({
            let one = prepare_step(o, flow, reply);
            let quiet = prepare_step(hush_state(o), flow, reply);
            &&& quiet.effects == one.effects
            &&& quiet.next == one.next
            &&& quiet.after == hush_state(one.after)
        }),
{
}

proof fn preparations_are_alike_after_scheduling_deadline(
    o: OrchestratorView,
    flow: PrepareFlow,
    reply: Reply,
)
    requires
        flow.step is SchedulingDeadline,
        prepare_awaits(flow.step, reply),
    ensures
        ({
            let one = prepare_step(o, flow, reply);
            let quiet = prepare_step(hush_state(o), flow, reply);
            &&& quiet.effects == one.effects
            &&& quiet.next == one.next
            &&& quiet.after == hush_state(one.after)
        }),
{
}

proof fn preparations_are_alike_after_showing_hud(
    o: OrchestratorView,
    flow: PrepareFlow,
    reply: Reply,
)
    requires
        flow.step is ShowingHud,
        prepare_awaits(flow.step, reply),
    ensures
        ({
            let one = prepare_step(o, flow, reply);
            let quiet = prepare_step(hush_state(o), flow, reply);
            &&& quiet.effects == one.effects
            &&& quiet.next == one.next
            &&& quiet.after == hush_state(one.after)
        }),
{
}

proof fn preparations_are_alike_after_cancelling_capture(
    o: OrchestratorView,
    flow: PrepareFlow,
    reply: Reply,
)
    requires
        flow.step is CancellingCapture,
        prepare_awaits(flow.step, reply),
    ensures
        ({
            let one = prepare_step(o, flow, reply);
            let quiet = prepare_step(hush_state(o), flow, reply);
            &&& quiet.effects == one.effects
            &&& quiet.next == one.next
            &&& quiet.after == hush_state(one.after)
        }),
{
    let capture = flow.step->CancellingCapture_capture;
    let settled = capture_settled(o, flow.session_id, capture, reply->Acted_0);
    assert(capture_settled(hush_state(o), flow.session_id, capture, reply->Acted_0) == hush_state(
        settled,
    ));
    assert(hush_state(settled).with_cleanup_in_flight(flow.session_id, false) == hush_state(
        settled.with_cleanup_in_flight(flow.session_id, false),
    ));
}

proof fn preparations_are_alike_after_hiding_hud(
    o: OrchestratorView,
    flow: PrepareFlow,
    reply: Reply,
)
    requires
        flow.step is HidingHud,
        prepare_awaits(flow.step, reply),
    ensures
        ({
            let one = prepare_step(o, flow, reply);
            let quiet = prepare_step(hush_state(o), flow, reply);
            &&& quiet.effects == one.effects
            &&& quiet.next == one.next
            &&& quiet.after == hush_state(one.after)
        }),
{
}

/// A preparation takes no notice of the selection.
pub proof fn preparations_are_alike(o: OrchestratorView, flow: PrepareFlow, reply: Reply)
    requires
        prepare_awaits(flow.step, reply),
    ensures
        ({
            let one = prepare_step(o, flow, reply);
            let quiet = prepare_step(hush_state(o), flow, reply);
            &&& quiet.effects == one.effects
            &&& quiet.next == one.next
            &&& quiet.after == hush_state(one.after)
        }),
{
    match flow.step {
        PrepareStep::PlayingCue => {
            preparations_are_alike_after_playing_cue(o, flow, reply);
        },
        PrepareStep::StartingAudio => {
            preparations_are_alike_after_starting_audio(o, flow, reply);
        },
        PrepareStep::AbandoningCapture { .. } => {
            preparations_are_alike_after_abandoning_capture(o, flow, reply);
        },
        PrepareStep::SchedulingDeadline { .. } => {
            preparations_are_alike_after_scheduling_deadline(o, flow, reply);
        },
        PrepareStep::ShowingHud { .. } => {
            preparations_are_alike_after_showing_hud(o, flow, reply);
        },
        PrepareStep::CancellingCapture { .. } => {
            preparations_are_alike_after_cancelling_capture(o, flow, reply);
        },
        PrepareStep::HidingHud { .. } => {
            preparations_are_alike_after_hiding_hud(o, flow, reply);
        },
    }
}

proof fn finishes_are_alike_after_finishing_audio(
    o: OrchestratorView,
    flow: FinishFlow,
    reply: Reply,
)
    requires
        flow.step is FinishingAudio,
        finish_awaits(flow.step, reply),
    ensures
        ({
            let one = finish_step(o, flow, reply);
            let quiet = finish_step(hush_state(o), hush_finish(flow), hush_reply(reply));
            &&& alike_effects(quiet.effects, one.effects)
            &&& quiet.after == hush_state(one.after)
            &&& match one.next {
                Next::Await { flow, .. } => quiet.next is Await && quiet.next->flow == hush_finish(
                    flow,
                ),
                Next::Done(end) => quiet.next == Next::<FinishFlow, FinishEnd>::Done(hush_end(end)),
            }
        }),
{
}

proof fn finishes_are_alike_after_cancelling_empty_capture(
    o: OrchestratorView,
    flow: FinishFlow,
    reply: Reply,
)
    requires
        flow.step is CancellingEmptyCapture,
        finish_awaits(flow.step, reply),
    ensures
        ({
            let one = finish_step(o, flow, reply);
            let quiet = finish_step(hush_state(o), hush_finish(flow), hush_reply(reply));
            &&& alike_effects(quiet.effects, one.effects)
            &&& quiet.after == hush_state(one.after)
            &&& match one.next {
                Next::Await { flow, .. } => quiet.next is Await && quiet.next->flow == hush_finish(
                    flow,
                ),
                Next::Done(end) => quiet.next == Next::<FinishFlow, FinishEnd>::Done(hush_end(end)),
            }
        }),
{
    cancellations_are_alike(
        o,
        CancelFlow { session_id: flow.session_id, step: flow.step->CancellingEmptyCapture_step },
        reply,
    );
}

proof fn finishes_are_alike_after_cancelling_failed_capture(
    o: OrchestratorView,
    flow: FinishFlow,
    reply: Reply,
)
    requires
        flow.step is CancellingFailedCapture,
        finish_awaits(flow.step, reply),
    ensures
        ({
            let one = finish_step(o, flow, reply);
            let quiet = finish_step(hush_state(o), hush_finish(flow), hush_reply(reply));
            &&& alike_effects(quiet.effects, one.effects)
            &&& quiet.after == hush_state(one.after)
            &&& match one.next {
                Next::Await { flow, .. } => quiet.next is Await && quiet.next->flow == hush_finish(
                    flow,
                ),
                Next::Done(end) => quiet.next == Next::<FinishFlow, FinishEnd>::Done(hush_end(end)),
            }
        }),
{
    failed_finishes_are_alike(
        capture_settled(
            o,
            flow.session_id,
            flow.step->CancellingFailedCapture_capture,
            reply->Acted_0,
        ),
        flow.session_id,
        FailureCategory::Audio,
    );
}

proof fn finishes_are_alike_after_playing_cue(
    o: OrchestratorView,
    flow: FinishFlow,
    reply: Reply,
)
    requires
        flow.step is PlayingCue,
        finish_awaits(flow.step, reply),
    ensures
        ({
            let one = finish_step(o, flow, reply);
            let quiet = finish_step(hush_state(o), hush_finish(flow), hush_reply(reply));
            &&& alike_effects(quiet.effects, one.effects)
            &&& quiet.after == hush_state(one.after)
            &&& match one.next {
                Next::Await { flow, .. } => quiet.next is Await && quiet.next->flow == hush_finish(
                    flow,
                ),
                Next::Done(end) => quiet.next == Next::<FinishFlow, FinishEnd>::Done(hush_end(end)),
            }
        }),
{
}

proof fn finishes_are_alike_after_discarding_audio(
    o: OrchestratorView,
    flow: FinishFlow,
    reply: Reply,
)
    requires
        flow.step is DiscardingAudio,
        finish_awaits(flow.step, reply),
    ensures
        ({
            let one = finish_step(o, flow, reply);
            let quiet = finish_step(hush_state(o), hush_finish(flow), hush_reply(reply));
            &&& alike_effects(quiet.effects, one.effects)
            &&& quiet.after == hush_state(one.after)
            &&& match one.next {
                Next::Await { flow, .. } => quiet.next is Await && quiet.next->flow == hush_finish(
                    flow,
                ),
                Next::Done(end) => quiet.next == Next::<FinishFlow, FinishEnd>::Done(hush_end(end)),
            }
        }),
{
}

proof fn finishes_are_alike_after_issuing_recognition(
    o: OrchestratorView,
    flow: FinishFlow,
    reply: Reply,
)
    requires
        flow.step is IssuingRecognition,
        finish_awaits(flow.step, reply),
    ensures
        ({
            let one = finish_step(o, flow, reply);
            let quiet = finish_step(hush_state(o), hush_finish(flow), hush_reply(reply));
            &&& alike_effects(quiet.effects, one.effects)
            &&& quiet.after == hush_state(one.after)
            &&& match one.next {
                Next::Await { flow, .. } => quiet.next is Await && quiet.next->flow == hush_finish(
                    flow,
                ),
                Next::Done(end) => quiet.next == Next::<FinishFlow, FinishEnd>::Done(hush_end(end)),
            }
        }),
{
}

proof fn finishes_are_alike_after_announcing_recognition(
    o: OrchestratorView,
    flow: FinishFlow,
    reply: Reply,
)
    requires
        flow.step is AnnouncingRecognition,
        finish_awaits(flow.step, reply),
    ensures
        ({
            let one = finish_step(o, flow, reply);
            let quiet = finish_step(hush_state(o), hush_finish(flow), hush_reply(reply));
            &&& alike_effects(quiet.effects, one.effects)
            &&& quiet.after == hush_state(one.after)
            &&& match one.next {
                Next::Await { flow, .. } => quiet.next is Await && quiet.next->flow == hush_finish(
                    flow,
                ),
                Next::Done(end) => quiet.next == Next::<FinishFlow, FinishEnd>::Done(hush_end(end)),
            }
        }),
{
}

proof fn finishes_are_alike_after_transcribing(
    o: OrchestratorView,
    flow: FinishFlow,
    reply: Reply,
)
    requires
        flow.step is Transcribing,
        finish_awaits(flow.step, reply),
    ensures
        ({
            let one = finish_step(o, flow, reply);
            let quiet = finish_step(hush_state(o), hush_finish(flow), hush_reply(reply));
            &&& alike_effects(quiet.effects, one.effects)
            &&& quiet.after == hush_state(one.after)
            &&& match one.next {
                Next::Await { flow, .. } => quiet.next is Await && quiet.next->flow == hush_finish(
                    flow,
                ),
                Next::Done(end) => quiet.next == Next::<FinishFlow, FinishEnd>::Done(hush_end(end)),
            }
        }),
{
    recognitions_are_alike(
        o,
        flow.session_id,
        flow.step->Transcribing_context,
        flow.step->Transcribing_request_id,
        reply->Transcript_0,
    );
}

proof fn finishes_are_alike_after_cleaning_audio(
    o: OrchestratorView,
    flow: FinishFlow,
    reply: Reply,
)
    requires
        flow.step is CleaningAudio,
        finish_awaits(flow.step, reply),
    ensures
        ({
            let one = finish_step(o, flow, reply);
            let quiet = finish_step(hush_state(o), hush_finish(flow), hush_reply(reply));
            &&& alike_effects(quiet.effects, one.effects)
            &&& quiet.after == hush_state(one.after)
            &&& match one.next {
                Next::Await { flow, .. } => quiet.next is Await && quiet.next->flow == hush_finish(
                    flow,
                ),
                Next::Done(end) => quiet.next == Next::<FinishFlow, FinishEnd>::Done(hush_end(end)),
            }
        }),
{
    cleanings_are_alike(
        o,
        flow.session_id,
        flow.step->CleaningAudio_context,
        flow.step->CleaningAudio_request_id,
        flow.step->CleaningAudio_audio_ref,
        flow.step->CleaningAudio_result,
        reply->Acted_0,
    );
}

proof fn finishes_are_alike_after_issuing_processing(
    o: OrchestratorView,
    flow: FinishFlow,
    reply: Reply,
)
    requires
        flow.step is IssuingProcessing,
        finish_awaits(flow.step, reply),
    ensures
        ({
            let one = finish_step(o, flow, reply);
            let quiet = finish_step(hush_state(o), hush_finish(flow), hush_reply(reply));
            &&& alike_effects(quiet.effects, one.effects)
            &&& quiet.after == hush_state(one.after)
            &&& match one.next {
                Next::Await { flow, .. } => quiet.next is Await && quiet.next->flow == hush_finish(
                    flow,
                ),
                Next::Done(end) => quiet.next == Next::<FinishFlow, FinishEnd>::Done(hush_end(end)),
            }
        }),
{
}

proof fn finishes_are_alike_after_announcing_processing(
    o: OrchestratorView,
    flow: FinishFlow,
    reply: Reply,
)
    requires
        flow.step is AnnouncingProcessing,
        finish_awaits(flow.step, reply),
    ensures
        ({
            let one = finish_step(o, flow, reply);
            let quiet = finish_step(hush_state(o), hush_finish(flow), hush_reply(reply));
            &&& alike_effects(quiet.effects, one.effects)
            &&& quiet.after == hush_state(one.after)
            &&& match one.next {
                Next::Await { flow, .. } => quiet.next is Await && quiet.next->flow == hush_finish(
                    flow,
                ),
                Next::Done(end) => quiet.next == Next::<FinishFlow, FinishEnd>::Done(hush_end(end)),
            }
        }),
{
}

proof fn finishes_are_alike_after_processing(
    o: OrchestratorView,
    flow: FinishFlow,
    reply: Reply,
)
    requires
        flow.step is Processing,
        finish_awaits(flow.step, reply),
    ensures
        ({
            let one = finish_step(o, flow, reply);
            let quiet = finish_step(hush_state(o), hush_finish(flow), hush_reply(reply));
            &&& alike_effects(quiet.effects, one.effects)
            &&& quiet.after == hush_state(one.after)
            &&& match one.next {
                Next::Await { flow, .. } => quiet.next is Await && quiet.next->flow == hush_finish(
                    flow,
                ),
                Next::Done(end) => quiet.next == Next::<FinishFlow, FinishEnd>::Done(hush_end(end)),
            }
        }),
{
    processed_texts_are_alike(
        o,
        flow.session_id,
        flow.step->Processing_raw_transcript,
        flow.step->Processing_request_id,
        reply,
    );
}

proof fn finishes_are_alike_after_delivering(
    o: OrchestratorView,
    flow: FinishFlow,
    reply: Reply,
)
    requires
        flow.step is Delivering,
        finish_awaits(flow.step, reply),
    ensures
        ({
            let one = finish_step(o, flow, reply);
            let quiet = finish_step(hush_state(o), hush_finish(flow), hush_reply(reply));
            &&& alike_effects(quiet.effects, one.effects)
            &&& quiet.after == hush_state(one.after)
            &&& match one.next {
                Next::Await { flow, .. } => quiet.next is Await && quiet.next->flow == hush_finish(
                    flow,
                ),
                Next::Done(end) => quiet.next == Next::<FinishFlow, FinishEnd>::Done(hush_end(end)),
            }
        }),
{
    deliveries_are_alike(o, flow.session_id, flow.step->Delivering_step, reply);
}

proof fn finishes_are_alike_after_closing_session(
    o: OrchestratorView,
    flow: FinishFlow,
    reply: Reply,
)
    requires
        flow.step is ClosingSession,
        finish_awaits(flow.step, reply),
    ensures
        ({
            let one = finish_step(o, flow, reply);
            let quiet = finish_step(hush_state(o), hush_finish(flow), hush_reply(reply));
            &&& alike_effects(quiet.effects, one.effects)
            &&& quiet.after == hush_state(one.after)
            &&& match one.next {
                Next::Await { flow, .. } => quiet.next is Await && quiet.next->flow == hush_finish(
                    flow,
                ),
                Next::Done(end) => quiet.next == Next::<FinishFlow, FinishEnd>::Done(hush_end(end)),
            }
        }),
{
    closings_are_alike(
        o,
        flow.session_id,
        None,
        None,
        flow.step->ClosingSession_closing,
        reply->Acted_0,
    );
}

/// A finish workflow takes no notice of what is said, selected or written: without these
/// texts it leaves the same behind at every step, but for durations, and goes on alike.
pub proof fn finishes_are_alike(
    o: OrchestratorView,
    flow: FinishFlow,
    reply: Reply,
)
    requires
        finish_awaits(flow.step, reply),
    ensures
        ({
            let one = finish_step(o, flow, reply);
            let quiet = finish_step(hush_state(o), hush_finish(flow), hush_reply(reply));
            &&& alike_effects(quiet.effects, one.effects)
            &&& quiet.after == hush_state(one.after)
            &&& match one.next {
                Next::Await { flow, .. } => quiet.next is Await && quiet.next->flow == hush_finish(
                    flow,
                ),
                Next::Done(end) => quiet.next == Next::<FinishFlow, FinishEnd>::Done(hush_end(end)),
            }
        }),
{
    match flow.step {
        FinishStep::FinishingAudio { .. } => {
            finishes_are_alike_after_finishing_audio(o, flow, reply)
        },
        FinishStep::CancellingEmptyCapture { .. } => {
            finishes_are_alike_after_cancelling_empty_capture(o, flow, reply)
        },
        FinishStep::CancellingFailedCapture { .. } => {
            finishes_are_alike_after_cancelling_failed_capture(o, flow, reply)
        },
        FinishStep::PlayingCue { .. } => {
            finishes_are_alike_after_playing_cue(o, flow, reply)
        },
        FinishStep::DiscardingAudio { .. } => {
            finishes_are_alike_after_discarding_audio(o, flow, reply)
        },
        FinishStep::IssuingRecognition { .. } => {
            finishes_are_alike_after_issuing_recognition(o, flow, reply)
        },
        FinishStep::AnnouncingRecognition { .. } => {
            finishes_are_alike_after_announcing_recognition(o, flow, reply)
        },
        FinishStep::Transcribing { .. } => {
            finishes_are_alike_after_transcribing(o, flow, reply)
        },
        FinishStep::CleaningAudio { .. } => {
            finishes_are_alike_after_cleaning_audio(o, flow, reply)
        },
        FinishStep::IssuingProcessing { .. } => {
            finishes_are_alike_after_issuing_processing(o, flow, reply)
        },
        FinishStep::AnnouncingProcessing { .. } => {
            finishes_are_alike_after_announcing_processing(o, flow, reply)
        },
        FinishStep::Processing { .. } => {
            finishes_are_alike_after_processing(o, flow, reply)
        },
        FinishStep::Delivering { .. } => {
            finishes_are_alike_after_delivering(o, flow, reply)
        },
        FinishStep::ClosingSession { .. } => {
            finishes_are_alike_after_closing_session(o, flow, reply)
        },
    }
}

proof fn starts_are_alike_after_acquiring_gate(
    o: OrchestratorView,
    flow: StartFlow,
    reply: Reply,
)
    requires
        flow.step is AcquiringGate,
        start_awaits(flow.step, reply),
    ensures
        ({
            let one = start_step(o, flow, reply);
            let quiet = start_step(hush_state(o), hush_start(flow), hush_reply(reply));
            &&& quiet.effects == one.effects
            &&& quiet.after == hush_state(one.after)
            &&& match one.next {
                Next::Await { flow, .. } => quiet.next is Await && quiet.next->flow == hush_start(
                    flow,
                ),
                Next::Done(end) => quiet.next == Next::<StartFlow, StartResult>::Done(end),
            }
        }),
{
}

proof fn starts_are_alike_after_loading_settings(
    o: OrchestratorView,
    flow: StartFlow,
    reply: Reply,
)
    requires
        flow.step is LoadingSettings,
        start_awaits(flow.step, reply),
    ensures
        ({
            let one = start_step(o, flow, reply);
            let quiet = start_step(hush_state(o), hush_start(flow), hush_reply(reply));
            &&& quiet.effects == one.effects
            &&& quiet.after == hush_state(one.after)
            &&& match one.next {
                Next::Await { flow, .. } => quiet.next is Await && quiet.next->flow == hush_start(
                    flow,
                ),
                Next::Done(end) => quiet.next == Next::<StartFlow, StartResult>::Done(end),
            }
        }),
{
}

proof fn starts_are_alike_after_resolving_route(
    o: OrchestratorView,
    flow: StartFlow,
    reply: Reply,
)
    requires
        flow.step is ResolvingRoute,
        start_awaits(flow.step, reply),
    ensures
        ({
            let one = start_step(o, flow, reply);
            let quiet = start_step(hush_state(o), hush_start(flow), hush_reply(reply));
            &&& quiet.effects == one.effects
            &&& quiet.after == hush_state(one.after)
            &&& match one.next {
                Next::Await { flow, .. } => quiet.next is Await && quiet.next->flow == hush_start(
                    flow,
                ),
                Next::Done(end) => quiet.next == Next::<StartFlow, StartResult>::Done(end),
            }
        }),
{
}

proof fn starts_are_alike_after_capturing_target(
    o: OrchestratorView,
    flow: StartFlow,
    reply: Reply,
)
    requires
        flow.step is CapturingTarget,
        start_awaits(flow.step, reply),
    ensures
        ({
            let one = start_step(o, flow, reply);
            let quiet = start_step(hush_state(o), hush_start(flow), hush_reply(reply));
            &&& quiet.effects == one.effects
            &&& quiet.after == hush_state(one.after)
            &&& match one.next {
                Next::Await { flow, .. } => quiet.next is Await && quiet.next->flow == hush_start(
                    flow,
                ),
                Next::Done(end) => quiet.next == Next::<StartFlow, StartResult>::Done(end),
            }
        }),
{
}

proof fn starts_are_alike_after_reading_selection(
    o: OrchestratorView,
    flow: StartFlow,
    reply: Reply,
)
    requires
        flow.step is ReadingSelection,
        start_awaits(flow.step, reply),
    ensures
        ({
            let one = start_step(o, flow, reply);
            let quiet = start_step(hush_state(o), hush_start(flow), hush_reply(reply));
            &&& quiet.effects == one.effects
            &&& quiet.after == hush_state(one.after)
            &&& match one.next {
                Next::Await { flow, .. } => quiet.next is Await && quiet.next->flow == hush_start(
                    flow,
                ),
                Next::Done(end) => quiet.next == Next::<StartFlow, StartResult>::Done(end),
            }
        }),
{
}

proof fn starts_are_alike_after_reading_clipboard_selection(
    o: OrchestratorView,
    flow: StartFlow,
    reply: Reply,
)
    requires
        flow.step is ReadingClipboardSelection,
        start_awaits(flow.step, reply),
    ensures
        ({
            let one = start_step(o, flow, reply);
            let quiet = start_step(hush_state(o), hush_start(flow), hush_reply(reply));
            &&& quiet.effects == one.effects
            &&& quiet.after == hush_state(one.after)
            &&& match one.next {
                Next::Await { flow, .. } => quiet.next is Await && quiet.next->flow == hush_start(
                    flow,
                ),
                Next::Done(end) => quiet.next == Next::<StartFlow, StartResult>::Done(end),
            }
        }),
{
}

proof fn starts_are_alike_after_requesting_microphone(
    o: OrchestratorView,
    flow: StartFlow,
    reply: Reply,
)
    requires
        flow.step is RequestingMicrophone,
        start_awaits(flow.step, reply),
    ensures
        ({
            let one = start_step(o, flow, reply);
            let quiet = start_step(hush_state(o), hush_start(flow), hush_reply(reply));
            &&& quiet.effects == one.effects
            &&& quiet.after == hush_state(one.after)
            &&& match one.next {
                Next::Await { flow, .. } => quiet.next is Await && quiet.next->flow == hush_start(
                    flow,
                ),
                Next::Done(end) => quiet.next == Next::<StartFlow, StartResult>::Done(end),
            }
        }),
{
}

proof fn starts_are_alike_after_preparing(
    o: OrchestratorView,
    flow: StartFlow,
    reply: Reply,
)
    requires
        flow.step is Preparing,
        start_awaits(flow.step, reply),
    ensures
        ({
            let one = start_step(o, flow, reply);
            let quiet = start_step(hush_state(o), hush_start(flow), hush_reply(reply));
            &&& quiet.effects == one.effects
            &&& quiet.after == hush_state(one.after)
            &&& match one.next {
                Next::Await { flow, .. } => quiet.next is Await && quiet.next->flow == hush_start(
                    flow,
                ),
                Next::Done(end) => quiet.next == Next::<StartFlow, StartResult>::Done(end),
            }
        }),
{
}

proof fn starts_are_alike_after_reading_clock(
    o: OrchestratorView,
    flow: StartFlow,
    reply: Reply,
)
    requires
        flow.step is ReadingClock,
        start_awaits(flow.step, reply),
    ensures
        ({
            let one = start_step(o, flow, reply);
            let quiet = start_step(hush_state(o), hush_start(flow), hush_reply(reply));
            &&& quiet.effects == one.effects
            &&& quiet.after == hush_state(one.after)
            &&& match one.next {
                Next::Await { flow, .. } => quiet.next is Await && quiet.next->flow == hush_start(
                    flow,
                ),
                Next::Done(end) => quiet.next == Next::<StartFlow, StartResult>::Done(end),
            }
        }),
{
}

proof fn starts_are_alike_after_announcing_recording(
    o: OrchestratorView,
    flow: StartFlow,
    reply: Reply,
)
    requires
        flow.step is AnnouncingRecording,
        start_awaits(flow.step, reply),
    ensures
        ({
            let one = start_step(o, flow, reply);
            let quiet = start_step(hush_state(o), hush_start(flow), hush_reply(reply));
            &&& quiet.effects == one.effects
            &&& quiet.after == hush_state(one.after)
            &&& match one.next {
                Next::Await { flow, .. } => quiet.next is Await && quiet.next->flow == hush_start(
                    flow,
                ),
                Next::Done(end) => quiet.next == Next::<StartFlow, StartResult>::Done(end),
            }
        }),
{
}

proof fn starts_are_alike_after_cancelling_capture(
    o: OrchestratorView,
    flow: StartFlow,
    reply: Reply,
)
    requires
        flow.step is CancellingCapture,
        start_awaits(flow.step, reply),
    ensures
        ({
            let one = start_step(o, flow, reply);
            let quiet = start_step(hush_state(o), hush_start(flow), hush_reply(reply));
            &&& quiet.effects == one.effects
            &&& quiet.after == hush_state(one.after)
            &&& match one.next {
                Next::Await { flow, .. } => quiet.next is Await && quiet.next->flow == hush_start(
                    flow,
                ),
                Next::Done(end) => quiet.next == Next::<StartFlow, StartResult>::Done(end),
            }
        }),
{
}

proof fn starts_are_alike_after_hiding_hud(
    o: OrchestratorView,
    flow: StartFlow,
    reply: Reply,
)
    requires
        flow.step is HidingHud,
        start_awaits(flow.step, reply),
    ensures
        ({
            let one = start_step(o, flow, reply);
            let quiet = start_step(hush_state(o), hush_start(flow), hush_reply(reply));
            &&& quiet.effects == one.effects
            &&& quiet.after == hush_state(one.after)
            &&& match one.next {
                Next::Await { flow, .. } => quiet.next is Await && quiet.next->flow == hush_start(
                    flow,
                ),
                Next::Done(end) => quiet.next == Next::<StartFlow, StartResult>::Done(end),
            }
        }),
{
}

proof fn starts_are_alike_after_notifying(
    o: OrchestratorView,
    flow: StartFlow,
    reply: Reply,
)
    requires
        flow.step is Notifying,
        start_awaits(flow.step, reply),
    ensures
        ({
            let one = start_step(o, flow, reply);
            let quiet = start_step(hush_state(o), hush_start(flow), hush_reply(reply));
            &&& quiet.effects == one.effects
            &&& quiet.after == hush_state(one.after)
            &&& match one.next {
                Next::Await { flow, .. } => quiet.next is Await && quiet.next->flow == hush_start(
                    flow,
                ),
                Next::Done(end) => quiet.next == Next::<StartFlow, StartResult>::Done(end),
            }
        }),
{
}

proof fn starts_are_alike_after_finishing(
    o: OrchestratorView,
    flow: StartFlow,
    reply: Reply,
)
    requires
        flow.step is Finishing,
        start_awaits(flow.step, reply),
    ensures
        ({
            let one = start_step(o, flow, reply);
            let quiet = start_step(hush_state(o), hush_start(flow), hush_reply(reply));
            &&& quiet.effects == one.effects
            &&& quiet.after == hush_state(one.after)
            &&& match one.next {
                Next::Await { flow, .. } => quiet.next is Await && quiet.next->flow == hush_start(
                    flow,
                ),
                Next::Done(end) => quiet.next == Next::<StartFlow, StartResult>::Done(end),
            }
        }),
{
}

/// A start takes no notice of what a selection holds: without it, the start leaves the
/// same behind at every step and goes on alike.
pub proof fn starts_are_alike(
    o: OrchestratorView,
    flow: StartFlow,
    reply: Reply,
)
    requires
        start_awaits(flow.step, reply),
    ensures
        ({
            let one = start_step(o, flow, reply);
            let quiet = start_step(hush_state(o), hush_start(flow), hush_reply(reply));
            &&& quiet.effects == one.effects
            &&& quiet.after == hush_state(one.after)
            &&& match one.next {
                Next::Await { flow, .. } => quiet.next is Await && quiet.next->flow == hush_start(
                    flow,
                ),
                Next::Done(end) => quiet.next == Next::<StartFlow, StartResult>::Done(end),
            }
        }),
{
    match flow.step {
        StartStep::AcquiringGate => {
            starts_are_alike_after_acquiring_gate(o, flow, reply)
        },
        StartStep::LoadingSettings => {
            starts_are_alike_after_loading_settings(o, flow, reply)
        },
        StartStep::ResolvingRoute { .. } => {
            starts_are_alike_after_resolving_route(o, flow, reply)
        },
        StartStep::CapturingTarget { .. } => {
            starts_are_alike_after_capturing_target(o, flow, reply)
        },
        StartStep::ReadingSelection { .. } => {
            starts_are_alike_after_reading_selection(o, flow, reply)
        },
        StartStep::ReadingClipboardSelection { .. } => {
            starts_are_alike_after_reading_clipboard_selection(o, flow, reply)
        },
        StartStep::RequestingMicrophone { .. } => {
            starts_are_alike_after_requesting_microphone(o, flow, reply)
        },
        StartStep::Preparing { .. } => {
            starts_are_alike_after_preparing(o, flow, reply)
        },
        StartStep::ReadingClock { .. } => {
            starts_are_alike_after_reading_clock(o, flow, reply)
        },
        StartStep::AnnouncingRecording { .. } => {
            starts_are_alike_after_announcing_recording(o, flow, reply)
        },
        StartStep::CancellingCapture { .. } => {
            starts_are_alike_after_cancelling_capture(o, flow, reply)
        },
        StartStep::HidingHud { .. } => {
            starts_are_alike_after_hiding_hud(o, flow, reply)
        },
        StartStep::Notifying { .. } => {
            starts_are_alike_after_notifying(o, flow, reply)
        },
        StartStep::Finishing => {
            starts_are_alike_after_finishing(o, flow, reply)
        },
    }
}

/// What a finish workflow leaves behind, turn by turn, until it is over.
pub open spec fn finish_effects(flow: FinishFlow, turns: Seq<Turn>) -> Seq<Effect>
    decreases turns.len(),
{
    if turns.len() == 0 {
        Seq::empty()
    } else {
        let step = finish_step(turns[0].state, flow, turns[0].reply);
        match step.next {
            Next::Await { flow, .. } => step.effects + finish_effects(flow, turns.drop_first()),
            Next::Done(_) => step.effects,
        }
    }
}

/// What a start leaves behind, turn by turn, until it is over.
pub open spec fn start_effects(flow: StartFlow, turns: Seq<Turn>) -> Seq<Effect>
    decreases turns.len(),
{
    if turns.len() == 0 {
        Seq::empty()
    } else {
        let step = start_step(turns[0].state, flow, turns[0].reply);
        match step.next {
            Next::Await { flow, .. } => step.effects + start_effects(flow, turns.drop_first()),
            Next::Done(_) => step.effects,
        }
    }
}

/// Whether two workflows meet the same, but for what was said, selected or written and
/// for how long the language model took. A text is blank in both or in neither.
pub open spec fn alike_turns(one: Seq<Turn>, other: Seq<Turn>) -> bool {
    &&& one.len() == other.len()
    &&& forall|i: int|
        0 <= i < one.len() ==> hush_state((#[trigger] one[i]).state) == hush_state(other[i].state)
            && hush_reply(one[i].reply) == hush_reply(other[i].reply)
}

proof fn the_rest_is_alike(one: Seq<Turn>, other: Seq<Turn>)
    requires
        alike_turns(one, other),
        one.len() > 0,
    ensures
        hush_state(one[0].state) == hush_state(other[0].state),
        hush_reply(one[0].reply) == hush_reply(other[0].reply),
        alike_turns(one.drop_first(), other.drop_first()),
{
    let then = one.drop_first();
    let later = other.drop_first();
    assert forall|i: int| 0 <= i < then.len() implies hush_state((#[trigger] then[i]).state)
        == hush_state(later[i].state) && hush_reply(then[i].reply) == hush_reply(
        later[i].reply,
    ) by {
        assert(then[i] == one[i + 1] && later[i] == other[i + 1]);
    }
}

/// What a finish workflow leaves behind, its diagnostic records among it, tells nothing of
/// the transcript, the selection or the processed text: two runs that differ in these
/// alone leave the same behind, but for durations.
pub proof fn records_tell_nothing_of_the_texts(
    flow: FinishFlow,
    flow2: FinishFlow,
    one: Seq<Turn>,
    other: Seq<Turn>,
)
    requires
        finish_answered(flow, one),
        finish_answered(flow2, other),
        hush_finish(flow) == hush_finish(flow2),
        alike_turns(one, other),
    ensures
        alike_effects(finish_effects(flow, one), finish_effects(flow2, other)),
    decreases one.len(),
{
    if one.len() > 0 {
        the_rest_is_alike(one, other);
        finishes_are_alike(one[0].state, flow, one[0].reply);
        finishes_are_alike(other[0].state, flow2, other[0].reply);
        let quiet = finish_step(
            hush_state(one[0].state),
            hush_finish(flow),
            hush_reply(one[0].reply),
        );
        let step = finish_step(one[0].state, flow, one[0].reply);
        let step2 = finish_step(other[0].state, flow2, other[0].reply);
        assert forall|i: int| 0 <= i < step.effects.len() implies untimed(
            #[trigger] step.effects[i],
        ) == untimed(step2.effects[i]) by {
            assert(untimed(quiet.effects[i]) == untimed(step.effects[i]));
            assert(untimed(quiet.effects[i]) == untimed(step2.effects[i]));
        }
        match step.next {
            Next::Await { flow: then, .. } => {
                let later = step2.next->flow;
                records_tell_nothing_of_the_texts(
                    then,
                    later,
                    one.drop_first(),
                    other.drop_first(),
                );
                joined_effects_are_alike(
                    step.effects,
                    step2.effects,
                    finish_effects(then, one.drop_first()),
                    finish_effects(later, other.drop_first()),
                );
            },
            Next::Done(_) => {},
        }
    }
}

/// What a start leaves behind tells nothing of the selection that it read.
pub proof fn records_tell_nothing_of_the_selection(
    flow: StartFlow,
    flow2: StartFlow,
    one: Seq<Turn>,
    other: Seq<Turn>,
)
    requires
        start_answered(flow, one),
        start_answered(flow2, other),
        hush_start(flow) == hush_start(flow2),
        alike_turns(one, other),
    ensures
        start_effects(flow, one) == start_effects(flow2, other),
    decreases one.len(),
{
    if one.len() > 0 {
        the_rest_is_alike(one, other);
        starts_are_alike(one[0].state, flow, one[0].reply);
        starts_are_alike(other[0].state, flow2, other[0].reply);
        match start_step(one[0].state, flow, one[0].reply).next {
            Next::Await { flow: then, .. } => {
                let later = start_step(other[0].state, flow2, other[0].reply).next->flow;
                records_tell_nothing_of_the_selection(
                    then,
                    later,
                    one.drop_first(),
                    other.drop_first(),
                );
            },
            Next::Done(_) => {},
        }
    }
}

} // verus!
