//! Raw mode over a whole session: from the settings that a start reads to the completion
//! of the finish, the language model is left alone and the selection unread, and the user
//! gets what the recogniser heard.

use crate::domain::{ProcessingMode, SessionId, SettingsSnapshot};
use crate::orchestrator::deliver::{
    deliver_awaits, deliver_step, DeliverStep, Delivery, FinishEnd,
};
use crate::orchestrator::finish::{finish_awaits, finish_step, FinishFlow, FinishStep};
use crate::orchestrator::finish_laws::{finish_answered, finish_run, Turn};
use crate::orchestrator::protocol::{Command, Next, Reply};
use crate::orchestrator::session_laws::single_flight;
use crate::orchestrator::slot_laws::{choices, keeps_slot, start_keeps_slot};
use crate::orchestrator::start::{start_awaits, start_step, StartFlow, StartMove, StartStep};
use crate::orchestrator::start_laws::{
    is_for_processing, raw_mode_stays_local, start_answered, start_run, stays_local,
};
use crate::orchestrator::state::OrchestratorView;
use crate::text_route::{DirectDeliveryReason, TextProcessingRoute};
use vstd::prelude::*;

verus! {

/// The route of a session in raw mode.
pub open spec fn raw_route() -> TextProcessingRoute {
    TextProcessingRoute::DirectAsr(DirectDeliveryReason::RawMode)
}

/// Whether a session, where it has a place, has frozen raw mode.
pub open spec fn is_raw_session(o: OrchestratorView, session_id: SessionId) -> bool {
    choices(o) is Some && choices(o)->0.session_id == session_id
        ==> choices(o)->0.processing_route == raw_route()
}

/// Whether a start has settled for raw mode.
pub open spec fn is_raw_start(step: StartStep) -> bool {
    match step {
        StartStep::AcquiringGate
        | StartStep::LoadingSettings
        | StartStep::ResolvingRoute { .. }
        | StartStep::ReadingSelection { .. }
        | StartStep::ReadingClipboardSelection { .. } => false,
        StartStep::CapturingTarget { route, .. } | StartStep::RequestingMicrophone {
            route,
            ..
        } => route == raw_route(),
        _ => true,
    }
}

proof fn a_start_stays_raw_after_capturing_target(
    o: OrchestratorView,
    flow: StartFlow,
    reply: Reply,
)
    requires
        flow.step is CapturingTarget,
        start_awaits(flow.step, reply),
        single_flight(o),
        is_raw_start(flow.step),
        is_raw_session(o, flow.session_id),
    ensures
        ({
            let step = start_step(o, flow, reply);
            &&& is_raw_session(step.after, flow.session_id)
            &&& step.next is Await ==> is_raw_start(step.next->flow.step)
                && step.next->flow.session_id == flow.session_id && !is_for_processing(
                step.next->command,
            )
        }),
{
}

proof fn a_start_stays_raw_after_requesting_microphone(
    o: OrchestratorView,
    flow: StartFlow,
    reply: Reply,
)
    requires
        flow.step is RequestingMicrophone,
        start_awaits(flow.step, reply),
        single_flight(o),
        is_raw_start(flow.step),
        is_raw_session(o, flow.session_id),
    ensures
        ({
            let step = start_step(o, flow, reply);
            &&& is_raw_session(step.after, flow.session_id)
            &&& step.next is Await ==> is_raw_start(step.next->flow.step)
                && step.next->flow.session_id == flow.session_id && !is_for_processing(
                step.next->command,
            )
        }),
{
}

proof fn a_start_stays_raw_after_preparing(o: OrchestratorView, flow: StartFlow, reply: Reply)
    requires
        flow.step is Preparing,
        start_awaits(flow.step, reply),
        single_flight(o),
        is_raw_start(flow.step),
        is_raw_session(o, flow.session_id),
    ensures
        ({
            let step = start_step(o, flow, reply);
            &&& is_raw_session(step.after, flow.session_id)
            &&& step.next is Await ==> is_raw_start(step.next->flow.step)
                && step.next->flow.session_id == flow.session_id && !is_for_processing(
                step.next->command,
            )
        }),
{
}

proof fn a_start_stays_raw_after_reading_clock(o: OrchestratorView, flow: StartFlow, reply: Reply)
    requires
        flow.step is ReadingClock,
        start_awaits(flow.step, reply),
        single_flight(o),
        is_raw_start(flow.step),
        is_raw_session(o, flow.session_id),
    ensures
        ({
            let step = start_step(o, flow, reply);
            &&& is_raw_session(step.after, flow.session_id)
            &&& step.next is Await ==> is_raw_start(step.next->flow.step)
                && step.next->flow.session_id == flow.session_id && !is_for_processing(
                step.next->command,
            )
        }),
{
}

proof fn a_start_stays_raw_after_announcing_recording(
    o: OrchestratorView,
    flow: StartFlow,
    reply: Reply,
)
    requires
        flow.step is AnnouncingRecording,
        start_awaits(flow.step, reply),
        single_flight(o),
        is_raw_start(flow.step),
        is_raw_session(o, flow.session_id),
    ensures
        ({
            let step = start_step(o, flow, reply);
            &&& is_raw_session(step.after, flow.session_id)
            &&& step.next is Await ==> is_raw_start(step.next->flow.step)
                && step.next->flow.session_id == flow.session_id && !is_for_processing(
                step.next->command,
            )
        }),
{
}

proof fn a_start_stays_raw_after_cancelling_capture(
    o: OrchestratorView,
    flow: StartFlow,
    reply: Reply,
)
    requires
        flow.step is CancellingCapture,
        start_awaits(flow.step, reply),
        single_flight(o),
        is_raw_start(flow.step),
        is_raw_session(o, flow.session_id),
    ensures
        ({
            let step = start_step(o, flow, reply);
            &&& is_raw_session(step.after, flow.session_id)
            &&& step.next is Await ==> is_raw_start(step.next->flow.step)
                && step.next->flow.session_id == flow.session_id && !is_for_processing(
                step.next->command,
            )
        }),
{
}

proof fn a_start_stays_raw_after_hiding_hud(o: OrchestratorView, flow: StartFlow, reply: Reply)
    requires
        flow.step is HidingHud,
        start_awaits(flow.step, reply),
        single_flight(o),
        is_raw_start(flow.step),
        is_raw_session(o, flow.session_id),
    ensures
        ({
            let step = start_step(o, flow, reply);
            &&& is_raw_session(step.after, flow.session_id)
            &&& step.next is Await ==> is_raw_start(step.next->flow.step)
                && step.next->flow.session_id == flow.session_id && !is_for_processing(
                step.next->command,
            )
        }),
{
}

proof fn a_start_stays_raw_after_notifying(o: OrchestratorView, flow: StartFlow, reply: Reply)
    requires
        flow.step is Notifying,
        start_awaits(flow.step, reply),
        single_flight(o),
        is_raw_start(flow.step),
        is_raw_session(o, flow.session_id),
    ensures
        ({
            let step = start_step(o, flow, reply);
            &&& is_raw_session(step.after, flow.session_id)
            &&& step.next is Await ==> is_raw_start(step.next->flow.step)
                && step.next->flow.session_id == flow.session_id && !is_for_processing(
                step.next->command,
            )
        }),
{
}

proof fn a_start_stays_raw_after_finishing(o: OrchestratorView, flow: StartFlow, reply: Reply)
    requires
        flow.step is Finishing,
        start_awaits(flow.step, reply),
        single_flight(o),
        is_raw_start(flow.step),
        is_raw_session(o, flow.session_id),
    ensures
        ({
            let step = start_step(o, flow, reply);
            &&& is_raw_session(step.after, flow.session_id)
            &&& step.next is Await ==> is_raw_start(step.next->flow.step)
                && step.next->flow.session_id == flow.session_id && !is_for_processing(
                step.next->command,
            )
        }),
{
}

/// A start that has settled for raw mode gives its session nothing else, and asks
/// neither about the language model nor for a selection.
pub proof fn a_raw_start_stays_raw(o: OrchestratorView, flow: StartFlow, reply: Reply)
    requires
        start_awaits(flow.step, reply),
        single_flight(o),
        is_raw_start(flow.step),
        is_raw_session(o, flow.session_id),
    ensures
        ({
            let step = start_step(o, flow, reply);
            &&& is_raw_session(step.after, flow.session_id)
            &&& step.next is Await ==> is_raw_start(step.next->flow.step)
                && step.next->flow.session_id == flow.session_id && !is_for_processing(
                step.next->command,
            )
        }),
{
    match flow.step {
        StartStep::CapturingTarget { .. } => {
            a_start_stays_raw_after_capturing_target(o, flow, reply)
        },
        StartStep::RequestingMicrophone { .. } => {
            a_start_stays_raw_after_requesting_microphone(o, flow, reply)
        },
        StartStep::Preparing { .. } => {
            a_start_stays_raw_after_preparing(o, flow, reply)
        },
        StartStep::ReadingClock { .. } => {
            a_start_stays_raw_after_reading_clock(o, flow, reply)
        },
        StartStep::AnnouncingRecording { .. } => {
            a_start_stays_raw_after_announcing_recording(o, flow, reply)
        },
        StartStep::CancellingCapture { .. } => {
            a_start_stays_raw_after_cancelling_capture(o, flow, reply)
        },
        StartStep::HidingHud { .. } => {
            a_start_stays_raw_after_hiding_hud(o, flow, reply)
        },
        StartStep::Notifying { .. } => {
            a_start_stays_raw_after_notifying(o, flow, reply)
        },
        StartStep::Finishing => {
            a_start_stays_raw_after_finishing(o, flow, reply)
        },
        _ => {},
    }
}

/// Settings in raw mode settle a start for raw mode.
pub proof fn raw_settings_make_a_raw_start(
    o: OrchestratorView,
    session_id: SessionId,
    settings: SettingsSnapshot,
)
    requires
        settings.input.processing_mode == ProcessingMode::Raw,
        is_raw_session(o, session_id),
    ensures
        ({
            let flow = StartFlow { session_id, step: StartStep::LoadingSettings };
            let step = start_step(o, flow, Reply::Settings(Ok(settings)));
            &&& is_raw_session(step.after, session_id)
            &&& step.next is Await ==> is_raw_start(step.next->flow.step)
                && step.next->flow.session_id == session_id && !is_for_processing(
                step.next->command,
            )
        }),
{
}

/// Whether an end tells of the text that was heard, as one that raw mode delivered.
pub open spec fn is_raw_end(end: FinishEnd, heard: Option<String>) -> bool {
    match end {
        FinishEnd::Completed { final_text, direct_delivery_reason, .. } => heard == Some(final_text)
            && direct_delivery_reason == Some(DirectDeliveryReason::RawMode),
        _ => true,
    }
}

/// Whether a delivery is about the text that was heard, as raw mode delivers it.
pub open spec fn is_raw_delivery(delivery: Delivery, heard: Option<String>) -> bool {
    &&& heard == Some(delivery.final_text)
    &&& delivery.direct_delivery_reason == Some(DirectDeliveryReason::RawMode)
}

/// Whether a step of a delivery is about the text that was heard.
pub open spec fn is_raw_delivery_step(step: DeliverStep, heard: Option<String>) -> bool {
    match step {
        DeliverStep::IssuingId { final_text, direct_delivery_reason, .. } => heard == Some(
            final_text,
        ) && direct_delivery_reason == Some(DirectDeliveryReason::RawMode),
        DeliverStep::Announcing { delivery, .. }
        | DeliverStep::Revalidating { delivery }
        | DeliverStep::Inserting { delivery }
        | DeliverStep::RevalidatingBridge { delivery }
        | DeliverStep::PastingAtTarget { delivery }
        | DeliverStep::PastingAtFocus { delivery }
        | DeliverStep::ShowingTemporary { delivery, .. } => is_raw_delivery(delivery, heard),
        DeliverStep::AnnouncingFinalization { delivered }
        | DeliverStep::Copying { delivered }
        | DeliverStep::ReadingClock { delivered }
        | DeliverStep::Saving { delivered }
        | DeliverStep::AnnouncingCompletion { delivered } => is_raw_delivery(
            delivered.delivery,
            heard,
        ),
        DeliverStep::ClosingSession { end, .. } => is_raw_end(end, heard),
    }
}

/// Whether a finish workflow is that of a session in raw mode.
pub open spec fn is_raw_finish(step: FinishStep, heard: Option<String>) -> bool {
    match step {
        FinishStep::FinishingAudio { .. }
        | FinishStep::CancellingEmptyCapture { .. }
        | FinishStep::CancellingFailedCapture { .. }
        | FinishStep::PlayingCue { .. }
        | FinishStep::DiscardingAudio { .. } => true,
        FinishStep::IssuingRecognition { context, .. }
        | FinishStep::AnnouncingRecognition { context, .. }
        | FinishStep::Transcribing { context, .. } => context.processing_route == raw_route(),
        FinishStep::CleaningAudio { context, result, .. } => {
            &&& context.processing_route == raw_route()
            &&& result is Ok ==> heard == Some(result->Ok_0.final_text)
        },
        FinishStep::IssuingProcessing { .. }
        | FinishStep::AnnouncingProcessing { .. }
        | FinishStep::Processing { .. } => false,
        FinishStep::Delivering { step } => is_raw_delivery_step(step, heard),
        FinishStep::ClosingSession { end, .. } => is_raw_end(end, heard),
    }
}

/// What has been heard once an answer is in.
pub open spec fn heard_after(heard: Option<String>, reply: Reply) -> Option<String> {
    match reply {
        Reply::Transcript(Ok(transcript)) => Some(transcript.final_text),
        _ => heard,
    }
}

/// Whether a command has to do with the language model or with a selection.
pub open spec fn is_beyond_raw_mode(command: Command) -> bool {
    command is ProcessText || is_for_processing(command)
}

proof fn a_delivery_stays_raw_after_issuing_id(
    o: OrchestratorView,
    session_id: SessionId,
    step: DeliverStep,
    reply: Reply,
    heard: Option<String>,
)
    requires
        step is IssuingId,
        deliver_awaits(step, reply),
        single_flight(o),
        is_raw_session(o, session_id),
        is_raw_delivery_step(step, heard),
    ensures
        is_raw_session(deliver_step(o, session_id, step, reply).after, session_id),
        match deliver_step(o, session_id, step, reply).next {
            Next::Await { flow, command } => {
                &&& flow.session_id == session_id
                &&& is_raw_delivery_step(flow.step, heard)
                &&& !is_beyond_raw_mode(command)
            },
            Next::Done(end) => is_raw_end(end, heard),
        },
{
}

proof fn a_delivery_stays_raw_after_announcing(
    o: OrchestratorView,
    session_id: SessionId,
    step: DeliverStep,
    reply: Reply,
    heard: Option<String>,
)
    requires
        step is Announcing,
        deliver_awaits(step, reply),
        single_flight(o),
        is_raw_session(o, session_id),
        is_raw_delivery_step(step, heard),
    ensures
        is_raw_session(deliver_step(o, session_id, step, reply).after, session_id),
        match deliver_step(o, session_id, step, reply).next {
            Next::Await { flow, command } => {
                &&& flow.session_id == session_id
                &&& is_raw_delivery_step(flow.step, heard)
                &&& !is_beyond_raw_mode(command)
            },
            Next::Done(end) => is_raw_end(end, heard),
        },
{
}

proof fn a_delivery_stays_raw_after_revalidating(
    o: OrchestratorView,
    session_id: SessionId,
    step: DeliverStep,
    reply: Reply,
    heard: Option<String>,
)
    requires
        step is Revalidating,
        deliver_awaits(step, reply),
        single_flight(o),
        is_raw_session(o, session_id),
        is_raw_delivery_step(step, heard),
    ensures
        is_raw_session(deliver_step(o, session_id, step, reply).after, session_id),
        match deliver_step(o, session_id, step, reply).next {
            Next::Await { flow, command } => {
                &&& flow.session_id == session_id
                &&& is_raw_delivery_step(flow.step, heard)
                &&& !is_beyond_raw_mode(command)
            },
            Next::Done(end) => is_raw_end(end, heard),
        },
{
}

proof fn a_delivery_stays_raw_after_inserting(
    o: OrchestratorView,
    session_id: SessionId,
    step: DeliverStep,
    reply: Reply,
    heard: Option<String>,
)
    requires
        step is Inserting,
        deliver_awaits(step, reply),
        single_flight(o),
        is_raw_session(o, session_id),
        is_raw_delivery_step(step, heard),
    ensures
        is_raw_session(deliver_step(o, session_id, step, reply).after, session_id),
        match deliver_step(o, session_id, step, reply).next {
            Next::Await { flow, command } => {
                &&& flow.session_id == session_id
                &&& is_raw_delivery_step(flow.step, heard)
                &&& !is_beyond_raw_mode(command)
            },
            Next::Done(end) => is_raw_end(end, heard),
        },
{
}

proof fn a_delivery_stays_raw_after_revalidating_bridge(
    o: OrchestratorView,
    session_id: SessionId,
    step: DeliverStep,
    reply: Reply,
    heard: Option<String>,
)
    requires
        step is RevalidatingBridge,
        deliver_awaits(step, reply),
        single_flight(o),
        is_raw_session(o, session_id),
        is_raw_delivery_step(step, heard),
    ensures
        is_raw_session(deliver_step(o, session_id, step, reply).after, session_id),
        match deliver_step(o, session_id, step, reply).next {
            Next::Await { flow, command } => {
                &&& flow.session_id == session_id
                &&& is_raw_delivery_step(flow.step, heard)
                &&& !is_beyond_raw_mode(command)
            },
            Next::Done(end) => is_raw_end(end, heard),
        },
{
}

proof fn a_delivery_stays_raw_after_pasting_at_target(
    o: OrchestratorView,
    session_id: SessionId,
    step: DeliverStep,
    reply: Reply,
    heard: Option<String>,
)
    requires
        step is PastingAtTarget,
        deliver_awaits(step, reply),
        single_flight(o),
        is_raw_session(o, session_id),
        is_raw_delivery_step(step, heard),
    ensures
        is_raw_session(deliver_step(o, session_id, step, reply).after, session_id),
        match deliver_step(o, session_id, step, reply).next {
            Next::Await { flow, command } => {
                &&& flow.session_id == session_id
                &&& is_raw_delivery_step(flow.step, heard)
                &&& !is_beyond_raw_mode(command)
            },
            Next::Done(end) => is_raw_end(end, heard),
        },
{
}

proof fn a_delivery_stays_raw_after_pasting_at_focus(
    o: OrchestratorView,
    session_id: SessionId,
    step: DeliverStep,
    reply: Reply,
    heard: Option<String>,
)
    requires
        step is PastingAtFocus,
        deliver_awaits(step, reply),
        single_flight(o),
        is_raw_session(o, session_id),
        is_raw_delivery_step(step, heard),
    ensures
        is_raw_session(deliver_step(o, session_id, step, reply).after, session_id),
        match deliver_step(o, session_id, step, reply).next {
            Next::Await { flow, command } => {
                &&& flow.session_id == session_id
                &&& is_raw_delivery_step(flow.step, heard)
                &&& !is_beyond_raw_mode(command)
            },
            Next::Done(end) => is_raw_end(end, heard),
        },
{
}

proof fn a_delivery_stays_raw_after_showing_temporary(
    o: OrchestratorView,
    session_id: SessionId,
    step: DeliverStep,
    reply: Reply,
    heard: Option<String>,
)
    requires
        step is ShowingTemporary,
        deliver_awaits(step, reply),
        single_flight(o),
        is_raw_session(o, session_id),
        is_raw_delivery_step(step, heard),
    ensures
        is_raw_session(deliver_step(o, session_id, step, reply).after, session_id),
        match deliver_step(o, session_id, step, reply).next {
            Next::Await { flow, command } => {
                &&& flow.session_id == session_id
                &&& is_raw_delivery_step(flow.step, heard)
                &&& !is_beyond_raw_mode(command)
            },
            Next::Done(end) => is_raw_end(end, heard),
        },
{
}

proof fn a_delivery_stays_raw_after_announcing_finalization(
    o: OrchestratorView,
    session_id: SessionId,
    step: DeliverStep,
    reply: Reply,
    heard: Option<String>,
)
    requires
        step is AnnouncingFinalization,
        deliver_awaits(step, reply),
        single_flight(o),
        is_raw_session(o, session_id),
        is_raw_delivery_step(step, heard),
    ensures
        is_raw_session(deliver_step(o, session_id, step, reply).after, session_id),
        match deliver_step(o, session_id, step, reply).next {
            Next::Await { flow, command } => {
                &&& flow.session_id == session_id
                &&& is_raw_delivery_step(flow.step, heard)
                &&& !is_beyond_raw_mode(command)
            },
            Next::Done(end) => is_raw_end(end, heard),
        },
{
}

proof fn a_delivery_stays_raw_after_copying(
    o: OrchestratorView,
    session_id: SessionId,
    step: DeliverStep,
    reply: Reply,
    heard: Option<String>,
)
    requires
        step is Copying,
        deliver_awaits(step, reply),
        single_flight(o),
        is_raw_session(o, session_id),
        is_raw_delivery_step(step, heard),
    ensures
        is_raw_session(deliver_step(o, session_id, step, reply).after, session_id),
        match deliver_step(o, session_id, step, reply).next {
            Next::Await { flow, command } => {
                &&& flow.session_id == session_id
                &&& is_raw_delivery_step(flow.step, heard)
                &&& !is_beyond_raw_mode(command)
            },
            Next::Done(end) => is_raw_end(end, heard),
        },
{
}

proof fn a_delivery_stays_raw_after_reading_clock(
    o: OrchestratorView,
    session_id: SessionId,
    step: DeliverStep,
    reply: Reply,
    heard: Option<String>,
)
    requires
        step is ReadingClock,
        deliver_awaits(step, reply),
        single_flight(o),
        is_raw_session(o, session_id),
        is_raw_delivery_step(step, heard),
    ensures
        is_raw_session(deliver_step(o, session_id, step, reply).after, session_id),
        match deliver_step(o, session_id, step, reply).next {
            Next::Await { flow, command } => {
                &&& flow.session_id == session_id
                &&& is_raw_delivery_step(flow.step, heard)
                &&& !is_beyond_raw_mode(command)
            },
            Next::Done(end) => is_raw_end(end, heard),
        },
{
}

proof fn a_delivery_stays_raw_after_saving(
    o: OrchestratorView,
    session_id: SessionId,
    step: DeliverStep,
    reply: Reply,
    heard: Option<String>,
)
    requires
        step is Saving,
        deliver_awaits(step, reply),
        single_flight(o),
        is_raw_session(o, session_id),
        is_raw_delivery_step(step, heard),
    ensures
        is_raw_session(deliver_step(o, session_id, step, reply).after, session_id),
        match deliver_step(o, session_id, step, reply).next {
            Next::Await { flow, command } => {
                &&& flow.session_id == session_id
                &&& is_raw_delivery_step(flow.step, heard)
                &&& !is_beyond_raw_mode(command)
            },
            Next::Done(end) => is_raw_end(end, heard),
        },
{
}

proof fn a_delivery_stays_raw_after_announcing_completion(
    o: OrchestratorView,
    session_id: SessionId,
    step: DeliverStep,
    reply: Reply,
    heard: Option<String>,
)
    requires
        step is AnnouncingCompletion,
        deliver_awaits(step, reply),
        single_flight(o),
        is_raw_session(o, session_id),
        is_raw_delivery_step(step, heard),
    ensures
        is_raw_session(deliver_step(o, session_id, step, reply).after, session_id),
        match deliver_step(o, session_id, step, reply).next {
            Next::Await { flow, command } => {
                &&& flow.session_id == session_id
                &&& is_raw_delivery_step(flow.step, heard)
                &&& !is_beyond_raw_mode(command)
            },
            Next::Done(end) => is_raw_end(end, heard),
        },
{
}

proof fn a_delivery_stays_raw_after_closing_session(
    o: OrchestratorView,
    session_id: SessionId,
    step: DeliverStep,
    reply: Reply,
    heard: Option<String>,
)
    requires
        step is ClosingSession,
        deliver_awaits(step, reply),
        single_flight(o),
        is_raw_session(o, session_id),
        is_raw_delivery_step(step, heard),
    ensures
        is_raw_session(deliver_step(o, session_id, step, reply).after, session_id),
        match deliver_step(o, session_id, step, reply).next {
            Next::Await { flow, command } => {
                &&& flow.session_id == session_id
                &&& is_raw_delivery_step(flow.step, heard)
                &&& !is_beyond_raw_mode(command)
            },
            Next::Done(end) => is_raw_end(end, heard),
        },
{
}

proof fn a_raw_delivery_stays_raw(
    o: OrchestratorView,
    session_id: SessionId,
    step: DeliverStep,
    reply: Reply,
    heard: Option<String>,
)
    requires
        deliver_awaits(step, reply),
        single_flight(o),
        is_raw_session(o, session_id),
        is_raw_delivery_step(step, heard),
    ensures
        is_raw_session(deliver_step(o, session_id, step, reply).after, session_id),
        match deliver_step(o, session_id, step, reply).next {
            Next::Await { flow, command } => {
                &&& flow.session_id == session_id
                &&& is_raw_delivery_step(flow.step, heard)
                &&& !is_beyond_raw_mode(command)
            },
            Next::Done(end) => is_raw_end(end, heard),
        },
{
    match step {
        DeliverStep::IssuingId { .. } => {
            a_delivery_stays_raw_after_issuing_id(o, session_id, step, reply, heard)
        },
        DeliverStep::Announcing { .. } => {
            a_delivery_stays_raw_after_announcing(o, session_id, step, reply, heard)
        },
        DeliverStep::Revalidating { .. } => {
            a_delivery_stays_raw_after_revalidating(o, session_id, step, reply, heard)
        },
        DeliverStep::Inserting { .. } => {
            a_delivery_stays_raw_after_inserting(o, session_id, step, reply, heard)
        },
        DeliverStep::RevalidatingBridge { .. } => {
            a_delivery_stays_raw_after_revalidating_bridge(o, session_id, step, reply, heard)
        },
        DeliverStep::PastingAtTarget { .. } => {
            a_delivery_stays_raw_after_pasting_at_target(o, session_id, step, reply, heard)
        },
        DeliverStep::PastingAtFocus { .. } => {
            a_delivery_stays_raw_after_pasting_at_focus(o, session_id, step, reply, heard)
        },
        DeliverStep::ShowingTemporary { .. } => {
            a_delivery_stays_raw_after_showing_temporary(o, session_id, step, reply, heard)
        },
        DeliverStep::AnnouncingFinalization { .. } => {
            a_delivery_stays_raw_after_announcing_finalization(o, session_id, step, reply, heard)
        },
        DeliverStep::Copying { .. } => {
            a_delivery_stays_raw_after_copying(o, session_id, step, reply, heard)
        },
        DeliverStep::ReadingClock { .. } => {
            a_delivery_stays_raw_after_reading_clock(o, session_id, step, reply, heard)
        },
        DeliverStep::Saving { .. } => {
            a_delivery_stays_raw_after_saving(o, session_id, step, reply, heard)
        },
        DeliverStep::AnnouncingCompletion { .. } => {
            a_delivery_stays_raw_after_announcing_completion(o, session_id, step, reply, heard)
        },
        DeliverStep::ClosingSession { .. } => {
            a_delivery_stays_raw_after_closing_session(o, session_id, step, reply, heard)
        },
    }
}

proof fn a_finish_stays_raw_after_finishing_audio(
    o: OrchestratorView,
    flow: FinishFlow,
    reply: Reply,
    heard: Option<String>,
)
    requires
        flow.step is FinishingAudio,
        finish_awaits(flow.step, reply),
        single_flight(o),
        is_raw_session(o, flow.session_id),
        is_raw_finish(flow.step, heard),
    ensures
        is_raw_session(finish_step(o, flow, reply).after, flow.session_id),
        match finish_step(o, flow, reply).next {
            Next::Await { flow: then, command } => {
                &&& then.session_id == flow.session_id
                &&& is_raw_finish(then.step, heard_after(heard, reply))
                &&& !is_beyond_raw_mode(command)
            },
            Next::Done(end) => is_raw_end(end, heard_after(heard, reply)),
        },
{
}

proof fn a_finish_stays_raw_after_cancelling_empty_capture(
    o: OrchestratorView,
    flow: FinishFlow,
    reply: Reply,
    heard: Option<String>,
)
    requires
        flow.step is CancellingEmptyCapture,
        finish_awaits(flow.step, reply),
        single_flight(o),
        is_raw_session(o, flow.session_id),
        is_raw_finish(flow.step, heard),
    ensures
        is_raw_session(finish_step(o, flow, reply).after, flow.session_id),
        match finish_step(o, flow, reply).next {
            Next::Await { flow: then, command } => {
                &&& then.session_id == flow.session_id
                &&& is_raw_finish(then.step, heard_after(heard, reply))
                &&& !is_beyond_raw_mode(command)
            },
            Next::Done(end) => is_raw_end(end, heard_after(heard, reply)),
        },
{
}

proof fn a_finish_stays_raw_after_cancelling_failed_capture(
    o: OrchestratorView,
    flow: FinishFlow,
    reply: Reply,
    heard: Option<String>,
)
    requires
        flow.step is CancellingFailedCapture,
        finish_awaits(flow.step, reply),
        single_flight(o),
        is_raw_session(o, flow.session_id),
        is_raw_finish(flow.step, heard),
    ensures
        is_raw_session(finish_step(o, flow, reply).after, flow.session_id),
        match finish_step(o, flow, reply).next {
            Next::Await { flow: then, command } => {
                &&& then.session_id == flow.session_id
                &&& is_raw_finish(then.step, heard_after(heard, reply))
                &&& !is_beyond_raw_mode(command)
            },
            Next::Done(end) => is_raw_end(end, heard_after(heard, reply)),
        },
{
}

proof fn a_finish_stays_raw_after_playing_cue(
    o: OrchestratorView,
    flow: FinishFlow,
    reply: Reply,
    heard: Option<String>,
)
    requires
        flow.step is PlayingCue,
        finish_awaits(flow.step, reply),
        single_flight(o),
        is_raw_session(o, flow.session_id),
        is_raw_finish(flow.step, heard),
    ensures
        is_raw_session(finish_step(o, flow, reply).after, flow.session_id),
        match finish_step(o, flow, reply).next {
            Next::Await { flow: then, command } => {
                &&& then.session_id == flow.session_id
                &&& is_raw_finish(then.step, heard_after(heard, reply))
                &&& !is_beyond_raw_mode(command)
            },
            Next::Done(end) => is_raw_end(end, heard_after(heard, reply)),
        },
{
}

proof fn a_finish_stays_raw_after_discarding_audio(
    o: OrchestratorView,
    flow: FinishFlow,
    reply: Reply,
    heard: Option<String>,
)
    requires
        flow.step is DiscardingAudio,
        finish_awaits(flow.step, reply),
        single_flight(o),
        is_raw_session(o, flow.session_id),
        is_raw_finish(flow.step, heard),
    ensures
        is_raw_session(finish_step(o, flow, reply).after, flow.session_id),
        match finish_step(o, flow, reply).next {
            Next::Await { flow: then, command } => {
                &&& then.session_id == flow.session_id
                &&& is_raw_finish(then.step, heard_after(heard, reply))
                &&& !is_beyond_raw_mode(command)
            },
            Next::Done(end) => is_raw_end(end, heard_after(heard, reply)),
        },
{
}

proof fn a_finish_stays_raw_after_issuing_recognition(
    o: OrchestratorView,
    flow: FinishFlow,
    reply: Reply,
    heard: Option<String>,
)
    requires
        flow.step is IssuingRecognition,
        finish_awaits(flow.step, reply),
        single_flight(o),
        is_raw_session(o, flow.session_id),
        is_raw_finish(flow.step, heard),
    ensures
        is_raw_session(finish_step(o, flow, reply).after, flow.session_id),
        match finish_step(o, flow, reply).next {
            Next::Await { flow: then, command } => {
                &&& then.session_id == flow.session_id
                &&& is_raw_finish(then.step, heard_after(heard, reply))
                &&& !is_beyond_raw_mode(command)
            },
            Next::Done(end) => is_raw_end(end, heard_after(heard, reply)),
        },
{
}

proof fn a_finish_stays_raw_after_announcing_recognition(
    o: OrchestratorView,
    flow: FinishFlow,
    reply: Reply,
    heard: Option<String>,
)
    requires
        flow.step is AnnouncingRecognition,
        finish_awaits(flow.step, reply),
        single_flight(o),
        is_raw_session(o, flow.session_id),
        is_raw_finish(flow.step, heard),
    ensures
        is_raw_session(finish_step(o, flow, reply).after, flow.session_id),
        match finish_step(o, flow, reply).next {
            Next::Await { flow: then, command } => {
                &&& then.session_id == flow.session_id
                &&& is_raw_finish(then.step, heard_after(heard, reply))
                &&& !is_beyond_raw_mode(command)
            },
            Next::Done(end) => is_raw_end(end, heard_after(heard, reply)),
        },
{
}

proof fn a_finish_stays_raw_after_transcribing(
    o: OrchestratorView,
    flow: FinishFlow,
    reply: Reply,
    heard: Option<String>,
)
    requires
        flow.step is Transcribing,
        finish_awaits(flow.step, reply),
        single_flight(o),
        is_raw_session(o, flow.session_id),
        is_raw_finish(flow.step, heard),
    ensures
        is_raw_session(finish_step(o, flow, reply).after, flow.session_id),
        match finish_step(o, flow, reply).next {
            Next::Await { flow: then, command } => {
                &&& then.session_id == flow.session_id
                &&& is_raw_finish(then.step, heard_after(heard, reply))
                &&& !is_beyond_raw_mode(command)
            },
            Next::Done(end) => is_raw_end(end, heard_after(heard, reply)),
        },
{
}

proof fn a_finish_stays_raw_after_cleaning_audio(
    o: OrchestratorView,
    flow: FinishFlow,
    reply: Reply,
    heard: Option<String>,
)
    requires
        flow.step is CleaningAudio,
        finish_awaits(flow.step, reply),
        single_flight(o),
        is_raw_session(o, flow.session_id),
        is_raw_finish(flow.step, heard),
    ensures
        is_raw_session(finish_step(o, flow, reply).after, flow.session_id),
        match finish_step(o, flow, reply).next {
            Next::Await { flow: then, command } => {
                &&& then.session_id == flow.session_id
                &&& is_raw_finish(then.step, heard_after(heard, reply))
                &&& !is_beyond_raw_mode(command)
            },
            Next::Done(end) => is_raw_end(end, heard_after(heard, reply)),
        },
{
}

proof fn a_finish_stays_raw_after_delivering(
    o: OrchestratorView,
    flow: FinishFlow,
    reply: Reply,
    heard: Option<String>,
)
    requires
        flow.step is Delivering,
        finish_awaits(flow.step, reply),
        single_flight(o),
        is_raw_session(o, flow.session_id),
        is_raw_finish(flow.step, heard),
    ensures
        is_raw_session(finish_step(o, flow, reply).after, flow.session_id),
        match finish_step(o, flow, reply).next {
            Next::Await { flow: then, command } => {
                &&& then.session_id == flow.session_id
                &&& is_raw_finish(then.step, heard_after(heard, reply))
                &&& !is_beyond_raw_mode(command)
            },
            Next::Done(end) => is_raw_end(end, heard_after(heard, reply)),
        },
{
    a_raw_delivery_stays_raw(
        o,
        flow.session_id,
        flow.step->Delivering_step,
        reply,
        heard,
    );
}

proof fn a_finish_stays_raw_after_closing_session(
    o: OrchestratorView,
    flow: FinishFlow,
    reply: Reply,
    heard: Option<String>,
)
    requires
        flow.step is ClosingSession,
        finish_awaits(flow.step, reply),
        single_flight(o),
        is_raw_session(o, flow.session_id),
        is_raw_finish(flow.step, heard),
    ensures
        is_raw_session(finish_step(o, flow, reply).after, flow.session_id),
        match finish_step(o, flow, reply).next {
            Next::Await { flow: then, command } => {
                &&& then.session_id == flow.session_id
                &&& is_raw_finish(then.step, heard_after(heard, reply))
                &&& !is_beyond_raw_mode(command)
            },
            Next::Done(end) => is_raw_end(end, heard_after(heard, reply)),
        },
{
}

/// A finish workflow of a session in raw mode stays one: it has nothing to do with the
/// language model, and what it delivers is what was heard.
pub proof fn a_raw_finish_stays_raw(
    o: OrchestratorView,
    flow: FinishFlow,
    reply: Reply,
    heard: Option<String>,
)
    requires
        finish_awaits(flow.step, reply),
        single_flight(o),
        is_raw_session(o, flow.session_id),
        is_raw_finish(flow.step, heard),
    ensures
        is_raw_session(finish_step(o, flow, reply).after, flow.session_id),
        match finish_step(o, flow, reply).next {
            Next::Await { flow: then, command } => {
                &&& then.session_id == flow.session_id
                &&& is_raw_finish(then.step, heard_after(heard, reply))
                &&& !is_beyond_raw_mode(command)
            },
            Next::Done(end) => is_raw_end(end, heard_after(heard, reply)),
        },
{
    match flow.step {
        FinishStep::FinishingAudio { .. } => {
            a_finish_stays_raw_after_finishing_audio(o, flow, reply, heard)
        },
        FinishStep::CancellingEmptyCapture { .. } => {
            a_finish_stays_raw_after_cancelling_empty_capture(o, flow, reply, heard)
        },
        FinishStep::CancellingFailedCapture { .. } => {
            a_finish_stays_raw_after_cancelling_failed_capture(o, flow, reply, heard)
        },
        FinishStep::PlayingCue { .. } => {
            a_finish_stays_raw_after_playing_cue(o, flow, reply, heard)
        },
        FinishStep::DiscardingAudio { .. } => {
            a_finish_stays_raw_after_discarding_audio(o, flow, reply, heard)
        },
        FinishStep::IssuingRecognition { .. } => {
            a_finish_stays_raw_after_issuing_recognition(o, flow, reply, heard)
        },
        FinishStep::AnnouncingRecognition { .. } => {
            a_finish_stays_raw_after_announcing_recognition(o, flow, reply, heard)
        },
        FinishStep::Transcribing { .. } => {
            a_finish_stays_raw_after_transcribing(o, flow, reply, heard)
        },
        FinishStep::CleaningAudio { .. } => {
            a_finish_stays_raw_after_cleaning_audio(o, flow, reply, heard)
        },
        FinishStep::Delivering { .. } => {
            a_finish_stays_raw_after_delivering(o, flow, reply, heard)
        },
        FinishStep::ClosingSession { .. } => {
            a_finish_stays_raw_after_closing_session(o, flow, reply, heard)
        },
        _ => {},
    }
}

/// What a finish workflow comes to, if it comes to an end.
pub open spec fn finish_comes_to(flow: FinishFlow, turns: Seq<Turn>) -> Option<FinishEnd>
    decreases turns.len(),
{
    if turns.len() == 0 {
        None
    } else {
        match finish_step(turns[0].state, flow, turns[0].reply).next {
            Next::Await { flow, .. } => finish_comes_to(flow, turns.drop_first()),
            Next::Done(end) => Some(end),
        }
    }
}

/// Whether every state that a workflow meets is one in which its session has frozen raw
/// mode, where it has a place at all.
pub open spec fn meets_raw_mode(session_id: SessionId, turns: Seq<Turn>) -> bool {
    forall|i: int|
        0 <= i < turns.len() ==> single_flight((#[trigger] turns[i]).state) && is_raw_session(
            turns[i].state,
            session_id,
        )
}

/// Whether a text is one that the recogniser answered with.
pub open spec fn was_heard(turns: Seq<Turn>, text: String) -> bool {
    exists|i: int|
        0 <= i < turns.len() && (#[trigger] turns[i]).reply is Transcript
            && turns[i].reply->Transcript_0 is Ok && turns[i].reply->Transcript_0->Ok_0.final_text
            == text
}

/// Whether none of the commands has to do with the language model or with a selection.
pub open spec fn keeps_to_raw_mode(commands: Seq<Command>) -> bool {
    forall|i: int| 0 <= i < commands.len() ==> !is_beyond_raw_mode(#[trigger] commands[i])
}

proof fn a_raw_finish_runs_raw(flow: FinishFlow, turns: Seq<Turn>, heard: Option<String>)
    requires
        finish_answered(flow, turns),
        is_raw_finish(flow.step, heard),
        meets_raw_mode(flow.session_id, turns),
    ensures
        keeps_to_raw_mode(finish_run(flow, turns)),
        match finish_comes_to(flow, turns) {
            Some(FinishEnd::Completed { final_text, direct_delivery_reason, .. }) => {
                &&& direct_delivery_reason == Some(DirectDeliveryReason::RawMode)
                &&& heard == Some(final_text) || was_heard(turns, final_text)
            },
            _ => true,
        },
    decreases turns.len(),
{
    if turns.len() > 0 {
        let rest = turns.drop_first();
        a_raw_finish_stays_raw(turns[0].state, flow, turns[0].reply, heard);
        assert forall|i: int| 0 <= i < rest.len() implies single_flight((#[trigger] rest[i]).state)
            && is_raw_session(rest[i].state, flow.session_id) by {
            assert(rest[i] == turns[i + 1]);
        }
        match finish_step(turns[0].state, flow, turns[0].reply).next {
            Next::Await { flow: then, command } => {
                a_raw_finish_runs_raw(then, rest, heard_after(heard, turns[0].reply));
                let all = seq![command] + finish_run(then, rest);
                assert forall|i: int| 0 <= i < all.len() implies !is_beyond_raw_mode(
                    #[trigger] all[i],
                ) by {
                    if i > 0 {
                        assert(all[i] == finish_run(then, rest)[i - 1]);
                    }
                }
                match finish_comes_to(flow, turns) {
                    Some(FinishEnd::Completed { final_text, .. }) => {
                        if was_heard(rest, final_text) {
                            let i = choose|i: int|
                                0 <= i < rest.len() && (#[trigger] rest[i]).reply is Transcript
                                    && rest[i].reply->Transcript_0 is Ok
                                    && rest[i].reply->Transcript_0->Ok_0.final_text == final_text;
                            assert(turns[i + 1] == rest[i]);
                        }
                    },
                    _ => {},
                }
            },
            Next::Done(_) => {},
        }
    }
}

/// Whether other workflows leave a session its choices, where they leave it its place.
pub open spec fn leaves_choices(
    before: OrchestratorView,
    after: OrchestratorView,
    session_id: SessionId,
) -> bool {
    &&& single_flight(after)
    &&& choices(after) is Some && choices(after)->0.session_id == session_id ==> choices(after)
        == choices(before)
}

/// Whether each state that a start meets is what others have left of the state before.
pub open spec fn start_is_linked(flow: StartFlow, turns: Seq<Turn>) -> bool
    decreases turns.len(),
{
    turns.len() == 0 || match start_step(turns[0].state, flow, turns[0].reply).next {
        Next::Await { flow: then, .. } => {
            &&& turns.len() > 1 ==> leaves_choices(
                start_step(turns[0].state, flow, turns[0].reply).after,
                turns[1].state,
                flow.session_id,
            )
            &&& start_is_linked(then, turns.drop_first())
        },
        Next::Done(_) => turns.len() == 1,
    }
}

/// The shared state that the last step of a start leaves.
pub open spec fn start_leaves(flow: StartFlow, turns: Seq<Turn>) -> OrchestratorView
    decreases turns.len(),
{
    let step = start_step(turns[0].state, flow, turns[0].reply);
    if turns.len() <= 1 {
        step.after
    } else {
        match step.next {
            Next::Await { flow: then, .. } => start_leaves(then, turns.drop_first()),
            Next::Done(_) => step.after,
        }
    }
}

/// Whether each state that a finish workflow meets is what others have left of the state
/// before.
pub open spec fn finish_is_linked(flow: FinishFlow, turns: Seq<Turn>) -> bool
    decreases turns.len(),
{
    turns.len() == 0 || match finish_step(turns[0].state, flow, turns[0].reply).next {
        Next::Await { flow: then, .. } => {
            &&& turns.len() > 1 ==> leaves_choices(
                finish_step(turns[0].state, flow, turns[0].reply).after,
                turns[1].state,
                flow.session_id,
            )
            &&& finish_is_linked(then, turns.drop_first())
        },
        Next::Done(_) => turns.len() == 1,
    }
}

/// A start that has settled for raw mode leaves a session that has frozen it.
proof fn a_raw_start_leaves_raw_mode(flow: StartFlow, turns: Seq<Turn>)
    requires
        turns.len() > 0,
        start_answered(flow, turns),
        start_is_linked(flow, turns),
        is_raw_start(flow.step),
        single_flight(turns[0].state),
        is_raw_session(turns[0].state, flow.session_id),
    ensures
        is_raw_session(start_leaves(flow, turns), flow.session_id),
    decreases turns.len(),
{
    a_raw_start_stays_raw(turns[0].state, flow, turns[0].reply);
    if turns.len() > 1 {
        match start_step(turns[0].state, flow, turns[0].reply).next {
            Next::Await { flow: then, .. } => {
                assert(turns.drop_first()[0] == turns[1]);
                a_raw_start_leaves_raw_mode(then, turns.drop_first());
            },
            Next::Done(_) => {},
        }
    }
}

proof fn a_linked_finish_meets_raw_mode(flow: FinishFlow, turns: Seq<Turn>, heard: Option<String>)
    requires
        finish_answered(flow, turns),
        finish_is_linked(flow, turns),
        is_raw_finish(flow.step, heard),
        turns.len() > 0 ==> single_flight(turns[0].state) && is_raw_session(
            turns[0].state,
            flow.session_id,
        ),
    ensures
        meets_raw_mode(flow.session_id, turns),
    decreases turns.len(),
{
    if turns.len() > 0 {
        let rest = turns.drop_first();
        a_raw_finish_stays_raw(turns[0].state, flow, turns[0].reply, heard);
        match finish_step(turns[0].state, flow, turns[0].reply).next {
            Next::Await { flow: then, .. } => {
                assert(rest.len() > 0 ==> rest[0] == turns[1]);
                a_linked_finish_meets_raw_mode(then, rest, heard_after(heard, turns[0].reply));
            },
            Next::Done(_) => {},
        }
        assert forall|i: int| 0 <= i < turns.len() implies single_flight(
            (#[trigger] turns[i]).state,
        ) && is_raw_session(turns[i].state, flow.session_id) by {
            if i > 0 {
                assert(turns[i] == rest[i - 1]);
            }
        }
    }
}

/// Raw mode, from the settings of a start to the end of the finish, whatever the
/// surroundings answer and whatever other workflows do in between: nobody asks about the
/// language model, hands it a text or reads a selection. A completion carries a text that
/// the recogniser answered with, and says that raw mode delivered it.
pub proof fn raw_mode_stays_local_over_the_whole_session(
    session_id: SessionId,
    settings: SettingsSnapshot,
    starting: Seq<Turn>,
    finishing: Seq<Turn>,
    finish: FinishFlow,
)
    requires
        settings.input.processing_mode == ProcessingMode::Raw,
        starting.len() > 0,
        starting[0].reply == Reply::Settings(Ok(settings)),
        single_flight(starting[0].state),
        starting[0].state.starting == Some(session_id),
        start_answered(StartFlow { session_id, step: StartStep::LoadingSettings }, starting),
        start_is_linked(StartFlow { session_id, step: StartStep::LoadingSettings }, starting),
        finish.session_id == session_id,
        finish.step is FinishingAudio,
        finish_answered(finish, finishing),
        finish_is_linked(finish, finishing),
        finishing.len() > 0 ==> leaves_choices(
            start_leaves(StartFlow { session_id, step: StartStep::LoadingSettings }, starting),
            finishing[0].state,
            session_id,
        ),
    ensures
        stays_local(
            start_run(StartFlow { session_id, step: StartStep::LoadingSettings }, starting),
        ),
        keeps_to_raw_mode(finish_run(finish, finishing)),
        match finish_comes_to(finish, finishing) {
            Some(FinishEnd::Completed { final_text, direct_delivery_reason, .. }) => {
                &&& was_heard(finishing, final_text)
                &&& direct_delivery_reason == Some(DirectDeliveryReason::RawMode)
            },
            _ => true,
        },
{
    let flow = StartFlow { session_id, step: StartStep::LoadingSettings };
    raw_mode_stays_local(session_id, settings, starting);
    raw_settings_make_a_raw_start(starting[0].state, session_id, settings);
    if starting.len() > 1 {
        match start_step(starting[0].state, flow, starting[0].reply).next {
            Next::Await { flow: then, .. } => {
                assert(starting.drop_first()[0] == starting[1]);
                a_raw_start_leaves_raw_mode(then, starting.drop_first());
            },
            Next::Done(_) => {},
        }
    }
    a_linked_finish_meets_raw_mode(finish, finishing, None);
    a_raw_finish_runs_raw(finish, finishing, None);
}

/// What the run of another workflow leaves a session: every step that keeps the slot, and
/// every step of another start, leaves it its choices.
pub proof fn others_leave_a_session_its_choices(
    before: OrchestratorView,
    after: OrchestratorView,
    session_id: SessionId,
    under_way: Set<SessionId>,
    flow: StartFlow,
    step: StartMove,
)
    ensures
        keeps_slot(before, after, under_way) && single_flight(after) ==> leaves_choices(
            before,
            after,
            session_id,
        ),
        start_keeps_slot(before, flow, step, under_way) && single_flight(step.after)
            && flow.session_id != session_id ==> leaves_choices(before, step.after, session_id),
{
}

} // verus!
