//! Every question that a workflow asks can be answered: whatever is of the kind
//! that a command asks for is what the workflow waits for.

use crate::domain::SessionId;
use crate::orchestrator::cancel::{cancel_begin, cancel_step, CancelFlow, CancelResult};
use crate::orchestrator::deliver::{
    deliver_awaits, deliver_step, DeliverFlow, DeliverStep, FinishEnd,
};
use crate::orchestrator::finish::{
    finish_awaits, finish_begin, finish_step, FinishFlow, FinishStep,
};
use crate::orchestrator::prepare::{
    prepare_awaits, prepare_step, PrepareFlow, PrepareResult, PrepareStep,
};
use crate::orchestrator::protocol::{answers, Command, Next, Reply};
use crate::orchestrator::quit::{quit_awaits, quit_begin, quit_step, QuitFlow, QuitResult};
use crate::orchestrator::retry::{retry_begin, retry_step, RetryFlow, RetryResult};
use crate::orchestrator::start::{
    start_awaits, start_begin, start_step, StartFlow, StartResult, StartStep,
};
use crate::orchestrator::state::OrchestratorView;
use crate::ports::RecordingCue;
use vstd::prelude::*;

verus! {

/// Whether a start that asks something takes this answer, if it is one.
pub open spec fn start_takes(next: Next<StartFlow, StartResult>, answer: Reply) -> bool {
    next is Await && answers(answer, next->command) ==> start_awaits(next->flow.step, answer)
}

/// Whether a preparation that asks something takes this answer, if it is one.
pub open spec fn prepare_takes(next: Next<PrepareFlow, PrepareResult>, answer: Reply) -> bool {
    next is Await && answers(answer, next->command) ==> prepare_awaits(next->flow.step, answer)
}

/// Whether a finish workflow that asks something takes this answer, if it is one.
pub open spec fn finish_takes(next: Next<FinishFlow, FinishEnd>, answer: Reply) -> bool {
    next is Await && answers(answer, next->command) ==> finish_awaits(next->flow.step, answer)
}

/// Whether a delivery that asks something takes this answer, if it is one.
pub open spec fn deliver_takes(next: Next<DeliverFlow, FinishEnd>, answer: Reply) -> bool {
    next is Await && answers(answer, next->command) ==> deliver_awaits(next->flow.step, answer)
}

/// Whether a cancellation that asks something takes this answer, if it is one.
pub open spec fn cancel_takes(next: Next<CancelFlow, CancelResult>, answer: Reply) -> bool {
    next is Await && answers(answer, next->command) ==> answer is Acted
}

/// Whether a retry that asks something takes this answer, if it is one.
pub open spec fn retry_takes(next: Next<RetryFlow, RetryResult>, answer: Reply) -> bool {
    next is Await && answers(answer, next->command) ==> answer is Acted
}

/// Whether an exit that asks something takes this answer, if it is one.
pub open spec fn quit_takes(next: Next<QuitFlow, QuitResult>, answer: Reply) -> bool {
    next is Await && answers(answer, next->command) ==> quit_awaits(next->flow.step, answer)
}

proof fn start_asks_after_acquiring_gate(
    o: OrchestratorView,
    flow: StartFlow,
    reply: Reply,
    answer: Reply,
)
    requires
        flow.step is AcquiringGate,
        start_awaits(flow.step, reply),
    ensures
        start_takes(start_step(o, flow, reply).next, answer),
{
}

proof fn start_asks_after_loading_settings(
    o: OrchestratorView,
    flow: StartFlow,
    reply: Reply,
    answer: Reply,
)
    requires
        flow.step is LoadingSettings,
        start_awaits(flow.step, reply),
    ensures
        start_takes(start_step(o, flow, reply).next, answer),
{
}

proof fn start_asks_after_resolving_route(
    o: OrchestratorView,
    flow: StartFlow,
    reply: Reply,
    answer: Reply,
)
    requires
        flow.step is ResolvingRoute,
        start_awaits(flow.step, reply),
    ensures
        start_takes(start_step(o, flow, reply).next, answer),
{
}

proof fn start_asks_after_capturing_target(
    o: OrchestratorView,
    flow: StartFlow,
    reply: Reply,
    answer: Reply,
)
    requires
        flow.step is CapturingTarget,
        start_awaits(flow.step, reply),
    ensures
        start_takes(start_step(o, flow, reply).next, answer),
{
}

proof fn start_asks_after_reading_selection(
    o: OrchestratorView,
    flow: StartFlow,
    reply: Reply,
    answer: Reply,
)
    requires
        flow.step is ReadingSelection,
        start_awaits(flow.step, reply),
    ensures
        start_takes(start_step(o, flow, reply).next, answer),
{
}

proof fn start_asks_after_reading_clipboard_selection(
    o: OrchestratorView,
    flow: StartFlow,
    reply: Reply,
    answer: Reply,
)
    requires
        flow.step is ReadingClipboardSelection,
        start_awaits(flow.step, reply),
    ensures
        start_takes(start_step(o, flow, reply).next, answer),
{
}

proof fn start_asks_after_requesting_microphone(
    o: OrchestratorView,
    flow: StartFlow,
    reply: Reply,
    answer: Reply,
)
    requires
        flow.step is RequestingMicrophone,
        start_awaits(flow.step, reply),
    ensures
        start_takes(start_step(o, flow, reply).next, answer),
{
}

proof fn start_asks_after_preparing(
    o: OrchestratorView,
    flow: StartFlow,
    reply: Reply,
    answer: Reply,
)
    requires
        flow.step is Preparing,
        start_awaits(flow.step, reply),
    ensures
        start_takes(start_step(o, flow, reply).next, answer),
{
}

proof fn start_asks_after_reading_clock(
    o: OrchestratorView,
    flow: StartFlow,
    reply: Reply,
    answer: Reply,
)
    requires
        flow.step is ReadingClock,
        start_awaits(flow.step, reply),
    ensures
        start_takes(start_step(o, flow, reply).next, answer),
{
}

proof fn start_asks_after_announcing_recording(
    o: OrchestratorView,
    flow: StartFlow,
    reply: Reply,
    answer: Reply,
)
    requires
        flow.step is AnnouncingRecording,
        start_awaits(flow.step, reply),
    ensures
        start_takes(start_step(o, flow, reply).next, answer),
{
}

proof fn start_asks_after_cancelling_capture(
    o: OrchestratorView,
    flow: StartFlow,
    reply: Reply,
    answer: Reply,
)
    requires
        flow.step is CancellingCapture,
        start_awaits(flow.step, reply),
    ensures
        start_takes(start_step(o, flow, reply).next, answer),
{
}

proof fn start_asks_after_hiding_hud(
    o: OrchestratorView,
    flow: StartFlow,
    reply: Reply,
    answer: Reply,
)
    requires
        flow.step is HidingHud,
        start_awaits(flow.step, reply),
    ensures
        start_takes(start_step(o, flow, reply).next, answer),
{
}

proof fn start_asks_after_notifying(
    o: OrchestratorView,
    flow: StartFlow,
    reply: Reply,
    answer: Reply,
)
    requires
        flow.step is Notifying,
        start_awaits(flow.step, reply),
    ensures
        start_takes(start_step(o, flow, reply).next, answer),
{
}

proof fn start_asks_after_finishing(
    o: OrchestratorView,
    flow: StartFlow,
    reply: Reply,
    answer: Reply,
)
    requires
        flow.step is Finishing,
        start_awaits(flow.step, reply),
    ensures
        start_takes(start_step(o, flow, reply).next, answer),
{
}

/// A start takes every answer to what it asks next.
pub proof fn a_start_can_be_answered(
    o: OrchestratorView,
    flow: StartFlow,
    reply: Reply,
    answer: Reply,
)
    requires
        start_awaits(flow.step, reply),
    ensures
        start_takes(start_step(o, flow, reply).next, answer),
{
    match flow.step {
        StartStep::AcquiringGate => start_asks_after_acquiring_gate(o, flow, reply, answer),
        StartStep::LoadingSettings => start_asks_after_loading_settings(o, flow, reply, answer),
        StartStep::ResolvingRoute { .. } => start_asks_after_resolving_route(
            o,
            flow,
            reply,
            answer,
        ),
        StartStep::CapturingTarget { .. } => start_asks_after_capturing_target(
            o,
            flow,
            reply,
            answer,
        ),
        StartStep::ReadingSelection { .. } => start_asks_after_reading_selection(
            o,
            flow,
            reply,
            answer,
        ),
        StartStep::ReadingClipboardSelection { .. } => start_asks_after_reading_clipboard_selection(
            o,
            flow,
            reply,
            answer,
        ),
        StartStep::RequestingMicrophone { .. } => start_asks_after_requesting_microphone(
            o,
            flow,
            reply,
            answer,
        ),
        StartStep::Preparing { .. } => start_asks_after_preparing(o, flow, reply, answer),
        StartStep::ReadingClock { .. } => start_asks_after_reading_clock(o, flow, reply, answer),
        StartStep::AnnouncingRecording { .. } => start_asks_after_announcing_recording(
            o,
            flow,
            reply,
            answer,
        ),
        StartStep::CancellingCapture { .. } => start_asks_after_cancelling_capture(
            o,
            flow,
            reply,
            answer,
        ),
        StartStep::HidingHud { .. } => start_asks_after_hiding_hud(o, flow, reply, answer),
        StartStep::Notifying { .. } => start_asks_after_notifying(o, flow, reply, answer),
        StartStep::Finishing => start_asks_after_finishing(o, flow, reply, answer),
    }
}

proof fn delivery_asks_after_issuing_id(
    o: OrchestratorView,
    session_id: SessionId,
    step: DeliverStep,
    reply: Reply,
    answer: Reply,
)
    requires
        step is IssuingId,
        deliver_awaits(step, reply),
    ensures
        deliver_takes(deliver_step(o, session_id, step, reply).next, answer),
{
}

proof fn delivery_asks_after_announcing(
    o: OrchestratorView,
    session_id: SessionId,
    step: DeliverStep,
    reply: Reply,
    answer: Reply,
)
    requires
        step is Announcing,
        deliver_awaits(step, reply),
    ensures
        deliver_takes(deliver_step(o, session_id, step, reply).next, answer),
{
}

proof fn delivery_asks_after_revalidating(
    o: OrchestratorView,
    session_id: SessionId,
    step: DeliverStep,
    reply: Reply,
    answer: Reply,
)
    requires
        step is Revalidating,
        deliver_awaits(step, reply),
    ensures
        deliver_takes(deliver_step(o, session_id, step, reply).next, answer),
{
}

proof fn delivery_asks_after_inserting(
    o: OrchestratorView,
    session_id: SessionId,
    step: DeliverStep,
    reply: Reply,
    answer: Reply,
)
    requires
        step is Inserting,
        deliver_awaits(step, reply),
    ensures
        deliver_takes(deliver_step(o, session_id, step, reply).next, answer),
{
}

proof fn delivery_asks_after_revalidating_bridge(
    o: OrchestratorView,
    session_id: SessionId,
    step: DeliverStep,
    reply: Reply,
    answer: Reply,
)
    requires
        step is RevalidatingBridge,
        deliver_awaits(step, reply),
    ensures
        deliver_takes(deliver_step(o, session_id, step, reply).next, answer),
{
}

proof fn delivery_asks_after_pasting_at_target(
    o: OrchestratorView,
    session_id: SessionId,
    step: DeliverStep,
    reply: Reply,
    answer: Reply,
)
    requires
        step is PastingAtTarget,
        deliver_awaits(step, reply),
    ensures
        deliver_takes(deliver_step(o, session_id, step, reply).next, answer),
{
}

proof fn delivery_asks_after_pasting_at_focus(
    o: OrchestratorView,
    session_id: SessionId,
    step: DeliverStep,
    reply: Reply,
    answer: Reply,
)
    requires
        step is PastingAtFocus,
        deliver_awaits(step, reply),
    ensures
        deliver_takes(deliver_step(o, session_id, step, reply).next, answer),
{
}

proof fn delivery_asks_after_showing_temporary(
    o: OrchestratorView,
    session_id: SessionId,
    step: DeliverStep,
    reply: Reply,
    answer: Reply,
)
    requires
        step is ShowingTemporary,
        deliver_awaits(step, reply),
    ensures
        deliver_takes(deliver_step(o, session_id, step, reply).next, answer),
{
}

proof fn delivery_asks_after_announcing_finalization(
    o: OrchestratorView,
    session_id: SessionId,
    step: DeliverStep,
    reply: Reply,
    answer: Reply,
)
    requires
        step is AnnouncingFinalization,
        deliver_awaits(step, reply),
    ensures
        deliver_takes(deliver_step(o, session_id, step, reply).next, answer),
{
}

proof fn delivery_asks_after_copying(
    o: OrchestratorView,
    session_id: SessionId,
    step: DeliverStep,
    reply: Reply,
    answer: Reply,
)
    requires
        step is Copying,
        deliver_awaits(step, reply),
    ensures
        deliver_takes(deliver_step(o, session_id, step, reply).next, answer),
{
}

proof fn delivery_asks_after_reading_clock(
    o: OrchestratorView,
    session_id: SessionId,
    step: DeliverStep,
    reply: Reply,
    answer: Reply,
)
    requires
        step is ReadingClock,
        deliver_awaits(step, reply),
    ensures
        deliver_takes(deliver_step(o, session_id, step, reply).next, answer),
{
}

proof fn delivery_asks_after_saving(
    o: OrchestratorView,
    session_id: SessionId,
    step: DeliverStep,
    reply: Reply,
    answer: Reply,
)
    requires
        step is Saving,
        deliver_awaits(step, reply),
    ensures
        deliver_takes(deliver_step(o, session_id, step, reply).next, answer),
{
}

proof fn delivery_asks_after_announcing_completion(
    o: OrchestratorView,
    session_id: SessionId,
    step: DeliverStep,
    reply: Reply,
    answer: Reply,
)
    requires
        step is AnnouncingCompletion,
        deliver_awaits(step, reply),
    ensures
        deliver_takes(deliver_step(o, session_id, step, reply).next, answer),
{
}

proof fn delivery_asks_after_closing_session(
    o: OrchestratorView,
    session_id: SessionId,
    step: DeliverStep,
    reply: Reply,
    answer: Reply,
)
    requires
        step is ClosingSession,
        deliver_awaits(step, reply),
    ensures
        deliver_takes(deliver_step(o, session_id, step, reply).next, answer),
{
}

/// A delivery takes every answer to what it asks next.
pub proof fn a_delivery_can_be_answered(
    o: OrchestratorView,
    session_id: SessionId,
    step: DeliverStep,
    reply: Reply,
    answer: Reply,
)
    requires
        deliver_awaits(step, reply),
    ensures
        deliver_takes(deliver_step(o, session_id, step, reply).next, answer),
{
    match step {
        DeliverStep::IssuingId { .. } => delivery_asks_after_issuing_id(
            o,
            session_id,
            step,
            reply,
            answer,
        ),
        DeliverStep::Announcing { .. } => delivery_asks_after_announcing(
            o,
            session_id,
            step,
            reply,
            answer,
        ),
        DeliverStep::Revalidating { .. } => delivery_asks_after_revalidating(
            o,
            session_id,
            step,
            reply,
            answer,
        ),
        DeliverStep::Inserting { .. } => delivery_asks_after_inserting(
            o,
            session_id,
            step,
            reply,
            answer,
        ),
        DeliverStep::RevalidatingBridge { .. } => delivery_asks_after_revalidating_bridge(
            o,
            session_id,
            step,
            reply,
            answer,
        ),
        DeliverStep::PastingAtTarget { .. } => delivery_asks_after_pasting_at_target(
            o,
            session_id,
            step,
            reply,
            answer,
        ),
        DeliverStep::PastingAtFocus { .. } => delivery_asks_after_pasting_at_focus(
            o,
            session_id,
            step,
            reply,
            answer,
        ),
        DeliverStep::ShowingTemporary { .. } => delivery_asks_after_showing_temporary(
            o,
            session_id,
            step,
            reply,
            answer,
        ),
        DeliverStep::AnnouncingFinalization { .. } => delivery_asks_after_announcing_finalization(
            o,
            session_id,
            step,
            reply,
            answer,
        ),
        DeliverStep::Copying { .. } => delivery_asks_after_copying(
            o,
            session_id,
            step,
            reply,
            answer,
        ),
        DeliverStep::ReadingClock { .. } => delivery_asks_after_reading_clock(
            o,
            session_id,
            step,
            reply,
            answer,
        ),
        DeliverStep::Saving { .. } => delivery_asks_after_saving(
            o,
            session_id,
            step,
            reply,
            answer,
        ),
        DeliverStep::AnnouncingCompletion { .. } => delivery_asks_after_announcing_completion(
            o,
            session_id,
            step,
            reply,
            answer,
        ),
        DeliverStep::ClosingSession { .. } => delivery_asks_after_closing_session(
            o,
            session_id,
            step,
            reply,
            answer,
        ),
    }
}

proof fn finish_asks_after_finishing_audio(
    o: OrchestratorView,
    flow: FinishFlow,
    reply: Reply,
    answer: Reply,
)
    requires
        flow.step is FinishingAudio,
        finish_awaits(flow.step, reply),
    ensures
        finish_takes(finish_step(o, flow, reply).next, answer),
{
}

proof fn finish_asks_after_cancelling_empty_capture(
    o: OrchestratorView,
    flow: FinishFlow,
    reply: Reply,
    answer: Reply,
)
    requires
        flow.step is CancellingEmptyCapture,
        finish_awaits(flow.step, reply),
    ensures
        finish_takes(finish_step(o, flow, reply).next, answer),
{
}

proof fn finish_asks_after_cancelling_failed_capture(
    o: OrchestratorView,
    flow: FinishFlow,
    reply: Reply,
    answer: Reply,
)
    requires
        flow.step is CancellingFailedCapture,
        finish_awaits(flow.step, reply),
    ensures
        finish_takes(finish_step(o, flow, reply).next, answer),
{
}

proof fn finish_asks_after_playing_cue(
    o: OrchestratorView,
    flow: FinishFlow,
    reply: Reply,
    answer: Reply,
)
    requires
        flow.step is PlayingCue,
        finish_awaits(flow.step, reply),
    ensures
        finish_takes(finish_step(o, flow, reply).next, answer),
{
}

proof fn finish_asks_after_discarding_audio(
    o: OrchestratorView,
    flow: FinishFlow,
    reply: Reply,
    answer: Reply,
)
    requires
        flow.step is DiscardingAudio,
        finish_awaits(flow.step, reply),
    ensures
        finish_takes(finish_step(o, flow, reply).next, answer),
{
}

proof fn finish_asks_after_issuing_recognition(
    o: OrchestratorView,
    flow: FinishFlow,
    reply: Reply,
    answer: Reply,
)
    requires
        flow.step is IssuingRecognition,
        finish_awaits(flow.step, reply),
    ensures
        finish_takes(finish_step(o, flow, reply).next, answer),
{
}

proof fn finish_asks_after_announcing_recognition(
    o: OrchestratorView,
    flow: FinishFlow,
    reply: Reply,
    answer: Reply,
)
    requires
        flow.step is AnnouncingRecognition,
        finish_awaits(flow.step, reply),
    ensures
        finish_takes(finish_step(o, flow, reply).next, answer),
{
}

proof fn finish_asks_after_transcribing(
    o: OrchestratorView,
    flow: FinishFlow,
    reply: Reply,
    answer: Reply,
)
    requires
        flow.step is Transcribing,
        finish_awaits(flow.step, reply),
    ensures
        finish_takes(finish_step(o, flow, reply).next, answer),
{
}

proof fn finish_asks_after_cleaning_audio(
    o: OrchestratorView,
    flow: FinishFlow,
    reply: Reply,
    answer: Reply,
)
    requires
        flow.step is CleaningAudio,
        finish_awaits(flow.step, reply),
    ensures
        finish_takes(finish_step(o, flow, reply).next, answer),
{
}

proof fn finish_asks_after_issuing_processing(
    o: OrchestratorView,
    flow: FinishFlow,
    reply: Reply,
    answer: Reply,
)
    requires
        flow.step is IssuingProcessing,
        finish_awaits(flow.step, reply),
    ensures
        finish_takes(finish_step(o, flow, reply).next, answer),
{
}

proof fn finish_asks_after_announcing_processing(
    o: OrchestratorView,
    flow: FinishFlow,
    reply: Reply,
    answer: Reply,
)
    requires
        flow.step is AnnouncingProcessing,
        finish_awaits(flow.step, reply),
    ensures
        finish_takes(finish_step(o, flow, reply).next, answer),
{
}

proof fn finish_asks_after_processing(
    o: OrchestratorView,
    flow: FinishFlow,
    reply: Reply,
    answer: Reply,
)
    requires
        flow.step is Processing,
        finish_awaits(flow.step, reply),
    ensures
        finish_takes(finish_step(o, flow, reply).next, answer),
{
}

proof fn finish_asks_after_delivering(
    o: OrchestratorView,
    flow: FinishFlow,
    reply: Reply,
    answer: Reply,
)
    requires
        flow.step is Delivering,
        finish_awaits(flow.step, reply),
    ensures
        finish_takes(finish_step(o, flow, reply).next, answer),
{
    a_delivery_can_be_answered(o, flow.session_id, flow.step->Delivering_step, reply, answer);
}

proof fn finish_asks_after_closing_session(
    o: OrchestratorView,
    flow: FinishFlow,
    reply: Reply,
    answer: Reply,
)
    requires
        flow.step is ClosingSession,
        finish_awaits(flow.step, reply),
    ensures
        finish_takes(finish_step(o, flow, reply).next, answer),
{
}

/// A finish workflow takes every answer to what it asks next.
pub proof fn a_finish_can_be_answered(
    o: OrchestratorView,
    flow: FinishFlow,
    reply: Reply,
    answer: Reply,
)
    requires
        finish_awaits(flow.step, reply),
    ensures
        finish_takes(finish_step(o, flow, reply).next, answer),
{
    match flow.step {
        FinishStep::FinishingAudio { .. } => finish_asks_after_finishing_audio(
            o,
            flow,
            reply,
            answer,
        ),
        FinishStep::CancellingEmptyCapture { .. } => finish_asks_after_cancelling_empty_capture(
            o,
            flow,
            reply,
            answer,
        ),
        FinishStep::CancellingFailedCapture { .. } => finish_asks_after_cancelling_failed_capture(
            o,
            flow,
            reply,
            answer,
        ),
        FinishStep::PlayingCue { .. } => finish_asks_after_playing_cue(o, flow, reply, answer),
        FinishStep::DiscardingAudio { .. } => finish_asks_after_discarding_audio(
            o,
            flow,
            reply,
            answer,
        ),
        FinishStep::IssuingRecognition { .. } => finish_asks_after_issuing_recognition(
            o,
            flow,
            reply,
            answer,
        ),
        FinishStep::AnnouncingRecognition { .. } => finish_asks_after_announcing_recognition(
            o,
            flow,
            reply,
            answer,
        ),
        FinishStep::Transcribing { .. } => finish_asks_after_transcribing(o, flow, reply, answer),
        FinishStep::CleaningAudio { .. } => finish_asks_after_cleaning_audio(
            o,
            flow,
            reply,
            answer,
        ),
        FinishStep::IssuingProcessing { .. } => finish_asks_after_issuing_processing(
            o,
            flow,
            reply,
            answer,
        ),
        FinishStep::AnnouncingProcessing { .. } => finish_asks_after_announcing_processing(
            o,
            flow,
            reply,
            answer,
        ),
        FinishStep::Processing { .. } => finish_asks_after_processing(o, flow, reply, answer),
        FinishStep::Delivering { .. } => finish_asks_after_delivering(o, flow, reply, answer),
        FinishStep::ClosingSession { .. } => finish_asks_after_closing_session(
            o,
            flow,
            reply,
            answer,
        ),
    }
}

/// A preparation takes every answer to what it asks next.
pub proof fn a_preparation_can_be_answered(
    o: OrchestratorView,
    flow: PrepareFlow,
    reply: Reply,
    answer: Reply,
)
    requires
        prepare_awaits(flow.step, reply),
    ensures
        prepare_takes(prepare_step(o, flow, reply).next, answer),
{
}

/// A cancellation takes every answer to what it asks next.
pub proof fn a_cancellation_can_be_answered(
    o: OrchestratorView,
    flow: CancelFlow,
    reply: Reply,
    answer: Reply,
)
    requires
        reply is Acted,
    ensures
        cancel_takes(cancel_step(o, flow, reply).next, answer),
{
}

/// A retry takes every answer to what it asks next.
pub proof fn a_retry_can_be_answered(
    o: OrchestratorView,
    flow: RetryFlow,
    reply: Reply,
    answer: Reply,
)
    requires
        reply is Acted,
    ensures
        retry_takes(retry_step(o, flow, reply).next, answer),
{
}

/// An exit takes every answer to what it asks next.
pub proof fn an_exit_can_be_answered(
    o: OrchestratorView,
    flow: QuitFlow,
    reply: Reply,
    answer: Reply,
)
    requires
        quit_awaits(flow.step, reply),
    ensures
        quit_takes(quit_step(o, flow, reply).next, answer),
{
}

/// Every workflow takes every answer to what it asks first.
pub proof fn every_beginning_can_be_answered(
    o: OrchestratorView,
    session_id: SessionId,
    attempt: u64,
    answer: Reply,
)
    ensures
        start_takes(start_begin(o, session_id).next, answer),
        finish_takes(finish_begin(o, session_id).next, answer),
        cancel_takes(cancel_begin(o, session_id).next, answer),
        retry_takes(retry_begin(o, session_id).next, answer),
        quit_takes(quit_begin(o, attempt).next, answer),
        answers(answer, Command::PlayCue(RecordingCue::Start)) ==> prepare_awaits(
            PrepareStep::PlayingCue,
            answer,
        ),
{
}

} // verus!
