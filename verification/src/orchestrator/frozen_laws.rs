//! A session goes by what its start froze: what a finish workflow asks, uses and keeps
//! depends on the settings, the route and the recogniser of the start, and never on what
//! the settings have become since.

use crate::asr_route::ResolvedAsrRoute;
use crate::domain::{ProcessingMode, RequestId, SessionId, SettingsSnapshot};
use crate::orchestrator::cancel::artifact_settled;
use crate::orchestrator::consent_laws::{delivery_context, stands_rightly};
use crate::orchestrator::deliver::{deliver_awaits, deliver_step, DeliverStep};
use crate::orchestrator::finish::{
    finish_awaits, finish_on_recognized, finish_step, FinishFlow, FinishStep,
};
use crate::orchestrator::finish_laws::{finish_answered, finish_run, Turn};
use crate::orchestrator::protocol::{Command, Next, Reply};
use crate::orchestrator::raw_laws::{
    finish_is_linked, leaves_choices, raw_route, start_is_linked, start_leaves,
};
use crate::orchestrator::session_laws::single_flight;
use crate::orchestrator::slot_laws::{choices, Choices};
use crate::orchestrator::start::{start_awaits, start_step, StartFlow, StartStep};
use crate::orchestrator::start_laws::start_answered;
use crate::orchestrator::state::{ActiveContext, OrchestratorView, RuntimeStage};
use crate::ports::{AsrResult, PortError};
use crate::text_route::{spec_text_route, TextProcessingRoute};
use vstd::prelude::*;

verus! {

/// What a start freezes for its session.
pub struct Frozen {
    pub settings: SettingsSnapshot,
    pub processing_route: TextProcessingRoute,
    pub asr_route: ResolvedAsrRoute,
}

/// Whether a session, where it works, works by what was frozen.
pub open spec fn works_by(o: OrchestratorView, session_id: SessionId, frozen: Frozen) -> bool {
    choices(o) is Some && choices(o)->0.session_id == session_id && choices(o)->0.asr_route is Some
        ==> choices(o) == Some(
        Choices {
            session_id,
            settings: frozen.settings,
            processing_route: frozen.processing_route,
            asr_route: Some(frozen.asr_route),
        },
    )
}

/// Whether the choices of a workflow are what was frozen.
pub open spec fn is_frozen_context(context: ActiveContext, frozen: Frozen) -> bool {
    &&& context.settings == frozen.settings
    &&& context.processing_route == frozen.processing_route
    &&& context.asr_route == frozen.asr_route
}

/// Whether a command finds out anew what a start has frozen: the settings, the route to
/// the language model, the recogniser, the target or the selection.
pub open spec fn looks_up(command: Command) -> bool {
    match command {
        Command::AcquireConfigurationGate
        | Command::LoadSettings
        | Command::ResolveLlmRoute(_)
        | Command::CheckEngine(_)
        | Command::PrepareRecording { .. }
        | Command::CaptureTarget
        | Command::ReadSelection(_)
        | Command::ReadSelectionViaClipboard(_)
        | Command::RequestMicrophone => true,
        _ => false,
    }
}

/// Whether a command goes by what was frozen: nothing is looked up anew, recognition and
/// processing go where the start decided and in the mode that it read, and pasting,
/// copying and keeping need the consent that it read.
pub open spec fn goes_by(command: Command, frozen: Frozen) -> bool {
    let settings = frozen.settings.input;
    &&& !looks_up(command)
    &&& match command {
        Command::Transcribe(request) => request.engine == frozen.asr_route.engine,
        Command::ProcessText { route, request } => {
            &&& frozen.processing_route == TextProcessingRoute::Llm(route)
            &&& request.processing_mode == settings.processing_mode
        },
        Command::PasteAtTarget { .. } | Command::PasteAtFocus { .. } => {
            settings.clipboard_bridge_allowed
        },
        Command::WriteClipboard(_) => settings.auto_copy_result,
        Command::SaveHistory { settings: kept_by, .. } => {
            &&& settings.history_policy.enabled
            &&& kept_by == frozen.settings
        },
        _ => true,
    }
}

/// Whether a delivery goes by what was frozen.
pub open spec fn is_frozen_delivery(step: DeliverStep, frozen: Frozen) -> bool {
    &&& stands_rightly(step)
    &&& delivery_context(step) is Some ==> is_frozen_context(delivery_context(step)->0, frozen)
}

/// Whether a finish workflow goes by what was frozen.
pub open spec fn is_frozen_finish(step: FinishStep, frozen: Frozen) -> bool {
    match step {
        FinishStep::IssuingRecognition { context, .. }
        | FinishStep::AnnouncingRecognition { context, .. }
        | FinishStep::Transcribing { context, .. }
        | FinishStep::CleaningAudio { context, .. } => is_frozen_context(context, frozen),
        FinishStep::IssuingProcessing { context, route, .. }
        | FinishStep::AnnouncingProcessing { context, route, .. } => {
            &&& is_frozen_context(context, frozen)
            &&& frozen.processing_route == TextProcessingRoute::Llm(route)
        },
        FinishStep::Delivering { step } => is_frozen_delivery(step, frozen),
        _ => true,
    }
}

proof fn a_delivery_goes_by_it_after_issuing_id(
    o: OrchestratorView,
    session_id: SessionId,
    step: DeliverStep,
    reply: Reply,
    frozen: Frozen,
)
    requires
        step is IssuingId,
        deliver_awaits(step, reply),
        single_flight(o),
        works_by(o, session_id, frozen),
        is_frozen_delivery(step, frozen),
    ensures
        works_by(deliver_step(o, session_id, step, reply).after, session_id, frozen),
        match deliver_step(o, session_id, step, reply).next {
            Next::Await { flow, command } => {
                &&& flow.session_id == session_id
                &&& is_frozen_delivery(flow.step, frozen)
                &&& goes_by(command, frozen)
            },
            Next::Done(_) => true,
        },
{
}

proof fn a_delivery_goes_by_it_after_announcing(
    o: OrchestratorView,
    session_id: SessionId,
    step: DeliverStep,
    reply: Reply,
    frozen: Frozen,
)
    requires
        step is Announcing,
        deliver_awaits(step, reply),
        single_flight(o),
        works_by(o, session_id, frozen),
        is_frozen_delivery(step, frozen),
    ensures
        works_by(deliver_step(o, session_id, step, reply).after, session_id, frozen),
        match deliver_step(o, session_id, step, reply).next {
            Next::Await { flow, command } => {
                &&& flow.session_id == session_id
                &&& is_frozen_delivery(flow.step, frozen)
                &&& goes_by(command, frozen)
            },
            Next::Done(_) => true,
        },
{
}

proof fn a_delivery_goes_by_it_after_revalidating(
    o: OrchestratorView,
    session_id: SessionId,
    step: DeliverStep,
    reply: Reply,
    frozen: Frozen,
)
    requires
        step is Revalidating,
        deliver_awaits(step, reply),
        single_flight(o),
        works_by(o, session_id, frozen),
        is_frozen_delivery(step, frozen),
    ensures
        works_by(deliver_step(o, session_id, step, reply).after, session_id, frozen),
        match deliver_step(o, session_id, step, reply).next {
            Next::Await { flow, command } => {
                &&& flow.session_id == session_id
                &&& is_frozen_delivery(flow.step, frozen)
                &&& goes_by(command, frozen)
            },
            Next::Done(_) => true,
        },
{
}

proof fn a_delivery_goes_by_it_after_inserting(
    o: OrchestratorView,
    session_id: SessionId,
    step: DeliverStep,
    reply: Reply,
    frozen: Frozen,
)
    requires
        step is Inserting,
        deliver_awaits(step, reply),
        single_flight(o),
        works_by(o, session_id, frozen),
        is_frozen_delivery(step, frozen),
    ensures
        works_by(deliver_step(o, session_id, step, reply).after, session_id, frozen),
        match deliver_step(o, session_id, step, reply).next {
            Next::Await { flow, command } => {
                &&& flow.session_id == session_id
                &&& is_frozen_delivery(flow.step, frozen)
                &&& goes_by(command, frozen)
            },
            Next::Done(_) => true,
        },
{
}

proof fn a_delivery_goes_by_it_after_revalidating_bridge(
    o: OrchestratorView,
    session_id: SessionId,
    step: DeliverStep,
    reply: Reply,
    frozen: Frozen,
)
    requires
        step is RevalidatingBridge,
        deliver_awaits(step, reply),
        single_flight(o),
        works_by(o, session_id, frozen),
        is_frozen_delivery(step, frozen),
    ensures
        works_by(deliver_step(o, session_id, step, reply).after, session_id, frozen),
        match deliver_step(o, session_id, step, reply).next {
            Next::Await { flow, command } => {
                &&& flow.session_id == session_id
                &&& is_frozen_delivery(flow.step, frozen)
                &&& goes_by(command, frozen)
            },
            Next::Done(_) => true,
        },
{
}

proof fn a_delivery_goes_by_it_after_pasting_at_target(
    o: OrchestratorView,
    session_id: SessionId,
    step: DeliverStep,
    reply: Reply,
    frozen: Frozen,
)
    requires
        step is PastingAtTarget,
        deliver_awaits(step, reply),
        single_flight(o),
        works_by(o, session_id, frozen),
        is_frozen_delivery(step, frozen),
    ensures
        works_by(deliver_step(o, session_id, step, reply).after, session_id, frozen),
        match deliver_step(o, session_id, step, reply).next {
            Next::Await { flow, command } => {
                &&& flow.session_id == session_id
                &&& is_frozen_delivery(flow.step, frozen)
                &&& goes_by(command, frozen)
            },
            Next::Done(_) => true,
        },
{
}

proof fn a_delivery_goes_by_it_after_pasting_at_focus(
    o: OrchestratorView,
    session_id: SessionId,
    step: DeliverStep,
    reply: Reply,
    frozen: Frozen,
)
    requires
        step is PastingAtFocus,
        deliver_awaits(step, reply),
        single_flight(o),
        works_by(o, session_id, frozen),
        is_frozen_delivery(step, frozen),
    ensures
        works_by(deliver_step(o, session_id, step, reply).after, session_id, frozen),
        match deliver_step(o, session_id, step, reply).next {
            Next::Await { flow, command } => {
                &&& flow.session_id == session_id
                &&& is_frozen_delivery(flow.step, frozen)
                &&& goes_by(command, frozen)
            },
            Next::Done(_) => true,
        },
{
}

proof fn a_delivery_goes_by_it_after_showing_temporary(
    o: OrchestratorView,
    session_id: SessionId,
    step: DeliverStep,
    reply: Reply,
    frozen: Frozen,
)
    requires
        step is ShowingTemporary,
        deliver_awaits(step, reply),
        single_flight(o),
        works_by(o, session_id, frozen),
        is_frozen_delivery(step, frozen),
    ensures
        works_by(deliver_step(o, session_id, step, reply).after, session_id, frozen),
        match deliver_step(o, session_id, step, reply).next {
            Next::Await { flow, command } => {
                &&& flow.session_id == session_id
                &&& is_frozen_delivery(flow.step, frozen)
                &&& goes_by(command, frozen)
            },
            Next::Done(_) => true,
        },
{
}

proof fn a_delivery_goes_by_it_after_announcing_finalization(
    o: OrchestratorView,
    session_id: SessionId,
    step: DeliverStep,
    reply: Reply,
    frozen: Frozen,
)
    requires
        step is AnnouncingFinalization,
        deliver_awaits(step, reply),
        single_flight(o),
        works_by(o, session_id, frozen),
        is_frozen_delivery(step, frozen),
    ensures
        works_by(deliver_step(o, session_id, step, reply).after, session_id, frozen),
        match deliver_step(o, session_id, step, reply).next {
            Next::Await { flow, command } => {
                &&& flow.session_id == session_id
                &&& is_frozen_delivery(flow.step, frozen)
                &&& goes_by(command, frozen)
            },
            Next::Done(_) => true,
        },
{
}

proof fn a_delivery_goes_by_it_after_copying(
    o: OrchestratorView,
    session_id: SessionId,
    step: DeliverStep,
    reply: Reply,
    frozen: Frozen,
)
    requires
        step is Copying,
        deliver_awaits(step, reply),
        single_flight(o),
        works_by(o, session_id, frozen),
        is_frozen_delivery(step, frozen),
    ensures
        works_by(deliver_step(o, session_id, step, reply).after, session_id, frozen),
        match deliver_step(o, session_id, step, reply).next {
            Next::Await { flow, command } => {
                &&& flow.session_id == session_id
                &&& is_frozen_delivery(flow.step, frozen)
                &&& goes_by(command, frozen)
            },
            Next::Done(_) => true,
        },
{
}

proof fn a_delivery_goes_by_it_after_reading_clock(
    o: OrchestratorView,
    session_id: SessionId,
    step: DeliverStep,
    reply: Reply,
    frozen: Frozen,
)
    requires
        step is ReadingClock,
        deliver_awaits(step, reply),
        single_flight(o),
        works_by(o, session_id, frozen),
        is_frozen_delivery(step, frozen),
    ensures
        works_by(deliver_step(o, session_id, step, reply).after, session_id, frozen),
        match deliver_step(o, session_id, step, reply).next {
            Next::Await { flow, command } => {
                &&& flow.session_id == session_id
                &&& is_frozen_delivery(flow.step, frozen)
                &&& goes_by(command, frozen)
            },
            Next::Done(_) => true,
        },
{
}

proof fn a_delivery_goes_by_it_after_saving(
    o: OrchestratorView,
    session_id: SessionId,
    step: DeliverStep,
    reply: Reply,
    frozen: Frozen,
)
    requires
        step is Saving,
        deliver_awaits(step, reply),
        single_flight(o),
        works_by(o, session_id, frozen),
        is_frozen_delivery(step, frozen),
    ensures
        works_by(deliver_step(o, session_id, step, reply).after, session_id, frozen),
        match deliver_step(o, session_id, step, reply).next {
            Next::Await { flow, command } => {
                &&& flow.session_id == session_id
                &&& is_frozen_delivery(flow.step, frozen)
                &&& goes_by(command, frozen)
            },
            Next::Done(_) => true,
        },
{
}

proof fn a_delivery_goes_by_it_after_announcing_completion(
    o: OrchestratorView,
    session_id: SessionId,
    step: DeliverStep,
    reply: Reply,
    frozen: Frozen,
)
    requires
        step is AnnouncingCompletion,
        deliver_awaits(step, reply),
        single_flight(o),
        works_by(o, session_id, frozen),
        is_frozen_delivery(step, frozen),
    ensures
        works_by(deliver_step(o, session_id, step, reply).after, session_id, frozen),
        match deliver_step(o, session_id, step, reply).next {
            Next::Await { flow, command } => {
                &&& flow.session_id == session_id
                &&& is_frozen_delivery(flow.step, frozen)
                &&& goes_by(command, frozen)
            },
            Next::Done(_) => true,
        },
{
}

proof fn a_delivery_goes_by_it_after_closing_session(
    o: OrchestratorView,
    session_id: SessionId,
    step: DeliverStep,
    reply: Reply,
    frozen: Frozen,
)
    requires
        step is ClosingSession,
        deliver_awaits(step, reply),
        single_flight(o),
        works_by(o, session_id, frozen),
        is_frozen_delivery(step, frozen),
    ensures
        works_by(deliver_step(o, session_id, step, reply).after, session_id, frozen),
        match deliver_step(o, session_id, step, reply).next {
            Next::Await { flow, command } => {
                &&& flow.session_id == session_id
                &&& is_frozen_delivery(flow.step, frozen)
                &&& goes_by(command, frozen)
            },
            Next::Done(_) => true,
        },
{
}

proof fn a_delivery_goes_by_what_was_frozen(
    o: OrchestratorView,
    session_id: SessionId,
    step: DeliverStep,
    reply: Reply,
    frozen: Frozen,
)
    requires
        deliver_awaits(step, reply),
        single_flight(o),
        works_by(o, session_id, frozen),
        is_frozen_delivery(step, frozen),
    ensures
        works_by(deliver_step(o, session_id, step, reply).after, session_id, frozen),
        match deliver_step(o, session_id, step, reply).next {
            Next::Await { flow, command } => {
                &&& flow.session_id == session_id
                &&& is_frozen_delivery(flow.step, frozen)
                &&& goes_by(command, frozen)
            },
            Next::Done(_) => true,
        },
{
    match step {
        DeliverStep::IssuingId { .. } => {
            a_delivery_goes_by_it_after_issuing_id(o, session_id, step, reply, frozen)
        },
        DeliverStep::Announcing { .. } => {
            a_delivery_goes_by_it_after_announcing(o, session_id, step, reply, frozen)
        },
        DeliverStep::Revalidating { .. } => {
            a_delivery_goes_by_it_after_revalidating(o, session_id, step, reply, frozen)
        },
        DeliverStep::Inserting { .. } => {
            a_delivery_goes_by_it_after_inserting(o, session_id, step, reply, frozen)
        },
        DeliverStep::RevalidatingBridge { .. } => {
            a_delivery_goes_by_it_after_revalidating_bridge(o, session_id, step, reply, frozen)
        },
        DeliverStep::PastingAtTarget { .. } => {
            a_delivery_goes_by_it_after_pasting_at_target(o, session_id, step, reply, frozen)
        },
        DeliverStep::PastingAtFocus { .. } => {
            a_delivery_goes_by_it_after_pasting_at_focus(o, session_id, step, reply, frozen)
        },
        DeliverStep::ShowingTemporary { .. } => {
            a_delivery_goes_by_it_after_showing_temporary(o, session_id, step, reply, frozen)
        },
        DeliverStep::AnnouncingFinalization { .. } => {
            a_delivery_goes_by_it_after_announcing_finalization(o, session_id, step, reply, frozen)
        },
        DeliverStep::Copying { .. } => {
            a_delivery_goes_by_it_after_copying(o, session_id, step, reply, frozen)
        },
        DeliverStep::ReadingClock { .. } => {
            a_delivery_goes_by_it_after_reading_clock(o, session_id, step, reply, frozen)
        },
        DeliverStep::Saving { .. } => {
            a_delivery_goes_by_it_after_saving(o, session_id, step, reply, frozen)
        },
        DeliverStep::AnnouncingCompletion { .. } => {
            a_delivery_goes_by_it_after_announcing_completion(o, session_id, step, reply, frozen)
        },
        DeliverStep::ClosingSession { .. } => {
            a_delivery_goes_by_it_after_closing_session(o, session_id, step, reply, frozen)
        },
    }
}

proof fn a_recognition_goes_by_what_was_frozen(
    o: OrchestratorView,
    session_id: SessionId,
    context: ActiveContext,
    request_id: RequestId,
    result: Result<AsrResult, PortError>,
    frozen: Frozen,
)
    requires
        single_flight(o),
        works_by(o, session_id, frozen),
        is_frozen_context(context, frozen),
    ensures
        ({
            let step = finish_on_recognized(o, session_id, context, request_id, result);
            &&& works_by(step.after, session_id, frozen)
            &&& match step.next {
                Next::Await { flow: then, command } => {
                    &&& then.session_id == session_id
                    &&& is_frozen_finish(then.step, frozen)
                    &&& goes_by(command, frozen)
                },
                Next::Done(_) => true,
            }
        }),
{
}

proof fn a_finish_goes_by_it_after_finishing_audio(
    o: OrchestratorView,
    flow: FinishFlow,
    reply: Reply,
    frozen: Frozen,
)
    requires
        flow.step is FinishingAudio,
        finish_awaits(flow.step, reply),
        single_flight(o),
        works_by(o, flow.session_id, frozen),
        is_frozen_finish(flow.step, frozen),
    ensures
        works_by(finish_step(o, flow, reply).after, flow.session_id, frozen),
        match finish_step(o, flow, reply).next {
            Next::Await { flow: then, command } => {
                &&& then.session_id == flow.session_id
                &&& is_frozen_finish(then.step, frozen)
                &&& goes_by(command, frozen)
            },
            Next::Done(_) => true,
        },
{
}

proof fn a_finish_goes_by_it_after_cancelling_empty_capture(
    o: OrchestratorView,
    flow: FinishFlow,
    reply: Reply,
    frozen: Frozen,
)
    requires
        flow.step is CancellingEmptyCapture,
        finish_awaits(flow.step, reply),
        single_flight(o),
        works_by(o, flow.session_id, frozen),
        is_frozen_finish(flow.step, frozen),
    ensures
        works_by(finish_step(o, flow, reply).after, flow.session_id, frozen),
        match finish_step(o, flow, reply).next {
            Next::Await { flow: then, command } => {
                &&& then.session_id == flow.session_id
                &&& is_frozen_finish(then.step, frozen)
                &&& goes_by(command, frozen)
            },
            Next::Done(_) => true,
        },
{
}

proof fn a_finish_goes_by_it_after_cancelling_failed_capture(
    o: OrchestratorView,
    flow: FinishFlow,
    reply: Reply,
    frozen: Frozen,
)
    requires
        flow.step is CancellingFailedCapture,
        finish_awaits(flow.step, reply),
        single_flight(o),
        works_by(o, flow.session_id, frozen),
        is_frozen_finish(flow.step, frozen),
    ensures
        works_by(finish_step(o, flow, reply).after, flow.session_id, frozen),
        match finish_step(o, flow, reply).next {
            Next::Await { flow: then, command } => {
                &&& then.session_id == flow.session_id
                &&& is_frozen_finish(then.step, frozen)
                &&& goes_by(command, frozen)
            },
            Next::Done(_) => true,
        },
{
}

proof fn a_finish_goes_by_it_after_playing_cue(
    o: OrchestratorView,
    flow: FinishFlow,
    reply: Reply,
    frozen: Frozen,
)
    requires
        flow.step is PlayingCue,
        finish_awaits(flow.step, reply),
        single_flight(o),
        works_by(o, flow.session_id, frozen),
        is_frozen_finish(flow.step, frozen),
    ensures
        works_by(finish_step(o, flow, reply).after, flow.session_id, frozen),
        match finish_step(o, flow, reply).next {
            Next::Await { flow: then, command } => {
                &&& then.session_id == flow.session_id
                &&& is_frozen_finish(then.step, frozen)
                &&& goes_by(command, frozen)
            },
            Next::Done(_) => true,
        },
{
}

proof fn a_finish_goes_by_it_after_discarding_audio(
    o: OrchestratorView,
    flow: FinishFlow,
    reply: Reply,
    frozen: Frozen,
)
    requires
        flow.step is DiscardingAudio,
        finish_awaits(flow.step, reply),
        single_flight(o),
        works_by(o, flow.session_id, frozen),
        is_frozen_finish(flow.step, frozen),
    ensures
        works_by(finish_step(o, flow, reply).after, flow.session_id, frozen),
        match finish_step(o, flow, reply).next {
            Next::Await { flow: then, command } => {
                &&& then.session_id == flow.session_id
                &&& is_frozen_finish(then.step, frozen)
                &&& goes_by(command, frozen)
            },
            Next::Done(_) => true,
        },
{
}

proof fn a_finish_goes_by_it_after_issuing_recognition(
    o: OrchestratorView,
    flow: FinishFlow,
    reply: Reply,
    frozen: Frozen,
)
    requires
        flow.step is IssuingRecognition,
        finish_awaits(flow.step, reply),
        single_flight(o),
        works_by(o, flow.session_id, frozen),
        is_frozen_finish(flow.step, frozen),
    ensures
        works_by(finish_step(o, flow, reply).after, flow.session_id, frozen),
        match finish_step(o, flow, reply).next {
            Next::Await { flow: then, command } => {
                &&& then.session_id == flow.session_id
                &&& is_frozen_finish(then.step, frozen)
                &&& goes_by(command, frozen)
            },
            Next::Done(_) => true,
        },
{
}

proof fn a_finish_goes_by_it_after_announcing_recognition(
    o: OrchestratorView,
    flow: FinishFlow,
    reply: Reply,
    frozen: Frozen,
)
    requires
        flow.step is AnnouncingRecognition,
        finish_awaits(flow.step, reply),
        single_flight(o),
        works_by(o, flow.session_id, frozen),
        is_frozen_finish(flow.step, frozen),
    ensures
        works_by(finish_step(o, flow, reply).after, flow.session_id, frozen),
        match finish_step(o, flow, reply).next {
            Next::Await { flow: then, command } => {
                &&& then.session_id == flow.session_id
                &&& is_frozen_finish(then.step, frozen)
                &&& goes_by(command, frozen)
            },
            Next::Done(_) => true,
        },
{
}

proof fn a_finish_goes_by_it_after_transcribing(
    o: OrchestratorView,
    flow: FinishFlow,
    reply: Reply,
    frozen: Frozen,
)
    requires
        flow.step is Transcribing,
        finish_awaits(flow.step, reply),
        single_flight(o),
        works_by(o, flow.session_id, frozen),
        is_frozen_finish(flow.step, frozen),
    ensures
        works_by(finish_step(o, flow, reply).after, flow.session_id, frozen),
        match finish_step(o, flow, reply).next {
            Next::Await { flow: then, command } => {
                &&& then.session_id == flow.session_id
                &&& is_frozen_finish(then.step, frozen)
                &&& goes_by(command, frozen)
            },
            Next::Done(_) => true,
        },
{
    a_recognition_goes_by_what_was_frozen(
        o,
        flow.session_id,
        flow.step->Transcribing_context,
        flow.step->Transcribing_request_id,
        reply->Transcript_0,
        frozen,
    );
}

proof fn a_finish_goes_by_it_after_cleaning_audio(
    o: OrchestratorView,
    flow: FinishFlow,
    reply: Reply,
    frozen: Frozen,
)
    requires
        flow.step is CleaningAudio,
        finish_awaits(flow.step, reply),
        single_flight(o),
        works_by(o, flow.session_id, frozen),
        is_frozen_finish(flow.step, frozen),
    ensures
        works_by(finish_step(o, flow, reply).after, flow.session_id, frozen),
        match finish_step(o, flow, reply).next {
            Next::Await { flow: then, command } => {
                &&& then.session_id == flow.session_id
                &&& is_frozen_finish(then.step, frozen)
                &&& goes_by(command, frozen)
            },
            Next::Done(_) => true,
        },
{
    let request_id = flow.step->CleaningAudio_request_id;
    let after = artifact_settled(
        o,
        flow.session_id,
        flow.step->CleaningAudio_audio_ref,
        reply->Acted_0,
    );
    if after.cleans(flow.session_id, request_id, flow.step->CleaningAudio_audio_ref) {
        let staged = after.staged(RuntimeStage::Recognizing { request_id, audio_ref: None });
        assert(choices(staged) == choices(o));
        a_recognition_goes_by_what_was_frozen(
            staged,
            flow.session_id,
            flow.step->CleaningAudio_context,
            request_id,
            flow.step->CleaningAudio_result,
            frozen,
        );
    }
}

proof fn a_finish_goes_by_it_after_issuing_processing(
    o: OrchestratorView,
    flow: FinishFlow,
    reply: Reply,
    frozen: Frozen,
)
    requires
        flow.step is IssuingProcessing,
        finish_awaits(flow.step, reply),
        single_flight(o),
        works_by(o, flow.session_id, frozen),
        is_frozen_finish(flow.step, frozen),
    ensures
        works_by(finish_step(o, flow, reply).after, flow.session_id, frozen),
        match finish_step(o, flow, reply).next {
            Next::Await { flow: then, command } => {
                &&& then.session_id == flow.session_id
                &&& is_frozen_finish(then.step, frozen)
                &&& goes_by(command, frozen)
            },
            Next::Done(_) => true,
        },
{
}

proof fn a_finish_goes_by_it_after_announcing_processing(
    o: OrchestratorView,
    flow: FinishFlow,
    reply: Reply,
    frozen: Frozen,
)
    requires
        flow.step is AnnouncingProcessing,
        finish_awaits(flow.step, reply),
        single_flight(o),
        works_by(o, flow.session_id, frozen),
        is_frozen_finish(flow.step, frozen),
    ensures
        works_by(finish_step(o, flow, reply).after, flow.session_id, frozen),
        match finish_step(o, flow, reply).next {
            Next::Await { flow: then, command } => {
                &&& then.session_id == flow.session_id
                &&& is_frozen_finish(then.step, frozen)
                &&& goes_by(command, frozen)
            },
            Next::Done(_) => true,
        },
{
}

proof fn a_finish_goes_by_it_after_processing(
    o: OrchestratorView,
    flow: FinishFlow,
    reply: Reply,
    frozen: Frozen,
)
    requires
        flow.step is Processing,
        finish_awaits(flow.step, reply),
        single_flight(o),
        works_by(o, flow.session_id, frozen),
        is_frozen_finish(flow.step, frozen),
    ensures
        works_by(finish_step(o, flow, reply).after, flow.session_id, frozen),
        match finish_step(o, flow, reply).next {
            Next::Await { flow: then, command } => {
                &&& then.session_id == flow.session_id
                &&& is_frozen_finish(then.step, frozen)
                &&& goes_by(command, frozen)
            },
            Next::Done(_) => true,
        },
{
}

proof fn a_finish_goes_by_it_after_delivering(
    o: OrchestratorView,
    flow: FinishFlow,
    reply: Reply,
    frozen: Frozen,
)
    requires
        flow.step is Delivering,
        finish_awaits(flow.step, reply),
        single_flight(o),
        works_by(o, flow.session_id, frozen),
        is_frozen_finish(flow.step, frozen),
    ensures
        works_by(finish_step(o, flow, reply).after, flow.session_id, frozen),
        match finish_step(o, flow, reply).next {
            Next::Await { flow: then, command } => {
                &&& then.session_id == flow.session_id
                &&& is_frozen_finish(then.step, frozen)
                &&& goes_by(command, frozen)
            },
            Next::Done(_) => true,
        },
{
    a_delivery_goes_by_what_was_frozen(
        o,
        flow.session_id,
        flow.step->Delivering_step,
        reply,
        frozen,
    );
}

proof fn a_finish_goes_by_it_after_closing_session(
    o: OrchestratorView,
    flow: FinishFlow,
    reply: Reply,
    frozen: Frozen,
)
    requires
        flow.step is ClosingSession,
        finish_awaits(flow.step, reply),
        single_flight(o),
        works_by(o, flow.session_id, frozen),
        is_frozen_finish(flow.step, frozen),
    ensures
        works_by(finish_step(o, flow, reply).after, flow.session_id, frozen),
        match finish_step(o, flow, reply).next {
            Next::Await { flow: then, command } => {
                &&& then.session_id == flow.session_id
                &&& is_frozen_finish(then.step, frozen)
                &&& goes_by(command, frozen)
            },
            Next::Done(_) => true,
        },
{
}

/// A step of a finish workflow goes by what the start of its session has frozen.
pub proof fn a_finish_goes_by_what_was_frozen(
    o: OrchestratorView,
    flow: FinishFlow,
    reply: Reply,
    frozen: Frozen,
)
    requires
        finish_awaits(flow.step, reply),
        single_flight(o),
        works_by(o, flow.session_id, frozen),
        is_frozen_finish(flow.step, frozen),
    ensures
        works_by(finish_step(o, flow, reply).after, flow.session_id, frozen),
        match finish_step(o, flow, reply).next {
            Next::Await { flow: then, command } => {
                &&& then.session_id == flow.session_id
                &&& is_frozen_finish(then.step, frozen)
                &&& goes_by(command, frozen)
            },
            Next::Done(_) => true,
        },
{
    match flow.step {
        FinishStep::FinishingAudio { .. } => {
            a_finish_goes_by_it_after_finishing_audio(o, flow, reply, frozen)
        },
        FinishStep::CancellingEmptyCapture { .. } => {
            a_finish_goes_by_it_after_cancelling_empty_capture(o, flow, reply, frozen)
        },
        FinishStep::CancellingFailedCapture { .. } => {
            a_finish_goes_by_it_after_cancelling_failed_capture(o, flow, reply, frozen)
        },
        FinishStep::PlayingCue { .. } => {
            a_finish_goes_by_it_after_playing_cue(o, flow, reply, frozen)
        },
        FinishStep::DiscardingAudio { .. } => {
            a_finish_goes_by_it_after_discarding_audio(o, flow, reply, frozen)
        },
        FinishStep::IssuingRecognition { .. } => {
            a_finish_goes_by_it_after_issuing_recognition(o, flow, reply, frozen)
        },
        FinishStep::AnnouncingRecognition { .. } => {
            a_finish_goes_by_it_after_announcing_recognition(o, flow, reply, frozen)
        },
        FinishStep::Transcribing { .. } => {
            a_finish_goes_by_it_after_transcribing(o, flow, reply, frozen)
        },
        FinishStep::CleaningAudio { .. } => {
            a_finish_goes_by_it_after_cleaning_audio(o, flow, reply, frozen)
        },
        FinishStep::IssuingProcessing { .. } => {
            a_finish_goes_by_it_after_issuing_processing(o, flow, reply, frozen)
        },
        FinishStep::AnnouncingProcessing { .. } => {
            a_finish_goes_by_it_after_announcing_processing(o, flow, reply, frozen)
        },
        FinishStep::Processing { .. } => {
            a_finish_goes_by_it_after_processing(o, flow, reply, frozen)
        },
        FinishStep::Delivering { .. } => {
            a_finish_goes_by_it_after_delivering(o, flow, reply, frozen)
        },
        FinishStep::ClosingSession { .. } => {
            a_finish_goes_by_it_after_closing_session(o, flow, reply, frozen)
        },
    }
}

/// Whether all of the commands go by what was frozen.
pub open spec fn all_go_by(commands: Seq<Command>, frozen: Frozen) -> bool {
    forall|i: int| 0 <= i < commands.len() ==> goes_by(#[trigger] commands[i], frozen)
}

/// From its beginning to its end a finish workflow goes by what the start of its session
/// has frozen, whatever the surroundings answer and whatever other workflows do in
/// between. It loads no settings, resolves no route and checks no recogniser, so that
/// settings that were changed since the start make no difference to it.
pub proof fn a_finish_depends_only_on_what_was_frozen(
    flow: FinishFlow,
    turns: Seq<Turn>,
    frozen: Frozen,
)
    requires
        finish_answered(flow, turns),
        finish_is_linked(flow, turns),
        is_frozen_finish(flow.step, frozen),
        turns.len() > 0 ==> single_flight(turns[0].state) && works_by(
            turns[0].state,
            flow.session_id,
            frozen,
        ),
    ensures
        all_go_by(finish_run(flow, turns), frozen),
    decreases turns.len(),
{
    if turns.len() > 0 {
        let rest = turns.drop_first();
        a_finish_goes_by_what_was_frozen(turns[0].state, flow, turns[0].reply, frozen);
        match finish_step(turns[0].state, flow, turns[0].reply).next {
            Next::Await { flow: then, command } => {
                assert(rest.len() > 0 ==> rest[0] == turns[1]);
                a_finish_depends_only_on_what_was_frozen(then, rest, frozen);
                let all = seq![command] + finish_run(then, rest);
                assert forall|i: int| 0 <= i < all.len() implies goes_by(
                    #[trigger] all[i],
                    frozen,
                ) by {
                    if i > 0 {
                        assert(all[i] == finish_run(then, rest)[i - 1]);
                    }
                }
            },
            Next::Done(_) => {},
        }
    }
}

/// Whether a start goes by the settings that it read and the route that it decided on.
pub open spec fn is_freezing_start(
    step: StartStep,
    settings: SettingsSnapshot,
    route: TextProcessingRoute,
) -> bool {
    match step {
        StartStep::AcquiringGate
        | StartStep::LoadingSettings
        | StartStep::ResolvingRoute { .. } => false,
        StartStep::CapturingTarget { settings: read, route: decided }
        | StartStep::ReadingSelection { settings: read, route: decided, .. }
        | StartStep::ReadingClipboardSelection { settings: read, route: decided, .. }
        | StartStep::RequestingMicrophone { settings: read, route: decided, .. } => read == settings
            && decided == route,
        _ => true,
    }
}

/// Whether a session, where it has a place, has it by these settings and this route.
pub open spec fn is_placed_by(
    o: OrchestratorView,
    session_id: SessionId,
    settings: SettingsSnapshot,
    route: TextProcessingRoute,
) -> bool {
    choices(o) is Some && choices(o)->0.session_id == session_id ==> choices(o)->0.settings
        == settings && choices(o)->0.processing_route == route
}

/// The recogniser that a start has at hand.
pub open spec fn recogniser_at_hand(step: StartStep) -> Option<ResolvedAsrRoute> {
    match step {
        StartStep::ReadingClock { asr_route, .. }
        | StartStep::AnnouncingRecording { asr_route, .. } => Some(asr_route),
        _ => None,
    }
}

/// Whether a session works with a recogniser.
pub open spec fn recognises_by(
    o: OrchestratorView,
    session_id: SessionId,
    asr_route: ResolvedAsrRoute,
) -> bool {
    choices(o) is Some && choices(o)->0.session_id == session_id && choices(o)->0.asr_route == Some(
        asr_route,
    )
}

proof fn a_start_freezes_after_capturing_target(
    o: OrchestratorView,
    flow: StartFlow,
    reply: Reply,
    settings: SettingsSnapshot,
    route: TextProcessingRoute,
)
    requires
        flow.step is CapturingTarget,
        start_awaits(flow.step, reply),
        single_flight(o),
        is_freezing_start(flow.step, settings, route),
        is_placed_by(o, flow.session_id, settings, route),
    ensures
        ({
            let step = start_step(o, flow, reply);
            let session_id = flow.session_id;
            &&& is_placed_by(step.after, session_id, settings, route)
            &&& step.next is Await ==> is_freezing_start(step.next->flow.step, settings, route)
                && step.next->flow.session_id == session_id
            // A recogniser comes from the answer of the preparation, and is at hand until the
            // session works with it.
            &&& forall|asr_route: ResolvedAsrRoute|
                #[trigger] recognises_by(step.after, session_id, asr_route) ==> recognises_by(
                    o,
                    session_id,
                    asr_route,
                ) || recogniser_at_hand(flow.step) == Some(asr_route)
            &&& step.next is Await && recogniser_at_hand(step.next->flow.step) is Some ==> {
                ||| recogniser_at_hand(step.next->flow.step) == recogniser_at_hand(flow.step)
                ||| reply is Prepared && reply->asr_route == recogniser_at_hand(
                    step.next->flow.step,
                )
            }
        }),
{
}

proof fn a_start_freezes_after_reading_selection(
    o: OrchestratorView,
    flow: StartFlow,
    reply: Reply,
    settings: SettingsSnapshot,
    route: TextProcessingRoute,
)
    requires
        flow.step is ReadingSelection,
        start_awaits(flow.step, reply),
        single_flight(o),
        is_freezing_start(flow.step, settings, route),
        is_placed_by(o, flow.session_id, settings, route),
    ensures
        ({
            let step = start_step(o, flow, reply);
            let session_id = flow.session_id;
            &&& is_placed_by(step.after, session_id, settings, route)
            &&& step.next is Await ==> is_freezing_start(step.next->flow.step, settings, route)
                && step.next->flow.session_id == session_id
            // A recogniser comes from the answer of the preparation, and is at hand until the
            // session works with it.
            &&& forall|asr_route: ResolvedAsrRoute|
                #[trigger] recognises_by(step.after, session_id, asr_route) ==> recognises_by(
                    o,
                    session_id,
                    asr_route,
                ) || recogniser_at_hand(flow.step) == Some(asr_route)
            &&& step.next is Await && recogniser_at_hand(step.next->flow.step) is Some ==> {
                ||| recogniser_at_hand(step.next->flow.step) == recogniser_at_hand(flow.step)
                ||| reply is Prepared && reply->asr_route == recogniser_at_hand(
                    step.next->flow.step,
                )
            }
        }),
{
}

proof fn a_start_freezes_after_reading_clipboard_selection(
    o: OrchestratorView,
    flow: StartFlow,
    reply: Reply,
    settings: SettingsSnapshot,
    route: TextProcessingRoute,
)
    requires
        flow.step is ReadingClipboardSelection,
        start_awaits(flow.step, reply),
        single_flight(o),
        is_freezing_start(flow.step, settings, route),
        is_placed_by(o, flow.session_id, settings, route),
    ensures
        ({
            let step = start_step(o, flow, reply);
            let session_id = flow.session_id;
            &&& is_placed_by(step.after, session_id, settings, route)
            &&& step.next is Await ==> is_freezing_start(step.next->flow.step, settings, route)
                && step.next->flow.session_id == session_id
            // A recogniser comes from the answer of the preparation, and is at hand until the
            // session works with it.
            &&& forall|asr_route: ResolvedAsrRoute|
                #[trigger] recognises_by(step.after, session_id, asr_route) ==> recognises_by(
                    o,
                    session_id,
                    asr_route,
                ) || recogniser_at_hand(flow.step) == Some(asr_route)
            &&& step.next is Await && recogniser_at_hand(step.next->flow.step) is Some ==> {
                ||| recogniser_at_hand(step.next->flow.step) == recogniser_at_hand(flow.step)
                ||| reply is Prepared && reply->asr_route == recogniser_at_hand(
                    step.next->flow.step,
                )
            }
        }),
{
}

proof fn a_start_freezes_after_requesting_microphone(
    o: OrchestratorView,
    flow: StartFlow,
    reply: Reply,
    settings: SettingsSnapshot,
    route: TextProcessingRoute,
)
    requires
        flow.step is RequestingMicrophone,
        start_awaits(flow.step, reply),
        single_flight(o),
        is_freezing_start(flow.step, settings, route),
        is_placed_by(o, flow.session_id, settings, route),
    ensures
        ({
            let step = start_step(o, flow, reply);
            let session_id = flow.session_id;
            &&& is_placed_by(step.after, session_id, settings, route)
            &&& step.next is Await ==> is_freezing_start(step.next->flow.step, settings, route)
                && step.next->flow.session_id == session_id
            // A recogniser comes from the answer of the preparation, and is at hand until the
            // session works with it.
            &&& forall|asr_route: ResolvedAsrRoute|
                #[trigger] recognises_by(step.after, session_id, asr_route) ==> recognises_by(
                    o,
                    session_id,
                    asr_route,
                ) || recogniser_at_hand(flow.step) == Some(asr_route)
            &&& step.next is Await && recogniser_at_hand(step.next->flow.step) is Some ==> {
                ||| recogniser_at_hand(step.next->flow.step) == recogniser_at_hand(flow.step)
                ||| reply is Prepared && reply->asr_route == recogniser_at_hand(
                    step.next->flow.step,
                )
            }
        }),
{
}

proof fn a_start_freezes_after_preparing(
    o: OrchestratorView,
    flow: StartFlow,
    reply: Reply,
    settings: SettingsSnapshot,
    route: TextProcessingRoute,
)
    requires
        flow.step is Preparing,
        start_awaits(flow.step, reply),
        single_flight(o),
        is_freezing_start(flow.step, settings, route),
        is_placed_by(o, flow.session_id, settings, route),
    ensures
        ({
            let step = start_step(o, flow, reply);
            let session_id = flow.session_id;
            &&& is_placed_by(step.after, session_id, settings, route)
            &&& step.next is Await ==> is_freezing_start(step.next->flow.step, settings, route)
                && step.next->flow.session_id == session_id
            // A recogniser comes from the answer of the preparation, and is at hand until the
            // session works with it.
            &&& forall|asr_route: ResolvedAsrRoute|
                #[trigger] recognises_by(step.after, session_id, asr_route) ==> recognises_by(
                    o,
                    session_id,
                    asr_route,
                ) || recogniser_at_hand(flow.step) == Some(asr_route)
            &&& step.next is Await && recogniser_at_hand(step.next->flow.step) is Some ==> {
                ||| recogniser_at_hand(step.next->flow.step) == recogniser_at_hand(flow.step)
                ||| reply is Prepared && reply->asr_route == recogniser_at_hand(
                    step.next->flow.step,
                )
            }
        }),
{
}

proof fn a_start_freezes_after_reading_clock(
    o: OrchestratorView,
    flow: StartFlow,
    reply: Reply,
    settings: SettingsSnapshot,
    route: TextProcessingRoute,
)
    requires
        flow.step is ReadingClock,
        start_awaits(flow.step, reply),
        single_flight(o),
        is_freezing_start(flow.step, settings, route),
        is_placed_by(o, flow.session_id, settings, route),
    ensures
        ({
            let step = start_step(o, flow, reply);
            let session_id = flow.session_id;
            &&& is_placed_by(step.after, session_id, settings, route)
            &&& step.next is Await ==> is_freezing_start(step.next->flow.step, settings, route)
                && step.next->flow.session_id == session_id
            // A recogniser comes from the answer of the preparation, and is at hand until the
            // session works with it.
            &&& forall|asr_route: ResolvedAsrRoute|
                #[trigger] recognises_by(step.after, session_id, asr_route) ==> recognises_by(
                    o,
                    session_id,
                    asr_route,
                ) || recogniser_at_hand(flow.step) == Some(asr_route)
            &&& step.next is Await && recogniser_at_hand(step.next->flow.step) is Some ==> {
                ||| recogniser_at_hand(step.next->flow.step) == recogniser_at_hand(flow.step)
                ||| reply is Prepared && reply->asr_route == recogniser_at_hand(
                    step.next->flow.step,
                )
            }
        }),
{
}

proof fn a_start_freezes_after_announcing_recording(
    o: OrchestratorView,
    flow: StartFlow,
    reply: Reply,
    settings: SettingsSnapshot,
    route: TextProcessingRoute,
)
    requires
        flow.step is AnnouncingRecording,
        start_awaits(flow.step, reply),
        single_flight(o),
        is_freezing_start(flow.step, settings, route),
        is_placed_by(o, flow.session_id, settings, route),
    ensures
        ({
            let step = start_step(o, flow, reply);
            let session_id = flow.session_id;
            &&& is_placed_by(step.after, session_id, settings, route)
            &&& step.next is Await ==> is_freezing_start(step.next->flow.step, settings, route)
                && step.next->flow.session_id == session_id
            // A recogniser comes from the answer of the preparation, and is at hand until the
            // session works with it.
            &&& forall|asr_route: ResolvedAsrRoute|
                #[trigger] recognises_by(step.after, session_id, asr_route) ==> recognises_by(
                    o,
                    session_id,
                    asr_route,
                ) || recogniser_at_hand(flow.step) == Some(asr_route)
            &&& step.next is Await && recogniser_at_hand(step.next->flow.step) is Some ==> {
                ||| recogniser_at_hand(step.next->flow.step) == recogniser_at_hand(flow.step)
                ||| reply is Prepared && reply->asr_route == recogniser_at_hand(
                    step.next->flow.step,
                )
            }
        }),
{
}

proof fn a_start_freezes_after_cancelling_capture(
    o: OrchestratorView,
    flow: StartFlow,
    reply: Reply,
    settings: SettingsSnapshot,
    route: TextProcessingRoute,
)
    requires
        flow.step is CancellingCapture,
        start_awaits(flow.step, reply),
        single_flight(o),
        is_freezing_start(flow.step, settings, route),
        is_placed_by(o, flow.session_id, settings, route),
    ensures
        ({
            let step = start_step(o, flow, reply);
            let session_id = flow.session_id;
            &&& is_placed_by(step.after, session_id, settings, route)
            &&& step.next is Await ==> is_freezing_start(step.next->flow.step, settings, route)
                && step.next->flow.session_id == session_id
            // A recogniser comes from the answer of the preparation, and is at hand until the
            // session works with it.
            &&& forall|asr_route: ResolvedAsrRoute|
                #[trigger] recognises_by(step.after, session_id, asr_route) ==> recognises_by(
                    o,
                    session_id,
                    asr_route,
                ) || recogniser_at_hand(flow.step) == Some(asr_route)
            &&& step.next is Await && recogniser_at_hand(step.next->flow.step) is Some ==> {
                ||| recogniser_at_hand(step.next->flow.step) == recogniser_at_hand(flow.step)
                ||| reply is Prepared && reply->asr_route == recogniser_at_hand(
                    step.next->flow.step,
                )
            }
        }),
{
}

proof fn a_start_freezes_after_hiding_hud(
    o: OrchestratorView,
    flow: StartFlow,
    reply: Reply,
    settings: SettingsSnapshot,
    route: TextProcessingRoute,
)
    requires
        flow.step is HidingHud,
        start_awaits(flow.step, reply),
        single_flight(o),
        is_freezing_start(flow.step, settings, route),
        is_placed_by(o, flow.session_id, settings, route),
    ensures
        ({
            let step = start_step(o, flow, reply);
            let session_id = flow.session_id;
            &&& is_placed_by(step.after, session_id, settings, route)
            &&& step.next is Await ==> is_freezing_start(step.next->flow.step, settings, route)
                && step.next->flow.session_id == session_id
            // A recogniser comes from the answer of the preparation, and is at hand until the
            // session works with it.
            &&& forall|asr_route: ResolvedAsrRoute|
                #[trigger] recognises_by(step.after, session_id, asr_route) ==> recognises_by(
                    o,
                    session_id,
                    asr_route,
                ) || recogniser_at_hand(flow.step) == Some(asr_route)
            &&& step.next is Await && recogniser_at_hand(step.next->flow.step) is Some ==> {
                ||| recogniser_at_hand(step.next->flow.step) == recogniser_at_hand(flow.step)
                ||| reply is Prepared && reply->asr_route == recogniser_at_hand(
                    step.next->flow.step,
                )
            }
        }),
{
}

proof fn a_start_freezes_after_notifying(
    o: OrchestratorView,
    flow: StartFlow,
    reply: Reply,
    settings: SettingsSnapshot,
    route: TextProcessingRoute,
)
    requires
        flow.step is Notifying,
        start_awaits(flow.step, reply),
        single_flight(o),
        is_freezing_start(flow.step, settings, route),
        is_placed_by(o, flow.session_id, settings, route),
    ensures
        ({
            let step = start_step(o, flow, reply);
            let session_id = flow.session_id;
            &&& is_placed_by(step.after, session_id, settings, route)
            &&& step.next is Await ==> is_freezing_start(step.next->flow.step, settings, route)
                && step.next->flow.session_id == session_id
            // A recogniser comes from the answer of the preparation, and is at hand until the
            // session works with it.
            &&& forall|asr_route: ResolvedAsrRoute|
                #[trigger] recognises_by(step.after, session_id, asr_route) ==> recognises_by(
                    o,
                    session_id,
                    asr_route,
                ) || recogniser_at_hand(flow.step) == Some(asr_route)
            &&& step.next is Await && recogniser_at_hand(step.next->flow.step) is Some ==> {
                ||| recogniser_at_hand(step.next->flow.step) == recogniser_at_hand(flow.step)
                ||| reply is Prepared && reply->asr_route == recogniser_at_hand(
                    step.next->flow.step,
                )
            }
        }),
{
}

proof fn a_start_freezes_after_finishing(
    o: OrchestratorView,
    flow: StartFlow,
    reply: Reply,
    settings: SettingsSnapshot,
    route: TextProcessingRoute,
)
    requires
        flow.step is Finishing,
        start_awaits(flow.step, reply),
        single_flight(o),
        is_freezing_start(flow.step, settings, route),
        is_placed_by(o, flow.session_id, settings, route),
    ensures
        ({
            let step = start_step(o, flow, reply);
            let session_id = flow.session_id;
            &&& is_placed_by(step.after, session_id, settings, route)
            &&& step.next is Await ==> is_freezing_start(step.next->flow.step, settings, route)
                && step.next->flow.session_id == session_id
            // A recogniser comes from the answer of the preparation, and is at hand until the
            // session works with it.
            &&& forall|asr_route: ResolvedAsrRoute|
                #[trigger] recognises_by(step.after, session_id, asr_route) ==> recognises_by(
                    o,
                    session_id,
                    asr_route,
                ) || recogniser_at_hand(flow.step) == Some(asr_route)
            &&& step.next is Await && recogniser_at_hand(step.next->flow.step) is Some ==> {
                ||| recogniser_at_hand(step.next->flow.step) == recogniser_at_hand(flow.step)
                ||| reply is Prepared && reply->asr_route == recogniser_at_hand(
                    step.next->flow.step,
                )
            }
        }),
{
}

/// A start gives its session the settings that it read, the route that it decided on and
/// the recogniser that its preparation was answered with, and nothing else.
pub proof fn a_start_freezes_what_it_decided(
    o: OrchestratorView,
    flow: StartFlow,
    reply: Reply,
    settings: SettingsSnapshot,
    route: TextProcessingRoute,
)
    requires
        start_awaits(flow.step, reply),
        single_flight(o),
        is_freezing_start(flow.step, settings, route),
        is_placed_by(o, flow.session_id, settings, route),
    ensures
        ({
            let step = start_step(o, flow, reply);
            let session_id = flow.session_id;
            &&& is_placed_by(step.after, session_id, settings, route)
            &&& step.next is Await ==> is_freezing_start(step.next->flow.step, settings, route)
                && step.next->flow.session_id == session_id
            // A recogniser comes from the answer of the preparation, and is at hand until the
            // session works with it.
            &&& forall|asr_route: ResolvedAsrRoute|
                #[trigger] recognises_by(step.after, session_id, asr_route) ==> recognises_by(
                    o,
                    session_id,
                    asr_route,
                ) || recogniser_at_hand(flow.step) == Some(asr_route)
            &&& step.next is Await && recogniser_at_hand(step.next->flow.step) is Some ==> {
                ||| recogniser_at_hand(step.next->flow.step) == recogniser_at_hand(flow.step)
                ||| reply is Prepared && reply->asr_route == recogniser_at_hand(
                    step.next->flow.step,
                )
            }
        }),
{
    match flow.step {
        StartStep::CapturingTarget { .. } => {
            a_start_freezes_after_capturing_target(o, flow, reply, settings, route)
        },
        StartStep::ReadingSelection { .. } => {
            a_start_freezes_after_reading_selection(o, flow, reply, settings, route)
        },
        StartStep::ReadingClipboardSelection { .. } => {
            a_start_freezes_after_reading_clipboard_selection(o, flow, reply, settings, route)
        },
        StartStep::RequestingMicrophone { .. } => {
            a_start_freezes_after_requesting_microphone(o, flow, reply, settings, route)
        },
        StartStep::Preparing { .. } => {
            a_start_freezes_after_preparing(o, flow, reply, settings, route)
        },
        StartStep::ReadingClock { .. } => {
            a_start_freezes_after_reading_clock(o, flow, reply, settings, route)
        },
        StartStep::AnnouncingRecording { .. } => {
            a_start_freezes_after_announcing_recording(o, flow, reply, settings, route)
        },
        StartStep::CancellingCapture { .. } => {
            a_start_freezes_after_cancelling_capture(o, flow, reply, settings, route)
        },
        StartStep::HidingHud { .. } => {
            a_start_freezes_after_hiding_hud(o, flow, reply, settings, route)
        },
        StartStep::Notifying { .. } => {
            a_start_freezes_after_notifying(o, flow, reply, settings, route)
        },
        StartStep::Finishing => {
            a_start_freezes_after_finishing(o, flow, reply, settings, route)
        },
        _ => {},
    }
}

/// Whether a recogniser is one that a preparation was answered with.
pub open spec fn was_resolved(turns: Seq<Turn>, asr_route: ResolvedAsrRoute) -> bool {
    exists|i: int|
        0 <= i < turns.len() && (#[trigger] turns[i]).reply is Prepared && turns[i].reply->asr_route
            == Some(asr_route)
}

proof fn resolved_at_first_or_later(turns: Seq<Turn>, asr_route: ResolvedAsrRoute)
    requires
        turns.len() > 0,
    ensures
        was_resolved(turns, asr_route) <==> turns[0].reply is Prepared && turns[0].reply->asr_route
            == Some(asr_route) || was_resolved(turns.drop_first(), asr_route),
{
    let rest = turns.drop_first();
    if was_resolved(turns, asr_route) {
        let i = choose|i: int|
            0 <= i < turns.len() && (#[trigger] turns[i]).reply is Prepared
                && turns[i].reply->asr_route == Some(asr_route);
        if i > 0 {
            assert(rest[i - 1] == turns[i]);
        }
    }
    if was_resolved(rest, asr_route) {
        let i = choose|i: int|
            0 <= i < rest.len() && (#[trigger] rest[i]).reply is Prepared
                && rest[i].reply->asr_route == Some(asr_route);
        assert(turns[i + 1] == rest[i]);
    }
}

proof fn a_start_leaves_what_it_froze(
    flow: StartFlow,
    turns: Seq<Turn>,
    settings: SettingsSnapshot,
    route: TextProcessingRoute,
    asr_route: ResolvedAsrRoute,
)
    requires
        turns.len() > 0,
        start_answered(flow, turns),
        start_is_linked(flow, turns),
        is_freezing_start(flow.step, settings, route),
        single_flight(turns[0].state),
        is_placed_by(turns[0].state, flow.session_id, settings, route),
    ensures
        is_placed_by(start_leaves(flow, turns), flow.session_id, settings, route),
        recognises_by(start_leaves(flow, turns), flow.session_id, asr_route) ==> recognises_by(
            turns[0].state,
            flow.session_id,
            asr_route,
        ) || recogniser_at_hand(flow.step) == Some(asr_route) || was_resolved(turns, asr_route),
    decreases turns.len(),
{
    let state = turns[0].state;
    let step = start_step(state, flow, turns[0].reply);
    a_start_freezes_what_it_decided(state, flow, turns[0].reply, settings, route);
    resolved_at_first_or_later(turns, asr_route);
    if turns.len() > 1 {
        match step.next {
            Next::Await { flow: then, .. } => {
                assert(turns.drop_first()[0] == turns[1]);
                a_start_leaves_what_it_froze(then, turns.drop_first(), settings, route, asr_route);
                assert(recognises_by(turns[1].state, flow.session_id, asr_route) ==> recognises_by(
                    step.after,
                    flow.session_id,
                    asr_route,
                ));
            },
            Next::Done(_) => {},
        }
    }
    assert(recognises_by(step.after, flow.session_id, asr_route) ==> recognises_by(
        state,
        flow.session_id,
        asr_route,
    ) || recogniser_at_hand(flow.step) == Some(asr_route));
}

/// The route that a start decides on: the raw one in raw mode, and otherwise the one that
/// the answer about the language model leads to.
pub open spec fn decided_route(
    settings: SettingsSnapshot,
    starting: Seq<Turn>,
) -> TextProcessingRoute {
    if settings.input.processing_mode == ProcessingMode::Raw {
        raw_route()
    } else {
        spec_text_route(settings.input.processing_mode, starting[1].reply->LlmRoute_0)
    }
}

/// A start that has read its settings decides on the route and goes by both.
proof fn settings_and_route_are_frozen(
    session_id: SessionId,
    settings: SettingsSnapshot,
    starting: Seq<Turn>,
    asr_route: ResolvedAsrRoute,
)
    requires
        starting.len() > 2,
        starting[0].reply == Reply::Settings(Ok(settings)),
        starting[0].state.starting == Some(session_id),
        single_flight(starting[0].state),
        start_answered(StartFlow { session_id, step: StartStep::LoadingSettings }, starting),
        start_is_linked(StartFlow { session_id, step: StartStep::LoadingSettings }, starting),
    ensures
        ({
            let flow = StartFlow { session_id, step: StartStep::LoadingSettings };
            let left = start_leaves(flow, starting);
            let route = decided_route(settings, starting);
            &&& is_placed_by(left, session_id, settings, route)
            &&& recognises_by(left, session_id, asr_route) ==> was_resolved(starting, asr_route)
        }),
{
    let flow = StartFlow { session_id, step: StartStep::LoadingSettings };
    let route = decided_route(settings, starting);
    let rest = starting.drop_first();
    let last = rest.drop_first();
    assert(rest[0] == starting[1] && rest[1] == starting[2] && last[0] == starting[2]);
    resolved_at_first_or_later(starting, asr_route);
    resolved_at_first_or_later(rest, asr_route);
    reveal_with_fuel(start_answered, 3);
    reveal_with_fuel(start_is_linked, 3);
    reveal_with_fuel(start_leaves, 3);
    let first = start_step(starting[0].state, flow, starting[0].reply);
    assert(choices(first.after) is None);
    match first.next {
        Next::Await { flow: then, .. } => {
            if settings.input.processing_mode == ProcessingMode::Raw {
                a_start_leaves_what_it_froze(then, rest, settings, route, asr_route);
            } else {
                let second = start_step(rest[0].state, then, rest[0].reply);
                match second.next {
                    Next::Await { flow: later, .. } => {
                        a_start_leaves_what_it_froze(later, last, settings, route, asr_route);
                    },
                    Next::Done(_) => {},
                }
            }
        },
        Next::Done(_) => {},
    }
}

/// A session that its start let record is finished by what that start read and decided,
/// whatever the settings have become since: the settings are those that the start read,
/// the route is the one that it decided on, and the recogniser is the one that its
/// preparation was answered with.
pub proof fn a_session_is_finished_by_what_its_start_froze(
    session_id: SessionId,
    settings: SettingsSnapshot,
    starting: Seq<Turn>,
    finishing: Seq<Turn>,
    finish: FinishFlow,
)
    requires
        starting.len() > 2,
        starting[0].reply == Reply::Settings(Ok(settings)),
        starting[0].state.starting == Some(session_id),
        single_flight(starting[0].state),
        start_answered(StartFlow { session_id, step: StartStep::LoadingSettings }, starting),
        start_is_linked(StartFlow { session_id, step: StartStep::LoadingSettings }, starting),
        start_leaves(
            StartFlow { session_id, step: StartStep::LoadingSettings },
            starting,
        ).works(session_id),
        finish.session_id == session_id,
        finish.step is FinishingAudio,
        finish_answered(finish, finishing),
        finish_is_linked(finish, finishing),
        finishing.len() > 0 ==> leaves_choices(
            start_leaves(StartFlow { session_id, step: StartStep::LoadingSettings }, starting),
            finishing[0].state,
            session_id,
        ),
    ensures
        ({
            let left = start_leaves(
                StartFlow { session_id, step: StartStep::LoadingSettings },
                starting,
            );
            let frozen = Frozen {
                settings,
                processing_route: decided_route(settings, starting),
                asr_route: left.active->0.asr_route,
            };
            &&& was_resolved(starting, frozen.asr_route)
            &&& all_go_by(finish_run(finish, finishing), frozen)
        }),
{
    let left = start_leaves(StartFlow { session_id, step: StartStep::LoadingSettings }, starting);
    let frozen = Frozen {
        settings,
        processing_route: decided_route(settings, starting),
        asr_route: left.active->0.asr_route,
    };
    settings_and_route_are_frozen(session_id, settings, starting, frozen.asr_route);
    assert(recognises_by(left, session_id, frozen.asr_route));
    a_finish_depends_only_on_what_was_frozen(finish, finishing, frozen);
}

} // verus!
