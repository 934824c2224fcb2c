//! What the single slot of the sessions has to do with the workflows: a session that
//! has the slot prepares or works, and so a free place means a free slot.

use crate::asr_route::ResolvedAsrRoute;
use crate::domain::{RequestId, SessionId, SessionPhase, SettingsSnapshot};
use crate::orchestrator::cancel::{
    artifact_settled, cancel_begin, cancel_step, CancelFlow, CancelStep,
};
use crate::orchestrator::closing::{Closing, ClosingStep};
use crate::orchestrator::deliver::{deliver_awaits, deliver_step, DeliverStep};
use crate::orchestrator::exit::ExitRole;
use crate::orchestrator::finish::{
    finish_awaits, finish_begin, finish_on_recognized, finish_step, FinishFlow, FinishStep,
};
use crate::orchestrator::prepare::{prepare_awaits, prepare_step, PrepareFlow};
use crate::orchestrator::protocol::{Next, Reply};
use crate::orchestrator::quit::{quit_awaits, quit_begin, quit_step, QuitFlow};
use crate::orchestrator::retry::{
    resource_settled, retry_begin, retry_completing, retry_step, RetryFlow, RetryStep,
};
use crate::orchestrator::session_laws::{leads, single_flight};
use crate::orchestrator::start::{
    start_awaits, start_begin, start_step, StartFlow, StartMove, StartRefusal, StartStep,
};
use crate::orchestrator::state::{
    ActiveContext, AudioCleanupCompletion, CaptureCleanupCompletion, OrchestratorView,
    RuntimeStage,
};
use crate::ports::{AsrResult, PortError};
use crate::text_route::TextProcessingRoute;
use vstd::prelude::*;

verus! {

/// Whether a session has the single slot.
pub open spec fn in_slot(o: OrchestratorView, session_id: SessionId) -> bool {
    o.session is Some && o.session->0.session.id == session_id
}

/// Whether the session in the slot has not begun to record.
pub open spec fn is_new(o: OrchestratorView) -> bool {
    o.session->0.session.phase == SessionPhase::Preparing
}

/// Whether a session prepares or works.
pub open spec fn has_place(o: OrchestratorView, session_id: SessionId) -> bool {
    o.prepares(session_id) || o.works(session_id)
}

/// Whether the session in the slot is one that has not ended, and one that works, whose
/// start is about to let it record or to end it, or that ends with the preparation that
/// its start gave up. Once the application is quitting no start needs the slot any more.
pub open spec fn slot_has_its_place(o: OrchestratorView, under_way: Set<SessionId>) -> bool {
    &&& o.session is Some ==> o.session->0.session.phase !is Terminal
    &&& !o.quitting && o.session is Some ==> {
        let session_id = o.session->0.session.id;
        ||| o.works(session_id)
        ||| o.prepares(session_id) && o.preparing->0.given_up
        ||| under_way.contains(session_id)
    }
}

/// What a session has frozen for as long as it prepares or works. The recogniser is
/// frozen once it works.
pub struct Choices {
    pub session_id: SessionId,
    pub settings: SettingsSnapshot,
    pub processing_route: TextProcessingRoute,
    pub asr_route: Option<ResolvedAsrRoute>,
}

/// The choices of the session that prepares or works, if one does.
pub open spec fn choices(o: OrchestratorView) -> Option<Choices> {
    if o.active is Some {
        let active = o.active->0;
        Some(
            Choices {
                session_id: active.session_id,
                settings: active.settings,
                processing_route: active.processing_route,
                asr_route: Some(active.asr_route),
            },
        )
    } else if o.preparing is Some {
        let preparing = o.preparing->0;
        Some(
            Choices {
                session_id: preparing.session_id,
                settings: preparing.settings,
                processing_route: preparing.processing_route,
                asr_route: None,
            },
        )
    } else {
        None
    }
}

/// What a step that is not a start's own keeps: nobody gets the slot, the session in
/// it keeps its place, nobody gets a place, and whoever keeps its place keeps its choices.
pub open spec fn keeps_slot(
    before: OrchestratorView,
    after: OrchestratorView,
    under_way: Set<SessionId>,
) -> bool {
    &&& after.session is Some ==> in_slot(before, after.session->0.session.id)
    &&& slot_has_its_place(before, under_way) ==> slot_has_its_place(after, under_way)
    &&& before.session is Some && after.session is Some && is_new(before) ==> is_new(after)
    &&& keeps_choices(before, after)
}

/// Whether nobody gets a place, and whoever keeps its place keeps its choices.
pub open spec fn keeps_choices(before: OrchestratorView, after: OrchestratorView) -> bool {
    choices(after) is Some ==> choices(after) == choices(before)
}

/// An end that is about to drop a session has told it before.
pub open spec fn closing_stands(o: OrchestratorView, closing: Closing) -> bool {
    closing.step == ClosingStep::Publishing ==> !in_slot(o, closing.session_id)
}

/// What holds of the slot while a delivery waits.
pub open spec fn delivery_stands(
    o: OrchestratorView,
    session_id: SessionId,
    step: DeliverStep,
) -> bool {
    match step {
        DeliverStep::AnnouncingCompletion { .. } => !in_slot(o, session_id),
        DeliverStep::ClosingSession { closing, .. } => closing_stands(o, closing),
        _ => true,
    }
}

/// What holds of the slot while a cancellation waits.
pub open spec fn cancellation_stands(o: OrchestratorView, step: CancelStep) -> bool {
    match step {
        CancelStep::ClosingSession { closing, .. } => closing_stands(o, closing),
        _ => true,
    }
}

/// What holds of the slot while a retry waits.
pub open spec fn retry_stands(o: OrchestratorView, step: RetryStep) -> bool {
    match step {
        RetryStep::ClosingSession { closing } => closing_stands(o, closing),
        _ => true,
    }
}

/// What holds of the slot while a finish workflow waits.
pub open spec fn finish_stands(o: OrchestratorView, flow: FinishFlow) -> bool {
    match flow.step {
        FinishStep::Delivering { step } => delivery_stands(o, flow.session_id, step),
        FinishStep::CancellingEmptyCapture { step } => cancellation_stands(o, step),
        FinishStep::ClosingSession { closing, .. } => closing_stands(o, closing),
        _ => true,
    }
}

/// Whether a start has put its session into the slot.
pub open spec fn took_the_slot(step: StartStep) -> bool {
    match step {
        StartStep::AnnouncingRecording { .. } | StartStep::Finishing => true,
        StartStep::CancellingCapture { refusal, .. } | StartStep::HidingHud { refusal } => refusal
            == StartRefusal::HudUnavailable,
        _ => false,
    }
}

/// Whether a start may have put its session into the slot without its having a place:
/// the start will record with it or end it.
pub open spec fn answers_for_the_slot(step: StartStep) -> bool {
    match step {
        StartStep::AnnouncingRecording { .. } => true,
        StartStep::HidingHud { refusal } => refusal == StartRefusal::HudUnavailable,
        _ => false,
    }
}

/// What holds of the slot while a start waits: its session has the slot only once the
/// start has taken it, and does not record before the start lets it.
pub open spec fn start_stands(o: OrchestratorView, flow: StartFlow) -> bool {
    &&& !took_the_slot(flow.step) ==> !in_slot(o, flow.session_id)
    &&& flow.step !is Finishing && in_slot(o, flow.session_id) ==> is_new(o)
}

/// The sessions that a start answers for, once a start has made a step.
pub open spec fn under_way_after(
    under_way: Set<SessionId>,
    session_id: SessionId,
    step: StartMove,
) -> Set<SessionId> {
    match step.next {
        Next::Await { flow, .. } => if answers_for_the_slot(flow.step) {
            under_way.insert(session_id)
        } else {
            under_way.remove(session_id)
        },
        Next::Done(_) => under_way.remove(session_id),
    }
}

/// What a step of a start keeps: only its own session can get the slot from it, and
/// only where the slot is free. The same holds of the place, and of all choices but the
/// recogniser, which the session gets when it begins to record.
pub open spec fn start_keeps_slot(
    before: OrchestratorView,
    flow: StartFlow,
    step: StartMove,
    under_way: Set<SessionId>,
) -> bool {
    &&& step.after.session is Some ==> in_slot(before, step.after.session->0.session.id)
        || before.session is None && step.after.session->0.session.id == flow.session_id
    &&& slot_has_its_place(before, under_way) ==> slot_has_its_place(
        step.after,
        under_way_after(under_way, flow.session_id, step),
    )
    &&& before.session is Some && step.after.session is Some && is_new(before) && !in_slot(
        before,
        flow.session_id,
    ) ==> is_new(step.after)
    &&& choices(step.after) is Some && choices(step.after) != choices(before) ==> {
        &&& choices(step.after)->0.session_id == flow.session_id
        &&& choices(before) is Some ==> choices(before) == Some(
            Choices { asr_route: None, ..choices(step.after)->0 },
        )
    }
    &&& step.next is Await ==> start_stands(step.after, step.next->flow)
}

proof fn start_keeps_slot_after_acquiring_gate(
    o: OrchestratorView,
    flow: StartFlow,
    reply: Reply,
    under_way: Set<SessionId>,
)
    requires
        flow.step is AcquiringGate,
        start_awaits(flow.step, reply),
        single_flight(o),
        start_stands(o, flow),
        under_way.contains(flow.session_id) ==> answers_for_the_slot(flow.step),
    ensures
        start_keeps_slot(o, flow, start_step(o, flow, reply), under_way),
{
}

proof fn start_keeps_slot_after_loading_settings(
    o: OrchestratorView,
    flow: StartFlow,
    reply: Reply,
    under_way: Set<SessionId>,
)
    requires
        flow.step is LoadingSettings,
        start_awaits(flow.step, reply),
        single_flight(o),
        start_stands(o, flow),
        under_way.contains(flow.session_id) ==> answers_for_the_slot(flow.step),
    ensures
        start_keeps_slot(o, flow, start_step(o, flow, reply), under_way),
{
}

proof fn start_keeps_slot_after_resolving_route(
    o: OrchestratorView,
    flow: StartFlow,
    reply: Reply,
    under_way: Set<SessionId>,
)
    requires
        flow.step is ResolvingRoute,
        start_awaits(flow.step, reply),
        single_flight(o),
        start_stands(o, flow),
        under_way.contains(flow.session_id) ==> answers_for_the_slot(flow.step),
    ensures
        start_keeps_slot(o, flow, start_step(o, flow, reply), under_way),
{
}

proof fn start_keeps_slot_after_capturing_target(
    o: OrchestratorView,
    flow: StartFlow,
    reply: Reply,
    under_way: Set<SessionId>,
)
    requires
        flow.step is CapturingTarget,
        start_awaits(flow.step, reply),
        single_flight(o),
        start_stands(o, flow),
        under_way.contains(flow.session_id) ==> answers_for_the_slot(flow.step),
    ensures
        start_keeps_slot(o, flow, start_step(o, flow, reply), under_way),
{
}

proof fn start_keeps_slot_after_reading_selection(
    o: OrchestratorView,
    flow: StartFlow,
    reply: Reply,
    under_way: Set<SessionId>,
)
    requires
        flow.step is ReadingSelection,
        start_awaits(flow.step, reply),
        single_flight(o),
        start_stands(o, flow),
        under_way.contains(flow.session_id) ==> answers_for_the_slot(flow.step),
    ensures
        start_keeps_slot(o, flow, start_step(o, flow, reply), under_way),
{
}

proof fn start_keeps_slot_after_reading_clipboard_selection(
    o: OrchestratorView,
    flow: StartFlow,
    reply: Reply,
    under_way: Set<SessionId>,
)
    requires
        flow.step is ReadingClipboardSelection,
        start_awaits(flow.step, reply),
        single_flight(o),
        start_stands(o, flow),
        under_way.contains(flow.session_id) ==> answers_for_the_slot(flow.step),
    ensures
        start_keeps_slot(o, flow, start_step(o, flow, reply), under_way),
{
}

proof fn start_keeps_slot_after_requesting_microphone(
    o: OrchestratorView,
    flow: StartFlow,
    reply: Reply,
    under_way: Set<SessionId>,
)
    requires
        flow.step is RequestingMicrophone,
        start_awaits(flow.step, reply),
        single_flight(o),
        start_stands(o, flow),
        under_way.contains(flow.session_id) ==> answers_for_the_slot(flow.step),
    ensures
        start_keeps_slot(o, flow, start_step(o, flow, reply), under_way),
{
}

proof fn start_keeps_slot_after_preparing(
    o: OrchestratorView,
    flow: StartFlow,
    reply: Reply,
    under_way: Set<SessionId>,
)
    requires
        flow.step is Preparing,
        start_awaits(flow.step, reply),
        single_flight(o),
        start_stands(o, flow),
        under_way.contains(flow.session_id) ==> answers_for_the_slot(flow.step),
    ensures
        start_keeps_slot(o, flow, start_step(o, flow, reply), under_way),
{
}

proof fn start_keeps_slot_after_reading_clock(
    o: OrchestratorView,
    flow: StartFlow,
    reply: Reply,
    under_way: Set<SessionId>,
)
    requires
        flow.step is ReadingClock,
        start_awaits(flow.step, reply),
        single_flight(o),
        start_stands(o, flow),
        under_way.contains(flow.session_id) ==> answers_for_the_slot(flow.step),
    ensures
        start_keeps_slot(o, flow, start_step(o, flow, reply), under_way),
{
}

proof fn start_keeps_slot_after_announcing_recording(
    o: OrchestratorView,
    flow: StartFlow,
    reply: Reply,
    under_way: Set<SessionId>,
)
    requires
        flow.step is AnnouncingRecording,
        start_awaits(flow.step, reply),
        single_flight(o),
        start_stands(o, flow),
        under_way.contains(flow.session_id) ==> answers_for_the_slot(flow.step),
    ensures
        start_keeps_slot(o, flow, start_step(o, flow, reply), under_way),
{
}

proof fn start_keeps_slot_after_cancelling_capture(
    o: OrchestratorView,
    flow: StartFlow,
    reply: Reply,
    under_way: Set<SessionId>,
)
    requires
        flow.step is CancellingCapture,
        start_awaits(flow.step, reply),
        single_flight(o),
        start_stands(o, flow),
        under_way.contains(flow.session_id) ==> answers_for_the_slot(flow.step),
    ensures
        start_keeps_slot(o, flow, start_step(o, flow, reply), under_way),
{
}

proof fn start_keeps_slot_after_hiding_hud(
    o: OrchestratorView,
    flow: StartFlow,
    reply: Reply,
    under_way: Set<SessionId>,
)
    requires
        flow.step is HidingHud,
        start_awaits(flow.step, reply),
        single_flight(o),
        start_stands(o, flow),
        under_way.contains(flow.session_id) ==> answers_for_the_slot(flow.step),
    ensures
        start_keeps_slot(o, flow, start_step(o, flow, reply), under_way),
{
}

proof fn start_keeps_slot_after_notifying(
    o: OrchestratorView,
    flow: StartFlow,
    reply: Reply,
    under_way: Set<SessionId>,
)
    requires
        flow.step is Notifying,
        start_awaits(flow.step, reply),
        single_flight(o),
        start_stands(o, flow),
        under_way.contains(flow.session_id) ==> answers_for_the_slot(flow.step),
    ensures
        start_keeps_slot(o, flow, start_step(o, flow, reply), under_way),
{
}

proof fn start_keeps_slot_after_finishing(
    o: OrchestratorView,
    flow: StartFlow,
    reply: Reply,
    under_way: Set<SessionId>,
)
    requires
        flow.step is Finishing,
        start_awaits(flow.step, reply),
        single_flight(o),
        start_stands(o, flow),
        under_way.contains(flow.session_id) ==> answers_for_the_slot(flow.step),
    ensures
        start_keeps_slot(o, flow, start_step(o, flow, reply), under_way),
{
}

/// A step of a start keeps what the slot has to do with the places. The slot goes only
/// to the session of the start, and the start answers for it until that session records
/// or has ended.
pub proof fn a_start_keeps_the_slot(
    o: OrchestratorView,
    flow: StartFlow,
    reply: Reply,
    under_way: Set<SessionId>,
)
    requires
        start_awaits(flow.step, reply),
        single_flight(o),
        start_stands(o, flow),
        under_way.contains(flow.session_id) ==> answers_for_the_slot(flow.step),
    ensures
        start_keeps_slot(o, flow, start_step(o, flow, reply), under_way),
{
    match flow.step {
        StartStep::AcquiringGate => {
            start_keeps_slot_after_acquiring_gate(o, flow, reply, under_way)
        },
        StartStep::LoadingSettings => {
            start_keeps_slot_after_loading_settings(o, flow, reply, under_way)
        },
        StartStep::ResolvingRoute { .. } => {
            start_keeps_slot_after_resolving_route(o, flow, reply, under_way)
        },
        StartStep::CapturingTarget { .. } => {
            start_keeps_slot_after_capturing_target(o, flow, reply, under_way)
        },
        StartStep::ReadingSelection { .. } => {
            start_keeps_slot_after_reading_selection(o, flow, reply, under_way)
        },
        StartStep::ReadingClipboardSelection { .. } => {
            start_keeps_slot_after_reading_clipboard_selection(o, flow, reply, under_way)
        },
        StartStep::RequestingMicrophone { .. } => {
            start_keeps_slot_after_requesting_microphone(o, flow, reply, under_way)
        },
        StartStep::Preparing { .. } => {
            start_keeps_slot_after_preparing(o, flow, reply, under_way)
        },
        StartStep::ReadingClock { .. } => {
            start_keeps_slot_after_reading_clock(o, flow, reply, under_way)
        },
        StartStep::AnnouncingRecording { .. } => {
            start_keeps_slot_after_announcing_recording(o, flow, reply, under_way)
        },
        StartStep::CancellingCapture { .. } => {
            start_keeps_slot_after_cancelling_capture(o, flow, reply, under_way)
        },
        StartStep::HidingHud { .. } => {
            start_keeps_slot_after_hiding_hud(o, flow, reply, under_way)
        },
        StartStep::Notifying { .. } => {
            start_keeps_slot_after_notifying(o, flow, reply, under_way)
        },
        StartStep::Finishing => {
            start_keeps_slot_after_finishing(o, flow, reply, under_way)
        },
    }
}

/// A step of a preparation keeps the slot; its session does not have it yet.
pub proof fn a_preparation_keeps_the_slot(
    o: OrchestratorView,
    flow: PrepareFlow,
    reply: Reply,
    under_way: Set<SessionId>,
)
    requires
        prepare_awaits(flow.step, reply),
        single_flight(o),
        !in_slot(o, flow.session_id),
    ensures
        keeps_slot(o, prepare_step(o, flow, reply).after, under_way),
{
}

/// A step of a cancellation keeps the slot: whoever loses its place by it loses the
/// slot with it, unless its start answers for the slot.
pub proof fn a_cancellation_keeps_the_slot(
    o: OrchestratorView,
    flow: CancelFlow,
    reply: Reply,
    under_way: Set<SessionId>,
)
    requires
        reply is Acted,
        single_flight(o),
        cancellation_stands(o, flow.step),
    ensures
        ({
            let step = cancel_step(o, flow, reply);
            &&& keeps_slot(o, step.after, under_way)
            &&& slot_has_its_place(o, under_way) && step.next is Await ==> cancellation_stands(
                step.after,
                step.next->flow.step,
            )
        }),
{
}

proof fn a_completed_retry_keeps_the_slot(
    o: OrchestratorView,
    session_id: SessionId,
    under_way: Set<SessionId>,
)
    requires
        single_flight(o),
    ensures
        ({
            let step = retry_completing(o, session_id);
            &&& keeps_slot(o, step.after, under_way)
            &&& slot_has_its_place(o, under_way) && step.next is Await ==> retry_stands(
                step.after,
                step.next->flow.step,
            )
        }),
{
    match o.completion(session_id) {
        Some(AudioCleanupCompletion::Preparing) => {},
        Some(AudioCleanupCompletion::Capture(CaptureCleanupCompletion::Cancelled)) => {},
        Some(_) => {},
        None => {},
    }
}

/// A step of a retry keeps the slot: whoever loses its place by it loses the slot with
/// it, unless its start answers for the slot.
pub proof fn a_retry_keeps_the_slot(
    o: OrchestratorView,
    flow: RetryFlow,
    reply: Reply,
    under_way: Set<SessionId>,
)
    requires
        reply is Acted,
        single_flight(o),
        retry_stands(o, flow.step),
    ensures
        ({
            let step = retry_step(o, flow, reply);
            &&& keeps_slot(o, step.after, under_way)
            &&& slot_has_its_place(o, under_way) && step.next is Await ==> retry_stands(
                step.after,
                step.next->flow.step,
            )
        }),
{
    match flow.step {
        RetryStep::CleaningUp { resource } => {
            let settled = resource_settled(o, flow.session_id, resource, reply->Acted_0);
            assert(choices(settled) == choices(o) && settled.session == o.session);
            match reply->Acted_0 {
                Ok(_) => a_completed_retry_keeps_the_slot(settled, flow.session_id, under_way),
                Err(_) => {},
            }
        },
        RetryStep::HidingPreparation => {},
        RetryStep::ClosingSession { .. } => {},
    }
}

proof fn delivery_keeps_slot_after_issuing_id(
    o: OrchestratorView,
    session_id: SessionId,
    step: DeliverStep,
    reply: Reply,
    under_way: Set<SessionId>,
)
    requires
        step is IssuingId,
        deliver_awaits(step, reply),
        single_flight(o),
        delivery_stands(o, session_id, step),
    ensures
        ({
            let made = deliver_step(o, session_id, step, reply);
            &&& keeps_slot(o, made.after, under_way)
            &&& slot_has_its_place(o, under_way) && made.next is Await ==> delivery_stands(
                made.after,
                made.next->flow.session_id,
                made.next->flow.step,
            )
        }),
{
}

proof fn delivery_keeps_slot_after_announcing(
    o: OrchestratorView,
    session_id: SessionId,
    step: DeliverStep,
    reply: Reply,
    under_way: Set<SessionId>,
)
    requires
        step is Announcing,
        deliver_awaits(step, reply),
        single_flight(o),
        delivery_stands(o, session_id, step),
    ensures
        ({
            let made = deliver_step(o, session_id, step, reply);
            &&& keeps_slot(o, made.after, under_way)
            &&& slot_has_its_place(o, under_way) && made.next is Await ==> delivery_stands(
                made.after,
                made.next->flow.session_id,
                made.next->flow.step,
            )
        }),
{
}

proof fn delivery_keeps_slot_after_revalidating(
    o: OrchestratorView,
    session_id: SessionId,
    step: DeliverStep,
    reply: Reply,
    under_way: Set<SessionId>,
)
    requires
        step is Revalidating,
        deliver_awaits(step, reply),
        single_flight(o),
        delivery_stands(o, session_id, step),
    ensures
        ({
            let made = deliver_step(o, session_id, step, reply);
            &&& keeps_slot(o, made.after, under_way)
            &&& slot_has_its_place(o, under_way) && made.next is Await ==> delivery_stands(
                made.after,
                made.next->flow.session_id,
                made.next->flow.step,
            )
        }),
{
}

proof fn delivery_keeps_slot_after_inserting(
    o: OrchestratorView,
    session_id: SessionId,
    step: DeliverStep,
    reply: Reply,
    under_way: Set<SessionId>,
)
    requires
        step is Inserting,
        deliver_awaits(step, reply),
        single_flight(o),
        delivery_stands(o, session_id, step),
    ensures
        ({
            let made = deliver_step(o, session_id, step, reply);
            &&& keeps_slot(o, made.after, under_way)
            &&& slot_has_its_place(o, under_way) && made.next is Await ==> delivery_stands(
                made.after,
                made.next->flow.session_id,
                made.next->flow.step,
            )
        }),
{
}

proof fn delivery_keeps_slot_after_revalidating_bridge(
    o: OrchestratorView,
    session_id: SessionId,
    step: DeliverStep,
    reply: Reply,
    under_way: Set<SessionId>,
)
    requires
        step is RevalidatingBridge,
        deliver_awaits(step, reply),
        single_flight(o),
        delivery_stands(o, session_id, step),
    ensures
        ({
            let made = deliver_step(o, session_id, step, reply);
            &&& keeps_slot(o, made.after, under_way)
            &&& slot_has_its_place(o, under_way) && made.next is Await ==> delivery_stands(
                made.after,
                made.next->flow.session_id,
                made.next->flow.step,
            )
        }),
{
}

proof fn delivery_keeps_slot_after_pasting_at_target(
    o: OrchestratorView,
    session_id: SessionId,
    step: DeliverStep,
    reply: Reply,
    under_way: Set<SessionId>,
)
    requires
        step is PastingAtTarget,
        deliver_awaits(step, reply),
        single_flight(o),
        delivery_stands(o, session_id, step),
    ensures
        ({
            let made = deliver_step(o, session_id, step, reply);
            &&& keeps_slot(o, made.after, under_way)
            &&& slot_has_its_place(o, under_way) && made.next is Await ==> delivery_stands(
                made.after,
                made.next->flow.session_id,
                made.next->flow.step,
            )
        }),
{
}

proof fn delivery_keeps_slot_after_pasting_at_focus(
    o: OrchestratorView,
    session_id: SessionId,
    step: DeliverStep,
    reply: Reply,
    under_way: Set<SessionId>,
)
    requires
        step is PastingAtFocus,
        deliver_awaits(step, reply),
        single_flight(o),
        delivery_stands(o, session_id, step),
    ensures
        ({
            let made = deliver_step(o, session_id, step, reply);
            &&& keeps_slot(o, made.after, under_way)
            &&& slot_has_its_place(o, under_way) && made.next is Await ==> delivery_stands(
                made.after,
                made.next->flow.session_id,
                made.next->flow.step,
            )
        }),
{
}

proof fn delivery_keeps_slot_after_showing_temporary(
    o: OrchestratorView,
    session_id: SessionId,
    step: DeliverStep,
    reply: Reply,
    under_way: Set<SessionId>,
)
    requires
        step is ShowingTemporary,
        deliver_awaits(step, reply),
        single_flight(o),
        delivery_stands(o, session_id, step),
    ensures
        ({
            let made = deliver_step(o, session_id, step, reply);
            &&& keeps_slot(o, made.after, under_way)
            &&& slot_has_its_place(o, under_way) && made.next is Await ==> delivery_stands(
                made.after,
                made.next->flow.session_id,
                made.next->flow.step,
            )
        }),
{
}

proof fn delivery_keeps_slot_after_announcing_finalization(
    o: OrchestratorView,
    session_id: SessionId,
    step: DeliverStep,
    reply: Reply,
    under_way: Set<SessionId>,
)
    requires
        step is AnnouncingFinalization,
        deliver_awaits(step, reply),
        single_flight(o),
        delivery_stands(o, session_id, step),
    ensures
        ({
            let made = deliver_step(o, session_id, step, reply);
            &&& keeps_slot(o, made.after, under_way)
            &&& slot_has_its_place(o, under_way) && made.next is Await ==> delivery_stands(
                made.after,
                made.next->flow.session_id,
                made.next->flow.step,
            )
        }),
{
}

proof fn delivery_keeps_slot_after_copying(
    o: OrchestratorView,
    session_id: SessionId,
    step: DeliverStep,
    reply: Reply,
    under_way: Set<SessionId>,
)
    requires
        step is Copying,
        deliver_awaits(step, reply),
        single_flight(o),
        delivery_stands(o, session_id, step),
    ensures
        ({
            let made = deliver_step(o, session_id, step, reply);
            &&& keeps_slot(o, made.after, under_way)
            &&& slot_has_its_place(o, under_way) && made.next is Await ==> delivery_stands(
                made.after,
                made.next->flow.session_id,
                made.next->flow.step,
            )
        }),
{
}

proof fn delivery_keeps_slot_after_reading_clock(
    o: OrchestratorView,
    session_id: SessionId,
    step: DeliverStep,
    reply: Reply,
    under_way: Set<SessionId>,
)
    requires
        step is ReadingClock,
        deliver_awaits(step, reply),
        single_flight(o),
        delivery_stands(o, session_id, step),
    ensures
        ({
            let made = deliver_step(o, session_id, step, reply);
            &&& keeps_slot(o, made.after, under_way)
            &&& slot_has_its_place(o, under_way) && made.next is Await ==> delivery_stands(
                made.after,
                made.next->flow.session_id,
                made.next->flow.step,
            )
        }),
{
}

proof fn delivery_keeps_slot_after_saving(
    o: OrchestratorView,
    session_id: SessionId,
    step: DeliverStep,
    reply: Reply,
    under_way: Set<SessionId>,
)
    requires
        step is Saving,
        deliver_awaits(step, reply),
        single_flight(o),
        delivery_stands(o, session_id, step),
    ensures
        ({
            let made = deliver_step(o, session_id, step, reply);
            &&& keeps_slot(o, made.after, under_way)
            &&& slot_has_its_place(o, under_way) && made.next is Await ==> delivery_stands(
                made.after,
                made.next->flow.session_id,
                made.next->flow.step,
            )
        }),
{
}

proof fn delivery_keeps_slot_after_announcing_completion(
    o: OrchestratorView,
    session_id: SessionId,
    step: DeliverStep,
    reply: Reply,
    under_way: Set<SessionId>,
)
    requires
        step is AnnouncingCompletion,
        deliver_awaits(step, reply),
        single_flight(o),
        delivery_stands(o, session_id, step),
    ensures
        ({
            let made = deliver_step(o, session_id, step, reply);
            &&& keeps_slot(o, made.after, under_way)
            &&& slot_has_its_place(o, under_way) && made.next is Await ==> delivery_stands(
                made.after,
                made.next->flow.session_id,
                made.next->flow.step,
            )
        }),
{
}

proof fn delivery_keeps_slot_after_closing_session(
    o: OrchestratorView,
    session_id: SessionId,
    step: DeliverStep,
    reply: Reply,
    under_way: Set<SessionId>,
)
    requires
        step is ClosingSession,
        deliver_awaits(step, reply),
        single_flight(o),
        delivery_stands(o, session_id, step),
    ensures
        ({
            let made = deliver_step(o, session_id, step, reply);
            &&& keeps_slot(o, made.after, under_way)
            &&& slot_has_its_place(o, under_way) && made.next is Await ==> delivery_stands(
                made.after,
                made.next->flow.session_id,
                made.next->flow.step,
            )
        }),
{
}

/// A step of a delivery keeps the slot.
pub proof fn a_delivery_keeps_the_slot(
    o: OrchestratorView,
    session_id: SessionId,
    step: DeliverStep,
    reply: Reply,
    under_way: Set<SessionId>,
)
    requires
        deliver_awaits(step, reply),
        single_flight(o),
        delivery_stands(o, session_id, step),
    ensures
        ({
            let made = deliver_step(o, session_id, step, reply);
            &&& keeps_slot(o, made.after, under_way)
            &&& slot_has_its_place(o, under_way) && made.next is Await ==> delivery_stands(
                made.after,
                made.next->flow.session_id,
                made.next->flow.step,
            )
        }),
{
    match step {
        DeliverStep::IssuingId { .. } => {
            delivery_keeps_slot_after_issuing_id(o, session_id, step, reply, under_way)
        },
        DeliverStep::Announcing { .. } => {
            delivery_keeps_slot_after_announcing(o, session_id, step, reply, under_way)
        },
        DeliverStep::Revalidating { .. } => {
            delivery_keeps_slot_after_revalidating(o, session_id, step, reply, under_way)
        },
        DeliverStep::Inserting { .. } => {
            delivery_keeps_slot_after_inserting(o, session_id, step, reply, under_way)
        },
        DeliverStep::RevalidatingBridge { .. } => {
            delivery_keeps_slot_after_revalidating_bridge(o, session_id, step, reply, under_way)
        },
        DeliverStep::PastingAtTarget { .. } => {
            delivery_keeps_slot_after_pasting_at_target(o, session_id, step, reply, under_way)
        },
        DeliverStep::PastingAtFocus { .. } => {
            delivery_keeps_slot_after_pasting_at_focus(o, session_id, step, reply, under_way)
        },
        DeliverStep::ShowingTemporary { .. } => {
            delivery_keeps_slot_after_showing_temporary(o, session_id, step, reply, under_way)
        },
        DeliverStep::AnnouncingFinalization { .. } => {
            delivery_keeps_slot_after_announcing_finalization(o, session_id, step, reply, under_way)
        },
        DeliverStep::Copying { .. } => {
            delivery_keeps_slot_after_copying(o, session_id, step, reply, under_way)
        },
        DeliverStep::ReadingClock { .. } => {
            delivery_keeps_slot_after_reading_clock(o, session_id, step, reply, under_way)
        },
        DeliverStep::Saving { .. } => {
            delivery_keeps_slot_after_saving(o, session_id, step, reply, under_way)
        },
        DeliverStep::AnnouncingCompletion { .. } => {
            delivery_keeps_slot_after_announcing_completion(o, session_id, step, reply, under_way)
        },
        DeliverStep::ClosingSession { .. } => {
            delivery_keeps_slot_after_closing_session(o, session_id, step, reply, under_way)
        },
    }
}

proof fn a_recognition_keeps_the_slot(
    o: OrchestratorView,
    session_id: SessionId,
    context: ActiveContext,
    request_id: RequestId,
    result: Result<AsrResult, PortError>,
    under_way: Set<SessionId>,
)
    requires
        single_flight(o),
    ensures
        ({
            let step = finish_on_recognized(o, session_id, context, request_id, result);
            &&& keeps_slot(o, step.after, under_way)
            &&& slot_has_its_place(o, under_way) && step.next is Await ==> finish_stands(
                step.after,
                step.next->flow,
            )
        }),
{
}

proof fn finish_keeps_slot_after_finishing_audio(
    o: OrchestratorView,
    flow: FinishFlow,
    reply: Reply,
    under_way: Set<SessionId>,
)
    requires
        flow.step is FinishingAudio,
        finish_awaits(flow.step, reply),
        single_flight(o),
        finish_stands(o, flow),
    ensures
        ({
            let step = finish_step(o, flow, reply);
            &&& keeps_slot(o, step.after, under_way)
            &&& slot_has_its_place(o, under_way) && step.next is Await ==> finish_stands(
                step.after,
                step.next->flow,
            )
        }),
{
}

proof fn finish_keeps_slot_after_cancelling_empty_capture(
    o: OrchestratorView,
    flow: FinishFlow,
    reply: Reply,
    under_way: Set<SessionId>,
)
    requires
        flow.step is CancellingEmptyCapture,
        finish_awaits(flow.step, reply),
        single_flight(o),
        finish_stands(o, flow),
    ensures
        ({
            let step = finish_step(o, flow, reply);
            &&& keeps_slot(o, step.after, under_way)
            &&& slot_has_its_place(o, under_way) && step.next is Await ==> finish_stands(
                step.after,
                step.next->flow,
            )
        }),
{
    a_cancellation_keeps_the_slot(
        o,
        CancelFlow { session_id: flow.session_id, step: flow.step->CancellingEmptyCapture_step },
        reply,
        under_way,
    );
}

proof fn finish_keeps_slot_after_cancelling_failed_capture(
    o: OrchestratorView,
    flow: FinishFlow,
    reply: Reply,
    under_way: Set<SessionId>,
)
    requires
        flow.step is CancellingFailedCapture,
        finish_awaits(flow.step, reply),
        single_flight(o),
        finish_stands(o, flow),
    ensures
        ({
            let step = finish_step(o, flow, reply);
            &&& keeps_slot(o, step.after, under_way)
            &&& slot_has_its_place(o, under_way) && step.next is Await ==> finish_stands(
                step.after,
                step.next->flow,
            )
        }),
{
}

proof fn finish_keeps_slot_after_playing_cue(
    o: OrchestratorView,
    flow: FinishFlow,
    reply: Reply,
    under_way: Set<SessionId>,
)
    requires
        flow.step is PlayingCue,
        finish_awaits(flow.step, reply),
        single_flight(o),
        finish_stands(o, flow),
    ensures
        ({
            let step = finish_step(o, flow, reply);
            &&& keeps_slot(o, step.after, under_way)
            &&& slot_has_its_place(o, under_way) && step.next is Await ==> finish_stands(
                step.after,
                step.next->flow,
            )
        }),
{
}

proof fn finish_keeps_slot_after_discarding_audio(
    o: OrchestratorView,
    flow: FinishFlow,
    reply: Reply,
    under_way: Set<SessionId>,
)
    requires
        flow.step is DiscardingAudio,
        finish_awaits(flow.step, reply),
        single_flight(o),
        finish_stands(o, flow),
    ensures
        ({
            let step = finish_step(o, flow, reply);
            &&& keeps_slot(o, step.after, under_way)
            &&& slot_has_its_place(o, under_way) && step.next is Await ==> finish_stands(
                step.after,
                step.next->flow,
            )
        }),
{
}

proof fn finish_keeps_slot_after_issuing_recognition(
    o: OrchestratorView,
    flow: FinishFlow,
    reply: Reply,
    under_way: Set<SessionId>,
)
    requires
        flow.step is IssuingRecognition,
        finish_awaits(flow.step, reply),
        single_flight(o),
        finish_stands(o, flow),
    ensures
        ({
            let step = finish_step(o, flow, reply);
            &&& keeps_slot(o, step.after, under_way)
            &&& slot_has_its_place(o, under_way) && step.next is Await ==> finish_stands(
                step.after,
                step.next->flow,
            )
        }),
{
}

proof fn finish_keeps_slot_after_announcing_recognition(
    o: OrchestratorView,
    flow: FinishFlow,
    reply: Reply,
    under_way: Set<SessionId>,
)
    requires
        flow.step is AnnouncingRecognition,
        finish_awaits(flow.step, reply),
        single_flight(o),
        finish_stands(o, flow),
    ensures
        ({
            let step = finish_step(o, flow, reply);
            &&& keeps_slot(o, step.after, under_way)
            &&& slot_has_its_place(o, under_way) && step.next is Await ==> finish_stands(
                step.after,
                step.next->flow,
            )
        }),
{
}

proof fn finish_keeps_slot_after_transcribing(
    o: OrchestratorView,
    flow: FinishFlow,
    reply: Reply,
    under_way: Set<SessionId>,
)
    requires
        flow.step is Transcribing,
        finish_awaits(flow.step, reply),
        single_flight(o),
        finish_stands(o, flow),
    ensures
        ({
            let step = finish_step(o, flow, reply);
            &&& keeps_slot(o, step.after, under_way)
            &&& slot_has_its_place(o, under_way) && step.next is Await ==> finish_stands(
                step.after,
                step.next->flow,
            )
        }),
{
    a_recognition_keeps_the_slot(
        o,
        flow.session_id,
        flow.step->Transcribing_context,
        flow.step->Transcribing_request_id,
        reply->Transcript_0,
        under_way,
    );
}

proof fn finish_keeps_slot_after_cleaning_audio(
    o: OrchestratorView,
    flow: FinishFlow,
    reply: Reply,
    under_way: Set<SessionId>,
)
    requires
        flow.step is CleaningAudio,
        finish_awaits(flow.step, reply),
        single_flight(o),
        finish_stands(o, flow),
    ensures
        ({
            let step = finish_step(o, flow, reply);
            &&& keeps_slot(o, step.after, under_way)
            &&& slot_has_its_place(o, under_way) && step.next is Await ==> finish_stands(
                step.after,
                step.next->flow,
            )
        }),
{
    let request_id = flow.step->CleaningAudio_request_id;
    let audio_ref = flow.step->CleaningAudio_audio_ref;
    let after = artifact_settled(o, flow.session_id, audio_ref, reply->Acted_0);
    if after.cleans(flow.session_id, request_id, audio_ref) {
        let staged = after.staged(RuntimeStage::Recognizing { request_id, audio_ref: None });
        assert(choices(staged) == choices(o) && staged.session == o.session);
        a_recognition_keeps_the_slot(
            staged,
            flow.session_id,
            flow.step->CleaningAudio_context,
            request_id,
            flow.step->CleaningAudio_result,
            under_way,
        );
    }
}

proof fn finish_keeps_slot_after_issuing_processing(
    o: OrchestratorView,
    flow: FinishFlow,
    reply: Reply,
    under_way: Set<SessionId>,
)
    requires
        flow.step is IssuingProcessing,
        finish_awaits(flow.step, reply),
        single_flight(o),
        finish_stands(o, flow),
    ensures
        ({
            let step = finish_step(o, flow, reply);
            &&& keeps_slot(o, step.after, under_way)
            &&& slot_has_its_place(o, under_way) && step.next is Await ==> finish_stands(
                step.after,
                step.next->flow,
            )
        }),
{
}

proof fn finish_keeps_slot_after_announcing_processing(
    o: OrchestratorView,
    flow: FinishFlow,
    reply: Reply,
    under_way: Set<SessionId>,
)
    requires
        flow.step is AnnouncingProcessing,
        finish_awaits(flow.step, reply),
        single_flight(o),
        finish_stands(o, flow),
    ensures
        ({
            let step = finish_step(o, flow, reply);
            &&& keeps_slot(o, step.after, under_way)
            &&& slot_has_its_place(o, under_way) && step.next is Await ==> finish_stands(
                step.after,
                step.next->flow,
            )
        }),
{
}

proof fn finish_keeps_slot_after_processing(
    o: OrchestratorView,
    flow: FinishFlow,
    reply: Reply,
    under_way: Set<SessionId>,
)
    requires
        flow.step is Processing,
        finish_awaits(flow.step, reply),
        single_flight(o),
        finish_stands(o, flow),
    ensures
        ({
            let step = finish_step(o, flow, reply);
            &&& keeps_slot(o, step.after, under_way)
            &&& slot_has_its_place(o, under_way) && step.next is Await ==> finish_stands(
                step.after,
                step.next->flow,
            )
        }),
{
}

proof fn finish_keeps_slot_after_delivering(
    o: OrchestratorView,
    flow: FinishFlow,
    reply: Reply,
    under_way: Set<SessionId>,
)
    requires
        flow.step is Delivering,
        finish_awaits(flow.step, reply),
        single_flight(o),
        finish_stands(o, flow),
    ensures
        ({
            let step = finish_step(o, flow, reply);
            &&& keeps_slot(o, step.after, under_way)
            &&& slot_has_its_place(o, under_way) && step.next is Await ==> finish_stands(
                step.after,
                step.next->flow,
            )
        }),
{
    a_delivery_keeps_the_slot(
        o,
        flow.session_id,
        flow.step->Delivering_step,
        reply,
        under_way,
    );
}

proof fn finish_keeps_slot_after_closing_session(
    o: OrchestratorView,
    flow: FinishFlow,
    reply: Reply,
    under_way: Set<SessionId>,
)
    requires
        flow.step is ClosingSession,
        finish_awaits(flow.step, reply),
        single_flight(o),
        finish_stands(o, flow),
    ensures
        ({
            let step = finish_step(o, flow, reply);
            &&& keeps_slot(o, step.after, under_way)
            &&& slot_has_its_place(o, under_way) && step.next is Await ==> finish_stands(
                step.after,
                step.next->flow,
            )
        }),
{
}

/// A step of a finish workflow keeps the slot.
pub proof fn a_finish_keeps_the_slot(
    o: OrchestratorView,
    flow: FinishFlow,
    reply: Reply,
    under_way: Set<SessionId>,
)
    requires
        finish_awaits(flow.step, reply),
        single_flight(o),
        finish_stands(o, flow),
    ensures
        ({
            let step = finish_step(o, flow, reply);
            &&& keeps_slot(o, step.after, under_way)
            &&& slot_has_its_place(o, under_way) && step.next is Await ==> finish_stands(
                step.after,
                step.next->flow,
            )
        }),
{
    match flow.step {
        FinishStep::FinishingAudio { .. } => {
            finish_keeps_slot_after_finishing_audio(o, flow, reply, under_way)
        },
        FinishStep::CancellingEmptyCapture { .. } => {
            finish_keeps_slot_after_cancelling_empty_capture(o, flow, reply, under_way)
        },
        FinishStep::CancellingFailedCapture { .. } => {
            finish_keeps_slot_after_cancelling_failed_capture(o, flow, reply, under_way)
        },
        FinishStep::PlayingCue { .. } => {
            finish_keeps_slot_after_playing_cue(o, flow, reply, under_way)
        },
        FinishStep::DiscardingAudio { .. } => {
            finish_keeps_slot_after_discarding_audio(o, flow, reply, under_way)
        },
        FinishStep::IssuingRecognition { .. } => {
            finish_keeps_slot_after_issuing_recognition(o, flow, reply, under_way)
        },
        FinishStep::AnnouncingRecognition { .. } => {
            finish_keeps_slot_after_announcing_recognition(o, flow, reply, under_way)
        },
        FinishStep::Transcribing { .. } => {
            finish_keeps_slot_after_transcribing(o, flow, reply, under_way)
        },
        FinishStep::CleaningAudio { .. } => {
            finish_keeps_slot_after_cleaning_audio(o, flow, reply, under_way)
        },
        FinishStep::IssuingProcessing { .. } => {
            finish_keeps_slot_after_issuing_processing(o, flow, reply, under_way)
        },
        FinishStep::AnnouncingProcessing { .. } => {
            finish_keeps_slot_after_announcing_processing(o, flow, reply, under_way)
        },
        FinishStep::Processing { .. } => {
            finish_keeps_slot_after_processing(o, flow, reply, under_way)
        },
        FinishStep::Delivering { .. } => {
            finish_keeps_slot_after_delivering(o, flow, reply, under_way)
        },
        FinishStep::ClosingSession { .. } => {
            finish_keeps_slot_after_closing_session(o, flow, reply, under_way)
        },
    }
}

/// The beginnings of all workflows keep the slot, and so does a passed limit. A start
/// begins for a session that does not have the slot.
pub proof fn every_beginning_keeps_the_slot(
    o: OrchestratorView,
    session_id: SessionId,
    under_way: Set<SessionId>,
)
    requires
        single_flight(o),
    ensures
        keeps_slot(o, start_begin(o, session_id).after, under_way),
        !in_slot(o, session_id) && start_begin(o, session_id).next is Await ==> start_stands(
            start_begin(o, session_id).after,
            start_begin(o, session_id).next->flow,
        ),
        keeps_slot(o, finish_begin(o, session_id).after, under_way),
        finish_begin(o, session_id).next is Await ==> finish_stands(
            finish_begin(o, session_id).after,
            finish_begin(o, session_id).next->flow,
        ),
        keeps_slot(o, cancel_begin(o, session_id).after, under_way),
        cancel_begin(o, session_id).next is Await ==> cancellation_stands(
            cancel_begin(o, session_id).after,
            cancel_begin(o, session_id).next->flow.step,
        ),
        keeps_slot(o, retry_begin(o, session_id).after, under_way),
        retry_begin(o, session_id).next is Await ==> retry_stands(
            retry_begin(o, session_id).after,
            retry_begin(o, session_id).next->flow.step,
        ),
        keeps_slot(o, o.limit_marked(session_id), under_way),
{
}

/// An exit gives the slot to nobody.
pub proof fn an_exit_keeps_the_slot(
    o: OrchestratorView,
    attempt: u64,
    flow: QuitFlow,
    reply: Reply,
    under_way: Set<SessionId>,
)
    requires
        single_flight(o),
        slot_has_its_place(o, under_way),
    ensures
        o.exit.role() == ExitRole::Leader(attempt) ==> {
            let begun = quit_begin(OrchestratorView { exit: o.exit.begun(), ..o }, attempt);
            &&& slot_has_its_place(begun.after, under_way)
            &&& begun.after.session is Some ==> in_slot(o, begun.after.session->0.session.id)
        },
        quit_awaits(flow.step, reply) && leads(o, flow.taken) ==> {
            let step = quit_step(o, flow, reply);
            &&& slot_has_its_place(step.after, under_way)
            &&& step.after.session == o.session
        },
{
}

/// At first the slot is free. Later on a free place means a free slot: where nothing is
/// under way and nothing is owed, no session has the slot, and the next start can have
/// it.
pub proof fn a_free_place_has_a_free_slot(o: OrchestratorView)
    ensures
        slot_has_its_place(OrchestratorView::fresh(), Set::empty()),
        slot_has_its_place(o, Set::empty()) && !o.quitting && o.occupant() is None
            ==> o.session is None,
{
}

/// What a workflow that waits relies on stays true whatever another one does: a session
/// that does not have the slot never gets it but from its own start, and one that has it
/// does not begin to record but by its own start.
pub proof fn what_is_relied_on_of_the_slot_stays(
    before: OrchestratorView,
    after: OrchestratorView,
    session_id: SessionId,
    under_way: Set<SessionId>,
    flow: StartFlow,
    step: StartMove,
)
    ensures
        keeps_slot(before, after, under_way) && !in_slot(before, session_id) ==> !in_slot(
            after,
            session_id,
        ),
        keeps_slot(before, after, under_way) && in_slot(before, session_id) && is_new(before)
            && in_slot(after, session_id) ==> is_new(after),
        start_keeps_slot(before, flow, step, under_way) && flow.session_id != session_id
            && !in_slot(before, session_id) ==> !in_slot(step.after, session_id),
        start_keeps_slot(before, flow, step, under_way) && flow.session_id != session_id && in_slot(
            before,
            session_id,
        ) && is_new(before) && in_slot(step.after, session_id) ==> is_new(step.after),
{
}

} // verus!
