//! What the shared state stands for outside of it: a session that prepares or works
//! has an open lifecycle, and a deadline that is on record is armed. Whatever leaves
//! the state is let go of in the same step.

use crate::domain::SessionId;
use crate::orchestrator::cancel::{cancel_begin, cancel_step, CancelFlow};
use crate::orchestrator::deliver::{deliver_awaits, deliver_step, DeliverStep};
use crate::orchestrator::exit::ExitRole;
use crate::orchestrator::finish::{
    finish_awaits, finish_begin, finish_step, FinishFlow, FinishStep,
};
use crate::orchestrator::prepare::{prepare_awaits, prepare_step, PrepareFlow};
use crate::orchestrator::protocol::{Effect, Reply};
use crate::orchestrator::quit::{quit_awaits, quit_begin, quit_step, quit_taken, QuitFlow};
use crate::orchestrator::retry::{retry_begin, retry_step, RetryFlow};
use crate::orchestrator::session_laws::{leads, single_flight};
use crate::orchestrator::start::{start_awaits, start_begin, start_step, StartFlow, StartStep};
use crate::orchestrator::state::OrchestratorView;
use crate::ports::RecordingDeadlineGuard;
use vstd::prelude::*;

verus! {

/// The session whose lifecycle is open, if one is.
pub open spec fn open_lifecycle(o: OrchestratorView) -> Option<SessionId> {
    if o.active is Some {
        Some(o.active->0.session_id)
    } else if o.preparing is Some {
        Some(o.preparing->0.session_id)
    } else {
        None
    }
}

/// The deadline that is armed, if one is.
pub open spec fn armed_deadline(o: OrchestratorView) -> Option<RecordingDeadlineGuard> {
    if o.active is Some {
        o.active->0.recording_deadline
    } else if o.preparing is Some {
        o.preparing->0.recording_deadline
    } else {
        None
    }
}

/// Whether a step lets go of what leaves the state, and takes hold of what comes
/// into it.
pub open spec fn accounts(
    before: OrchestratorView,
    effects: Seq<Effect>,
    after: OrchestratorView,
) -> bool {
    &&& open_lifecycle(before) is Some && open_lifecycle(after) != open_lifecycle(before)
        ==> effects.contains(Effect::InvalidateLifecycle(open_lifecycle(before)->0))
    &&& open_lifecycle(after) is Some && open_lifecycle(after) != open_lifecycle(before)
        ==> effects.contains(Effect::OpenLifecycle(open_lifecycle(after)->0))
    &&& armed_deadline(before) is Some && armed_deadline(after) != armed_deadline(before)
        ==> effects.contains(Effect::CancelDeadline(armed_deadline(before)->0))
}

broadcast proof fn an_empty_list_holds_nothing(effect: Effect)
    ensures
        !(#[trigger] Seq::<Effect>::empty().contains(effect)),
{
}

broadcast proof fn a_longer_list_holds(effects: Seq<Effect>, last: Effect, effect: Effect)
    ensures
        #[trigger] effects.push(last).contains(effect) <==> effects.contains(effect) || last
            == effect,
{
    let all = effects.push(last);
    if effects.contains(effect) {
        let i = choose|i: int| 0 <= i < effects.len() && effects[i] == effect;
        assert(all[i] == effect);
    }
    if last == effect {
        assert(all[effects.len() as int] == effect);
    }
}

broadcast proof fn a_joined_list_holds(left: Seq<Effect>, right: Seq<Effect>, effect: Effect)
    ensures
        #[trigger] (left + right).contains(effect) <==> left.contains(effect) || right.contains(
            effect,
        ),
{
    let all = left + right;
    if left.contains(effect) {
        let i = choose|i: int| 0 <= i < left.len() && left[i] == effect;
        assert(all[i] == effect);
    }
    if right.contains(effect) {
        let i = choose|i: int| 0 <= i < right.len() && right[i] == effect;
        assert(all[left.len() + i] == effect);
    }
    if all.contains(effect) {
        let i = choose|i: int| 0 <= i < all.len() && all[i] == effect;
        if i < left.len() {
            assert(left[i] == effect);
        } else {
            assert(right[i - left.len()] == effect);
        }
    }
}

proof fn start_accounts_after_acquiring_gate(o: OrchestratorView, flow: StartFlow, reply: Reply)
    requires
        flow.step is AcquiringGate,
        start_awaits(flow.step, reply),
        single_flight(o),
    ensures
        accounts(o, start_step(o, flow, reply).effects, start_step(o, flow, reply).after),
{
    broadcast use {an_empty_list_holds_nothing, a_longer_list_holds, a_joined_list_holds};

}

proof fn start_accounts_after_loading_settings(o: OrchestratorView, flow: StartFlow, reply: Reply)
    requires
        flow.step is LoadingSettings,
        start_awaits(flow.step, reply),
        single_flight(o),
    ensures
        accounts(o, start_step(o, flow, reply).effects, start_step(o, flow, reply).after),
{
    broadcast use {an_empty_list_holds_nothing, a_longer_list_holds, a_joined_list_holds};

}

proof fn start_accounts_after_resolving_route(o: OrchestratorView, flow: StartFlow, reply: Reply)
    requires
        flow.step is ResolvingRoute,
        start_awaits(flow.step, reply),
        single_flight(o),
    ensures
        accounts(o, start_step(o, flow, reply).effects, start_step(o, flow, reply).after),
{
    broadcast use {an_empty_list_holds_nothing, a_longer_list_holds, a_joined_list_holds};

}

proof fn start_accounts_after_capturing_target(o: OrchestratorView, flow: StartFlow, reply: Reply)
    requires
        flow.step is CapturingTarget,
        start_awaits(flow.step, reply),
        single_flight(o),
    ensures
        accounts(o, start_step(o, flow, reply).effects, start_step(o, flow, reply).after),
{
    broadcast use {an_empty_list_holds_nothing, a_longer_list_holds, a_joined_list_holds};

}

proof fn start_accounts_after_reading_selection(o: OrchestratorView, flow: StartFlow, reply: Reply)
    requires
        flow.step is ReadingSelection,
        start_awaits(flow.step, reply),
        single_flight(o),
    ensures
        accounts(o, start_step(o, flow, reply).effects, start_step(o, flow, reply).after),
{
    broadcast use {an_empty_list_holds_nothing, a_longer_list_holds, a_joined_list_holds};

}

proof fn start_accounts_after_reading_clipboard_selection(
    o: OrchestratorView,
    flow: StartFlow,
    reply: Reply,
)
    requires
        flow.step is ReadingClipboardSelection,
        start_awaits(flow.step, reply),
        single_flight(o),
    ensures
        accounts(o, start_step(o, flow, reply).effects, start_step(o, flow, reply).after),
{
    broadcast use {an_empty_list_holds_nothing, a_longer_list_holds, a_joined_list_holds};

}

proof fn start_accounts_after_requesting_microphone(
    o: OrchestratorView,
    flow: StartFlow,
    reply: Reply,
)
    requires
        flow.step is RequestingMicrophone,
        start_awaits(flow.step, reply),
        single_flight(o),
    ensures
        accounts(o, start_step(o, flow, reply).effects, start_step(o, flow, reply).after),
{
    broadcast use {an_empty_list_holds_nothing, a_longer_list_holds, a_joined_list_holds};

}

proof fn start_accounts_after_preparing(o: OrchestratorView, flow: StartFlow, reply: Reply)
    requires
        flow.step is Preparing,
        start_awaits(flow.step, reply),
        single_flight(o),
    ensures
        accounts(o, start_step(o, flow, reply).effects, start_step(o, flow, reply).after),
{
    broadcast use {an_empty_list_holds_nothing, a_longer_list_holds, a_joined_list_holds};

}

proof fn start_accounts_after_reading_clock(o: OrchestratorView, flow: StartFlow, reply: Reply)
    requires
        flow.step is ReadingClock,
        start_awaits(flow.step, reply),
        single_flight(o),
    ensures
        accounts(o, start_step(o, flow, reply).effects, start_step(o, flow, reply).after),
{
    broadcast use {an_empty_list_holds_nothing, a_longer_list_holds, a_joined_list_holds};

}

proof fn start_accounts_after_announcing_recording(
    o: OrchestratorView,
    flow: StartFlow,
    reply: Reply,
)
    requires
        flow.step is AnnouncingRecording,
        start_awaits(flow.step, reply),
        single_flight(o),
    ensures
        accounts(o, start_step(o, flow, reply).effects, start_step(o, flow, reply).after),
{
    broadcast use {an_empty_list_holds_nothing, a_longer_list_holds, a_joined_list_holds};

}

proof fn start_accounts_after_cancelling_capture(o: OrchestratorView, flow: StartFlow, reply: Reply)
    requires
        flow.step is CancellingCapture,
        start_awaits(flow.step, reply),
        single_flight(o),
    ensures
        accounts(o, start_step(o, flow, reply).effects, start_step(o, flow, reply).after),
{
    broadcast use {an_empty_list_holds_nothing, a_longer_list_holds, a_joined_list_holds};

}

proof fn start_accounts_after_hiding_hud(o: OrchestratorView, flow: StartFlow, reply: Reply)
    requires
        flow.step is HidingHud,
        start_awaits(flow.step, reply),
        single_flight(o),
    ensures
        accounts(o, start_step(o, flow, reply).effects, start_step(o, flow, reply).after),
{
    broadcast use {an_empty_list_holds_nothing, a_longer_list_holds, a_joined_list_holds};

}

proof fn start_accounts_after_notifying(o: OrchestratorView, flow: StartFlow, reply: Reply)
    requires
        flow.step is Notifying,
        start_awaits(flow.step, reply),
        single_flight(o),
    ensures
        accounts(o, start_step(o, flow, reply).effects, start_step(o, flow, reply).after),
{
    broadcast use {an_empty_list_holds_nothing, a_longer_list_holds, a_joined_list_holds};

}

proof fn start_accounts_after_finishing(o: OrchestratorView, flow: StartFlow, reply: Reply)
    requires
        flow.step is Finishing,
        start_awaits(flow.step, reply),
        single_flight(o),
    ensures
        accounts(o, start_step(o, flow, reply).effects, start_step(o, flow, reply).after),
{
    broadcast use {an_empty_list_holds_nothing, a_longer_list_holds, a_joined_list_holds};

}

/// A step of a start lets go of what leaves the state.
pub proof fn a_start_accounts(o: OrchestratorView, flow: StartFlow, reply: Reply)
    requires
        start_awaits(flow.step, reply),
        single_flight(o),
    ensures
        accounts(o, start_step(o, flow, reply).effects, start_step(o, flow, reply).after),
{
    match flow.step {
        StartStep::AcquiringGate => start_accounts_after_acquiring_gate(o, flow, reply),
        StartStep::LoadingSettings => start_accounts_after_loading_settings(o, flow, reply),
        StartStep::ResolvingRoute { .. } => start_accounts_after_resolving_route(o, flow, reply),
        StartStep::CapturingTarget { .. } => start_accounts_after_capturing_target(o, flow, reply),
        StartStep::ReadingSelection { .. } => start_accounts_after_reading_selection(
            o,
            flow,
            reply,
        ),
        StartStep::ReadingClipboardSelection { .. } => {
            start_accounts_after_reading_clipboard_selection(o, flow, reply)
        },
        StartStep::RequestingMicrophone { .. } => start_accounts_after_requesting_microphone(
            o,
            flow,
            reply,
        ),
        StartStep::Preparing { .. } => start_accounts_after_preparing(o, flow, reply),
        StartStep::ReadingClock { .. } => start_accounts_after_reading_clock(o, flow, reply),
        StartStep::AnnouncingRecording { .. } => start_accounts_after_announcing_recording(
            o,
            flow,
            reply,
        ),
        StartStep::CancellingCapture { .. } => start_accounts_after_cancelling_capture(
            o,
            flow,
            reply,
        ),
        StartStep::HidingHud { .. } => start_accounts_after_hiding_hud(o, flow, reply),
        StartStep::Notifying { .. } => start_accounts_after_notifying(o, flow, reply),
        StartStep::Finishing => start_accounts_after_finishing(o, flow, reply),
    }
}

proof fn delivery_accounts_after_issuing_id(
    o: OrchestratorView,
    session_id: SessionId,
    step: DeliverStep,
    reply: Reply,
)
    requires
        step is IssuingId,
        deliver_awaits(step, reply),
        single_flight(o),
    ensures
        accounts(
            o,
            deliver_step(o, session_id, step, reply).effects,
            deliver_step(o, session_id, step, reply).after,
        ),
{
    broadcast use {an_empty_list_holds_nothing, a_longer_list_holds, a_joined_list_holds};

}

proof fn delivery_accounts_after_announcing(
    o: OrchestratorView,
    session_id: SessionId,
    step: DeliverStep,
    reply: Reply,
)
    requires
        step is Announcing,
        deliver_awaits(step, reply),
        single_flight(o),
    ensures
        accounts(
            o,
            deliver_step(o, session_id, step, reply).effects,
            deliver_step(o, session_id, step, reply).after,
        ),
{
    broadcast use {an_empty_list_holds_nothing, a_longer_list_holds, a_joined_list_holds};

}

proof fn delivery_accounts_after_revalidating(
    o: OrchestratorView,
    session_id: SessionId,
    step: DeliverStep,
    reply: Reply,
)
    requires
        step is Revalidating,
        deliver_awaits(step, reply),
        single_flight(o),
    ensures
        accounts(
            o,
            deliver_step(o, session_id, step, reply).effects,
            deliver_step(o, session_id, step, reply).after,
        ),
{
    broadcast use {an_empty_list_holds_nothing, a_longer_list_holds, a_joined_list_holds};

}

proof fn delivery_accounts_after_inserting(
    o: OrchestratorView,
    session_id: SessionId,
    step: DeliverStep,
    reply: Reply,
)
    requires
        step is Inserting,
        deliver_awaits(step, reply),
        single_flight(o),
    ensures
        accounts(
            o,
            deliver_step(o, session_id, step, reply).effects,
            deliver_step(o, session_id, step, reply).after,
        ),
{
    broadcast use {an_empty_list_holds_nothing, a_longer_list_holds, a_joined_list_holds};

}

proof fn delivery_accounts_after_revalidating_bridge(
    o: OrchestratorView,
    session_id: SessionId,
    step: DeliverStep,
    reply: Reply,
)
    requires
        step is RevalidatingBridge,
        deliver_awaits(step, reply),
        single_flight(o),
    ensures
        accounts(
            o,
            deliver_step(o, session_id, step, reply).effects,
            deliver_step(o, session_id, step, reply).after,
        ),
{
    broadcast use {an_empty_list_holds_nothing, a_longer_list_holds, a_joined_list_holds};

}

proof fn delivery_accounts_after_pasting_at_target(
    o: OrchestratorView,
    session_id: SessionId,
    step: DeliverStep,
    reply: Reply,
)
    requires
        step is PastingAtTarget,
        deliver_awaits(step, reply),
        single_flight(o),
    ensures
        accounts(
            o,
            deliver_step(o, session_id, step, reply).effects,
            deliver_step(o, session_id, step, reply).after,
        ),
{
    broadcast use {an_empty_list_holds_nothing, a_longer_list_holds, a_joined_list_holds};

}

proof fn delivery_accounts_after_pasting_at_focus(
    o: OrchestratorView,
    session_id: SessionId,
    step: DeliverStep,
    reply: Reply,
)
    requires
        step is PastingAtFocus,
        deliver_awaits(step, reply),
        single_flight(o),
    ensures
        accounts(
            o,
            deliver_step(o, session_id, step, reply).effects,
            deliver_step(o, session_id, step, reply).after,
        ),
{
    broadcast use {an_empty_list_holds_nothing, a_longer_list_holds, a_joined_list_holds};

}

proof fn delivery_accounts_after_showing_temporary(
    o: OrchestratorView,
    session_id: SessionId,
    step: DeliverStep,
    reply: Reply,
)
    requires
        step is ShowingTemporary,
        deliver_awaits(step, reply),
        single_flight(o),
    ensures
        accounts(
            o,
            deliver_step(o, session_id, step, reply).effects,
            deliver_step(o, session_id, step, reply).after,
        ),
{
    broadcast use {an_empty_list_holds_nothing, a_longer_list_holds, a_joined_list_holds};

}

proof fn delivery_accounts_after_announcing_finalization(
    o: OrchestratorView,
    session_id: SessionId,
    step: DeliverStep,
    reply: Reply,
)
    requires
        step is AnnouncingFinalization,
        deliver_awaits(step, reply),
        single_flight(o),
    ensures
        accounts(
            o,
            deliver_step(o, session_id, step, reply).effects,
            deliver_step(o, session_id, step, reply).after,
        ),
{
    broadcast use {an_empty_list_holds_nothing, a_longer_list_holds, a_joined_list_holds};

}

proof fn delivery_accounts_after_copying(
    o: OrchestratorView,
    session_id: SessionId,
    step: DeliverStep,
    reply: Reply,
)
    requires
        step is Copying,
        deliver_awaits(step, reply),
        single_flight(o),
    ensures
        accounts(
            o,
            deliver_step(o, session_id, step, reply).effects,
            deliver_step(o, session_id, step, reply).after,
        ),
{
    broadcast use {an_empty_list_holds_nothing, a_longer_list_holds, a_joined_list_holds};

}

proof fn delivery_accounts_after_reading_clock(
    o: OrchestratorView,
    session_id: SessionId,
    step: DeliverStep,
    reply: Reply,
)
    requires
        step is ReadingClock,
        deliver_awaits(step, reply),
        single_flight(o),
    ensures
        accounts(
            o,
            deliver_step(o, session_id, step, reply).effects,
            deliver_step(o, session_id, step, reply).after,
        ),
{
    broadcast use {an_empty_list_holds_nothing, a_longer_list_holds, a_joined_list_holds};

}

proof fn delivery_accounts_after_saving(
    o: OrchestratorView,
    session_id: SessionId,
    step: DeliverStep,
    reply: Reply,
)
    requires
        step is Saving,
        deliver_awaits(step, reply),
        single_flight(o),
    ensures
        accounts(
            o,
            deliver_step(o, session_id, step, reply).effects,
            deliver_step(o, session_id, step, reply).after,
        ),
{
    broadcast use {an_empty_list_holds_nothing, a_longer_list_holds, a_joined_list_holds};

}

proof fn delivery_accounts_after_announcing_completion(
    o: OrchestratorView,
    session_id: SessionId,
    step: DeliverStep,
    reply: Reply,
)
    requires
        step is AnnouncingCompletion,
        deliver_awaits(step, reply),
        single_flight(o),
    ensures
        accounts(
            o,
            deliver_step(o, session_id, step, reply).effects,
            deliver_step(o, session_id, step, reply).after,
        ),
{
    broadcast use {an_empty_list_holds_nothing, a_longer_list_holds, a_joined_list_holds};

}

proof fn delivery_accounts_after_closing_session(
    o: OrchestratorView,
    session_id: SessionId,
    step: DeliverStep,
    reply: Reply,
)
    requires
        step is ClosingSession,
        deliver_awaits(step, reply),
        single_flight(o),
    ensures
        accounts(
            o,
            deliver_step(o, session_id, step, reply).effects,
            deliver_step(o, session_id, step, reply).after,
        ),
{
    broadcast use {an_empty_list_holds_nothing, a_longer_list_holds, a_joined_list_holds};

}

/// A step of a delivery lets go of what leaves the state.
pub proof fn a_delivery_accounts(
    o: OrchestratorView,
    session_id: SessionId,
    step: DeliverStep,
    reply: Reply,
)
    requires
        deliver_awaits(step, reply),
        single_flight(o),
    ensures
        accounts(
            o,
            deliver_step(o, session_id, step, reply).effects,
            deliver_step(o, session_id, step, reply).after,
        ),
{
    match step {
        DeliverStep::IssuingId { .. } => delivery_accounts_after_issuing_id(
            o,
            session_id,
            step,
            reply,
        ),
        DeliverStep::Announcing { .. } => delivery_accounts_after_announcing(
            o,
            session_id,
            step,
            reply,
        ),
        DeliverStep::Revalidating { .. } => delivery_accounts_after_revalidating(
            o,
            session_id,
            step,
            reply,
        ),
        DeliverStep::Inserting { .. } => delivery_accounts_after_inserting(
            o,
            session_id,
            step,
            reply,
        ),
        DeliverStep::RevalidatingBridge { .. } => delivery_accounts_after_revalidating_bridge(
            o,
            session_id,
            step,
            reply,
        ),
        DeliverStep::PastingAtTarget { .. } => delivery_accounts_after_pasting_at_target(
            o,
            session_id,
            step,
            reply,
        ),
        DeliverStep::PastingAtFocus { .. } => delivery_accounts_after_pasting_at_focus(
            o,
            session_id,
            step,
            reply,
        ),
        DeliverStep::ShowingTemporary { .. } => delivery_accounts_after_showing_temporary(
            o,
            session_id,
            step,
            reply,
        ),
        DeliverStep::AnnouncingFinalization { .. } => delivery_accounts_after_announcing_finalization(
            o,
            session_id,
            step,
            reply,
        ),
        DeliverStep::Copying { .. } => delivery_accounts_after_copying(
            o,
            session_id,
            step,
            reply,
        ),
        DeliverStep::ReadingClock { .. } => delivery_accounts_after_reading_clock(
            o,
            session_id,
            step,
            reply,
        ),
        DeliverStep::Saving { .. } => delivery_accounts_after_saving(
            o,
            session_id,
            step,
            reply,
        ),
        DeliverStep::AnnouncingCompletion { .. } => delivery_accounts_after_announcing_completion(
            o,
            session_id,
            step,
            reply,
        ),
        DeliverStep::ClosingSession { .. } => delivery_accounts_after_closing_session(
            o,
            session_id,
            step,
            reply,
        ),
    }
}

/// A step of a cancellation lets go of what leaves the state.
pub proof fn a_cancellation_accounts(o: OrchestratorView, flow: CancelFlow, reply: Reply)
    requires
        reply is Acted,
        single_flight(o),
    ensures
        accounts(o, cancel_step(o, flow, reply).effects, cancel_step(o, flow, reply).after),
{
    broadcast use {an_empty_list_holds_nothing, a_longer_list_holds, a_joined_list_holds};

}

proof fn finish_accounts_after_finishing_audio(o: OrchestratorView, flow: FinishFlow, reply: Reply)
    requires
        flow.step is FinishingAudio,
        finish_awaits(flow.step, reply),
        single_flight(o),
    ensures
        accounts(o, finish_step(o, flow, reply).effects, finish_step(o, flow, reply).after),
{
    broadcast use {an_empty_list_holds_nothing, a_longer_list_holds, a_joined_list_holds};

}

proof fn finish_accounts_after_cancelling_empty_capture(
    o: OrchestratorView,
    flow: FinishFlow,
    reply: Reply,
)
    requires
        flow.step is CancellingEmptyCapture,
        finish_awaits(flow.step, reply),
        single_flight(o),
    ensures
        accounts(o, finish_step(o, flow, reply).effects, finish_step(o, flow, reply).after),
{
    a_cancellation_accounts(
        o,
        CancelFlow { session_id: flow.session_id, step: flow.step->CancellingEmptyCapture_step },
        reply,
    );
}

proof fn finish_accounts_after_cancelling_failed_capture(
    o: OrchestratorView,
    flow: FinishFlow,
    reply: Reply,
)
    requires
        flow.step is CancellingFailedCapture,
        finish_awaits(flow.step, reply),
        single_flight(o),
    ensures
        accounts(o, finish_step(o, flow, reply).effects, finish_step(o, flow, reply).after),
{
    broadcast use {an_empty_list_holds_nothing, a_longer_list_holds, a_joined_list_holds};

}

proof fn finish_accounts_after_playing_cue(o: OrchestratorView, flow: FinishFlow, reply: Reply)
    requires
        flow.step is PlayingCue,
        finish_awaits(flow.step, reply),
        single_flight(o),
    ensures
        accounts(o, finish_step(o, flow, reply).effects, finish_step(o, flow, reply).after),
{
    broadcast use {an_empty_list_holds_nothing, a_longer_list_holds, a_joined_list_holds};

}

proof fn finish_accounts_after_discarding_audio(o: OrchestratorView, flow: FinishFlow, reply: Reply)
    requires
        flow.step is DiscardingAudio,
        finish_awaits(flow.step, reply),
        single_flight(o),
    ensures
        accounts(o, finish_step(o, flow, reply).effects, finish_step(o, flow, reply).after),
{
    broadcast use {an_empty_list_holds_nothing, a_longer_list_holds, a_joined_list_holds};

}

proof fn finish_accounts_after_issuing_recognition(
    o: OrchestratorView,
    flow: FinishFlow,
    reply: Reply,
)
    requires
        flow.step is IssuingRecognition,
        finish_awaits(flow.step, reply),
        single_flight(o),
    ensures
        accounts(o, finish_step(o, flow, reply).effects, finish_step(o, flow, reply).after),
{
    broadcast use {an_empty_list_holds_nothing, a_longer_list_holds, a_joined_list_holds};

}

proof fn finish_accounts_after_announcing_recognition(
    o: OrchestratorView,
    flow: FinishFlow,
    reply: Reply,
)
    requires
        flow.step is AnnouncingRecognition,
        finish_awaits(flow.step, reply),
        single_flight(o),
    ensures
        accounts(o, finish_step(o, flow, reply).effects, finish_step(o, flow, reply).after),
{
    broadcast use {an_empty_list_holds_nothing, a_longer_list_holds, a_joined_list_holds};

}

proof fn finish_accounts_after_transcribing(o: OrchestratorView, flow: FinishFlow, reply: Reply)
    requires
        flow.step is Transcribing,
        finish_awaits(flow.step, reply),
        single_flight(o),
    ensures
        accounts(o, finish_step(o, flow, reply).effects, finish_step(o, flow, reply).after),
{
    broadcast use {an_empty_list_holds_nothing, a_longer_list_holds, a_joined_list_holds};

}

proof fn finish_accounts_after_cleaning_audio(o: OrchestratorView, flow: FinishFlow, reply: Reply)
    requires
        flow.step is CleaningAudio,
        finish_awaits(flow.step, reply),
        single_flight(o),
    ensures
        accounts(o, finish_step(o, flow, reply).effects, finish_step(o, flow, reply).after),
{
    broadcast use {an_empty_list_holds_nothing, a_longer_list_holds, a_joined_list_holds};

}

proof fn finish_accounts_after_issuing_processing(
    o: OrchestratorView,
    flow: FinishFlow,
    reply: Reply,
)
    requires
        flow.step is IssuingProcessing,
        finish_awaits(flow.step, reply),
        single_flight(o),
    ensures
        accounts(o, finish_step(o, flow, reply).effects, finish_step(o, flow, reply).after),
{
    broadcast use {an_empty_list_holds_nothing, a_longer_list_holds, a_joined_list_holds};

}

proof fn finish_accounts_after_announcing_processing(
    o: OrchestratorView,
    flow: FinishFlow,
    reply: Reply,
)
    requires
        flow.step is AnnouncingProcessing,
        finish_awaits(flow.step, reply),
        single_flight(o),
    ensures
        accounts(o, finish_step(o, flow, reply).effects, finish_step(o, flow, reply).after),
{
    broadcast use {an_empty_list_holds_nothing, a_longer_list_holds, a_joined_list_holds};

}

proof fn finish_accounts_after_processing(o: OrchestratorView, flow: FinishFlow, reply: Reply)
    requires
        flow.step is Processing,
        finish_awaits(flow.step, reply),
        single_flight(o),
    ensures
        accounts(o, finish_step(o, flow, reply).effects, finish_step(o, flow, reply).after),
{
    broadcast use {an_empty_list_holds_nothing, a_longer_list_holds, a_joined_list_holds};

}

proof fn finish_accounts_after_delivering(o: OrchestratorView, flow: FinishFlow, reply: Reply)
    requires
        flow.step is Delivering,
        finish_awaits(flow.step, reply),
        single_flight(o),
    ensures
        accounts(o, finish_step(o, flow, reply).effects, finish_step(o, flow, reply).after),
{
    a_delivery_accounts(o, flow.session_id, flow.step->Delivering_step, reply);
}

proof fn finish_accounts_after_closing_session(o: OrchestratorView, flow: FinishFlow, reply: Reply)
    requires
        flow.step is ClosingSession,
        finish_awaits(flow.step, reply),
        single_flight(o),
    ensures
        accounts(o, finish_step(o, flow, reply).effects, finish_step(o, flow, reply).after),
{
    broadcast use {an_empty_list_holds_nothing, a_longer_list_holds, a_joined_list_holds};

}

/// A step of a finish workflow lets go of what leaves the state.
pub proof fn a_finish_accounts(o: OrchestratorView, flow: FinishFlow, reply: Reply)
    requires
        finish_awaits(flow.step, reply),
        single_flight(o),
    ensures
        accounts(o, finish_step(o, flow, reply).effects, finish_step(o, flow, reply).after),
{
    match flow.step {
        FinishStep::FinishingAudio { .. } => finish_accounts_after_finishing_audio(o, flow, reply),
        FinishStep::CancellingEmptyCapture { .. } => finish_accounts_after_cancelling_empty_capture(
            o,
            flow,
            reply,
        ),
        FinishStep::CancellingFailedCapture { .. } => {
            finish_accounts_after_cancelling_failed_capture(o, flow, reply)
        },
        FinishStep::PlayingCue { .. } => finish_accounts_after_playing_cue(o, flow, reply),
        FinishStep::DiscardingAudio { .. } => finish_accounts_after_discarding_audio(
            o,
            flow,
            reply,
        ),
        FinishStep::IssuingRecognition { .. } => finish_accounts_after_issuing_recognition(
            o,
            flow,
            reply,
        ),
        FinishStep::AnnouncingRecognition { .. } => finish_accounts_after_announcing_recognition(
            o,
            flow,
            reply,
        ),
        FinishStep::Transcribing { .. } => finish_accounts_after_transcribing(o, flow, reply),
        FinishStep::CleaningAudio { .. } => finish_accounts_after_cleaning_audio(o, flow, reply),
        FinishStep::IssuingProcessing { .. } => finish_accounts_after_issuing_processing(
            o,
            flow,
            reply,
        ),
        FinishStep::AnnouncingProcessing { .. } => finish_accounts_after_announcing_processing(
            o,
            flow,
            reply,
        ),
        FinishStep::Processing { .. } => finish_accounts_after_processing(o, flow, reply),
        FinishStep::Delivering { .. } => finish_accounts_after_delivering(o, flow, reply),
        FinishStep::ClosingSession { .. } => finish_accounts_after_closing_session(o, flow, reply),
    }
}

/// A step of a preparation lets go of what leaves the state. A deadline that was
/// just armed is on record from now on, or let go of at once.
pub proof fn a_preparation_accounts(o: OrchestratorView, flow: PrepareFlow, reply: Reply)
    requires
        prepare_awaits(flow.step, reply),
        single_flight(o),
    ensures
        accounts(o, prepare_step(o, flow, reply).effects, prepare_step(o, flow, reply).after),
        reply is Deadline && reply->Deadline_0 is Ok ==> armed_deadline(
            prepare_step(o, flow, reply).after,
        ) == Some(reply->Deadline_0->Ok_0) || prepare_step(o, flow, reply).effects.contains(
            Effect::CancelDeadline(reply->Deadline_0->Ok_0),
        ),
{
    broadcast use {an_empty_list_holds_nothing, a_longer_list_holds, a_joined_list_holds};

}

/// A step of a retry lets go of what leaves the state.
pub proof fn a_retry_accounts(o: OrchestratorView, flow: RetryFlow, reply: Reply)
    requires
        reply is Acted,
        single_flight(o),
    ensures
        accounts(o, retry_step(o, flow, reply).effects, retry_step(o, flow, reply).after),
{
    broadcast use {an_empty_list_holds_nothing, a_longer_list_holds, a_joined_list_holds};

}

/// An exit lets go of everything when it begins.
pub proof fn an_exit_lets_go_of_everything(o: OrchestratorView, attempt: u64)
    requires
        o.exit.role() == ExitRole::Leader(attempt),
        single_flight(o),
    ensures
        ({
            let begun = quit_begin(OrchestratorView { exit: o.exit.begun(), ..o }, attempt);
            &&& accounts(o, begun.effects, begun.after)
            &&& open_lifecycle(begun.after) is None
            &&& armed_deadline(begun.after) is None
        }),
{
    broadcast use {an_empty_list_holds_nothing, a_longer_list_holds, a_joined_list_holds};

}

/// An exit that fails puts the session back whose lifecycle it has ended. It opens
/// no lifecycle again and arms no deadline.
pub proof fn an_exit_opens_nothing(
    o: OrchestratorView,
    earlier: OrchestratorView,
    flow: QuitFlow,
    reply: Reply,
)
    requires
        quit_awaits(flow.step, reply),
        flow.taken == quit_taken(earlier, flow.taken.attempt),
        leads(o, flow.taken),
        single_flight(o),
        open_lifecycle(o) is None,
    ensures
        ({
            let step = quit_step(o, flow, reply);
            &&& armed_deadline(step.after) is None
            &&& step.next is Await || step.next->Done_0 is Ok ==> open_lifecycle(step.after) is None
            &&& step.next is Done && step.next->Done_0 is Err ==> open_lifecycle(step.after)
                == open_lifecycle(earlier)
            &&& forall|session_id: SessionId|
                !#[trigger] step.effects.contains(Effect::OpenLifecycle(session_id))
        }),
{
    broadcast use {an_empty_list_holds_nothing, a_longer_list_holds, a_joined_list_holds};

}

/// The beginnings of all workflows let go of what leaves the state.
pub proof fn every_beginning_accounts(o: OrchestratorView, session_id: SessionId)
    requires
        single_flight(o),
    ensures
        accounts(o, start_begin(o, session_id).effects, start_begin(o, session_id).after),
        accounts(o, finish_begin(o, session_id).effects, finish_begin(o, session_id).after),
        accounts(o, cancel_begin(o, session_id).effects, cancel_begin(o, session_id).after),
        accounts(o, retry_begin(o, session_id).effects, retry_begin(o, session_id).after),
        accounts(o, Seq::empty(), o.limit_marked(session_id)),
{
    broadcast use {an_empty_list_holds_nothing, a_longer_list_holds, a_joined_list_holds};

}

} // verus!
