//! What the workflows keep of the state that they share.

use crate::domain::SessionId;
use crate::orchestrator::cancel::{
    cancel_begin, cancel_step, capture_settled, CancelFlow, CancelResult,
};
use crate::orchestrator::deliver::{deliver_awaits, deliver_step, DeliverStep, FinishEnd};
use crate::orchestrator::exit::{ExitRole, ExitState};
use crate::orchestrator::finish::{
    finish_awaits, finish_begin, finish_step, FinishFlow, FinishStep,
};
use crate::orchestrator::prepare::{prepare_awaits, prepare_step, PrepareFlow};
use crate::orchestrator::protocol::{Next, Reply};
use crate::orchestrator::quit::{quit_awaits, quit_begin, quit_step, QuitFlow, QuitTaken};
use crate::orchestrator::retry::{retry_begin, retry_step, RetryFlow, RetryResult};
use crate::orchestrator::start::{
    start_awaits, start_begin, start_step, StartFlow, StartResult, StartStep,
};
use crate::orchestrator::state::{
    debt_index, with_debt, without_debt, AudioCleanupDebt, AudioCleanupOutcome,
    AudioCleanupResource, CancelOutcome, OrchestratorView, StartOutcome,
};
use crate::ports::{AudioCaptureRef, PortError};
use vstd::prelude::*;

verus! {

/// At most one session starts, prepares or works. Nothing starts once the
/// application is quitting, and nothing runs while an exit is being carried out.
pub open spec fn single_flight(o: OrchestratorView) -> bool {
    &&& o.starting is Some ==> o.preparing is None && o.active is None
    &&& o.preparing is Some ==> o.active is None
    &&& o.quitting ==> o.starting is None
    &&& o.exit.state is Running ==> o.quitting && !o.has_work()
}

/// Whether no piece of audio is owed twice.
pub open spec fn distinct_debts(debts: Seq<AudioCleanupDebt>) -> bool {
    forall|i: int, j: int|
        0 <= i < j < debts.len() ==> !(#[trigger] debts[i]).is_for(
            (#[trigger] debts[j]).session_id,
            debts[j].resource,
        )
}

/// What every step keeps: the single flight, the decision to quit, what an
/// active session has frozen, and that nothing is owed twice.
pub open spec fn keeps(before: OrchestratorView, after: OrchestratorView) -> bool {
    &&& single_flight(before) ==> single_flight(after)
    &&& before.quitting ==> after.quitting
    &&& !before.operations.open ==> !after.operations.open
    &&& single_flight(before) && before.active is Some && after.active is Some
        && before.active->0.session_id == after.active->0.session_id
        ==> before.active->0.context() == after.active->0.context()
    &&& distinct_debts(before.debts) ==> distinct_debts(after.debts)
}

proof fn debt_index_is_the_first(
    debts: Seq<AudioCleanupDebt>,
    session_id: SessionId,
    resource: AudioCleanupResource,
)
    ensures
        debt_index(debts, session_id, resource) <= debts.len(),
        debt_index(debts, session_id, resource) < debts.len() ==> debts[debt_index(
            debts,
            session_id,
            resource,
        ) as int].is_for(session_id, resource),
        forall|i: int|
            0 <= i < debt_index(debts, session_id, resource) ==> !(#[trigger] debts[i]).is_for(
                session_id,
                resource,
            ),
    decreases debts.len(),
{
    if debts.len() > 0 && !debts[0].is_for(session_id, resource) {
        let rest = debts.drop_first();
        debt_index_is_the_first(rest, session_id, resource);
        assert forall|i: int| 0 <= i < debt_index(debts, session_id, resource) implies !(
        #[trigger] debts[i]).is_for(session_id, resource) by {
            if i > 0 {
                assert(debts[i] == rest[i - 1]);
            }
        }
    }
}

/// Owing something more, or again, never makes anything owed twice.
pub broadcast proof fn a_debt_is_owed_once(debts: Seq<AudioCleanupDebt>, debt: AudioCleanupDebt)
    requires
        distinct_debts(debts),
    ensures
        distinct_debts(#[trigger] with_debt(debts, debt)),
{
    debt_index_is_the_first(debts, debt.session_id, debt.resource);
    let index = debt_index(debts, debt.session_id, debt.resource) as int;
    let owed = with_debt(debts, debt);
    assert forall|i: int, j: int| 0 <= i < j < owed.len() implies !(#[trigger] owed[i]).is_for(
        (#[trigger] owed[j]).session_id,
        owed[j].resource,
    ) by {
        if index < debts.len() {
            assert(i != index ==> owed[i] == debts[i]);
            assert(j != index ==> owed[j] == debts[j]);
            assert(debts[index].is_for(debt.session_id, debt.resource));
            assert(!debts[i].is_for(debts[j].session_id, debts[j].resource));
        } else {
            assert(owed[i] == debts[i]);
            if j < debts.len() {
                assert(owed[j] == debts[j]);
            }
        }
    }
}

/// What has been made good is owed no longer, and everything else still is.
pub proof fn a_settled_debt_is_gone(
    debts: Seq<AudioCleanupDebt>,
    session_id: SessionId,
    resource: AudioCleanupResource,
    debt: AudioCleanupDebt,
)
    ensures
        without_debt(debts, session_id, resource).contains(debt) <==> debts.contains(debt)
            && !debt.is_for(session_id, resource),
{
    let kept = |debt: AudioCleanupDebt| !debt.is_for(session_id, resource);
    let left = without_debt(debts, session_id, resource);
    if left.contains(debt) {
        debts.lemma_filter_contains_rev(kept, debt);
        let i = choose|i: int| 0 <= i < left.len() && left[i] == debt;
        debts.lemma_filter_pred(kept, i);
    }
    if debts.contains(debt) && !debt.is_for(session_id, resource) {
        let i = choose|i: int| 0 <= i < debts.len() && debts[i] == debt;
        debts.lemma_filter_contains(kept, i);
    }
}

/// Making something good never makes anything owed twice.
pub broadcast proof fn settling_keeps_debts_distinct(
    debts: Seq<AudioCleanupDebt>,
    session_id: SessionId,
    resource: AudioCleanupResource,
)
    requires
        distinct_debts(debts),
    ensures
        distinct_debts(#[trigger] without_debt(debts, session_id, resource)),
    decreases debts.len(),
{
    reveal(Seq::filter);
    if debts.len() > 0 {
        let rest = debts.drop_last();
        let last = debts.last();
        assert forall|i: int, j: int| 0 <= i < j < rest.len() implies !(#[trigger] rest[i]).is_for(
            (#[trigger] rest[j]).session_id,
            rest[j].resource,
        ) by {
            assert(rest[i] == debts[i] && rest[j] == debts[j]);
        }
        settling_keeps_debts_distinct(rest, session_id, resource);
        let left = without_debt(rest, session_id, resource);
        if !last.is_for(session_id, resource) {
            let all = left.push(last);
            assert forall|i: int, j: int| 0 <= i < j < all.len() implies !(
            #[trigger] all[i]).is_for((#[trigger] all[j]).session_id, all[j].resource) by {
                if j == left.len() {
                    assert(left.contains(all[i]));
                    a_settled_debt_is_gone(rest, session_id, resource, all[i]);
                    let k = choose|k: int| 0 <= k < rest.len() && rest[k] == all[i];
                    assert(debts[k] == all[i]);
                    assert(debts[debts.len() - 1] == last);
                } else {
                    assert(all[i] == left[i] && all[j] == left[j]);
                }
            }
        }
    }
}

proof fn start_keeps_while_acquiring_gate(o: OrchestratorView, flow: StartFlow, reply: Reply)
    requires
        flow.step is AcquiringGate,
        start_awaits(flow.step, reply),
    ensures
        keeps(o, start_step(o, flow, reply).after),
{
    broadcast use {a_debt_is_owed_once, settling_keeps_debts_distinct};

}

proof fn start_keeps_while_loading_settings(o: OrchestratorView, flow: StartFlow, reply: Reply)
    requires
        flow.step is LoadingSettings,
        start_awaits(flow.step, reply),
    ensures
        keeps(o, start_step(o, flow, reply).after),
{
    broadcast use {a_debt_is_owed_once, settling_keeps_debts_distinct};

}

proof fn start_keeps_while_resolving_route(o: OrchestratorView, flow: StartFlow, reply: Reply)
    requires
        flow.step is ResolvingRoute,
        start_awaits(flow.step, reply),
    ensures
        keeps(o, start_step(o, flow, reply).after),
{
    broadcast use {a_debt_is_owed_once, settling_keeps_debts_distinct};

}

proof fn start_keeps_while_capturing_target(o: OrchestratorView, flow: StartFlow, reply: Reply)
    requires
        flow.step is CapturingTarget,
        start_awaits(flow.step, reply),
    ensures
        keeps(o, start_step(o, flow, reply).after),
{
    broadcast use {a_debt_is_owed_once, settling_keeps_debts_distinct};

}

proof fn start_keeps_while_reading_selection(o: OrchestratorView, flow: StartFlow, reply: Reply)
    requires
        flow.step is ReadingSelection,
        start_awaits(flow.step, reply),
    ensures
        keeps(o, start_step(o, flow, reply).after),
{
    broadcast use {a_debt_is_owed_once, settling_keeps_debts_distinct};

}

proof fn start_keeps_while_reading_clipboard_selection(
    o: OrchestratorView,
    flow: StartFlow,
    reply: Reply,
)
    requires
        flow.step is ReadingClipboardSelection,
        start_awaits(flow.step, reply),
    ensures
        keeps(o, start_step(o, flow, reply).after),
{
    broadcast use {a_debt_is_owed_once, settling_keeps_debts_distinct};

}

proof fn start_keeps_while_requesting_microphone(o: OrchestratorView, flow: StartFlow, reply: Reply)
    requires
        flow.step is RequestingMicrophone,
        start_awaits(flow.step, reply),
    ensures
        keeps(o, start_step(o, flow, reply).after),
{
    broadcast use {a_debt_is_owed_once, settling_keeps_debts_distinct};

}

proof fn start_keeps_while_preparing(o: OrchestratorView, flow: StartFlow, reply: Reply)
    requires
        flow.step is Preparing,
        start_awaits(flow.step, reply),
    ensures
        keeps(o, start_step(o, flow, reply).after),
{
    broadcast use {a_debt_is_owed_once, settling_keeps_debts_distinct};

}

proof fn start_keeps_while_reading_clock(o: OrchestratorView, flow: StartFlow, reply: Reply)
    requires
        flow.step is ReadingClock,
        start_awaits(flow.step, reply),
    ensures
        keeps(o, start_step(o, flow, reply).after),
{
    broadcast use {a_debt_is_owed_once, settling_keeps_debts_distinct};

}

proof fn start_keeps_while_announcing_recording(o: OrchestratorView, flow: StartFlow, reply: Reply)
    requires
        flow.step is AnnouncingRecording,
        start_awaits(flow.step, reply),
    ensures
        keeps(o, start_step(o, flow, reply).after),
{
    broadcast use {a_debt_is_owed_once, settling_keeps_debts_distinct};

}

proof fn start_keeps_while_cancelling_capture(o: OrchestratorView, flow: StartFlow, reply: Reply)
    requires
        flow.step is CancellingCapture,
        start_awaits(flow.step, reply),
    ensures
        keeps(o, start_step(o, flow, reply).after),
{
    broadcast use {a_debt_is_owed_once, settling_keeps_debts_distinct};

}

proof fn start_keeps_while_hiding_hud(o: OrchestratorView, flow: StartFlow, reply: Reply)
    requires
        flow.step is HidingHud,
        start_awaits(flow.step, reply),
    ensures
        keeps(o, start_step(o, flow, reply).after),
{
    broadcast use {a_debt_is_owed_once, settling_keeps_debts_distinct};

}

proof fn start_keeps_while_notifying(o: OrchestratorView, flow: StartFlow, reply: Reply)
    requires
        flow.step is Notifying,
        start_awaits(flow.step, reply),
    ensures
        keeps(o, start_step(o, flow, reply).after),
{
    broadcast use {a_debt_is_owed_once, settling_keeps_debts_distinct};

}

proof fn start_keeps_while_finishing(o: OrchestratorView, flow: StartFlow, reply: Reply)
    requires
        flow.step is Finishing,
        start_awaits(flow.step, reply),
    ensures
        keeps(o, start_step(o, flow, reply).after),
{
    broadcast use {a_debt_is_owed_once, settling_keeps_debts_distinct};

}

/// A step of a start keeps what every step keeps.
pub proof fn a_start_keeps(o: OrchestratorView, flow: StartFlow, reply: Reply)
    requires
        start_awaits(flow.step, reply),
    ensures
        keeps(o, start_step(o, flow, reply).after),
{
    match flow.step {
        StartStep::AcquiringGate => start_keeps_while_acquiring_gate(o, flow, reply),
        StartStep::LoadingSettings => start_keeps_while_loading_settings(o, flow, reply),
        StartStep::ResolvingRoute { .. } => start_keeps_while_resolving_route(o, flow, reply),
        StartStep::CapturingTarget { .. } => start_keeps_while_capturing_target(o, flow, reply),
        StartStep::ReadingSelection { .. } => start_keeps_while_reading_selection(o, flow, reply),
        StartStep::ReadingClipboardSelection { .. } => {
            start_keeps_while_reading_clipboard_selection(o, flow, reply)
        },
        StartStep::RequestingMicrophone { .. } => start_keeps_while_requesting_microphone(
            o,
            flow,
            reply,
        ),
        StartStep::Preparing { .. } => start_keeps_while_preparing(o, flow, reply),
        StartStep::ReadingClock { .. } => start_keeps_while_reading_clock(o, flow, reply),
        StartStep::AnnouncingRecording { .. } => start_keeps_while_announcing_recording(
            o,
            flow,
            reply,
        ),
        StartStep::CancellingCapture { .. } => start_keeps_while_cancelling_capture(o, flow, reply),
        StartStep::HidingHud { .. } => start_keeps_while_hiding_hud(o, flow, reply),
        StartStep::Notifying { .. } => start_keeps_while_notifying(o, flow, reply),
        StartStep::Finishing => start_keeps_while_finishing(o, flow, reply),
    }
}

/// A step of a preparation keeps what every step keeps.
pub proof fn a_preparation_keeps(o: OrchestratorView, flow: PrepareFlow, reply: Reply)
    requires
        prepare_awaits(flow.step, reply),
    ensures
        keeps(o, prepare_step(o, flow, reply).after),
{
    broadcast use {a_debt_is_owed_once, settling_keeps_debts_distinct};

}

/// A step of a cancellation keeps what every step keeps.
pub proof fn a_cancellation_keeps(o: OrchestratorView, flow: CancelFlow, reply: Reply)
    requires
        reply is Acted,
    ensures
        keeps(o, cancel_step(o, flow, reply).after),
{
    broadcast use {a_debt_is_owed_once, settling_keeps_debts_distinct};

}

/// A step of a retry keeps what every step keeps.
pub proof fn a_retry_keeps(o: OrchestratorView, flow: RetryFlow, reply: Reply)
    requires
        reply is Acted,
    ensures
        keeps(o, retry_step(o, flow, reply).after),
{
    broadcast use {a_debt_is_owed_once, settling_keeps_debts_distinct};

}

proof fn delivery_keeps_while_issuing_id(
    o: OrchestratorView,
    session_id: SessionId,
    step: DeliverStep,
    reply: Reply,
)
    requires
        step is IssuingId,
        deliver_awaits(step, reply),
    ensures
        keeps(o, deliver_step(o, session_id, step, reply).after),
{
}

proof fn delivery_keeps_while_announcing(
    o: OrchestratorView,
    session_id: SessionId,
    step: DeliverStep,
    reply: Reply,
)
    requires
        step is Announcing,
        deliver_awaits(step, reply),
    ensures
        keeps(o, deliver_step(o, session_id, step, reply).after),
{
}

proof fn delivery_keeps_while_revalidating(
    o: OrchestratorView,
    session_id: SessionId,
    step: DeliverStep,
    reply: Reply,
)
    requires
        step is Revalidating,
        deliver_awaits(step, reply),
    ensures
        keeps(o, deliver_step(o, session_id, step, reply).after),
{
}

proof fn delivery_keeps_while_inserting(
    o: OrchestratorView,
    session_id: SessionId,
    step: DeliverStep,
    reply: Reply,
)
    requires
        step is Inserting,
        deliver_awaits(step, reply),
    ensures
        keeps(o, deliver_step(o, session_id, step, reply).after),
{
}

proof fn delivery_keeps_while_revalidating_bridge(
    o: OrchestratorView,
    session_id: SessionId,
    step: DeliverStep,
    reply: Reply,
)
    requires
        step is RevalidatingBridge,
        deliver_awaits(step, reply),
    ensures
        keeps(o, deliver_step(o, session_id, step, reply).after),
{
}

proof fn delivery_keeps_while_pasting_at_target(
    o: OrchestratorView,
    session_id: SessionId,
    step: DeliverStep,
    reply: Reply,
)
    requires
        step is PastingAtTarget,
        deliver_awaits(step, reply),
    ensures
        keeps(o, deliver_step(o, session_id, step, reply).after),
{
}

proof fn delivery_keeps_while_pasting_at_focus(
    o: OrchestratorView,
    session_id: SessionId,
    step: DeliverStep,
    reply: Reply,
)
    requires
        step is PastingAtFocus,
        deliver_awaits(step, reply),
    ensures
        keeps(o, deliver_step(o, session_id, step, reply).after),
{
}

proof fn delivery_keeps_while_showing_temporary(
    o: OrchestratorView,
    session_id: SessionId,
    step: DeliverStep,
    reply: Reply,
)
    requires
        step is ShowingTemporary,
        deliver_awaits(step, reply),
    ensures
        keeps(o, deliver_step(o, session_id, step, reply).after),
{
}

proof fn delivery_keeps_while_announcing_finalization(
    o: OrchestratorView,
    session_id: SessionId,
    step: DeliverStep,
    reply: Reply,
)
    requires
        step is AnnouncingFinalization,
        deliver_awaits(step, reply),
    ensures
        keeps(o, deliver_step(o, session_id, step, reply).after),
{
}

proof fn delivery_keeps_while_copying(
    o: OrchestratorView,
    session_id: SessionId,
    step: DeliverStep,
    reply: Reply,
)
    requires
        step is Copying,
        deliver_awaits(step, reply),
    ensures
        keeps(o, deliver_step(o, session_id, step, reply).after),
{
}

proof fn delivery_keeps_while_reading_clock(
    o: OrchestratorView,
    session_id: SessionId,
    step: DeliverStep,
    reply: Reply,
)
    requires
        step is ReadingClock,
        deliver_awaits(step, reply),
    ensures
        keeps(o, deliver_step(o, session_id, step, reply).after),
{
}

proof fn delivery_keeps_while_saving(
    o: OrchestratorView,
    session_id: SessionId,
    step: DeliverStep,
    reply: Reply,
)
    requires
        step is Saving,
        deliver_awaits(step, reply),
    ensures
        keeps(o, deliver_step(o, session_id, step, reply).after),
{
}

proof fn delivery_keeps_while_announcing_completion(
    o: OrchestratorView,
    session_id: SessionId,
    step: DeliverStep,
    reply: Reply,
)
    requires
        step is AnnouncingCompletion,
        deliver_awaits(step, reply),
    ensures
        keeps(o, deliver_step(o, session_id, step, reply).after),
{
}

proof fn delivery_keeps_while_closing_session(
    o: OrchestratorView,
    session_id: SessionId,
    step: DeliverStep,
    reply: Reply,
)
    requires
        step is ClosingSession,
        deliver_awaits(step, reply),
    ensures
        keeps(o, deliver_step(o, session_id, step, reply).after),
{
}

/// A step of a delivery keeps what every step keeps.
pub proof fn a_delivery_step_keeps(
    o: OrchestratorView,
    session_id: SessionId,
    step: DeliverStep,
    reply: Reply,
)
    requires
        deliver_awaits(step, reply),
    ensures
        keeps(o, deliver_step(o, session_id, step, reply).after),
{
    match step {
        DeliverStep::IssuingId { .. } => delivery_keeps_while_issuing_id(
            o,
            session_id,
            step,
            reply,
        ),
        DeliverStep::Announcing { .. } => delivery_keeps_while_announcing(
            o,
            session_id,
            step,
            reply,
        ),
        DeliverStep::Revalidating { .. } => delivery_keeps_while_revalidating(
            o,
            session_id,
            step,
            reply,
        ),
        DeliverStep::Inserting { .. } => delivery_keeps_while_inserting(o, session_id, step, reply),
        DeliverStep::RevalidatingBridge { .. } => delivery_keeps_while_revalidating_bridge(
            o,
            session_id,
            step,
            reply,
        ),
        DeliverStep::PastingAtTarget { .. } => delivery_keeps_while_pasting_at_target(
            o,
            session_id,
            step,
            reply,
        ),
        DeliverStep::PastingAtFocus { .. } => delivery_keeps_while_pasting_at_focus(
            o,
            session_id,
            step,
            reply,
        ),
        DeliverStep::ShowingTemporary { .. } => delivery_keeps_while_showing_temporary(
            o,
            session_id,
            step,
            reply,
        ),
        DeliverStep::AnnouncingFinalization { .. } => delivery_keeps_while_announcing_finalization(
            o,
            session_id,
            step,
            reply,
        ),
        DeliverStep::Copying { .. } => delivery_keeps_while_copying(o, session_id, step, reply),
        DeliverStep::ReadingClock { .. } => delivery_keeps_while_reading_clock(
            o,
            session_id,
            step,
            reply,
        ),
        DeliverStep::Saving { .. } => delivery_keeps_while_saving(o, session_id, step, reply),
        DeliverStep::AnnouncingCompletion { .. } => delivery_keeps_while_announcing_completion(
            o,
            session_id,
            step,
            reply,
        ),
        DeliverStep::ClosingSession { .. } => delivery_keeps_while_closing_session(
            o,
            session_id,
            step,
            reply,
        ),
    }
}

proof fn finish_keeps_while_finishing_audio(o: OrchestratorView, flow: FinishFlow, reply: Reply)
    requires
        flow.step is FinishingAudio,
        finish_awaits(flow.step, reply),
    ensures
        keeps(o, finish_step(o, flow, reply).after),
{
    broadcast use {a_debt_is_owed_once, settling_keeps_debts_distinct};

}

proof fn finish_keeps_while_cancelling_empty_capture(
    o: OrchestratorView,
    flow: FinishFlow,
    reply: Reply,
)
    requires
        flow.step is CancellingEmptyCapture,
        finish_awaits(flow.step, reply),
    ensures
        keeps(o, finish_step(o, flow, reply).after),
{
    a_cancellation_keeps(
        o,
        CancelFlow { session_id: flow.session_id, step: flow.step->CancellingEmptyCapture_step },
        reply,
    );
}

proof fn finish_keeps_while_cancelling_failed_capture(
    o: OrchestratorView,
    flow: FinishFlow,
    reply: Reply,
)
    requires
        flow.step is CancellingFailedCapture,
        finish_awaits(flow.step, reply),
    ensures
        keeps(o, finish_step(o, flow, reply).after),
{
    broadcast use {a_debt_is_owed_once, settling_keeps_debts_distinct};

}

proof fn finish_keeps_while_playing_cue(o: OrchestratorView, flow: FinishFlow, reply: Reply)
    requires
        flow.step is PlayingCue,
        finish_awaits(flow.step, reply),
    ensures
        keeps(o, finish_step(o, flow, reply).after),
{
    broadcast use {a_debt_is_owed_once, settling_keeps_debts_distinct};

}

proof fn finish_keeps_while_discarding_audio(o: OrchestratorView, flow: FinishFlow, reply: Reply)
    requires
        flow.step is DiscardingAudio,
        finish_awaits(flow.step, reply),
    ensures
        keeps(o, finish_step(o, flow, reply).after),
{
    broadcast use {a_debt_is_owed_once, settling_keeps_debts_distinct};

}

proof fn finish_keeps_while_issuing_recognition(o: OrchestratorView, flow: FinishFlow, reply: Reply)
    requires
        flow.step is IssuingRecognition,
        finish_awaits(flow.step, reply),
    ensures
        keeps(o, finish_step(o, flow, reply).after),
{
    broadcast use {a_debt_is_owed_once, settling_keeps_debts_distinct};

}

proof fn finish_keeps_while_announcing_recognition(
    o: OrchestratorView,
    flow: FinishFlow,
    reply: Reply,
)
    requires
        flow.step is AnnouncingRecognition,
        finish_awaits(flow.step, reply),
    ensures
        keeps(o, finish_step(o, flow, reply).after),
{
    broadcast use {a_debt_is_owed_once, settling_keeps_debts_distinct};

}

proof fn finish_keeps_while_transcribing(o: OrchestratorView, flow: FinishFlow, reply: Reply)
    requires
        flow.step is Transcribing,
        finish_awaits(flow.step, reply),
    ensures
        keeps(o, finish_step(o, flow, reply).after),
{
    broadcast use {a_debt_is_owed_once, settling_keeps_debts_distinct};

}

proof fn finish_keeps_while_cleaning_audio(o: OrchestratorView, flow: FinishFlow, reply: Reply)
    requires
        flow.step is CleaningAudio,
        finish_awaits(flow.step, reply),
    ensures
        keeps(o, finish_step(o, flow, reply).after),
{
    broadcast use {a_debt_is_owed_once, settling_keeps_debts_distinct};

}

proof fn finish_keeps_while_issuing_processing(o: OrchestratorView, flow: FinishFlow, reply: Reply)
    requires
        flow.step is IssuingProcessing,
        finish_awaits(flow.step, reply),
    ensures
        keeps(o, finish_step(o, flow, reply).after),
{
    broadcast use {a_debt_is_owed_once, settling_keeps_debts_distinct};

}

proof fn finish_keeps_while_announcing_processing(
    o: OrchestratorView,
    flow: FinishFlow,
    reply: Reply,
)
    requires
        flow.step is AnnouncingProcessing,
        finish_awaits(flow.step, reply),
    ensures
        keeps(o, finish_step(o, flow, reply).after),
{
    broadcast use {a_debt_is_owed_once, settling_keeps_debts_distinct};

}

proof fn finish_keeps_while_processing(o: OrchestratorView, flow: FinishFlow, reply: Reply)
    requires
        flow.step is Processing,
        finish_awaits(flow.step, reply),
    ensures
        keeps(o, finish_step(o, flow, reply).after),
{
    broadcast use {a_debt_is_owed_once, settling_keeps_debts_distinct};

}

proof fn finish_keeps_while_delivering(o: OrchestratorView, flow: FinishFlow, reply: Reply)
    requires
        flow.step is Delivering,
        finish_awaits(flow.step, reply),
    ensures
        keeps(o, finish_step(o, flow, reply).after),
{
    a_delivery_step_keeps(o, flow.session_id, flow.step->Delivering_step, reply);
}

proof fn finish_keeps_while_closing_session(o: OrchestratorView, flow: FinishFlow, reply: Reply)
    requires
        flow.step is ClosingSession,
        finish_awaits(flow.step, reply),
    ensures
        keeps(o, finish_step(o, flow, reply).after),
{
    broadcast use {a_debt_is_owed_once, settling_keeps_debts_distinct};

}

/// A step of a finish workflow keeps what every step keeps.
pub proof fn a_finish_step_keeps(o: OrchestratorView, flow: FinishFlow, reply: Reply)
    requires
        finish_awaits(flow.step, reply),
    ensures
        keeps(o, finish_step(o, flow, reply).after),
{
    match flow.step {
        FinishStep::FinishingAudio { .. } => finish_keeps_while_finishing_audio(o, flow, reply),
        FinishStep::CancellingEmptyCapture { .. } => finish_keeps_while_cancelling_empty_capture(
            o,
            flow,
            reply,
        ),
        FinishStep::CancellingFailedCapture { .. } => finish_keeps_while_cancelling_failed_capture(
            o,
            flow,
            reply,
        ),
        FinishStep::PlayingCue { .. } => finish_keeps_while_playing_cue(o, flow, reply),
        FinishStep::DiscardingAudio { .. } => finish_keeps_while_discarding_audio(o, flow, reply),
        FinishStep::IssuingRecognition { .. } => finish_keeps_while_issuing_recognition(
            o,
            flow,
            reply,
        ),
        FinishStep::AnnouncingRecognition { .. } => finish_keeps_while_announcing_recognition(
            o,
            flow,
            reply,
        ),
        FinishStep::Transcribing { .. } => finish_keeps_while_transcribing(o, flow, reply),
        FinishStep::CleaningAudio { .. } => finish_keeps_while_cleaning_audio(o, flow, reply),
        FinishStep::IssuingProcessing { .. } => finish_keeps_while_issuing_processing(
            o,
            flow,
            reply,
        ),
        FinishStep::AnnouncingProcessing { .. } => finish_keeps_while_announcing_processing(
            o,
            flow,
            reply,
        ),
        FinishStep::Processing { .. } => finish_keeps_while_processing(o, flow, reply),
        FinishStep::Delivering { .. } => finish_keeps_while_delivering(o, flow, reply),
        FinishStep::ClosingSession { .. } => finish_keeps_while_closing_session(o, flow, reply),
    }
}

/// The beginnings of all workflows keep what every step keeps.
pub proof fn every_beginning_keeps(o: OrchestratorView, session_id: SessionId)
    ensures
        keeps(o, start_begin(o, session_id).after),
        keeps(o, finish_begin(o, session_id).after),
        keeps(o, cancel_begin(o, session_id).after),
        keeps(o, retry_begin(o, session_id).after),
        keeps(o, o.limit_marked(session_id)),
{
}

/// Whether an exit that is under way has taken at most one workflow, and is the
/// one that the state knows of.
pub open spec fn leads(o: OrchestratorView, taken: QuitTaken) -> bool {
    &&& o.exit.state == ExitState::Running(taken.attempt)
    &&& taken.preparing is None || taken.active is None
}

/// An exit begins with nothing left running, and for good: the application is
/// quitting and nothing can enter any more.
pub proof fn an_exit_begins_with_nothing_running(o: OrchestratorView, attempt: u64)
    requires
        single_flight(o),
        o.exit.role() == ExitRole::Leader(attempt),
    ensures
        ({
            let begun = quit_begin(OrchestratorView { exit: o.exit.begun(), ..o }, attempt);
            &&& begun.after.quitting
            &&& !begun.after.operations.open
            &&& !begun.after.has_work()
            &&& single_flight(begun.after)
            &&& begun.next is Await
            &&& leads(begun.after, begun.next->flow.taken)
            &&& begun.after.debts == o.debts
        }),
{
}

/// A step of an exit keeps the single flight, the decision to quit and that
/// nothing is owed twice.
pub proof fn an_exit_keeps(o: OrchestratorView, flow: QuitFlow, reply: Reply)
    requires
        quit_awaits(flow.step, reply),
        leads(o, flow.taken),
        single_flight(o),
    ensures
        ({
            let step = quit_step(o, flow, reply);
            &&& single_flight(step.after)
            &&& step.after.quitting
            &&& !o.operations.open ==> !step.after.operations.open
            &&& distinct_debts(o.debts) ==> distinct_debts(step.after.debts)
            &&& step.next is Await ==> leads(step.after, step.next->flow.taken)
                && step.next->flow.taken == flow.taken
        }),
{
    broadcast use {a_debt_is_owed_once, settling_keeps_debts_distinct};

}

/// An exit is told only once everything that had entered has drained, and it
/// succeeds exactly where nothing is owed any more. Where it fails, whatever it
/// had taken is back in its place.
pub proof fn an_exit_ends_only_once_drained(o: OrchestratorView, flow: QuitFlow, reply: Reply)
    requires
        quit_awaits(flow.step, reply),
        leads(o, flow.taken),
        single_flight(o),
    ensures
        ({
            let step = quit_step(o, flow, reply);
            step.next is Done ==> {
                &&& flow.step is DrainingOperations || flow.step is DrainingLifecycle
                    || flow.step is SettlingDebts
                &&& flow.step is DrainingOperations ==> flow.taken.lifecycle is None
                &&& step.next->Done_0 is Ok <==> step.after.debts.len() == 0
                &&& step.next->Done_0 is Ok ==> step.after.exit.state == ExitState::Complete(
                    flow.taken.outcome,
                )
                &&& step.next->Done_0 is Err ==> step.after.exit.state is Open
                    && step.after.preparing == flow.taken.preparing && step.after.active
                    == flow.taken.active
            }
        }),
{
}

/// Once the application is quitting every workflow is turned away at its
/// beginning, each with its own answer, and changes nothing.
pub proof fn quitting_turns_every_workflow_away(o: OrchestratorView, session_id: SessionId)
    requires
        !o.operations.open,
    ensures
        start_begin(o, session_id).after == o,
        start_begin(o, session_id).next == Next::<StartFlow, StartResult>::Done(
            Ok(StartOutcome::Quitting),
        ),
        finish_begin(o, session_id).after == o,
        finish_begin(o, session_id).next == Next::<FinishFlow, FinishEnd>::Done(
            FinishEnd::Discarded,
        ),
        cancel_begin(o, session_id).after == o,
        cancel_begin(o, session_id).next == Next::<CancelFlow, CancelResult>::Done(
            Ok(CancelOutcome::NotFound),
        ),
        retry_begin(o, session_id).after == o,
        retry_begin(o, session_id).next == Next::<RetryFlow, RetryResult>::Done(
            Ok(AudioCleanupOutcome::Quitting),
        ),
{
}

/// While a session starts, prepares or works, or still owes a cleanup, another
/// one is answered with it and changes nothing.
pub proof fn a_second_start_is_busy(
    o: OrchestratorView,
    session_id: SessionId,
    occupant: SessionId,
    reply: Reply,
)
    requires
        !o.quitting,
        o.occupant() == Some(occupant),
    ensures
        ({
            let flow = StartFlow { session_id, step: StartStep::AcquiringGate };
            &&& start_step(o, flow, reply).after == o
            &&& start_step(o, flow, reply).next == Next::<StartFlow, StartResult>::Done(
                Ok(StartOutcome::Busy { active_session_id: occupant }),
            )
        }),
{
}

/// A cleanup that failed keeps the place occupied until it has been made good.
pub proof fn an_owed_cleanup_occupies_the_place(
    o: OrchestratorView,
    session_id: SessionId,
    capture: AudioCaptureRef,
    error: PortError,
)
    ensures
        capture_settled(o, session_id, capture, Err(error)).debts.len() > 0,
        capture_settled(o, session_id, capture, Err(error)).occupant() is Some,
        !o.has_work() && o.debts.len() == 0 ==> {
            let owing = capture_settled(o, session_id, capture, Err(error));
            &&& owing.occupant() == Some(session_id)
            &&& capture_settled(owing, session_id, capture, Ok(())).occupant() is None
        },
{
    debt_index_is_the_first(o.debts, session_id, AudioCleanupResource::Capture(capture));
    if !o.has_work() && o.debts.len() == 0 {
        let owing = capture_settled(o, session_id, capture, Err(error));
        assert(owing.debts.drop_last() =~= Seq::empty());
        reveal_with_fuel(Seq::filter, 2);
    }
}

} // verus!
