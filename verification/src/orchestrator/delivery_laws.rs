//! What holds of every step of a delivery.

use crate::domain::SessionId;
use crate::orchestrator::deliver::{deliver_awaits, deliver_step, DeliverStep};
use crate::orchestrator::protocol::{Command, Next, Reply};
use crate::orchestrator::state::OrchestratorView;
use crate::ports::{InsertOutcome, UserDirectedPasteOutcome};
use vstd::prelude::*;

verus! {

/// Whether a command writes into an application of the user's.
pub open spec fn is_write(command: Command) -> bool {
    command is Insert || command is PasteAtTarget || command is PasteAtFocus
}

/// Whether a command brings a text before the user.
pub open spec fn is_output(command: Command) -> bool {
    is_write(command) || command is ShowTemporaryText
}

/// The text that a command hands out, if it hands one out.
pub open spec fn handed_out(command: Command) -> Option<String> {
    match command {
        Command::Insert { text, .. } => Some(text),
        Command::PasteAtTarget { text, .. } => Some(text),
        Command::PasteAtFocus { text, .. } => Some(text),
        Command::ShowTemporaryText { text, .. } => Some(text),
        Command::WriteClipboard(text) => Some(text),
        Command::SaveHistory { record, .. } => Some(record.final_text),
        _ => None,
    }
}

/// How many writes a delivery may still try: an insertion and, only once it is
/// known not to have happened, one paste; none where the temporary surface is
/// all that is left.
pub open spec fn delivery_writes_left(step: DeliverStep) -> nat {
    match step {
        DeliverStep::IssuingId { forced, .. } | DeliverStep::Announcing { forced, .. } => {
            if forced is Some {
                0
            } else {
                2
            }
        },
        DeliverStep::Revalidating { .. } => 2,
        DeliverStep::Inserting { .. } | DeliverStep::RevalidatingBridge { .. } => 1,
        _ => 0,
    }
}

/// The text that a delivery is about.
pub open spec fn delivered_text(step: DeliverStep) -> Option<String> {
    match step {
        DeliverStep::IssuingId { final_text, .. } => Some(final_text),
        DeliverStep::Announcing { delivery, .. }
        | DeliverStep::Revalidating { delivery }
        | DeliverStep::Inserting { delivery }
        | DeliverStep::RevalidatingBridge { delivery }
        | DeliverStep::PastingAtTarget { delivery }
        | DeliverStep::PastingAtFocus { delivery }
        | DeliverStep::ShowingTemporary { delivery, .. } => Some(delivery.final_text),
        DeliverStep::AnnouncingFinalization { delivered }
        | DeliverStep::Copying { delivered }
        | DeliverStep::ReadingClock { delivered }
        | DeliverStep::Saving { delivered }
        | DeliverStep::AnnouncingCompletion { delivered } => Some(delivered.delivery.final_text),
        DeliverStep::ClosingSession { .. } => None,
    }
}

/// What one step of a delivery never breaks: it uses up its writes, keeps to its
/// text, asks no language model, and stops once its session is gone.
pub open spec fn delivery_keeps(
    o: OrchestratorView,
    session_id: SessionId,
    step: DeliverStep,
    reply: Reply,
) -> bool {
    match deliver_step(o, session_id, step, reply).next {
        Next::Await { flow, command } => {
            &&& flow.session_id == session_id
            &&& delivery_writes_left(flow.step) + (if is_write(command) {
                1nat
            } else {
                0
            }) <= delivery_writes_left(step)
            &&& delivered_text(flow.step) is Some ==> delivered_text(flow.step) == delivered_text(
                step,
            )
            &&& handed_out(command) is Some ==> handed_out(command) == delivered_text(step)
            &&& !(command is ProcessText) && !(command is PlayCue) && !(command is Transcribe)
            &&& !o.works(session_id) ==> !is_output(command)
            &&& command is WriteClipboard || command is SaveHistory ==> step
                is AnnouncingFinalization || step is Copying || step is ReadingClock
            &&& flow.step is AnnouncingFinalization ==> {
                ||| reply == Reply::Insertion(Ok(InsertOutcome::Inserted))
                ||| reply == Reply::Paste(Ok(UserDirectedPasteOutcome::Dispatched))
                ||| step is ShowingTemporary && reply->Acted_0 is Ok
            }
        },
        Next::Done(_) => true,
    }
}

proof fn keeps_while_issuing_id(
    o: OrchestratorView,
    session_id: SessionId,
    step: DeliverStep,
    reply: Reply,
)
    requires
        step is IssuingId,
        deliver_awaits(step, reply),
    ensures
        delivery_keeps(o, session_id, step, reply),
{
}

proof fn keeps_while_announcing(
    o: OrchestratorView,
    session_id: SessionId,
    step: DeliverStep,
    reply: Reply,
)
    requires
        step is Announcing,
        deliver_awaits(step, reply),
    ensures
        delivery_keeps(o, session_id, step, reply),
{
}

proof fn keeps_while_revalidating(
    o: OrchestratorView,
    session_id: SessionId,
    step: DeliverStep,
    reply: Reply,
)
    requires
        step is Revalidating,
        deliver_awaits(step, reply),
    ensures
        delivery_keeps(o, session_id, step, reply),
{
}

proof fn keeps_while_inserting(
    o: OrchestratorView,
    session_id: SessionId,
    step: DeliverStep,
    reply: Reply,
)
    requires
        step is Inserting,
        deliver_awaits(step, reply),
    ensures
        delivery_keeps(o, session_id, step, reply),
{
}

proof fn keeps_while_revalidating_bridge(
    o: OrchestratorView,
    session_id: SessionId,
    step: DeliverStep,
    reply: Reply,
)
    requires
        step is RevalidatingBridge,
        deliver_awaits(step, reply),
    ensures
        delivery_keeps(o, session_id, step, reply),
{
}

proof fn keeps_while_pasting_at_target(
    o: OrchestratorView,
    session_id: SessionId,
    step: DeliverStep,
    reply: Reply,
)
    requires
        step is PastingAtTarget,
        deliver_awaits(step, reply),
    ensures
        delivery_keeps(o, session_id, step, reply),
{
}

proof fn keeps_while_pasting_at_focus(
    o: OrchestratorView,
    session_id: SessionId,
    step: DeliverStep,
    reply: Reply,
)
    requires
        step is PastingAtFocus,
        deliver_awaits(step, reply),
    ensures
        delivery_keeps(o, session_id, step, reply),
{
}

proof fn keeps_while_showing_temporary(
    o: OrchestratorView,
    session_id: SessionId,
    step: DeliverStep,
    reply: Reply,
)
    requires
        step is ShowingTemporary,
        deliver_awaits(step, reply),
    ensures
        delivery_keeps(o, session_id, step, reply),
{
}

proof fn keeps_while_announcing_finalization(
    o: OrchestratorView,
    session_id: SessionId,
    step: DeliverStep,
    reply: Reply,
)
    requires
        step is AnnouncingFinalization,
        deliver_awaits(step, reply),
    ensures
        delivery_keeps(o, session_id, step, reply),
{
}

proof fn keeps_while_copying(
    o: OrchestratorView,
    session_id: SessionId,
    step: DeliverStep,
    reply: Reply,
)
    requires
        step is Copying,
        deliver_awaits(step, reply),
    ensures
        delivery_keeps(o, session_id, step, reply),
{
}

proof fn keeps_while_reading_clock(
    o: OrchestratorView,
    session_id: SessionId,
    step: DeliverStep,
    reply: Reply,
)
    requires
        step is ReadingClock,
        deliver_awaits(step, reply),
    ensures
        delivery_keeps(o, session_id, step, reply),
{
}

proof fn keeps_while_saving(
    o: OrchestratorView,
    session_id: SessionId,
    step: DeliverStep,
    reply: Reply,
)
    requires
        step is Saving,
        deliver_awaits(step, reply),
    ensures
        delivery_keeps(o, session_id, step, reply),
{
}

proof fn keeps_while_announcing_completion(
    o: OrchestratorView,
    session_id: SessionId,
    step: DeliverStep,
    reply: Reply,
)
    requires
        step is AnnouncingCompletion,
        deliver_awaits(step, reply),
    ensures
        delivery_keeps(o, session_id, step, reply),
{
}

proof fn keeps_while_closing_session(
    o: OrchestratorView,
    session_id: SessionId,
    step: DeliverStep,
    reply: Reply,
)
    requires
        step is ClosingSession,
        deliver_awaits(step, reply),
    ensures
        delivery_keeps(o, session_id, step, reply),
{
}

/// Every step of a delivery keeps what it has to.
pub proof fn a_delivery_keeps(
    o: OrchestratorView,
    session_id: SessionId,
    step: DeliverStep,
    reply: Reply,
)
    requires
        deliver_awaits(step, reply),
    ensures
        delivery_keeps(o, session_id, step, reply),
{
    match step {
        DeliverStep::IssuingId { .. } => keeps_while_issuing_id(o, session_id, step, reply),
        DeliverStep::Announcing { .. } => keeps_while_announcing(o, session_id, step, reply),
        DeliverStep::Revalidating { .. } => keeps_while_revalidating(o, session_id, step, reply),
        DeliverStep::Inserting { .. } => keeps_while_inserting(o, session_id, step, reply),
        DeliverStep::RevalidatingBridge { .. } => keeps_while_revalidating_bridge(
            o,
            session_id,
            step,
            reply,
        ),
        DeliverStep::PastingAtTarget { .. } => keeps_while_pasting_at_target(
            o,
            session_id,
            step,
            reply,
        ),
        DeliverStep::PastingAtFocus { .. } => keeps_while_pasting_at_focus(
            o,
            session_id,
            step,
            reply,
        ),
        DeliverStep::ShowingTemporary { .. } => keeps_while_showing_temporary(
            o,
            session_id,
            step,
            reply,
        ),
        DeliverStep::AnnouncingFinalization { .. } => keeps_while_announcing_finalization(
            o,
            session_id,
            step,
            reply,
        ),
        DeliverStep::Copying { .. } => keeps_while_copying(o, session_id, step, reply),
        DeliverStep::ReadingClock { .. } => keeps_while_reading_clock(o, session_id, step, reply),
        DeliverStep::Saving { .. } => keeps_while_saving(o, session_id, step, reply),
        DeliverStep::AnnouncingCompletion { .. } => keeps_while_announcing_completion(
            o,
            session_id,
            step,
            reply,
        ),
        DeliverStep::ClosingSession { .. } => keeps_while_closing_session(
            o,
            session_id,
            step,
            reply,
        ),
    }
}

} // verus!
