//! Whole runs of a start, told by what was asked and what was answered.

use crate::domain::SessionId;
use crate::orchestrator::choice_laws::{
    a_start_hands_on_what_it_was_told, is_due, is_early, prepares_by, start_ends_rightly,
    start_stands, Learned,
};
use crate::orchestrator::finish_laws::Turn;
use crate::orchestrator::protocol::{Command, Next, Reply};
use crate::orchestrator::start::{start_awaits, start_begin, start_step, StartFlow};
use crate::orchestrator::start_laws::start_answered;
use crate::orchestrator::state::OrchestratorView;
use vstd::prelude::*;

verus! {

/// Whether nobody gives a session a preparation, or another one than it had.
pub open spec fn leaves_preparation(
    before: OrchestratorView,
    after: OrchestratorView,
    session_id: SessionId,
) -> bool {
    after.preparing is Some && after.preparing->0.session_id == session_id ==> {
        &&& before.preparing is Some
        &&& before.preparing->0.session_id == session_id
        &&& after.preparing->0.settings == before.preparing->0.settings
        &&& after.preparing->0.processing_route == before.preparing->0.processing_route
        &&& after.preparing->0.target_ref == before.preparing->0.target_ref
        &&& after.preparing->0.target_security == before.preparing->0.target_security
        &&& after.preparing->0.selected_text == before.preparing->0.selected_text
    }
}

/// Whether what others do between the turns of a start leaves its preparation what it was.
pub open spec fn starts_undisturbed(flow: StartFlow, turns: Seq<Turn>) -> bool
    decreases turns.len(),
{
    turns.len() <= 1 || {
        let step = start_step(turns[0].state, flow, turns[0].reply);
        match step.next {
            Next::Await { flow: after, .. } => {
                &&& leaves_preparation(step.after, turns[1].state, flow.session_id)
                &&& starts_undisturbed(after, turns.drop_first())
            },
            Next::Done(_) => true,
        }
    }
}

/// Whether every command of a run carries what was learned before it, and the end, where
/// the run comes to one, says what has happened.
pub open spec fn start_hands_on(
    flow: StartFlow,
    command: Command,
    turns: Seq<Turn>,
    learned: Learned,
) -> bool
    decreases turns.len(),
{
    turns.len() == 0 || {
        let o = turns[0].state;
        let reply = turns[0].reply;
        let step = start_step(o, flow, reply);
        let now = learned.and(command, reply);
        match step.next {
            Next::Await { flow: after, command: next } => {
                &&& is_due(next, step.after, flow.session_id, now)
                &&& start_hands_on(after, next, turns.drop_first(), now)
            },
            Next::Done(result) => start_ends_rightly(result, flow, reply, o, step.after, now),
        }
    }
}

proof fn an_early_start_prepares_nothing(o: OrchestratorView, flow: StartFlow, reply: Reply)
    requires
        is_early(flow.step),
        start_awaits(flow.step, reply),
        start_step(o, flow, reply).next is Await,
        is_early(start_step(o, flow, reply).next->flow.step),
    ensures
        start_step(o, flow, reply).after.preparing == o.preparing,
{
}

proof fn a_run_of_a_start_hands_on(
    flow: StartFlow,
    command: Command,
    turns: Seq<Turn>,
    learned: Learned,
)
    requires
        start_answered(flow, turns),
        starts_undisturbed(flow, turns),
        start_stands(flow.step, command, flow.session_id, learned),
        turns.len() > 0 ==> if is_early(flow.step) {
            turns[0].state.preparing is Some ==> turns[0].state.preparing->0.session_id
                != flow.session_id
        } else {
            prepares_by(turns[0].state, flow.session_id, learned)
        },
    ensures
        start_hands_on(flow, command, turns, learned),
    decreases turns.len(),
{
    if turns.len() > 0 {
        let o = turns[0].state;
        let reply = turns[0].reply;
        let rest = turns.drop_first();
        a_start_hands_on_what_it_was_told(o, flow, command, reply, learned);
        match start_step(o, flow, reply).next {
            Next::Await { flow: after, command: next } => {
                if is_early(after.step) && is_early(flow.step) {
                    an_early_start_prepares_nothing(o, flow, reply);
                }
                if !is_early(flow.step) {
                    a_late_start_stays_late(o, flow, reply);
                }
                if turns.len() > 1 {
                    assert(rest[0] == turns[1]);
                }
                a_run_of_a_start_hands_on(after, next, rest, learned.and(command, reply));
            },
            Next::Done(_) => {},
        }
    }
}

proof fn a_late_start_stays_late(o: OrchestratorView, flow: StartFlow, reply: Reply)
    requires
        start_awaits(flow.step, reply),
        start_step(o, flow, reply).next is Await,
        !is_early(flow.step),
    ensures
        !is_early(start_step(o, flow, reply).next->flow.step),
{
}

/// Every command of a start carries what was answered before it, from the settings that it
/// loads to the time at which its session begins, and the end says what has happened.
pub proof fn a_start_hands_on_what_was_learned(
    o: OrchestratorView,
    session_id: SessionId,
    turns: Seq<Turn>,
)
    requires
        start_begin(o, session_id).next is Await,
        start_answered(start_begin(o, session_id).next->flow, turns),
        starts_undisturbed(start_begin(o, session_id).next->flow, turns),
        turns.len() > 0 && turns[0].state.preparing is Some
            ==> turns[0].state.preparing->0.session_id != session_id,
    ensures
        start_hands_on(
            start_begin(o, session_id).next->flow,
            start_begin(o, session_id).next->command,
            turns,
            Learned::nothing(),
        ),
{
    let begun = start_begin(o, session_id);
    a_run_of_a_start_hands_on(
        begun.next->flow,
        begun.next->command,
        turns,
        Learned::nothing(),
    );
}

} // verus!
