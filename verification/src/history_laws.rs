//! What a use of the history comes to, told by the records that are stored.

use crate::configuration::{Answer, Request, Step};
use crate::domain::DeliveryId;
use crate::history_controller::{
    history_awaits, history_step, lists, HistoryController, HistoryEnd, HistoryError, HistoryFlow,
    HistoryGoal, HistoryStep,
};
use crate::ports::HistoryRecord;
use crate::text::blank;
use vstd::prelude::*;

verus! {

/// Whether a stored history has nothing in it that cannot be shown: every record has a
/// text, and no two have the same identity.
pub open spec fn is_sound(records: Seq<HistoryRecord>) -> bool {
    &&& forall|i: int|
        0 <= i < records.len() ==> !blank((#[trigger] records[i]).final_text@)
    &&& forall|i: int, j: int|
        0 <= i < records.len() && 0 <= j < records.len() && (#[trigger] records[i]).delivery_id
            == (#[trigger] records[j]).delivery_id ==> i == j
}

/// Whether a record with an identity is stored.
pub open spec fn has_record(records: Seq<HistoryRecord>, id: DeliveryId) -> bool {
    exists|i: int| 0 <= i < records.len() && (#[trigger] records[i]).delivery_id == id
}

/// A list shows the newest record first, and of two from the same time the one with the
/// greater identity.
pub proof fn a_list_shows_the_newest_first(
    shown: Seq<HistoryRecord>,
    stored: Seq<HistoryRecord>,
    i: int,
    j: int,
)
    requires
        lists(shown, stored),
        0 <= i < j < shown.len(),
    ensures
        shown[i].created_at.0 >= shown[j].created_at.0,
        shown[i].created_at == shown[j].created_at ==> shown[i].delivery_id.0
            > shown[j].delivery_id.0,
{
}

/// What a use of the history asks follows from what is wanted: a list enforces the policy
/// first where that is its business and the history is kept, a copy hands out the text of
/// the record that was asked for, and only who wants to clear clears. Copying and clearing
/// wait until no session is at work. Nothing is handed out or removed where the stored
/// history is not sound.
pub proof fn a_use_of_the_history_asks_for_what_is_wanted(
    controller: HistoryController,
    flow: HistoryFlow,
    answer: Answer,
)
    requires
        history_awaits(flow.step, answer),
    ensures
        match history_step(controller, flow, answer) {
            Step::Ask { flow: after, request } => {
                &&& after.goal == flow.goal
                &&& match flow.step {
                    HistoryStep::TakingTurn => {
                        &&& controller.available
                        &&& request is EnterApplication && after.step is Entering
                    },
                    HistoryStep::Entering => {
                        &&& answer == Answer::Granted(true)
                        &&& if !(flow.goal is List) {
                            request is LockConfiguration && after.step is Locking
                        } else if controller.applies_policy {
                            request is LoadSettings && after.step is Loading
                        } else {
                            request is ListHistory && after.step is Listing
                        }
                    },
                    HistoryStep::Locking => request is ProbeWork && after.step is Probing,
                    HistoryStep::Probing => {
                        &&& answer == Answer::Work(Some(false))
                        &&& request is ListHistory && after.step is Listing
                    },
                    HistoryStep::Loading => {
                        &&& answer->Settings_0 is Ok
                        &&& if answer->Settings_0->Ok_0.input.history_policy.enabled {
                            &&& request == Request::EnforcePolicy(answer->Settings_0->Ok_0)
                            &&& after.step is Enforcing
                        } else {
                            request is ListHistory && after.step is Listing
                        }
                    },
                    HistoryStep::Enforcing => {
                        &&& answer->Acted_0 is Ok
                        &&& request is ListHistory && after.step is Listing
                    },
                    HistoryStep::Listing => {
                        let records = answer->Records_0->Ok_0@;
                        &&& answer->Records_0 is Ok
                        &&& is_sound(records)
                        &&& match flow.goal {
                            HistoryGoal::List => false,
                            HistoryGoal::Copy(id) => {
                                &&& after.step is Copying
                                &&& has_record(records, id)
                                &&& forall|i: int|
                                    0 <= i < records.len() && (#[trigger] records[i]).delivery_id
                                        == id ==> request == Request::WriteClipboard(
                                        records[i].final_text,
                                    )
                            },
                            HistoryGoal::Clear => {
                                &&& request is ClearHistory
                                &&& after.step is Clearing && after.step->count == records.len()
                            },
                        }
                    },
                    _ => false,
                }
            },
            Step::Done(_) => true,
        },
{
}

/// What a use of the history ends with is what was found and done: all the stored records,
/// the copy, or the number of records that were removed; and a refusal says for what.
pub proof fn a_use_of_the_history_ends_with_what_was_done(
    controller: HistoryController,
    flow: HistoryFlow,
    answer: Answer,
)
    requires
        history_awaits(flow.step, answer),
        history_step(controller, flow, answer) is Done,
    ensures
        match history_step(controller, flow, answer)->Done_0 {
            Ok(HistoryEnd::Listed(stored)) => {
                &&& flow.goal is List && flow.step is Listing
                &&& answer->Records_0 is Ok && stored == answer->Records_0->Ok_0@
                &&& is_sound(stored)
            },
            Ok(HistoryEnd::Copied) => flow.step is Copying && answer->Acted_0 is Ok,
            Ok(HistoryEnd::Cleared(count)) => {
                flow.step is Clearing && answer->Acted_0 is Ok && count == flow.step->count
            },
            Err(HistoryError::Unavailable) => !controller.available,
            Err(HistoryError::Busy) => flow.step is Probing && answer == Answer::Work(Some(true)),
            Err(HistoryError::Quitting) => {
                flow.step is Entering && answer == Answer::Granted(false)
            },
            Err(HistoryError::RecordStale) => {
                &&& flow.step is Listing && flow.goal is Copy
                &&& answer->Records_0 is Ok
                &&& !has_record(answer->Records_0->Ok_0@, flow.goal->Copy_0)
            },
            Err(HistoryError::InvalidRecord) => {
                &&& flow.step is Listing
                &&& answer->Records_0 is Ok && !is_sound(answer->Records_0->Ok_0@)
            },
            Err(HistoryError::RuntimeUnavailable) => {
                flow.step is Probing && answer == Answer::Work(None)
            },
            Err(HistoryError::Port(error)) => {
                ||| answer == Answer::Settings(Err(error))
                ||| answer == Answer::Acted(Err(error))
                ||| answer == Answer::Records(Err(error))
            },
        },
{
}

} // verus!
