//! What a user can do with the texts that were kept.
//!
//! A platform without a history is not the same as an empty history. A record is
//! copied as it is stored, never as it was shown.

use crate::configuration::{Answer, Request, Step};
use crate::domain::DeliveryId;
use crate::ports::{HistoryRecord, PortError};
use crate::text::{blank, is_blank};
use std::collections::HashSet;
use vstd::prelude::*;
use vstd::seq_lib::*;

verus! {

#[derive(Debug, PartialEq, Eq)]
pub enum HistoryError {
    /// This platform keeps no history.
    Unavailable,
    Busy,
    Quitting,
    /// The record is gone.
    RecordStale,
    InvalidRecord,
    RuntimeUnavailable,
    Port(PortError),
}

/// Whether a record comes before another one: newest first, and among equally
/// old ones the one with the greater identity.
pub open spec fn newer(left: HistoryRecord, right: HistoryRecord) -> bool {
    left.created_at.0 > right.created_at.0 || (left.created_at.0 == right.created_at.0
        && left.delivery_id.0 > right.delivery_id.0)
}

pub open spec fn newest_first(records: Seq<HistoryRecord>) -> bool {
    forall|i: int, j: int|
        0 <= i < j < records.len() ==> newer(#[trigger] records[i], #[trigger] records[j])
}

/// Whether no identity occurs twice.
pub open spec fn distinct(records: Seq<HistoryRecord>) -> bool {
    forall|i: int, j: int|
        0 <= i < j < records.len() ==> (#[trigger] records[i]).delivery_id != (
        #[trigger] records[j]).delivery_id
}

/// Whether stored records can be shown: each has a text and an identity of its
/// own.
pub open spec fn presentable(records: Seq<HistoryRecord>) -> bool {
    &&& forall|i: int| 0 <= i < records.len() ==> !blank((#[trigger] records[i]).final_text@)
    &&& distinct(records)
}

/// Whether a list shows the stored records: all of them, newest first.
pub open spec fn lists(shown: Seq<HistoryRecord>, stored: Seq<HistoryRecord>) -> bool {
    &&& newest_first(shown)
    &&& shown.to_multiset() == stored.to_multiset()
}

/// The stored record with an identity, if there is one.
pub open spec fn record_with(records: Seq<HistoryRecord>, id: DeliveryId) -> Option<HistoryRecord> {
    if exists|i: int| 0 <= i < records.len() && (#[trigger] records[i]).delivery_id == id {
        Some(
            records[choose|i: int|
                0 <= i < records.len() && (#[trigger] records[i]).delivery_id == id],
        )
    } else {
        None
    }
}

/// Stored records can be listed in one way only.
pub proof fn a_listing_is_unique(
    left: Seq<HistoryRecord>,
    right: Seq<HistoryRecord>,
    stored: Seq<HistoryRecord>,
)
    requires
        lists(left, stored),
        lists(right, stored),
    ensures
        left == right,
    decreases left.len(),
{
    broadcast use group_to_multiset_ensures;

    to_multiset_len(left);
    to_multiset_len(right);
    if left.len() > 0 {
        let first = left[0];
        assert(left.contains(first));
        assert(left.to_multiset().count(first) > 0);
        assert(right.contains(first));
        let j = choose|j: int| 0 <= j < right.len() && right[j] == first;
        assert(right.contains(right[0]));
        assert(right.to_multiset().count(right[0]) > 0);
        assert(left.contains(right[0]));
        let i = choose|i: int| 0 <= i < left.len() && left[i] == right[0];
        assert(right[0] == first);
        assert(left.remove(0).to_multiset() == right.remove(0).to_multiset());
        assert(newest_first(left.remove(0)));
        assert(newest_first(right.remove(0)));
        a_listing_is_unique(left.remove(0), right.remove(0), left.remove(0));
        assert(left =~= seq![first] + left.remove(0));
        assert(right =~= seq![first] + right.remove(0));
    } else {
        assert(left =~= right);
    }
}

/// Every listed record is a stored one, and every stored one is listed.
pub proof fn a_listing_shows_exactly_what_is_stored(
    shown: Seq<HistoryRecord>,
    stored: Seq<HistoryRecord>,
    record: HistoryRecord,
)
    requires
        lists(shown, stored),
    ensures
        shown.contains(record) <==> stored.contains(record),
        shown.len() == stored.len(),
{
    to_multiset_contains(shown, record);
    to_multiset_contains(stored, record);
    to_multiset_len(shown);
    to_multiset_len(stored);
}

proof fn inserted_in_order(records: Seq<HistoryRecord>, position: int, record: HistoryRecord)
    requires
        newest_first(records),
        0 <= position <= records.len(),
        forall|i: int| 0 <= i < position ==> newer(#[trigger] records[i], record),
        forall|i: int| position <= i < records.len() ==> newer(record, #[trigger] records[i]),
    ensures
        newest_first(records.insert(position, record)),
{
    let inserted = records.insert(position, record);
    assert forall|i: int, j: int| 0 <= i < j < inserted.len() implies newer(
        #[trigger] inserted[i],
        #[trigger] inserted[j],
    ) by {
        let before = if i < position {
            i
        } else {
            i - 1
        };
        let after = if j < position {
            j
        } else {
            j - 1
        };
        if i != position && j != position {
            assert(inserted[i] == records[before] && inserted[j] == records[after]);
        } else if i == position {
            assert(inserted[j] == records[after]);
        } else {
            assert(inserted[i] == records[before]);
        }
    }
}

fn comes_before(left: &HistoryRecord, right: &HistoryRecord) -> (r: bool)
    ensures
        r == newer(*left, *right),
{
    left.created_at.get() > right.created_at.get() || (left.created_at.get()
        == right.created_at.get() && left.delivery_id.as_uuid() > right.delivery_id.as_uuid())
}

fn is_presentable(records: &Vec<HistoryRecord>) -> (r: bool)
    ensures
        r == presentable(records@),
{
    broadcast use vstd::std_specs::hash::group_hash_axioms;

    let mut record_ids: HashSet<u128> = HashSet::new();
    let mut i: usize = 0;
    while i < records.len()
        invariant
            i <= records@.len(),
            forall|j: int| 0 <= j < i ==> !blank((#[trigger] records@[j]).final_text@),
            distinct(records@.take(i as int)),
            forall|id: u128| #[trigger]
                record_ids@.contains(id) <==> exists|j: int|
                    0 <= j < i && (#[trigger] records@[j]).delivery_id.0 == id,
        decreases records@.len() - i,
    {
        let record = &records[i];
        if is_blank(record.final_text.as_str()) {
            assert(blank(records@[i as int].final_text@));
            return false;
        }
        let id: u128 = record.delivery_id.as_uuid();
        let ghost seen = record_ids@;
        if !record_ids.insert(id) {
            proof {
                assert(seen.contains(id));
                let j = choose|j: int| 0 <= j < i && (#[trigger] records@[j]).delivery_id.0 == id;
                assert(records@[j].delivery_id == records@[i as int].delivery_id);
            }
            return false;
        }
        proof {
            let longer = records@.take(i + 1);
            assert forall|j: int, k: int| 0 <= j < k < longer.len() implies (
            #[trigger] longer[j]).delivery_id != (#[trigger] longer[k]).delivery_id by {
                if k < i {
                    assert(records@.take(i as int)[j] == longer[j]);
                    assert(records@.take(i as int)[k] == longer[k]);
                } else {
                    assert(longer[j] == records@[j]);
                    if longer[j].delivery_id == longer[k].delivery_id {
                        assert(records@[j].delivery_id.0 == id);
                        assert(seen.contains(id));
                    }
                }
            }
            assert forall|other: u128| #[trigger] record_ids@.contains(other) <==> exists|j: int|
                0 <= j < i + 1 && (#[trigger] records@[j]).delivery_id.0 == other by {
                if record_ids@.contains(other) {
                    if other == id {
                        assert(records@[i as int].delivery_id.0 == other);
                    } else {
                        assert(seen.contains(other));
                    }
                }
                if exists|j: int| 0 <= j < i + 1 && (#[trigger] records@[j]).delivery_id.0 == other {
                    let j = choose|j: int|
                        0 <= j < i + 1 && (#[trigger] records@[j]).delivery_id.0 == other;
                    if j < i {
                        assert(seen.contains(other));
                    }
                }
            }
        }
        i = i + 1;
    }
    assert(records@.take(i as int) =~= records@);
    true
}

fn sorted_newest_first(records: Vec<HistoryRecord>) -> (r: Vec<HistoryRecord>)
    requires
        distinct(records@),
    ensures
        lists(r@, records@),
{
    let ghost stored = records@;
    let mut rest = records;
    let mut sorted: Vec<HistoryRecord> = Vec::new();
    proof {
        assert(stored.skip(stored.len() as int) =~= Seq::empty());
        assert(sorted@ =~= Seq::empty());
        assert(rest@ =~= stored.take(rest@.len() as int));
    }
    while rest.len() > 0
        invariant
            rest@.len() <= stored.len(),
            rest@ == stored.take(rest@.len() as int),
            distinct(stored),
            newest_first(sorted@),
            sorted@.to_multiset() == stored.skip(rest@.len() as int).to_multiset(),
        decreases rest@.len(),
    {
        let ghost n = rest@.len() as int;
        let record = match rest.pop() {
            Some(record) => record,
            None => {
                return sorted;
            },
        };
        proof {
            assert(record == stored[n - 1]);
            assert forall|i: int| 0 <= i < sorted@.len() implies (
            #[trigger] sorted@[i]).delivery_id != record.delivery_id by {
                assert(sorted@.contains(sorted@[i]));
                to_multiset_contains(sorted@, sorted@[i]);
                to_multiset_contains(stored.skip(n), sorted@[i]);
                let k = choose|k: int|
                    0 <= k < stored.skip(n).len() && stored.skip(n)[k] == sorted@[i];
                assert(stored.skip(n)[k] == stored[n + k]);
            }
        }
        let mut position: usize = 0;
        while position < sorted.len() && comes_before(&sorted[position], &record)
            invariant
                position <= sorted@.len(),
                newest_first(sorted@),
                forall|i: int| 0 <= i < position ==> newer(#[trigger] sorted@[i], record),
            decreases sorted@.len() - position,
        {
            position = position + 1;
        }
        proof {
            assert forall|i: int| position <= i < sorted@.len() implies newer(
                record,
                #[trigger] sorted@[i],
            ) by {
                assert(newer(record, sorted@[position as int]));
            }
            inserted_in_order(sorted@, position as int, record);
            to_multiset_insert(sorted@, position as int, record);
            assert(stored.skip(n - 1) =~= stored.skip(n).insert(0, record));
            to_multiset_insert(stored.skip(n), 0, record);
            assert(rest@ =~= stored.take(n - 1));
        }
        sorted.insert(position, record);
    }
    assert(stored.skip(0) =~= stored);
    sorted
}

/// Lists stored records, newest first. A record without a text, or an identity
/// that occurs twice, makes the whole history invalid.
pub fn validated_records(records: Vec<HistoryRecord>) -> (r: Result<
    Vec<HistoryRecord>,
    HistoryError,
>)
    ensures
        match r {
            Ok(shown) => presentable(records@) && lists(shown@, records@),
            Err(error) => !presentable(records@) && error is InvalidRecord,
        },
{
    if !is_presentable(&records) {
        return Err(HistoryError::InvalidRecord);
    }
    Ok(sorted_newest_first(records))
}

/// What a user wants of the history.
#[derive(Clone, Copy, Debug, PartialEq, Eq, Structural)]
pub enum HistoryGoal {
    List,
    Copy(DeliveryId),
    Clear,
}

/// What came of it.
#[derive(Debug, PartialEq, Eq)]
pub enum HistoryOutcome {
    Listed(Vec<HistoryRecord>),
    Copied,
    /// This many records were removed.
    Cleared(usize),
}

/// How far a use of the history has come.
pub enum HistoryStep {
    TakingTurn,
    Entering,
    Locking,
    Probing,
    Loading,
    Enforcing,
    Listing,
    Copying,
    Clearing { count: usize },
}

/// A use of the history under way.
pub struct HistoryFlow {
    pub goal: HistoryGoal,
    pub step: HistoryStep,
}

pub type HistoryResult = Result<HistoryOutcome, HistoryError>;

/// What came of a use of the history, over the stored records.
pub enum HistoryEnd {
    Listed(Seq<HistoryRecord>),
    Copied,
    Cleared(nat),
}

pub type HistoryMove = Step<HistoryFlow, Result<HistoryEnd, HistoryError>>;

/// Whether a step is the given one, its list put in order.
pub open spec fn shows_history(step: Step<HistoryFlow, HistoryResult>, mv: HistoryMove) -> bool {
    match mv {
        Step::Ask { flow, request } => step == (Step::<HistoryFlow, HistoryResult>::Ask {
            flow,
            request,
        }),
        Step::Done(Err(error)) => step == Step::<HistoryFlow, HistoryResult>::Done(Err(error)),
        Step::Done(Ok(end)) => step is Done && step->Done_0 is Ok && match end {
            HistoryEnd::Listed(stored) => step->Done_0->Ok_0 is Listed && lists(
                step->Done_0->Ok_0->Listed_0@,
                stored,
            ),
            HistoryEnd::Copied => step->Done_0->Ok_0 is Copied,
            HistoryEnd::Cleared(count) => step->Done_0->Ok_0 is Cleared
                && step->Done_0->Ok_0->Cleared_0 == count,
        },
    }
}

/// Whether an answer is what a use of the history waits for.
pub open spec fn history_awaits(step: HistoryStep, answer: Answer) -> bool {
    match step {
        HistoryStep::TakingTurn | HistoryStep::Locking => answer is Ready,
        HistoryStep::Entering => answer is Granted,
        HistoryStep::Probing => answer is Work,
        HistoryStep::Loading => answer is Settings,
        HistoryStep::Enforcing | HistoryStep::Copying | HistoryStep::Clearing { .. } => {
            answer is Acted
        },
        HistoryStep::Listing => answer is Records,
    }
}

pub open spec fn history_asks(
    goal: HistoryGoal,
    step: HistoryStep,
    request: Request,
) -> HistoryMove {
    Step::Ask { flow: HistoryFlow { goal, step }, request }
}

pub open spec fn history_reads(goal: HistoryGoal) -> HistoryMove {
    history_asks(goal, HistoryStep::Listing, Request::ListHistory)
}

/// What the stored records are wanted for. Nothing is copied or removed unless
/// the whole history is presentable.
pub open spec fn history_on_listed(
    goal: HistoryGoal,
    records: Result<Vec<HistoryRecord>, PortError>,
) -> HistoryMove {
    match records {
        Err(error) => Step::Done(Err(HistoryError::Port(error))),
        Ok(records) => if !presentable(records@) {
            Step::Done(Err(HistoryError::InvalidRecord))
        } else {
            match goal {
                HistoryGoal::List => Step::Done(Ok(HistoryEnd::Listed(records@))),
                HistoryGoal::Copy(id) => match record_with(records@, id) {
                    Some(record) => history_asks(
                        goal,
                        HistoryStep::Copying,
                        Request::WriteClipboard(record.final_text),
                    ),
                    None => Step::Done(Err(HistoryError::RecordStale)),
                },
                HistoryGoal::Clear => history_asks(
                    goal,
                    HistoryStep::Clearing { count: records.len() },
                    Request::ClearHistory,
                ),
            }
        },
    }
}

/// A read may first apply the policy of the settings; what it keeps from a
/// session, only copying and clearing have to care for.
pub open spec fn history_on_entered(controller: HistoryController, goal: HistoryGoal) -> HistoryMove {
    if goal is List {
        if controller.applies_policy {
            history_asks(goal, HistoryStep::Loading, Request::LoadSettings)
        } else {
            history_reads(goal)
        }
    } else {
        history_asks(goal, HistoryStep::Locking, Request::LockConfiguration)
    }
}

/// The whole use of the history, one answer at a time.
pub open spec fn history_step(
    controller: HistoryController,
    flow: HistoryFlow,
    answer: Answer,
) -> HistoryMove {
    let goal = flow.goal;
    match flow.step {
        HistoryStep::TakingTurn => if controller.available {
            history_asks(goal, HistoryStep::Entering, Request::EnterApplication)
        } else {
            Step::Done(Err(HistoryError::Unavailable))
        },
        HistoryStep::Entering => if answer->Granted_0 {
            history_on_entered(controller, goal)
        } else {
            Step::Done(Err(HistoryError::Quitting))
        },
        HistoryStep::Locking => history_asks(goal, HistoryStep::Probing, Request::ProbeWork),
        HistoryStep::Probing => match answer->Work_0 {
            Some(true) => Step::Done(Err(HistoryError::Busy)),
            Some(false) => history_reads(goal),
            None => Step::Done(Err(HistoryError::RuntimeUnavailable)),
        },
        HistoryStep::Loading => match answer->Settings_0 {
            Ok(settings) => if settings.input.history_policy.enabled {
                history_asks(goal, HistoryStep::Enforcing, Request::EnforcePolicy(settings))
            } else {
                history_reads(goal)
            },
            Err(error) => Step::Done(Err(HistoryError::Port(error))),
        },
        HistoryStep::Enforcing => match answer->Acted_0 {
            Ok(_) => history_reads(goal),
            Err(error) => Step::Done(Err(HistoryError::Port(error))),
        },
        HistoryStep::Listing => history_on_listed(goal, answer->Records_0),
        HistoryStep::Copying => match answer->Acted_0 {
            Ok(_) => Step::Done(Ok(HistoryEnd::Copied)),
            Err(error) => Step::Done(Err(HistoryError::Port(error))),
        },
        HistoryStep::Clearing { count } => match answer->Acted_0 {
            Ok(_) => Step::Done(Ok(HistoryEnd::Cleared(count as nat))),
            Err(error) => Step::Done(Err(HistoryError::Port(error))),
        },
    }
}

pub open spec fn history_begin(goal: HistoryGoal) -> HistoryMove {
    history_asks(goal, HistoryStep::TakingTurn, Request::TakeTurn)
}

/// Records are removed by a user only on the request to clear, once no session
/// is at work, and a list never removes any unless a policy is in force.
pub proof fn records_are_cleared_only_on_request(
    controller: HistoryController,
    flow: HistoryFlow,
    answer: Answer,
)
    requires
        history_awaits(flow.step, answer),
    ensures
        history_step(controller, flow, answer) is Ask && history_step(
            controller,
            flow,
            answer,
        )->request is ClearHistory ==> flow.goal is Clear && flow.step is Listing,
        !(flow.goal is List) && flow.step is Entering && answer->Granted_0 ==> history_step(
            controller,
            flow,
            answer,
        ) == history_asks(flow.goal, HistoryStep::Locking, Request::LockConfiguration),
        !(flow.goal is List) && flow.step is Probing ==> (history_step(controller, flow, answer)
            == history_reads(flow.goal) <==> answer->Work_0 == Some(false)),
        history_step(controller, flow, answer) is Ask && history_step(
            controller,
            flow,
            answer,
        )->request is EnforcePolicy ==> flow.step is Loading
            && answer->Settings_0->Ok_0.input.history_policy.enabled,
{
}

/// What a copy writes is the text of the stored record that was asked for, and
/// of no other record.
pub proof fn a_copy_writes_what_is_stored(
    controller: HistoryController,
    flow: HistoryFlow,
    answer: Answer,
    record: HistoryRecord,
)
    requires
        history_awaits(flow.step, answer),
        history_step(controller, flow, answer) is Ask,
        history_step(controller, flow, answer)->request is WriteClipboard,
    ensures
        flow.goal is Copy && answer is Records && answer->Records_0 is Ok,
        answer->Records_0->Ok_0@.contains(record) && record.delivery_id == flow.goal->Copy_0
            ==> history_step(controller, flow, answer)->request == Request::WriteClipboard(
            record.final_text,
        ),
        record_with(answer->Records_0->Ok_0@, flow.goal->Copy_0) is Some,
{
}

/// What a user can do with the texts that were kept.
#[derive(Clone, Copy, Debug, PartialEq, Eq, Structural)]
pub struct HistoryController {
    /// There is a history on this platform.
    pub available: bool,
    /// The policy of the settings is applied before records are shown.
    pub applies_policy: bool,
}

impl HistoryController {
    /// Over a history whose policy others apply.
    pub fn new() -> (r: HistoryController)
        ensures
            r == (HistoryController { available: true, applies_policy: false }),
    {
        HistoryController { available: true, applies_policy: false }
    }

    /// Over a history that is held to the policy of the settings whenever it is
    /// shown.
    pub fn new_with_settings() -> (r: HistoryController)
        ensures
            r == (HistoryController { available: true, applies_policy: true }),
    {
        HistoryController { available: true, applies_policy: true }
    }

    /// Over no history at all.
    pub fn unavailable() -> (r: HistoryController)
        ensures
            r == (HistoryController { available: false, applies_policy: false }),
    {
        HistoryController { available: false, applies_policy: false }
    }

    /// Begins to list the records.
    pub fn list(&self) -> (r: Step<HistoryFlow, HistoryResult>)
        ensures
            shows_history(r, history_begin(HistoryGoal::List)),
    {
        Step::Ask {
            flow: HistoryFlow { goal: HistoryGoal::List, step: HistoryStep::TakingTurn },
            request: Request::TakeTurn,
        }
    }

    /// Begins to copy the text of one record.
    pub fn copy(&self, record_id: DeliveryId) -> (r: Step<HistoryFlow, HistoryResult>)
        ensures
            shows_history(r, history_begin(HistoryGoal::Copy(record_id))),
    {
        Step::Ask {
            flow: HistoryFlow { goal: HistoryGoal::Copy(record_id), step: HistoryStep::TakingTurn },
            request: Request::TakeTurn,
        }
    }

    /// Begins to remove all records.
    pub fn clear_all(&self) -> (r: Step<HistoryFlow, HistoryResult>)
        ensures
            shows_history(r, history_begin(HistoryGoal::Clear)),
    {
        Step::Ask {
            flow: HistoryFlow { goal: HistoryGoal::Clear, step: HistoryStep::TakingTurn },
            request: Request::TakeTurn,
        }
    }

    fn on_listed(&self, goal: HistoryGoal, records: Vec<HistoryRecord>) -> (r: Step<
        HistoryFlow,
        HistoryResult,
    >)
        ensures
            shows_history(r, history_on_listed(goal, Ok(records))),
    {
        let count: usize = records.len();
        let shown = match validated_records(records) {
            Ok(shown) => shown,
            Err(error) => {
                return Step::Done(Err(error));
            },
        };
        match goal {
            HistoryGoal::List => Step::Done(Ok(HistoryOutcome::Listed(shown))),
            HistoryGoal::Clear => Step::Ask {
                flow: HistoryFlow { goal, step: HistoryStep::Clearing { count } },
                request: Request::ClearHistory,
            },
            HistoryGoal::Copy(id) => {
                let mut i: usize = 0;
                while i < shown.len()
                    invariant
                        i <= shown@.len(),
                        goal == HistoryGoal::Copy(id),
                        presentable(records@),
                        lists(shown@, records@),
                        forall|j: int| 0 <= j < i ==> (#[trigger] shown@[j]).delivery_id != id,
                    decreases shown@.len() - i,
                {
                    if shown[i].delivery_id == id {
                        proof {
                            let found = shown@[i as int];
                            a_listing_shows_exactly_what_is_stored(shown@, records@, found);
                            assert(shown@.contains(found));
                            let k = choose|k: int|
                                0 <= k < records@.len() && records@[k] == found;
                            assert(records@[k].delivery_id == id);
                            let c = choose|c: int|
                                0 <= c < records@.len() && (#[trigger] records@[c]).delivery_id
                                    == id;
                            assert(records@[c] == found);
                        }
                        return Step::Ask {
                            flow: HistoryFlow { goal, step: HistoryStep::Copying },
                            request: Request::WriteClipboard(shown[i].final_text.clone()),
                        };
                    }
                    i = i + 1;
                }
                proof {
                    assert forall|k: int| 0 <= k < records@.len() implies (
                    #[trigger] records@[k]).delivery_id != id by {
                        let record = records@[k];
                        a_listing_shows_exactly_what_is_stored(shown@, records@, record);
                        assert(records@.contains(record));
                        let j = choose|j: int| 0 <= j < shown@.len() && shown@[j] == record;
                        assert(shown@[j].delivery_id != id);
                    }
                }
                Step::Done(Err(HistoryError::RecordStale))
            },
        }
    }

    /// Goes on with a use of the history.
    pub fn resume(&self, flow: HistoryFlow, answer: Answer) -> (r: Step<HistoryFlow, HistoryResult>)
        requires
            history_awaits(flow.step, answer),
        ensures
            shows_history(r, history_step(*self, flow, answer)),
    {
        let HistoryFlow { goal, step } = flow;
        let (step, request) = match (step, answer) {
            (HistoryStep::TakingTurn, _) => {
                if !self.available {
                    return Step::Done(Err(HistoryError::Unavailable));
                }
                (HistoryStep::Entering, Request::EnterApplication)
            },
            (HistoryStep::Entering, Answer::Granted(granted)) => {
                if !granted {
                    return Step::Done(Err(HistoryError::Quitting));
                }
                match goal {
                    HistoryGoal::List => if self.applies_policy {
                        (HistoryStep::Loading, Request::LoadSettings)
                    } else {
                        (HistoryStep::Listing, Request::ListHistory)
                    },
                    _ => (HistoryStep::Locking, Request::LockConfiguration),
                }
            },
            (HistoryStep::Locking, _) => (HistoryStep::Probing, Request::ProbeWork),
            (HistoryStep::Probing, Answer::Work(work)) => match work {
                Some(true) => {
                    return Step::Done(Err(HistoryError::Busy));
                },
                Some(false) => (HistoryStep::Listing, Request::ListHistory),
                None => {
                    return Step::Done(Err(HistoryError::RuntimeUnavailable));
                },
            },
            (HistoryStep::Loading, Answer::Settings(settings)) => match settings {
                Ok(settings) => if settings.input.history_policy.enabled {
                    (HistoryStep::Enforcing, Request::EnforcePolicy(settings))
                } else {
                    (HistoryStep::Listing, Request::ListHistory)
                },
                Err(error) => {
                    return Step::Done(Err(HistoryError::Port(error)));
                },
            },
            (HistoryStep::Enforcing, Answer::Acted(enforced)) => match enforced {
                Ok(_) => (HistoryStep::Listing, Request::ListHistory),
                Err(error) => {
                    return Step::Done(Err(HistoryError::Port(error)));
                },
            },
            (HistoryStep::Listing, Answer::Records(records)) => {
                return match records {
                    Ok(records) => self.on_listed(goal, records),
                    Err(error) => Step::Done(Err(HistoryError::Port(error))),
                };
            },
            (HistoryStep::Copying, Answer::Acted(copied)) => {
                return match copied {
                    Ok(_) => Step::Done(Ok(HistoryOutcome::Copied)),
                    Err(error) => Step::Done(Err(HistoryError::Port(error))),
                };
            },
            (HistoryStep::Clearing { count }, Answer::Acted(cleared)) => {
                return match cleared {
                    Ok(_) => Step::Done(Ok(HistoryOutcome::Cleared(count))),
                    Err(error) => Step::Done(Err(HistoryError::Port(error))),
                };
            },
            _ => vstd::pervasive::unreached(),
        };
        Step::Ask { flow: HistoryFlow { goal, step }, request }
    }
}

} // verus!
