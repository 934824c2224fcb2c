//! What the marks on the shared state do, each to its own part of it.

use crate::domain::{FailureCategory, SessionEvent, SessionId};
use crate::orchestrator::state::{
    debt_index, with_debt, ActiveWorkflow, AudioCleanupDebt, AudioCleanupResource, OrchestratorView,
    PreparingWorkflow, RuntimeStage,
};
use crate::session_coordinator::slot_after;
use vstd::prelude::*;

verus! {

/// The place belongs to the session that works, else to the one that prepares, else to the
/// one that starts, else to the first one that still owes a cleanup, and else to nobody.
pub proof fn the_place_has_one_occupant(o: OrchestratorView)
    ensures
        match o.occupant() {
            Some(session_id) => {
                ||| o.active is Some && o.active->0.session_id == session_id
                ||| o.active is None && o.preparing is Some && o.preparing->0.session_id
                    == session_id
                ||| o.active is None && o.preparing is None && o.starting == Some(session_id)
                ||| o.active is None && o.preparing is None && o.starting is None && o.debts.len()
                    > 0 && o.debts[0].session_id == session_id
            },
            None => o.active is None && o.preparing is None && o.starting is None && o.debts.len()
                == 0,
        },
        o.has_work() <==> o.active is Some || o.preparing is Some || o.starting is Some,
{
}

/// A limit that passes during the preparation of a session is remembered for that session,
/// and nothing else changes.
pub proof fn a_passed_limit_is_remembered(o: OrchestratorView, session_id: SessionId)
    ensures
        if o.preparing is Some && o.preparing->0.session_id == session_id {
            o.limit_marked(session_id) == (OrchestratorView {
                preparing: Some(
                    PreparingWorkflow { recording_limit_elapsed: true, ..o.preparing->0 },
                ),
                ..o
            })
        } else {
            o.limit_marked(session_id) == o
        },
{
}

/// A recording that is being finished keeps its capture and everything that was frozen for
/// it, and has no deadline any more.
pub proof fn a_finished_recording_keeps_what_was_frozen(o: OrchestratorView)
    requires
        o.active is Some,
        o.active->0.stage is Recording,
    ensures
        o.finishing() == (OrchestratorView {
            active: Some(
                ActiveWorkflow {
                    recording_deadline: None,
                    stage: RuntimeStage::FinishingAudio {
                        capture: o.active->0.stage->Recording_capture,
                    },
                    ..o.active->0
                },
            ),
            ..o
        }),
{
}

/// A preparation that is dropped is gone, and takes its session out of the single slot
/// exactly where its start had given it up; a reservation is given back by its own start
/// alone.
pub proof fn what_is_dropped_is_gone(o: OrchestratorView, session_id: SessionId)
    ensures
        ({
            let prepares = o.preparing is Some && o.preparing->0.session_id == session_id;
            let dropped = o.dropped(session_id);
            &&& prepares ==> dropped.preparing is None
            &&& !prepares ==> dropped == o
            &&& prepares && o.preparing->0.given_up ==> dropped.session == slot_after(
                o.session,
                session_id,
                SessionEvent::Fail(FailureCategory::Lifecycle),
            )
            &&& !(prepares && o.preparing->0.given_up) ==> dropped.session == o.session
            &&& dropped.active == o.active && dropped.starting == o.starting && dropped.debts
                == o.debts
        }),
        o.starting == Some(session_id) ==> o.released(session_id).starting is None,
        o.starting != Some(session_id) ==> o.released(session_id) == o,
        o.released(session_id).preparing == o.preparing && o.released(session_id).active
            == o.active,
{
}

proof fn the_first_debt_for_a_piece_of_audio(
    debts: Seq<AudioCleanupDebt>,
    session_id: SessionId,
    resource: AudioCleanupResource,
)
    ensures
        ({
            let index = debt_index(debts, session_id, resource);
            &&& index <= debts.len()
            &&& index < debts.len() ==> debts[index as int].is_for(session_id, resource)
            &&& forall|i: int|
                0 <= i < index && i < debts.len() ==> !(#[trigger] debts[i]).is_for(
                    session_id,
                    resource,
                )
        }),
    decreases debts.len(),
{
    if debts.len() > 0 && !debts[0].is_for(session_id, resource) {
        let rest = debts.drop_first();
        the_first_debt_for_a_piece_of_audio(rest, session_id, resource);
        let index = debt_index(debts, session_id, resource);
        if index < debts.len() {
            assert(debts[index as int] == rest[index - 1]);
        }
        assert forall|i: int| 0 <= i < index && i < debts.len() implies !(
        #[trigger] debts[i]).is_for(session_id, resource) by {
            if i > 0 {
                assert(debts[i] == rest[i - 1]);
            }
        }
    }
}

/// A cleanup that has failed is owed, with the failure that it met last, and once; whatever
/// else was owed is owed still, in its order.
pub proof fn a_failed_cleanup_is_owed_once(
    debts: Seq<AudioCleanupDebt>,
    debt: AudioCleanupDebt,
    other: int,
)
    ensures
        ({
            let after = with_debt(debts, debt);
            &&& after.contains(debt)
            &&& debts.len() <= after.len() <= debts.len() + 1
            &&& after.len() == debts.len() + 1 <==> forall|i: int|
                0 <= i < debts.len() ==> !(#[trigger] debts[i]).is_for(
                    debt.session_id,
                    debt.resource,
                )
            &&& 0 <= other < debts.len() && !debts[other].is_for(debt.session_id, debt.resource)
                ==> after[other] == debts[other]
        }),
{
    the_first_debt_for_a_piece_of_audio(debts, debt.session_id, debt.resource);
    let index = debt_index(debts, debt.session_id, debt.resource);
    let after = with_debt(debts, debt);
    assert(after[index as int] == debt);
    if index < debts.len() {
        assert(debts[index as int].is_for(debt.session_id, debt.resource));
    }
}

/// Whether a cleanup is running is noted at the stage that tracks one, of this session
/// alone, and changes nothing else.
pub proof fn a_running_cleanup_is_noted_at_its_stage(
    o: OrchestratorView,
    session_id: SessionId,
    running: bool,
)
    ensures
        ({
            let noted = o.with_cleanup_in_flight(session_id, running);
            &&& o.cleanup_in_flight(session_id) is Some && !(o.preparing is Some && o.active
                is Some) ==> noted.cleanup_in_flight(session_id) == Some(running)
            &&& noted.session == o.session && noted.debts == o.debts && noted.starting
                == o.starting && noted.quitting == o.quitting
            &&& noted.preparing is Some <==> o.preparing is Some
            &&& noted.active is Some <==> o.active is Some
            &&& o.active is Some ==> noted.active->0 == (ActiveWorkflow {
                stage: noted.active->0.stage,
                ..o.active->0
            })
            &&& o.preparing is Some ==> noted.preparing->0 == (PreparingWorkflow {
                stage: noted.preparing->0.stage,
                ..o.preparing->0
            })
            &&& match o.active->0.stage {
                RuntimeStage::Cancelling { capture, completion, .. } => {
                    o.active is Some && o.active->0.session_id == session_id
                        ==> noted.active->0.stage == (RuntimeStage::Cancelling {
                        capture,
                        completion,
                        in_flight: running,
                    })
                },
                RuntimeStage::CleaningAudio { request_id, audio_ref, .. } => {
                    o.active is Some && o.active->0.session_id == session_id
                        ==> noted.active->0.stage == (RuntimeStage::CleaningAudio {
                        request_id,
                        audio_ref,
                        in_flight: running,
                    })
                },
                _ => noted.active == o.active,
            }
        }),
{
}

} // verus!
