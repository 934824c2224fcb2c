//! What becomes of a capture that could not be closed: its session keeps its place until
//! the capture is closed after all, and then gives up its place and the slot.

use crate::domain::{SessionId, SessionPhase};
use crate::orchestrator::cancel::{
    cancel_begin, cancel_step, capture_debt, CancelFlow, CancelResult,
};
use crate::orchestrator::deliver::FinishEnd;
use crate::orchestrator::finish::{finish_begin, finish_step, FinishFlow};
use crate::orchestrator::protocol::{noted, Command, Next, Reply};
use crate::orchestrator::retry::{
    cleanup_command, cleanup_phase, resource_settled, retry_begin, retry_step, RetryFlow,
    RetryResult,
};
use crate::orchestrator::session_laws::single_flight;
use crate::orchestrator::slot_laws::{has_place, in_slot, slot_has_its_place};
use crate::orchestrator::start::{start_step, StartFlow, StartResult, StartStep};
use crate::orchestrator::state::{
    session_debt_index, with_debt, without_debt, AudioCleanupCompletion, AudioCleanupDebt,
    AudioCleanupOutcome, AudioCleanupResource, CancelOutcome, CaptureCancellationSelection,
    CaptureCancellationTarget, CaptureCleanupCompletion, OrchestratorError, OrchestratorView,
    PreparingStage, RetrySelection, RuntimeStage, StartOutcome,
};
use crate::ports::{AudioCaptureRef, PortError};
use vstd::prelude::*;

verus! {

/// The error that a failed cleanup is told as.
pub open spec fn cleanup_error(
    session_id: SessionId,
    phase: &'static str,
    source: PortError,
) -> OrchestratorError {
    OrchestratorError::AudioCleanupFailed { session_id, phase, source }
}

/// The answer to a session that wants to start while another one has the place.
pub open spec fn busy(session_id: SessionId) -> Next<StartFlow, StartResult> {
    Next::Done(Ok(StartOutcome::Busy { active_session_id: session_id }))
}

/// A start that has reached its turn.
pub open spec fn next_start(session_id: SessionId) -> StartFlow {
    StartFlow { session_id, step: StartStep::AcquiringGate }
}

/// Whether a session records: it works on a recording and has the slot for it.
pub open spec fn is_recording(
    o: OrchestratorView,
    session_id: SessionId,
    capture: AudioCaptureRef,
) -> bool {
    &&& o.works(session_id)
    &&& o.active->0.stage == (RuntimeStage::Recording { capture })
    &&& in_slot(o, session_id)
    &&& o.session->0.session.phase == SessionPhase::Recording
}

/// Whether a request to cancel a session closes the given capture. Where a recording
/// ends by it, the session has the slot as one that records.
pub open spec fn is_cancellable(
    o: OrchestratorView,
    session_id: SessionId,
    capture: AudioCaptureRef,
    target: CaptureCancellationTarget,
) -> bool {
    &&& o.cancellation(session_id) == (CaptureCancellationSelection::Capture { capture, target })
    &&& target == CaptureCancellationTarget::Active(CaptureCleanupCompletion::Cancelled) ==> {
        &&& in_slot(o, session_id)
        &&& o.session->0.session.phase == SessionPhase::Recording
    }
}

/// Whether nothing is owed but one piece of audio of one session.
pub open spec fn owes_at_most(
    o: OrchestratorView,
    session_id: SessionId,
    resource: AudioCleanupResource,
) -> bool {
    forall|i: int| 0 <= i < o.debts.len() ==> (#[trigger] o.debts[i]).is_for(session_id, resource)
}

/// Whether nothing runs, nothing is owed and nobody has the slot.
pub open spec fn is_free(o: OrchestratorView) -> bool {
    &&& !o.has_work()
    &&& o.debts.len() == 0
    &&& o.session is None
    &&& o.occupant() is None
}

proof fn nothing_is_left_of_one_debt(
    o: OrchestratorView,
    session_id: SessionId,
    resource: AudioCleanupResource,
)
    requires
        owes_at_most(o, session_id, resource),
    ensures
        without_debt(o.debts, session_id, resource).len() == 0,
{
    let kept = |debt: AudioCleanupDebt| !debt.is_for(session_id, resource);
    let left = without_debt(o.debts, session_id, resource);
    if left.len() > 0 {
        o.debts.lemma_filter_pred(kept, 0);
        o.debts.lemma_filter_contains_rev(kept, left[0]);
        let i = choose|i: int| 0 <= i < o.debts.len() && o.debts[i] == left[0];
        assert(o.debts[i].is_for(session_id, resource));
    }
}

/// A recording that is started can be cancelled.
pub proof fn a_recording_can_be_cancelled(
    o: OrchestratorView,
    session_id: SessionId,
    capture: AudioCaptureRef,
)
    requires
        is_recording(o, session_id, capture),
        single_flight(o),
    ensures
        is_cancellable(
            o,
            session_id,
            capture,
            CaptureCancellationTarget::Active(CaptureCleanupCompletion::Cancelled),
        ),
{
}

/// A start that ends by recording leaves a session that records.
pub proof fn a_started_session_records(o: OrchestratorView, flow: StartFlow, reply: Reply)
    requires
        flow.step is AnnouncingRecording,
        start_step(o, flow, reply).next == Next::<StartFlow, StartResult>::Done(
            Ok(StartOutcome::Started { session_id: flow.session_id }),
        ),
    ensures
        is_recording(
            start_step(o, flow, reply).after,
            flow.session_id,
            flow.step->AnnouncingRecording_capture,
        ),
{
}

/// A cancellation whose capture could not be closed tells so and does nothing else: no
/// cue is heard and no outcome is published. The session keeps its place and the slot,
/// whoever wants to start is busy with it, and asking again closes the same capture.
pub proof fn a_failed_cancellation_keeps_the_place(
    o: OrchestratorView,
    session_id: SessionId,
    capture: AudioCaptureRef,
    target: CaptureCancellationTarget,
    error: PortError,
    other: SessionId,
)
    requires
        o.operations.open,
        single_flight(o),
        is_cancellable(o, session_id, capture, target),
    ensures
        ({
            let begun = cancel_begin(o, session_id);
            let failed = cancel_step(begun.after, begun.next->flow, Reply::Acted(Err(error)));
            &&& begun.next is Await
            &&& begun.next->command == Command::CancelCapture(capture)
            &&& failed.next == Next::<CancelFlow, CancelResult>::Done(
                Err(cleanup_error(session_id, "audio_cancel", error)),
            )
            &&& failed.effects == noted(session_id, "audio_cancel", Err(error))
            &&& failed.after.session == o.session
            &&& failed.after.debts == with_debt(o.debts, capture_debt(session_id, capture, error))
            &&& has_place(failed.after, session_id)
            &&& failed.after.occupant() == Some(session_id)
            &&& is_cancellable(failed.after, session_id, capture, target)
            &&& !o.quitting ==> start_step(failed.after, next_start(other), Reply::Ready).next
                == busy(session_id)
        }),
{
}

/// What a cancellation comes to where nothing else happens meanwhile.
pub struct CancelEnd {
    pub after: OrchestratorView,
    pub result: CancelResult,
}

/// The end of a cancellation that is answered turn by turn, if it comes to one.
pub open spec fn cancel_ends(
    o: OrchestratorView,
    flow: CancelFlow,
    answers: Seq<Result<(), PortError>>,
) -> Option<CancelEnd>
    decreases answers.len(),
{
    if answers.len() == 0 {
        None
    } else {
        let step = cancel_step(o, flow, Reply::Acted(answers[0]));
        match step.next {
            Next::Await { flow, .. } => cancel_ends(step.after, flow, answers.drop_first()),
            Next::Done(result) => Some(CancelEnd { after: step.after, result }),
        }
    }
}

/// How a cancellation that closed its capture is told.
pub open spec fn closed_outcome(target: CaptureCancellationTarget) -> CancelOutcome {
    if target == CaptureCancellationTarget::Active(CaptureCleanupCompletion::FailAudio) {
        CancelOutcome::CleanupRecovered
    } else {
        CancelOutcome::Cancelled
    }
}

/// A cancellation that closes its capture frees the place and the slot, whatever becomes
/// of the cue, the outcome and the HUD on the way. A capture that a failed finish had
/// left counts as recovered.
pub proof fn a_closed_capture_frees_place_and_slot(
    o: OrchestratorView,
    session_id: SessionId,
    capture: AudioCaptureRef,
    target: CaptureCancellationTarget,
    answers: Seq<Result<(), PortError>>,
)
    requires
        o.operations.open,
        !o.quitting,
        single_flight(o),
        slot_has_its_place(o, Set::empty()),
        is_cancellable(o, session_id, capture, target),
        owes_at_most(o, session_id, AudioCleanupResource::Capture(capture)),
        answers.len() >= 4,
        answers[0] is Ok,
    ensures
        ({
            let begun = cancel_begin(o, session_id);
            let end = cancel_ends(begun.after, begun.next->flow, answers);
            &&& end is Some
            &&& end->0.result == Ok::<CancelOutcome, OrchestratorError>(closed_outcome(target))
            &&& is_free(end->0.after)
        }),
{
    nothing_is_left_of_one_debt(o, session_id, AudioCleanupResource::Capture(capture));
    let begun = cancel_begin(o, session_id);
    let first = cancel_step(begun.after, begun.next->flow, Reply::Acted(answers[0]));
    let rest = answers.drop_first();
    let second = cancel_step(first.after, first.next->flow, Reply::Acted(rest[0]));
    let rest = rest.drop_first();
    let third = cancel_step(second.after, second.next->flow, Reply::Acted(rest[0]));
    let rest = rest.drop_first();
    let fourth = cancel_step(third.after, third.next->flow, Reply::Acted(rest[0]));
    reveal_with_fuel(cancel_ends, 5);
    assert(first.after.debts.len() == 0);
}

/// A finish whose capture could neither be finalized nor closed leaves the capture to a
/// cancellation.
pub proof fn a_failed_finish_leaves_its_capture(
    o: OrchestratorView,
    flow: FinishFlow,
    error: PortError,
)
    requires
        flow.step is CancellingFailedCapture,
        single_flight(o),
        o.works(flow.session_id),
        o.active->0.stage == (RuntimeStage::Cancelling {
            capture: flow.step->CancellingFailedCapture_capture,
            completion: CaptureCleanupCompletion::FailAudio,
            in_flight: true,
        }),
    ensures
        ({
            let step = finish_step(o, flow, Reply::Acted(Err(error)));
            &&& step.next == Next::<FinishFlow, FinishEnd>::Done(
                FinishEnd::Error(cleanup_error(flow.session_id, "audio_cancel", error)),
            )
            &&& is_cancellable(
                step.after,
                flow.session_id,
                flow.step->CancellingFailedCapture_capture,
                CaptureCancellationTarget::Active(CaptureCleanupCompletion::FailAudio),
            )
        }),
{
}

/// A retry is turned away once the application is quitting, where nothing is owed or
/// nothing of it can be tried, and where a cleanup is running already. None of these
/// touches any audio. Any other retry cleans up what is owed.
pub proof fn a_retry_answers_for_what_is_owed(o: OrchestratorView, session_id: SessionId)
    ensures
        ({
            let begun = retry_begin(o, session_id);
            let owed = session_debt_index(o.debts, session_id);
            &&& !o.operations.open ==> begun.next == Next::<RetryFlow, RetryResult>::Done(
                Ok(AudioCleanupOutcome::Quitting),
            )
            &&& o.operations.open && (owed >= o.debts.len() || o.cleanup_in_flight(session_id)
                is None) ==> begun.next == Next::<RetryFlow, RetryResult>::Done(
                Ok(AudioCleanupOutcome::NotPending),
            )
            &&& o.operations.open && owed < o.debts.len() && o.cleanup_in_flight(session_id)
                == Some(true) ==> begun.next == Next::<RetryFlow, RetryResult>::Done(
                Ok(AudioCleanupOutcome::InProgress),
            )
            &&& o.operations.open && owed < o.debts.len() && o.cleanup_in_flight(session_id)
                == Some(false) ==> begun.next is Await && begun.next->command == cleanup_command(
                o.debts[owed as int].resource,
            )
        }),
{
}

/// A retry that fails again tells so. The session keeps its place and the slot, and
/// whoever wants to start is busy with it.
pub proof fn a_failed_retry_keeps_the_place(
    o: OrchestratorView,
    session_id: SessionId,
    resource: AudioCleanupResource,
    error: PortError,
    other: SessionId,
)
    requires
        o.operations.open,
        single_flight(o),
        o.retry(session_id) == RetrySelection::Resource(resource),
    ensures
        ({
            let begun = retry_begin(o, session_id);
            let failed = retry_step(begun.after, begun.next->flow, Reply::Acted(Err(error)));
            &&& begun.next is Await
            &&& begun.next->command == cleanup_command(resource)
            &&& failed.next == Next::<RetryFlow, RetryResult>::Done(
                Err(cleanup_error(session_id, cleanup_phase(resource), error)),
            )
            &&& failed.after.session == o.session
            &&& failed.after.debts == resource_settled(o, session_id, resource, Err(error)).debts
            &&& failed.after.cleanup_in_flight(session_id) == Some(false)
            &&& has_place(failed.after, session_id)
            &&& failed.after.occupant() == Some(session_id)
            &&& !o.quitting ==> start_step(failed.after, next_start(other), Reply::Ready).next
                == busy(session_id)
        }),
{
}

/// What a retry comes to where nothing else happens meanwhile.
pub struct RetryEnd {
    pub after: OrchestratorView,
    pub result: RetryResult,
}

/// The end of a retry that is answered turn by turn, if it comes to one.
pub open spec fn retry_ends(
    o: OrchestratorView,
    flow: RetryFlow,
    answers: Seq<Result<(), PortError>>,
) -> Option<RetryEnd>
    decreases answers.len(),
{
    if answers.len() == 0 {
        None
    } else {
        let step = retry_step(o, flow, Reply::Acted(answers[0]));
        match step.next {
            Next::Await { flow, .. } => retry_ends(step.after, flow, answers.drop_first()),
            Next::Done(result) => Some(RetryEnd { after: step.after, result }),
        }
    }
}

/// Whether a session that ends as a cancelled recording has the slot as one that
/// records.
pub open spec fn ends_as_recorded(o: OrchestratorView, session_id: SessionId) -> bool {
    o.completion(session_id) == Some(
        AudioCleanupCompletion::Capture(CaptureCleanupCompletion::Cancelled),
    ) ==> in_slot(o, session_id) && o.session->0.session.phase == SessionPhase::Recording
}

/// A retry that makes its cleanup good closes the session that kept its place for it:
/// the place and the slot are free.
pub proof fn a_retry_that_succeeds_frees_place_and_slot(
    o: OrchestratorView,
    session_id: SessionId,
    resource: AudioCleanupResource,
    answers: Seq<Result<(), PortError>>,
)
    requires
        o.operations.open,
        !o.quitting,
        single_flight(o),
        slot_has_its_place(o, Set::empty()),
        o.retry(session_id) == RetrySelection::Resource(resource),
        ends_as_recorded(o, session_id),
        owes_at_most(o, session_id, resource),
        answers.len() >= 3,
        answers[0] is Ok,
    ensures
        ({
            let begun = retry_begin(o, session_id);
            let end = retry_ends(begun.after, begun.next->flow, answers);
            &&& end is Some
            &&& end->0.result == Ok::<AudioCleanupOutcome, OrchestratorError>(
                AudioCleanupOutcome::Recovered,
            )
            &&& is_free(end->0.after)
        }),
{
    nothing_is_left_of_one_debt(o, session_id, resource);
    let begun = retry_begin(o, session_id);
    let first = retry_step(begun.after, begun.next->flow, Reply::Acted(answers[0]));
    let rest = answers.drop_first();
    let second = retry_step(first.after, first.next->flow, Reply::Acted(rest[0]));
    let rest = rest.drop_first();
    let third = retry_step(second.after, second.next->flow, Reply::Acted(rest[0]));
    reveal_with_fuel(retry_ends, 4);
    assert(first.after.debts.len() == 0);
}

/// Whether a session keeps its place for one capture that could not be closed while it
/// was prepared, and for nothing else.
pub open spec fn owes_its_capture(
    o: OrchestratorView,
    session_id: SessionId,
    capture: AudioCaptureRef,
    error: PortError,
) -> bool {
    &&& !o.quitting
    &&& o.starting is None
    &&& o.active is None
    &&& o.prepares(session_id)
    &&& o.preparing->0.stage == (PreparingStage::Cancelling { capture, in_flight: false })
    &&& o.debts == seq![capture_debt(session_id, capture, error)]
}

/// A session that owes its capture keeps every start busy. Cancelling it and trying the
/// cleanup again both close that capture, and where closing fails once more the session
/// owes it still.
pub proof fn an_owed_capture_keeps_every_start_busy(
    o: OrchestratorView,
    session_id: SessionId,
    capture: AudioCaptureRef,
    error: PortError,
    again: PortError,
    other: SessionId,
)
    requires
        o.operations.open,
        owes_its_capture(o, session_id, capture, error),
    ensures
        start_step(o, next_start(other), Reply::Ready).next == busy(session_id),
        start_step(o, next_start(other), Reply::Ready).after == o,
        finish_begin(o, session_id).next == Next::<FinishFlow, FinishEnd>::Done(
            FinishEnd::NotRecording,
        ),
        ({
            let begun = cancel_begin(o, session_id);
            let failed = cancel_step(begun.after, begun.next->flow, Reply::Acted(Err(again)));
            &&& begun.next is Await
            &&& begun.next->command == Command::CancelCapture(capture)
            &&& owes_its_capture(failed.after, session_id, capture, again)
        }),
        ({
            let begun = retry_begin(o, session_id);
            let failed = retry_step(begun.after, begun.next->flow, Reply::Acted(Err(again)));
            &&& begun.next is Await
            &&& begun.next->command == Command::CancelCapture(capture)
            &&& owes_its_capture(failed.after, session_id, capture, again)
        }),
{
    let debt = capture_debt(session_id, capture, again);
    assert(o.debts.len() == 1 && o.debts[0].is_for(session_id, debt.resource));
    assert(with_debt(o.debts, debt) =~= seq![debt]);
    assert(session_debt_index(o.debts, session_id) == 0);
}

/// A session that owes its capture gives up its place and the slot once the capture is
/// closed, be it by a cancellation or by a retry.
pub proof fn an_owed_capture_that_is_closed_frees_place_and_slot(
    o: OrchestratorView,
    session_id: SessionId,
    capture: AudioCaptureRef,
    error: PortError,
    answers: Seq<Result<(), PortError>>,
)
    requires
        o.operations.open,
        single_flight(o),
        slot_has_its_place(o, Set::empty()),
        owes_its_capture(o, session_id, capture, error),
        answers.len() >= 4,
        answers[0] is Ok,
    ensures
        ({
            let begun = cancel_begin(o, session_id);
            let end = cancel_ends(begun.after, begun.next->flow, answers);
            &&& end is Some
            &&& end->0.result == Ok::<CancelOutcome, OrchestratorError>(CancelOutcome::Cancelled)
            &&& is_free(end->0.after)
        }),
        ({
            let begun = retry_begin(o, session_id);
            let end = retry_ends(begun.after, begun.next->flow, answers);
            &&& end is Some
            &&& end->0.result == Ok::<AudioCleanupOutcome, OrchestratorError>(
                AudioCleanupOutcome::Recovered,
            )
            &&& is_free(end->0.after)
        }),
{
    assert(session_debt_index(o.debts, session_id) == 0);
    a_closed_capture_frees_place_and_slot(
        o,
        session_id,
        capture,
        CaptureCancellationTarget::Preparing,
        answers,
    );
    a_retry_that_succeeds_frees_place_and_slot(
        o,
        session_id,
        AudioCleanupResource::Capture(capture),
        answers,
    );
}

} // verus!
