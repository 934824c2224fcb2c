//! Whole runs of a finish workflow, told by what was asked and what was answered.

use crate::domain::SessionId;
use crate::orchestrator::deliver::FinishEnd;
use crate::orchestrator::finish::{
    finish_awaits, finish_begin, finish_step, FinishFlow, FinishStep,
};
use crate::orchestrator::finish_laws::{finish_answered, finish_run, Turn};
use crate::orchestrator::protocol::{Command, Next, Reply};
use crate::orchestrator::state::{
    ActiveContext, FinalizationWarning, FinishOutcome, OrchestratorError, OrchestratorView,
    RuntimeStage,
};
use crate::orchestrator::trail_laws::{
    a_finish_hands_on_what_it_was_told, ends_rightly, finish_stands, is_in_order, stays_with,
    Heard,
};
use crate::text::blank;
use vstd::prelude::*;

verus! {

/// Whether every command of a run carries what was heard before it or was frozen for the
/// session, and the end, where the run comes to one, says what has happened.
pub open spec fn hands_on(
    flow: FinishFlow,
    command: Command,
    turns: Seq<Turn>,
    heard: Heard,
    frozen: ActiveContext,
) -> bool
    decreases turns.len(),
{
    turns.len() == 0 || {
        let step = finish_step(turns[0].state, flow, turns[0].reply);
        let now = heard.and(command, turns[0].reply);
        match step.next {
            Next::Await { flow: after, command: next } => {
                &&& is_in_order(next, step.after, now, flow.session_id, frozen)
                &&& hands_on(after, next, turns.drop_first(), now, frozen)
            },
            Next::Done(end) => ends_rightly(end, now, flow.session_id, frozen),
        }
    }
}

/// Whether a session works by what was frozen for it at every turn.
pub open spec fn always_stays_with(
    turns: Seq<Turn>,
    session_id: SessionId,
    frozen: ActiveContext,
) -> bool {
    forall|i: int|
        0 <= i < turns.len() ==> stays_with((#[trigger] turns[i]).state, session_id, frozen)
}

proof fn a_run_hands_on(
    flow: FinishFlow,
    command: Command,
    turns: Seq<Turn>,
    heard: Heard,
    frozen: ActiveContext,
)
    requires
        finish_answered(flow, turns),
        always_stays_with(turns, flow.session_id, frozen),
        finish_stands(flow.step, command, heard, flow.session_id, frozen),
    ensures
        hands_on(flow, command, turns, heard, frozen),
    decreases turns.len(),
{
    if turns.len() > 0 {
        let rest = turns.drop_first();
        assert forall|i: int| 0 <= i < rest.len() implies stays_with(
            (#[trigger] rest[i]).state,
            flow.session_id,
            frozen,
        ) by {
            assert(rest[i] == turns[i + 1]);
        }
        let reply = turns[0].reply;
        a_finish_hands_on_what_it_was_told(turns[0].state, flow, command, reply, heard, frozen);
        match finish_step(turns[0].state, flow, reply).next {
            Next::Await { flow: after, command: next } => {
                a_run_hands_on(after, next, rest, heard.and(command, reply), frozen);
            },
            Next::Done(_) => {},
        }
    }
}

/// A finish begins with the capture that its session records with, and from there on
/// every command carries what was answered before it or what was frozen for the session:
/// the recogniser hears the audio of that capture, the language model reads what the
/// recogniser answered, the user gets what either of them answered, and history keeps
/// that text, under the identity and the time that were given for it. The end says what
/// has happened.
pub proof fn a_finish_hands_on_what_was_heard(
    o: OrchestratorView,
    session_id: SessionId,
    frozen: ActiveContext,
    turns: Seq<Turn>,
)
    requires
        finish_begin(o, session_id).next is Await,
        finish_answered(finish_begin(o, session_id).next->flow, turns),
        always_stays_with(turns, session_id, frozen),
    ensures
        ({
            let begun = finish_begin(o, session_id);
            let capture = o.active->0.stage->Recording_capture;
            &&& o.active is Some && o.active->0.session_id == session_id
            &&& o.active->0.stage == (RuntimeStage::Recording { capture })
            &&& begun.next->flow.session_id == session_id
            &&& begun.next->command == Command::FinishAudio(capture)
            &&& begun.after.active->0.stage == (RuntimeStage::FinishingAudio { capture })
            &&& stays_with(o, session_id, frozen) ==> stays_with(begun.after, session_id, frozen)
            &&& hands_on(
                begun.next->flow,
                begun.next->command,
                turns,
                Heard::nothing(capture),
                frozen,
            )
        }),
{
    let begun = finish_begin(o, session_id);
    let capture = o.active->0.stage->Recording_capture;
    a_run_hands_on(
        begun.next->flow,
        begun.next->command,
        turns,
        Heard::nothing(capture),
        frozen,
    );
}

/// A finish that begins only where its session records, and says so where it does not.
pub proof fn only_a_recording_is_finished(o: OrchestratorView, session_id: SessionId)
    ensures
        ({
            let records = o.active is Some && o.active->0.session_id == session_id
                && o.active->0.stage is Recording;
            match finish_begin(o, session_id).next {
                Next::Await { .. } => o.operations.open && records,
                Next::Done(FinishEnd::Discarded) => !o.operations.open,
                Next::Done(FinishEnd::NotRecording) => o.operations.open && !records,
                Next::Done(_) => false,
            }
        }),
{
}

/// Whether the recogniser answered one of the first turns with this text.
pub open spec fn was_recognised(
    turns: Seq<Turn>,
    upto: int,
    session_id: SessionId,
    text: String,
) -> bool {
    exists|j: int|
        0 <= j <= upto && j < turns.len() && is_transcript(
            (#[trigger] turns[j]).reply,
            session_id,
            text,
        )
}

/// Whether an answer is a transcript of a session's, with this text.
pub open spec fn is_transcript(reply: Reply, session_id: SessionId, text: String) -> bool {
    match reply {
        Reply::Transcript(Ok(transcript)) => {
            &&& transcript.session_id == session_id
            &&& transcript.final_text == text
            &&& !blank(text@)
        },
        _ => false,
    }
}

proof fn recognised_by_the_rest(turns: Seq<Turn>, upto: int, session_id: SessionId, text: String)
    requires
        turns.len() > 0,
        was_recognised(turns.drop_first(), upto, session_id, text),
    ensures
        was_recognised(turns, upto + 1, session_id, text),
{
    let rest = turns.drop_first();
    let j = choose|j: int|
        0 <= j <= upto && j < rest.len() && is_transcript(
            (#[trigger] rest[j]).reply,
            session_id,
            text,
        );
    assert(turns[j + 1] == rest[j]);
}

proof fn the_model_reads_what_was_recognised(
    flow: FinishFlow,
    command: Command,
    turns: Seq<Turn>,
    heard: Heard,
    frozen: ActiveContext,
    i: int,
)
    requires
        finish_answered(flow, turns),
        always_stays_with(turns, flow.session_id, frozen),
        finish_stands(flow.step, command, heard, flow.session_id, frozen),
        0 <= i < finish_run(flow, turns).len(),
        finish_run(flow, turns)[i] is ProcessText,
    ensures
        ({
            let request = finish_run(flow, turns)[i]->ProcessText_request;
            ||| heard.transcript is Some && heard.transcript->0 is Ok
                && heard.transcript->0->Ok_0.final_text == request.raw_transcript
                && heard.transcript->0->Ok_0.session_id == flow.session_id && !blank(
                request.raw_transcript@,
            )
            ||| was_recognised(turns, i, flow.session_id, request.raw_transcript)
        }),
        finish_run(flow, turns)[i]->ProcessText_request.session_id == flow.session_id,
        finish_run(flow, turns)[i]->ProcessText_request.selected_text == frozen.selected_text,
        finish_run(flow, turns)[i]->ProcessText_request.processing_mode
            == frozen.settings.input.processing_mode,
    decreases turns.len(),
{
    let rest = turns.drop_first();
    let reply = turns[0].reply;
    let now = heard.and(command, reply);
    assert forall|k: int| 0 <= k < rest.len() implies stays_with(
        (#[trigger] rest[k]).state,
        flow.session_id,
        frozen,
    ) by {
        assert(rest[k] == turns[k + 1]);
    }
    a_finish_hands_on_what_it_was_told(turns[0].state, flow, command, reply, heard, frozen);
    match finish_step(turns[0].state, flow, reply).next {
        Next::Await { flow: after, command: next } => {
            let run = finish_run(flow, turns);
            assert(run =~= seq![next] + finish_run(after, rest));
            let text = run[i]->ProcessText_request.raw_transcript;
            if i > 0 {
                assert(run[i] == finish_run(after, rest)[i - 1]);
                the_model_reads_what_was_recognised(after, next, rest, now, frozen, i - 1);
                if was_recognised(rest, i - 1, flow.session_id, text) {
                    recognised_by_the_rest(turns, i - 1, flow.session_id, text);
                }
            }
            if now.transcript != heard.transcript {
                assert(reply is Transcript);
                if now.transcript->0 is Ok && now.transcript->0->Ok_0.final_text == text
                    && now.transcript->0->Ok_0.session_id == flow.session_id && !blank(text@) {
                    assert(is_transcript(turns[0].reply, flow.session_id, text));
                    assert(was_recognised(turns, i, flow.session_id, text));
                }
            }
        },
        Next::Done(_) => {},
    }
}

/// Whatever the user had selected, the language model reads as spoken what the recogniser
/// answered for this session, in a run that begins with the capture: the selection is
/// handed over beside it and never in its place.
pub proof fn what_the_model_reads_was_spoken(
    flow: FinishFlow,
    turns: Seq<Turn>,
    frozen: ActiveContext,
    i: int,
)
    requires
        flow.step is FinishingAudio,
        finish_answered(flow, turns),
        always_stays_with(turns, flow.session_id, frozen),
        0 <= i < finish_run(flow, turns).len(),
        finish_run(flow, turns)[i] is ProcessText,
    ensures
        ({
            let request = finish_run(flow, turns)[i]->ProcessText_request;
            &&& was_recognised(turns, i, flow.session_id, request.raw_transcript)
            &&& request.session_id == flow.session_id
            &&& request.selected_text == frozen.selected_text
            &&& request.processing_mode == frozen.settings.input.processing_mode
        }),
{
    let capture = flow.step->FinishingAudio_capture;
    the_model_reads_what_was_recognised(
        flow,
        Command::FinishAudio(capture),
        turns,
        Heard::nothing(capture),
        frozen,
        i,
    );
}

proof fn a_record_follows_the_clock(
    step: FinishStep,
    command: Command,
    reply: Reply,
    heard: Heard,
    next: Command,
    after: OrchestratorView,
    session_id: SessionId,
    frozen: ActiveContext,
)
    requires
        finish_awaits(step, reply),
        finish_stands(step, command, heard, session_id, frozen),
        is_in_order(next, after, heard.and(command, reply), session_id, frozen),
        next is SaveHistory,
    ensures
        reply == Reply::Now(next->record.created_at),
        heard.delivery == Some(next->record.delivery_id),
{
}

/// What history keeps of a session carries the time that the clock answered right before,
/// the identity that was given for the delivery, and the settings that were frozen for
/// the session.
pub proof fn a_record_carries_its_own_time_and_name(
    o: OrchestratorView,
    flow: FinishFlow,
    command: Command,
    reply: Reply,
    heard: Heard,
    frozen: ActiveContext,
    next: Command,
)
    requires
        finish_awaits(flow.step, reply),
        stays_with(o, flow.session_id, frozen),
        finish_stands(flow.step, command, heard, flow.session_id, frozen),
        finish_step(o, flow, reply).next is Await,
        finish_step(o, flow, reply).next->command == next,
        next is SaveHistory,
    ensures
        reply == Reply::Now(next->record.created_at),
        heard.delivery == Some(next->record.delivery_id),
        next->SaveHistory_settings == frozen.settings,
        next->SaveHistory_lifecycle == flow.session_id,
{
    a_finish_hands_on_what_it_was_told(o, flow, command, reply, heard, frozen);
    a_record_follows_the_clock(
        flow.step,
        command,
        reply,
        heard,
        next,
        finish_step(o, flow, reply).after,
        flow.session_id,
        frozen,
    );
}

/// What the caller of a finish is told is how it has ended: the text and the way it took,
/// why it was not processed, and a warning for each of the copy and the record that failed
/// and for nothing else.
pub proof fn a_caller_is_told_how_it_ended(
    end: FinishEnd,
    result: Result<FinishOutcome, OrchestratorError>,
)
    requires
        end.is_told_by(result),
    ensures
        match end {
            FinishEnd::Completed {
                final_text,
                delivery,
                direct_delivery_reason,
                auto_copy_failed,
                history_save_failed,
            } => {
                let told = result->Ok_0->Completed_0;
                let warnings = told.warnings@;
                &&& result is Ok && result->Ok_0 is Completed
                &&& told.final_text == final_text
                &&& told.delivery == delivery
                &&& told.direct_delivery_reason == direct_delivery_reason
                &&& warnings.contains(FinalizationWarning::AutoCopyFailed) <==> auto_copy_failed
                &&& warnings.contains(FinalizationWarning::HistorySaveFailed)
                    <==> history_save_failed
                &&& warnings.no_duplicates()
            },
            FinishEnd::Failed(category) => result is Ok && result->Ok_0 == FinishOutcome::Failed(
                category,
            ),
            FinishEnd::NoSpeech => result is Ok && result->Ok_0 is NoSpeech,
            FinishEnd::Discarded => result is Ok && result->Ok_0 is Discarded,
            FinishEnd::NotRecording => result is Ok && result->Ok_0 is NotRecording,
            FinishEnd::Error(error) => result is Err && result->Err_0 == error,
        },
{
    if let FinishEnd::Completed { auto_copy_failed, history_save_failed, .. } = end {
        let warnings = result->Ok_0->Completed_0.warnings@;
        assert(auto_copy_failed ==> warnings[0] == FinalizationWarning::AutoCopyFailed);
        assert(history_save_failed ==> warnings[warnings.len() - 1]
            == FinalizationWarning::HistorySaveFailed);
    }
}

} // verus!
