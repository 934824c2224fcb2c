//! What holds of every run of a finish workflow, whatever the surroundings answer
//! and whatever other workflows do in between.

use crate::domain::SessionId;
use crate::orchestrator::deliver::{DeliverStep, Delivery};
use crate::orchestrator::delivery_laws::{
    a_delivery_keeps, delivered_text, delivery_writes_left, handed_out, is_output,
    is_write,
};
use crate::orchestrator::finish::{finish_awaits, finish_step, FinishFlow, FinishStep};
use crate::orchestrator::protocol::{Command, Next, Reply};
use crate::orchestrator::state::{ActiveContext, OrchestratorView};
use crate::ports::{
    InsertOutcome, PortError, RecordingCue, ResolvedLlmRoute, TemporaryTextStatus,
    TextProcessingResult, UserDirectedPasteOutcome,
};
use crate::text::blank;
use crate::text_route::{DirectDeliveryReason, TextProcessingRoute};
use vstd::prelude::*;

verus! {

/// What a workflow meets at one step: the shared state as others have left it,
/// and the answer to its last command.
pub struct Turn {
    pub state: OrchestratorView,
    pub reply: Reply,
}

/// Whether every answer is of the kind that the workflow waits for.
pub open spec fn finish_answered(flow: FinishFlow, turns: Seq<Turn>) -> bool
    decreases turns.len(),
{
    turns.len() == 0 || finish_awaits(flow.step, turns[0].reply) && match finish_step(
        turns[0].state,
        flow,
        turns[0].reply,
    ).next {
        Next::Await { flow, .. } => finish_answered(flow, turns.drop_first()),
        Next::Done(_) => true,
    }
}

/// The commands that a finish workflow gives, turn by turn, until it is over.
pub open spec fn finish_run(flow: FinishFlow, turns: Seq<Turn>) -> Seq<Command>
    decreases turns.len(),
{
    if turns.len() == 0 {
        Seq::empty()
    } else {
        match finish_step(turns[0].state, flow, turns[0].reply).next {
            Next::Await { flow, command } => seq![command] + finish_run(flow, turns.drop_first()),
            Next::Done(_) => Seq::empty(),
        }
    }
}

/// How many writes are among the commands.
pub open spec fn writes(commands: Seq<Command>) -> nat
    decreases commands.len(),
{
    if commands.len() == 0 {
        0
    } else {
        (if is_write(commands[0]) {
            1nat
        } else {
            0
        }) + writes(commands.drop_first())
    }
}

/// How many writes a finish workflow may still try.
pub open spec fn writes_left(step: FinishStep) -> nat {
    match step {
        FinishStep::Delivering { step } => delivery_writes_left(step),
        FinishStep::CancellingEmptyCapture { .. }
        | FinishStep::CancellingFailedCapture { .. }
        | FinishStep::DiscardingAudio { .. }
        | FinishStep::ClosingSession { .. } => 0,
        _ => 2,
    }
}

/// The language model that a finish workflow may still ask, once the session's
/// frozen choices are at hand.
pub open spec fn frozen_route(step: FinishStep) -> Option<ResolvedLlmRoute> {
    match step {
        FinishStep::IssuingRecognition { context, .. }
        | FinishStep::AnnouncingRecognition { context, .. }
        | FinishStep::Transcribing { context, .. }
        | FinishStep::CleaningAudio { context, .. } => match context.processing_route {
            TextProcessingRoute::Llm(route) => Some(route),
            TextProcessingRoute::DirectAsr(_) => None,
        },
        FinishStep::IssuingProcessing { route, .. }
        | FinishStep::AnnouncingProcessing { route, .. } => Some(route),
        _ => None,
    }
}

/// Whether the session's frozen choices are at hand.
pub open spec fn is_frozen(step: FinishStep) -> bool {
    !(step is FinishingAudio) && !(step is PlayingCue)
}

/// Whether a finish workflow is about nothing but the delivery of a text.
pub open spec fn is_about(step: FinishStep, text: String) -> bool {
    step is Delivering && (delivered_text(step->Delivering_step) == Some(text) || delivered_text(
        step->Delivering_step,
    ) is None)
}

/// What one step of a finish workflow never breaks.
pub open spec fn finish_keeps(o: OrchestratorView, flow: FinishFlow, reply: Reply) -> bool {
    match finish_step(o, flow, reply).next {
        Next::Await { flow: after, command } => {
            &&& after.session_id == flow.session_id
            &&& writes_left(after.step) + (if is_write(command) {
                1nat
            } else {
                0
            }) <= writes_left(flow.step)
            &&& handed_out(command) is Some ==> flow.step is Delivering && handed_out(command)
                == delivered_text(flow.step->Delivering_step)
            &&& flow.step is Delivering ==> after.step is Delivering && (delivered_text(
                after.step->Delivering_step,
            ) is Some ==> delivered_text(after.step->Delivering_step) == delivered_text(
                flow.step->Delivering_step,
            ))
            &&& is_frozen(flow.step) ==> is_frozen(after.step)
            &&& is_frozen(flow.step) && frozen_route(after.step) is Some ==> frozen_route(
                after.step,
            ) == frozen_route(flow.step)
            &&& command is ProcessText ==> frozen_route(flow.step) == Some(
                command->ProcessText_route,
            )
            &&& !o.works(flow.session_id) ==> !is_output(command)
            &&& command is PlayCue ==> {
                ||| command == Command::PlayCue(RecordingCue::Finish) && flow.step is FinishingAudio
                    && reply->Audio_0 is Ok
                ||| command == Command::PlayCue(RecordingCue::Cancel) && flow.step
                    is CancellingEmptyCapture && reply->Acted_0 is Ok
            }
        },
        Next::Done(_) => true,
    }
}

proof fn keeps_while_finishing_audio(o: OrchestratorView, flow: FinishFlow, reply: Reply)
    requires
        flow.step is FinishingAudio,
        finish_awaits(flow.step, reply),
    ensures
        finish_keeps(o, flow, reply),
{
}

proof fn keeps_while_cancelling_empty_capture(o: OrchestratorView, flow: FinishFlow, reply: Reply)
    requires
        flow.step is CancellingEmptyCapture,
        finish_awaits(flow.step, reply),
    ensures
        finish_keeps(o, flow, reply),
{
}

proof fn keeps_while_cancelling_failed_capture(o: OrchestratorView, flow: FinishFlow, reply: Reply)
    requires
        flow.step is CancellingFailedCapture,
        finish_awaits(flow.step, reply),
    ensures
        finish_keeps(o, flow, reply),
{
}

proof fn keeps_while_playing_cue(o: OrchestratorView, flow: FinishFlow, reply: Reply)
    requires
        flow.step is PlayingCue,
        finish_awaits(flow.step, reply),
    ensures
        finish_keeps(o, flow, reply),
{
}

proof fn keeps_while_discarding_audio(o: OrchestratorView, flow: FinishFlow, reply: Reply)
    requires
        flow.step is DiscardingAudio,
        finish_awaits(flow.step, reply),
    ensures
        finish_keeps(o, flow, reply),
{
}

proof fn keeps_while_issuing_recognition(o: OrchestratorView, flow: FinishFlow, reply: Reply)
    requires
        flow.step is IssuingRecognition,
        finish_awaits(flow.step, reply),
    ensures
        finish_keeps(o, flow, reply),
{
}

proof fn keeps_while_announcing_recognition(o: OrchestratorView, flow: FinishFlow, reply: Reply)
    requires
        flow.step is AnnouncingRecognition,
        finish_awaits(flow.step, reply),
    ensures
        finish_keeps(o, flow, reply),
{
}

proof fn keeps_while_transcribing(o: OrchestratorView, flow: FinishFlow, reply: Reply)
    requires
        flow.step is Transcribing,
        finish_awaits(flow.step, reply),
    ensures
        finish_keeps(o, flow, reply),
{
}

proof fn keeps_while_cleaning_audio(o: OrchestratorView, flow: FinishFlow, reply: Reply)
    requires
        flow.step is CleaningAudio,
        finish_awaits(flow.step, reply),
    ensures
        finish_keeps(o, flow, reply),
{
}

proof fn keeps_while_issuing_processing(o: OrchestratorView, flow: FinishFlow, reply: Reply)
    requires
        flow.step is IssuingProcessing,
        finish_awaits(flow.step, reply),
    ensures
        finish_keeps(o, flow, reply),
{
}

proof fn keeps_while_announcing_processing(o: OrchestratorView, flow: FinishFlow, reply: Reply)
    requires
        flow.step is AnnouncingProcessing,
        finish_awaits(flow.step, reply),
    ensures
        finish_keeps(o, flow, reply),
{
}

proof fn keeps_while_processing(o: OrchestratorView, flow: FinishFlow, reply: Reply)
    requires
        flow.step is Processing,
        finish_awaits(flow.step, reply),
    ensures
        finish_keeps(o, flow, reply),
{
}

proof fn keeps_while_delivering(o: OrchestratorView, flow: FinishFlow, reply: Reply)
    requires
        flow.step is Delivering,
        finish_awaits(flow.step, reply),
    ensures
        finish_keeps(o, flow, reply),
{
    a_delivery_keeps(o, flow.session_id, flow.step->Delivering_step, reply);
}

proof fn keeps_while_closing_session(o: OrchestratorView, flow: FinishFlow, reply: Reply)
    requires
        flow.step is ClosingSession,
        finish_awaits(flow.step, reply),
    ensures
        finish_keeps(o, flow, reply),
{
}

/// Every step of a finish workflow keeps what it has to.
pub proof fn a_finish_keeps(o: OrchestratorView, flow: FinishFlow, reply: Reply)
    requires
        finish_awaits(flow.step, reply),
    ensures
        finish_keeps(o, flow, reply),
{
    match flow.step {
        FinishStep::FinishingAudio { .. } => keeps_while_finishing_audio(o, flow, reply),
        FinishStep::CancellingEmptyCapture { .. } => keeps_while_cancelling_empty_capture(
            o,
            flow,
            reply,
        ),
        FinishStep::CancellingFailedCapture { .. } => keeps_while_cancelling_failed_capture(
            o,
            flow,
            reply,
        ),
        FinishStep::PlayingCue { .. } => keeps_while_playing_cue(o, flow, reply),
        FinishStep::DiscardingAudio { .. } => keeps_while_discarding_audio(o, flow, reply),
        FinishStep::IssuingRecognition { .. } => keeps_while_issuing_recognition(o, flow, reply),
        FinishStep::AnnouncingRecognition { .. } => keeps_while_announcing_recognition(
            o,
            flow,
            reply,
        ),
        FinishStep::Transcribing { .. } => keeps_while_transcribing(o, flow, reply),
        FinishStep::CleaningAudio { .. } => keeps_while_cleaning_audio(o, flow, reply),
        FinishStep::IssuingProcessing { .. } => keeps_while_issuing_processing(o, flow, reply),
        FinishStep::AnnouncingProcessing { .. } => keeps_while_announcing_processing(
            o,
            flow,
            reply,
        ),
        FinishStep::Processing { .. } => keeps_while_processing(o, flow, reply),
        FinishStep::Delivering { .. } => keeps_while_delivering(o, flow, reply),
        FinishStep::ClosingSession { .. } => keeps_while_closing_session(o, flow, reply),
    }
}

proof fn the_rest_follows(command: Command, rest: Seq<Command>)
    ensures
        (seq![command] + rest).drop_first() == rest,
        (seq![command] + rest)[0] == command,
        writes(seq![command] + rest) == writes(rest) + (if is_write(command) {
            1nat
        } else {
            0
        }),
        forall|i: int|
            0 < i < rest.len() + 1 ==> #[trigger] (seq![command] + rest)[i] == rest[i - 1],
{
    assert((seq![command] + rest).drop_first() =~= rest);
}

/// A finish workflow never writes more often than it may: at most twice over
/// all, an insertion and a paste.
pub proof fn writes_are_bounded(flow: FinishFlow, turns: Seq<Turn>)
    requires
        finish_answered(flow, turns),
    ensures
        writes(finish_run(flow, turns)) <= writes_left(flow.step) <= 2,
    decreases turns.len(),
{
    if turns.len() > 0 {
        a_finish_keeps(turns[0].state, flow, turns[0].reply);
        match finish_step(turns[0].state, flow, turns[0].reply).next {
            Next::Await { flow: after, command } => {
                writes_are_bounded(after, turns.drop_first());
                the_rest_follows(command, finish_run(after, turns.drop_first()));
            },
            Next::Done(_) => {},
        }
    }
}

/// Whether an answer leaves open if something was written.
pub open spec fn is_uncertain(step: DeliverStep, reply: Reply) -> bool {
    match step {
        DeliverStep::Inserting { .. } | DeliverStep::PastingAtTarget { .. } => reply
            == Reply::Insertion(Ok(InsertOutcome::Indeterminate)),
        DeliverStep::PastingAtFocus { .. } => reply == Reply::Paste(
            Ok(UserDirectedPasteOutcome::Indeterminate),
        ),
        _ => false,
    }
}

proof fn an_uncertain_write_leaves_no_write(o: OrchestratorView, flow: FinishFlow, reply: Reply)
    requires
        flow.step is Delivering,
        is_uncertain(flow.step->Delivering_step, reply),
    ensures
        match finish_step(o, flow, reply).next {
            Next::Await { flow: after, command } => writes_left(after.step) == 0 && !is_write(
                command,
            ),
            Next::Done(_) => true,
        },
{
    match flow.step->Delivering_step {
        DeliverStep::Inserting { .. } => {},
        DeliverStep::PastingAtTarget { .. } => {},
        DeliverStep::PastingAtFocus { .. } => {},
        _ => {},
    }
}

/// A write whose outcome is uncertain is never followed by another one.
pub proof fn an_uncertain_write_is_the_last(flow: FinishFlow, turns: Seq<Turn>)
    requires
        finish_answered(flow, turns),
        turns.len() > 0,
        flow.step is Delivering,
        is_uncertain(flow.step->Delivering_step, turns[0].reply),
    ensures
        writes(finish_run(flow, turns)) == 0,
{
    an_uncertain_write_leaves_no_write(turns[0].state, flow, turns[0].reply);
    match finish_step(turns[0].state, flow, turns[0].reply).next {
        Next::Await { flow: after, command } => {
            writes_are_bounded(after, turns.drop_first());
            the_rest_follows(command, finish_run(after, turns.drop_first()));
        },
        Next::Done(_) => {},
    }
}

/// Another write follows an insertion only where the insertion is known not to
/// have happened, or failed.
pub proof fn a_paste_needs_a_failed_insertion(
    o: OrchestratorView,
    session_id: SessionId,
    delivery: Delivery,
    reply: Reply,
)
    requires
        reply is Insertion,
    ensures
        ({
            let flow = FinishFlow {
                session_id,
                step: FinishStep::Delivering { step: DeliverStep::Inserting { delivery } },
            };
            match finish_step(o, flow, reply).next {
                Next::Await { flow: after, .. } => writes_left(after.step) > 0
                    ==> reply->Insertion_0 == Ok::<InsertOutcome, PortError>(
                    InsertOutcome::NotInserted,
                ) || reply->Insertion_0 is Err,
                Next::Done(_) => true,
            }
        }),
{
}

/// A delivery that is confined to the temporary surface writes nowhere else.
pub proof fn a_forced_fallback_never_writes(
    session_id: SessionId,
    context: ActiveContext,
    final_text: String,
    direct_delivery_reason: Option<DirectDeliveryReason>,
    status: TemporaryTextStatus,
    turns: Seq<Turn>,
)
    requires
        finish_answered(
            FinishFlow {
                session_id,
                step: FinishStep::Delivering {
                    step: DeliverStep::IssuingId {
                        context,
                        final_text,
                        direct_delivery_reason,
                        forced: Some(status),
                    },
                },
            },
            turns,
        ),
    ensures
        writes(
            finish_run(
                FinishFlow {
                    session_id,
                    step: FinishStep::Delivering {
                        step: DeliverStep::IssuingId {
                            context,
                            final_text,
                            direct_delivery_reason,
                            forced: Some(status),
                        },
                    },
                },
                turns,
            ),
        ) == 0,
{
    writes_are_bounded(
        FinishFlow {
            session_id,
            step: FinishStep::Delivering {
                step: DeliverStep::IssuingId {
                    context,
                    final_text,
                    direct_delivery_reason,
                    forced: Some(status),
                },
            },
        },
        turns,
    );
}

/// Whether all that the commands hand out is one text.
pub open spec fn hands_out_only(commands: Seq<Command>, text: String) -> bool {
    forall|i: int|
        0 <= i < commands.len() && handed_out(#[trigger] commands[i]) is Some ==> handed_out(
            commands[i],
        ) == Some(text)
}

/// What a delivery inserts, pastes, shows, copies and keeps is the final text
/// and nothing else.
pub proof fn only_the_final_text_is_handed_out(flow: FinishFlow, text: String, turns: Seq<Turn>)
    requires
        finish_answered(flow, turns),
        is_about(flow.step, text),
    ensures
        hands_out_only(finish_run(flow, turns), text),
    decreases turns.len(),
{
    if turns.len() > 0 {
        a_finish_keeps(turns[0].state, flow, turns[0].reply);
        match finish_step(turns[0].state, flow, turns[0].reply).next {
            Next::Await { flow: after, command } => {
                if flow.step->Delivering_step is ClosingSession {
                    closing_hands_out_nothing(turns[0].state, flow, turns[0].reply);
                }
                only_the_final_text_is_handed_out(after, text, turns.drop_first());
                the_rest_follows(command, finish_run(after, turns.drop_first()));
            },
            Next::Done(_) => {},
        }
    }
}

proof fn closing_hands_out_nothing(o: OrchestratorView, flow: FinishFlow, reply: Reply)
    requires
        flow.step is Delivering,
        flow.step->Delivering_step is ClosingSession,
    ensures
        match finish_step(o, flow, reply).next {
            Next::Await { flow: after, command } => handed_out(command) is None && after.step
                is Delivering && after.step->Delivering_step is ClosingSession,
            Next::Done(_) => true,
        },
{
}

/// Whether an answer of the language model cannot be used.
pub open spec fn is_unusable(
    result: Result<TextProcessingResult, PortError>,
    flow: FinishFlow,
) -> bool {
    match result {
        Ok(text) => text.session_id != flow.session_id || text.request_id
            != flow.step->Processing_request_id || blank(text.final_text@),
        Err(_) => true,
    }
}

proof fn an_unusable_answer_leads_to_the_transcript(
    o: OrchestratorView,
    flow: FinishFlow,
    reply: Reply,
)
    requires
        flow.step is Processing,
        reply is Text,
        is_unusable(reply->Text_result, flow),
    ensures
        match finish_step(o, flow, reply).next {
            Next::Await { flow: after, command } => is_about(
                after.step,
                flow.step->Processing_raw_transcript,
            ) && writes_left(after.step) == 0 && handed_out(command) is None && !is_write(command),
            Next::Done(_) => true,
        },
{
}

/// Whatever is wrong with the answer of the language model, the user still gets
/// the local transcript: nothing else is handed out, and nothing is written into
/// an application.
pub proof fn a_failed_processing_keeps_the_transcript(flow: FinishFlow, turns: Seq<Turn>)
    requires
        finish_answered(flow, turns),
        flow.step is Processing,
        turns.len() > 0,
        is_unusable(turns[0].reply->Text_result, flow),
    ensures
        writes(finish_run(flow, turns)) == 0,
        hands_out_only(finish_run(flow, turns), flow.step->Processing_raw_transcript),
{
    an_unusable_answer_leads_to_the_transcript(turns[0].state, flow, turns[0].reply);
    match finish_step(turns[0].state, flow, turns[0].reply).next {
        Next::Await { flow: after, command } => {
            writes_are_bounded(after, turns.drop_first());
            only_the_final_text_is_handed_out(
                after,
                flow.step->Processing_raw_transcript,
                turns.drop_first(),
            );
            the_rest_follows(command, finish_run(after, turns.drop_first()));
        },
        Next::Done(_) => {},
    }
}

/// Whether the commands ask no language model but the given one.
pub open spec fn asks_only(commands: Seq<Command>, route: Option<ResolvedLlmRoute>) -> bool {
    forall|i: int|
        0 <= i < commands.len() && (#[trigger] commands[i]) is ProcessText ==> route == Some(
            commands[i]->ProcessText_route,
        )
}

/// A session asks the language model that it froze, and none at all where it
/// froze none: in raw mode, and where there was no usable configuration.
pub proof fn only_the_frozen_route_is_asked(flow: FinishFlow, turns: Seq<Turn>)
    requires
        finish_answered(flow, turns),
        is_frozen(flow.step),
    ensures
        asks_only(finish_run(flow, turns), frozen_route(flow.step)),
    decreases turns.len(),
{
    if turns.len() > 0 {
        a_finish_keeps(turns[0].state, flow, turns[0].reply);
        match finish_step(turns[0].state, flow, turns[0].reply).next {
            Next::Await { flow: after, command } => {
                only_the_frozen_route_is_asked(after, turns.drop_first());
                the_rest_follows(command, finish_run(after, turns.drop_first()));
            },
            Next::Done(_) => {},
        }
    }
}

/// A session that is not the active one any more brings no text before the user.
pub proof fn a_session_that_is_gone_delivers_nothing(
    o: OrchestratorView,
    flow: FinishFlow,
    reply: Reply,
)
    requires
        finish_awaits(flow.step, reply),
        !o.works(flow.session_id),
    ensures
        match finish_step(o, flow, reply).next {
            Next::Await { command, .. } => !is_output(command),
            Next::Done(_) => true,
        },
{
    a_finish_keeps(o, flow, reply);
}

/// Nothing is copied or kept before the text has reached the user: only a
/// delivery that the surroundings confirmed goes on to that.
pub proof fn keeping_follows_delivery(o: OrchestratorView, flow: FinishFlow, reply: Reply)
    requires
        finish_awaits(flow.step, reply),
        flow.step is Delivering,
    ensures
        match finish_step(o, flow, reply).next {
            Next::Await { flow: after, command } => {
                &&& command is WriteClipboard || command is SaveHistory ==> {
                    ||| flow.step->Delivering_step is AnnouncingFinalization
                    ||| flow.step->Delivering_step is Copying
                    ||| flow.step->Delivering_step is ReadingClock
                }
                &&& after.step->Delivering_step is AnnouncingFinalization ==> {
                    ||| reply == Reply::Insertion(Ok(InsertOutcome::Inserted))
                    ||| reply == Reply::Paste(Ok(UserDirectedPasteOutcome::Dispatched))
                    ||| flow.step->Delivering_step is ShowingTemporary && reply->Acted_0 is Ok
                }
            },
            Next::Done(_) => true,
        },
{
    a_delivery_keeps(o, flow.session_id, flow.step->Delivering_step, reply);
}

/// The finish cue is heard only once the recording has been closed, and the cancel
/// cue only once an empty one has been.
pub proof fn cues_follow_the_closing_of_the_capture(
    o: OrchestratorView,
    flow: FinishFlow,
    reply: Reply,
)
    requires
        finish_awaits(flow.step, reply),
    ensures
        match finish_step(o, flow, reply).next {
            Next::Await { command, .. } => command is PlayCue ==> {
                ||| command == Command::PlayCue(RecordingCue::Finish) && flow.step is FinishingAudio
                    && reply->Audio_0 is Ok
                ||| command == Command::PlayCue(RecordingCue::Cancel) && flow.step
                    is CancellingEmptyCapture && reply->Acted_0 is Ok
            },
            Next::Done(_) => true,
        },
{
    a_finish_keeps(o, flow, reply);
}

} // verus!
