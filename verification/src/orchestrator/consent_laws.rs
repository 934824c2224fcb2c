//! Nothing happens that the user has not allowed: no paste, no copy, no record, no
//! look at a selection and no open microphone; and nobody is asked but whom the
//! session has frozen.

use crate::domain::{AsrEngine, SessionId};
use crate::orchestrator::deliver::{deliver_awaits, deliver_step, DeliverStep};
use crate::orchestrator::delivery_laws::a_delivery_keeps;
use crate::orchestrator::finish::{finish_awaits, finish_step, FinishFlow, FinishStep};
use crate::orchestrator::finish_laws::{finish_answered, finish_run, Turn};
use crate::orchestrator::protocol::{Command, Next, Reply};
use crate::orchestrator::start::{start_awaits, start_step, StartFlow, StartStep};
use crate::orchestrator::state::{ActiveContext, OrchestratorView};
use crate::ports::{MicrophoneAccess, PortError, TargetSecurity};
use vstd::prelude::*;

verus! {

/// The frozen choices that a delivery goes by, until all that is left is to close
/// the session.
pub open spec fn delivery_context(step: DeliverStep) -> Option<ActiveContext> {
    match step {
        DeliverStep::IssuingId { context, .. } => Some(context),
        DeliverStep::Announcing { delivery, .. }
        | DeliverStep::Revalidating { delivery }
        | DeliverStep::Inserting { delivery }
        | DeliverStep::RevalidatingBridge { delivery }
        | DeliverStep::PastingAtTarget { delivery }
        | DeliverStep::PastingAtFocus { delivery }
        | DeliverStep::ShowingTemporary { delivery, .. } => Some(delivery.context),
        DeliverStep::AnnouncingFinalization { delivered }
        | DeliverStep::Copying { delivered }
        | DeliverStep::ReadingClock { delivered }
        | DeliverStep::Saving { delivered }
        | DeliverStep::AnnouncingCompletion { delivered } => Some(delivered.delivery.context),
        DeliverStep::ClosingSession { .. } => None,
    }
}

/// Whether the frozen choices allow a command. An insertion needs a target that
/// was proved safe, a paste the clipboard bridge, a copy the wish for it, and a
/// record a history that is switched on.
pub open spec fn is_allowed(command: Command, context: ActiveContext) -> bool {
    let settings = context.settings.input;
    match command {
        Command::Insert { .. } => context.target_security == TargetSecurity::Safe,
        Command::PasteAtTarget { .. } => context.target_security == TargetSecurity::Safe
            && settings.clipboard_bridge_allowed,
        Command::PasteAtFocus { .. } => settings.clipboard_bridge_allowed,
        Command::WriteClipboard(_) => settings.auto_copy_result,
        Command::SaveHistory { settings: kept_by, .. } => settings.history_policy.enabled
            && kept_by == context.settings,
        _ => true,
    }
}

/// Whether a delivery stands where the frozen choices let it stand.
pub open spec fn stands_rightly(step: DeliverStep) -> bool {
    match step {
        DeliverStep::Revalidating { delivery } | DeliverStep::Inserting { delivery } => {
            delivery.context.target_security == TargetSecurity::Safe
        },
        DeliverStep::RevalidatingBridge { delivery } => {
            &&& delivery.context.target_security == TargetSecurity::Safe
            &&& delivery.context.settings.input.clipboard_bridge_allowed
        },
        DeliverStep::ReadingClock { delivered } => {
            delivered.delivery.context.settings.input.history_policy.enabled
        },
        _ => true,
    }
}

/// Whether a delivery, having stood rightly, gives an allowed command and stands
/// rightly again, by the same choices.
pub open spec fn delivery_goes_rightly(
    o: OrchestratorView,
    session_id: SessionId,
    step: DeliverStep,
    reply: Reply,
) -> bool {
    match deliver_step(o, session_id, step, reply).next {
        Next::Await { flow, command } => stands_rightly(step) ==> {
            &&& stands_rightly(flow.step)
            &&& delivery_context(flow.step) is Some ==> delivery_context(flow.step)
                == delivery_context(step)
            &&& delivery_context(step) is Some ==> is_allowed(command, delivery_context(step)->0)
            &&& delivery_context(step) is None ==> delivery_context(flow.step) is None
                && is_harmless(command)
        },
        Next::Done(_) => true,
    }
}

/// Whether a command is allowed whatever the user has chosen.
pub open spec fn is_harmless(command: Command) -> bool {
    &&& !(command is Insert)
    &&& !(command is PasteAtTarget)
    &&& !(command is PasteAtFocus)
    &&& !(command is WriteClipboard)
    &&& !(command is SaveHistory)
}

proof fn rightly_after_issuing_id(
    o: OrchestratorView,
    session_id: SessionId,
    step: DeliverStep,
    reply: Reply,
)
    requires
        step is IssuingId,
        deliver_awaits(step, reply),
    ensures
        delivery_goes_rightly(o, session_id, step, reply),
{
}

proof fn rightly_after_announcing(
    o: OrchestratorView,
    session_id: SessionId,
    step: DeliverStep,
    reply: Reply,
)
    requires
        step is Announcing,
        deliver_awaits(step, reply),
    ensures
        delivery_goes_rightly(o, session_id, step, reply),
{
}

proof fn rightly_after_revalidating(
    o: OrchestratorView,
    session_id: SessionId,
    step: DeliverStep,
    reply: Reply,
)
    requires
        step is Revalidating,
        deliver_awaits(step, reply),
    ensures
        delivery_goes_rightly(o, session_id, step, reply),
{
}

proof fn rightly_after_inserting(
    o: OrchestratorView,
    session_id: SessionId,
    step: DeliverStep,
    reply: Reply,
)
    requires
        step is Inserting,
        deliver_awaits(step, reply),
    ensures
        delivery_goes_rightly(o, session_id, step, reply),
{
}

proof fn rightly_after_revalidating_bridge(
    o: OrchestratorView,
    session_id: SessionId,
    step: DeliverStep,
    reply: Reply,
)
    requires
        step is RevalidatingBridge,
        deliver_awaits(step, reply),
    ensures
        delivery_goes_rightly(o, session_id, step, reply),
{
}

proof fn rightly_after_pasting_at_target(
    o: OrchestratorView,
    session_id: SessionId,
    step: DeliverStep,
    reply: Reply,
)
    requires
        step is PastingAtTarget,
        deliver_awaits(step, reply),
    ensures
        delivery_goes_rightly(o, session_id, step, reply),
{
}

proof fn rightly_after_pasting_at_focus(
    o: OrchestratorView,
    session_id: SessionId,
    step: DeliverStep,
    reply: Reply,
)
    requires
        step is PastingAtFocus,
        deliver_awaits(step, reply),
    ensures
        delivery_goes_rightly(o, session_id, step, reply),
{
}

proof fn rightly_after_showing_temporary(
    o: OrchestratorView,
    session_id: SessionId,
    step: DeliverStep,
    reply: Reply,
)
    requires
        step is ShowingTemporary,
        deliver_awaits(step, reply),
    ensures
        delivery_goes_rightly(o, session_id, step, reply),
{
}

proof fn rightly_after_announcing_finalization(
    o: OrchestratorView,
    session_id: SessionId,
    step: DeliverStep,
    reply: Reply,
)
    requires
        step is AnnouncingFinalization,
        deliver_awaits(step, reply),
    ensures
        delivery_goes_rightly(o, session_id, step, reply),
{
}

proof fn rightly_after_copying(
    o: OrchestratorView,
    session_id: SessionId,
    step: DeliverStep,
    reply: Reply,
)
    requires
        step is Copying,
        deliver_awaits(step, reply),
    ensures
        delivery_goes_rightly(o, session_id, step, reply),
{
}

proof fn rightly_after_reading_clock(
    o: OrchestratorView,
    session_id: SessionId,
    step: DeliverStep,
    reply: Reply,
)
    requires
        step is ReadingClock,
        deliver_awaits(step, reply),
    ensures
        delivery_goes_rightly(o, session_id, step, reply),
{
}

proof fn rightly_after_saving(
    o: OrchestratorView,
    session_id: SessionId,
    step: DeliverStep,
    reply: Reply,
)
    requires
        step is Saving,
        deliver_awaits(step, reply),
    ensures
        delivery_goes_rightly(o, session_id, step, reply),
{
}

proof fn rightly_after_announcing_completion(
    o: OrchestratorView,
    session_id: SessionId,
    step: DeliverStep,
    reply: Reply,
)
    requires
        step is AnnouncingCompletion,
        deliver_awaits(step, reply),
    ensures
        delivery_goes_rightly(o, session_id, step, reply),
{
}

proof fn rightly_after_closing_session(
    o: OrchestratorView,
    session_id: SessionId,
    step: DeliverStep,
    reply: Reply,
)
    requires
        step is ClosingSession,
        deliver_awaits(step, reply),
    ensures
        delivery_goes_rightly(o, session_id, step, reply),
{
}

/// A step of a delivery does only what the frozen choices allow.
pub proof fn a_delivery_goes_rightly(
    o: OrchestratorView,
    session_id: SessionId,
    step: DeliverStep,
    reply: Reply,
)
    requires
        deliver_awaits(step, reply),
    ensures
        delivery_goes_rightly(o, session_id, step, reply),
{
    match step {
        DeliverStep::IssuingId { .. } => rightly_after_issuing_id(o, session_id, step, reply),
        DeliverStep::Announcing { .. } => rightly_after_announcing(o, session_id, step, reply),
        DeliverStep::Revalidating { .. } => rightly_after_revalidating(o, session_id, step, reply),
        DeliverStep::Inserting { .. } => rightly_after_inserting(o, session_id, step, reply),
        DeliverStep::RevalidatingBridge { .. } => rightly_after_revalidating_bridge(
            o,
            session_id,
            step,
            reply,
        ),
        DeliverStep::PastingAtTarget { .. } => rightly_after_pasting_at_target(
            o,
            session_id,
            step,
            reply,
        ),
        DeliverStep::PastingAtFocus { .. } => rightly_after_pasting_at_focus(
            o,
            session_id,
            step,
            reply,
        ),
        DeliverStep::ShowingTemporary { .. } => rightly_after_showing_temporary(
            o,
            session_id,
            step,
            reply,
        ),
        DeliverStep::AnnouncingFinalization { .. } => rightly_after_announcing_finalization(
            o,
            session_id,
            step,
            reply,
        ),
        DeliverStep::Copying { .. } => rightly_after_copying(o, session_id, step, reply),
        DeliverStep::ReadingClock { .. } => rightly_after_reading_clock(o, session_id, step, reply),
        DeliverStep::Saving { .. } => rightly_after_saving(o, session_id, step, reply),
        DeliverStep::AnnouncingCompletion { .. } => rightly_after_announcing_completion(
            o,
            session_id,
            step,
            reply,
        ),
        DeliverStep::ClosingSession { .. } => rightly_after_closing_session(
            o,
            session_id,
            step,
            reply,
        ),
    }
}

/// Whether the frozen choices allow all of the commands.
pub open spec fn are_allowed(commands: Seq<Command>, context: ActiveContext) -> bool {
    forall|i: int| 0 <= i < commands.len() ==> is_allowed(#[trigger] commands[i], context)
}

/// From its beginning to its end a delivery inserts, pastes, copies and keeps only
/// where the session's frozen choices allow it.
pub proof fn a_delivery_does_only_what_is_allowed(
    flow: FinishFlow,
    context: ActiveContext,
    turns: Seq<Turn>,
)
    requires
        finish_answered(flow, turns),
        flow.step is Delivering,
        stands_rightly(flow.step->Delivering_step),
        delivery_context(flow.step->Delivering_step) is Some ==> delivery_context(
            flow.step->Delivering_step,
        ) == Some(context),
    ensures
        are_allowed(finish_run(flow, turns), context),
    decreases turns.len(),
{
    if turns.len() > 0 {
        let step = flow.step->Delivering_step;
        a_delivery_goes_rightly(turns[0].state, flow.session_id, step, turns[0].reply);
        match finish_step(turns[0].state, flow, turns[0].reply).next {
            Next::Await { flow: after, command } => {
                a_delivery_does_only_what_is_allowed(after, context, turns.drop_first());
                let rest = finish_run(after, turns.drop_first());
                assert forall|i: int| 0 <= i < rest.len() + 1 implies is_allowed(
                    #[trigger] (seq![command] + rest)[i],
                    context,
                ) by {
                    if i > 0 {
                        assert((seq![command] + rest)[i] == rest[i - 1]);
                    }
                }
            },
            Next::Done(_) => {},
        }
    }
}

/// How often a finish workflow may still ask for a recognition.
pub open spec fn recognitions_left(step: FinishStep) -> nat {
    match step {
        FinishStep::FinishingAudio { .. }
        | FinishStep::PlayingCue { .. }
        | FinishStep::IssuingRecognition { .. }
        | FinishStep::AnnouncingRecognition { .. } => 1,
        _ => 0,
    }
}

/// How often a finish workflow may still ask the language model.
pub open spec fn processings_left(step: FinishStep) -> nat {
    match step {
        FinishStep::FinishingAudio { .. }
        | FinishStep::PlayingCue { .. }
        | FinishStep::IssuingRecognition { .. }
        | FinishStep::AnnouncingRecognition { .. }
        | FinishStep::Transcribing { .. }
        | FinishStep::CleaningAudio { .. }
        | FinishStep::IssuingProcessing { .. }
        | FinishStep::AnnouncingProcessing { .. } => 1,
        _ => 0,
    }
}

/// The recogniser that a finish workflow goes by, once the session's frozen
/// choices are at hand and as long as it is wanted.
pub open spec fn frozen_engine(step: FinishStep) -> Option<AsrEngine> {
    match step {
        FinishStep::IssuingRecognition { context, .. }
        | FinishStep::AnnouncingRecognition { context, .. } => Some(context.asr_route.engine),
        _ => None,
    }
}

pub open spec fn one_if(holds: bool) -> nat {
    if holds {
        1
    } else {
        0
    }
}

/// What one step of a finish workflow uses up, and whom it asks.
pub open spec fn finish_asks_rightly(o: OrchestratorView, flow: FinishFlow, reply: Reply) -> bool {
    match finish_step(o, flow, reply).next {
        Next::Await { flow: after, command } => {
            &&& recognitions_left(after.step) + one_if(command is Transcribe) <= recognitions_left(
                flow.step,
            )
            &&& processings_left(after.step) + one_if(command is ProcessText) <= processings_left(
                flow.step,
            )
            &&& frozen_engine(flow.step) is Some && frozen_engine(after.step) is Some
                ==> frozen_engine(after.step) == frozen_engine(flow.step)
            &&& command is Transcribe ==> frozen_engine(flow.step) == Some(
                command->Transcribe_0.engine,
            ) && command->Transcribe_0.session_id == flow.session_id
            &&& command is ProcessText ==> flow.step is AnnouncingProcessing
                && command->ProcessText_request.session_id == flow.session_id
                && command->ProcessText_request.selected_text
                == flow.step->AnnouncingProcessing_context.selected_text
        },
        Next::Done(_) => true,
    }
}

proof fn delivery_asks_nobody(
    o: OrchestratorView,
    session_id: SessionId,
    step: DeliverStep,
    reply: Reply,
)
    requires
        deliver_awaits(step, reply),
    ensures
        match deliver_step(o, session_id, step, reply).next {
            Next::Await { command, .. } => !(command is Transcribe) && !(command is ProcessText),
            Next::Done(_) => true,
        },
{
    a_delivery_keeps(o, session_id, step, reply);
}

proof fn asks_rightly_after_finishing_audio(o: OrchestratorView, flow: FinishFlow, reply: Reply)
    requires
        flow.step is FinishingAudio,
        finish_awaits(flow.step, reply),
    ensures
        finish_asks_rightly(o, flow, reply),
{
}

proof fn asks_rightly_after_cancelling_empty_capture(
    o: OrchestratorView,
    flow: FinishFlow,
    reply: Reply,
)
    requires
        flow.step is CancellingEmptyCapture,
        finish_awaits(flow.step, reply),
    ensures
        finish_asks_rightly(o, flow, reply),
{
}

proof fn asks_rightly_after_cancelling_failed_capture(
    o: OrchestratorView,
    flow: FinishFlow,
    reply: Reply,
)
    requires
        flow.step is CancellingFailedCapture,
        finish_awaits(flow.step, reply),
    ensures
        finish_asks_rightly(o, flow, reply),
{
}

proof fn asks_rightly_after_playing_cue(o: OrchestratorView, flow: FinishFlow, reply: Reply)
    requires
        flow.step is PlayingCue,
        finish_awaits(flow.step, reply),
    ensures
        finish_asks_rightly(o, flow, reply),
{
}

proof fn asks_rightly_after_discarding_audio(o: OrchestratorView, flow: FinishFlow, reply: Reply)
    requires
        flow.step is DiscardingAudio,
        finish_awaits(flow.step, reply),
    ensures
        finish_asks_rightly(o, flow, reply),
{
}

proof fn asks_rightly_after_issuing_recognition(o: OrchestratorView, flow: FinishFlow, reply: Reply)
    requires
        flow.step is IssuingRecognition,
        finish_awaits(flow.step, reply),
    ensures
        finish_asks_rightly(o, flow, reply),
{
}

proof fn asks_rightly_after_announcing_recognition(
    o: OrchestratorView,
    flow: FinishFlow,
    reply: Reply,
)
    requires
        flow.step is AnnouncingRecognition,
        finish_awaits(flow.step, reply),
    ensures
        finish_asks_rightly(o, flow, reply),
{
}

proof fn asks_rightly_after_transcribing(o: OrchestratorView, flow: FinishFlow, reply: Reply)
    requires
        flow.step is Transcribing,
        finish_awaits(flow.step, reply),
    ensures
        finish_asks_rightly(o, flow, reply),
{
}

proof fn asks_rightly_after_cleaning_audio(o: OrchestratorView, flow: FinishFlow, reply: Reply)
    requires
        flow.step is CleaningAudio,
        finish_awaits(flow.step, reply),
    ensures
        finish_asks_rightly(o, flow, reply),
{
}

proof fn asks_rightly_after_issuing_processing(o: OrchestratorView, flow: FinishFlow, reply: Reply)
    requires
        flow.step is IssuingProcessing,
        finish_awaits(flow.step, reply),
    ensures
        finish_asks_rightly(o, flow, reply),
{
}

proof fn asks_rightly_after_announcing_processing(
    o: OrchestratorView,
    flow: FinishFlow,
    reply: Reply,
)
    requires
        flow.step is AnnouncingProcessing,
        finish_awaits(flow.step, reply),
    ensures
        finish_asks_rightly(o, flow, reply),
{
}

proof fn asks_rightly_after_processing(o: OrchestratorView, flow: FinishFlow, reply: Reply)
    requires
        flow.step is Processing,
        finish_awaits(flow.step, reply),
    ensures
        finish_asks_rightly(o, flow, reply),
{
}

proof fn asks_rightly_after_delivering(o: OrchestratorView, flow: FinishFlow, reply: Reply)
    requires
        flow.step is Delivering,
        finish_awaits(flow.step, reply),
    ensures
        finish_asks_rightly(o, flow, reply),
{
    delivery_asks_nobody(o, flow.session_id, flow.step->Delivering_step, reply);
}

proof fn asks_rightly_after_closing_session(o: OrchestratorView, flow: FinishFlow, reply: Reply)
    requires
        flow.step is ClosingSession,
        finish_awaits(flow.step, reply),
    ensures
        finish_asks_rightly(o, flow, reply),
{
}

/// A step of a finish workflow asks only whom the session has frozen, and no
/// oftener than it may.
pub proof fn a_finish_asks_rightly(o: OrchestratorView, flow: FinishFlow, reply: Reply)
    requires
        finish_awaits(flow.step, reply),
    ensures
        finish_asks_rightly(o, flow, reply),
{
    match flow.step {
        FinishStep::FinishingAudio { .. } => asks_rightly_after_finishing_audio(o, flow, reply),
        FinishStep::CancellingEmptyCapture { .. } => asks_rightly_after_cancelling_empty_capture(
            o,
            flow,
            reply,
        ),
        FinishStep::CancellingFailedCapture { .. } => asks_rightly_after_cancelling_failed_capture(
            o,
            flow,
            reply,
        ),
        FinishStep::PlayingCue { .. } => asks_rightly_after_playing_cue(o, flow, reply),
        FinishStep::DiscardingAudio { .. } => asks_rightly_after_discarding_audio(o, flow, reply),
        FinishStep::IssuingRecognition { .. } => asks_rightly_after_issuing_recognition(
            o,
            flow,
            reply,
        ),
        FinishStep::AnnouncingRecognition { .. } => asks_rightly_after_announcing_recognition(
            o,
            flow,
            reply,
        ),
        FinishStep::Transcribing { .. } => asks_rightly_after_transcribing(o, flow, reply),
        FinishStep::CleaningAudio { .. } => asks_rightly_after_cleaning_audio(o, flow, reply),
        FinishStep::IssuingProcessing { .. } => asks_rightly_after_issuing_processing(
            o,
            flow,
            reply,
        ),
        FinishStep::AnnouncingProcessing { .. } => asks_rightly_after_announcing_processing(
            o,
            flow,
            reply,
        ),
        FinishStep::Processing { .. } => asks_rightly_after_processing(o, flow, reply),
        FinishStep::Delivering { .. } => asks_rightly_after_delivering(o, flow, reply),
        FinishStep::ClosingSession { .. } => asks_rightly_after_closing_session(o, flow, reply),
    }
}

/// How many recognitions are among the commands.
pub open spec fn recognitions(commands: Seq<Command>) -> nat
    decreases commands.len(),
{
    if commands.len() == 0 {
        0
    } else {
        one_if(commands[0] is Transcribe) + recognitions(commands.drop_first())
    }
}

/// How many requests to the language model are among the commands.
pub open spec fn processings(commands: Seq<Command>) -> nat
    decreases commands.len(),
{
    if commands.len() == 0 {
        0
    } else {
        one_if(commands[0] is ProcessText) + processings(commands.drop_first())
    }
}

/// A session is recognised at most once and processed at most once: whatever
/// fails is not tried again, with this engine or another.
pub proof fn nobody_is_asked_twice(flow: FinishFlow, turns: Seq<Turn>)
    requires
        finish_answered(flow, turns),
    ensures
        recognitions(finish_run(flow, turns)) <= recognitions_left(flow.step) <= 1,
        processings(finish_run(flow, turns)) <= processings_left(flow.step) <= 1,
    decreases turns.len(),
{
    if turns.len() > 0 {
        a_finish_asks_rightly(turns[0].state, flow, turns[0].reply);
        match finish_step(turns[0].state, flow, turns[0].reply).next {
            Next::Await { flow: after, command } => {
                nobody_is_asked_twice(after, turns.drop_first());
                let rest = finish_run(after, turns.drop_first());
                assert((seq![command] + rest).drop_first() =~= rest);
            },
            Next::Done(_) => {},
        }
    }
}

/// The recognition goes to the engine that the session froze, and to no other.
pub proof fn only_the_frozen_engine_recognises(flow: FinishFlow, turns: Seq<Turn>, i: int)
    requires
        finish_answered(flow, turns),
        frozen_engine(flow.step) is Some,
        0 <= i < finish_run(flow, turns).len(),
        finish_run(flow, turns)[i] is Transcribe,
    ensures
        frozen_engine(flow.step) == Some(finish_run(flow, turns)[i]->Transcribe_0.engine),
    decreases turns.len(),
{
    a_finish_asks_rightly(turns[0].state, flow, turns[0].reply);
    match finish_step(turns[0].state, flow, turns[0].reply).next {
        Next::Await { flow: after, command } => {
            let rest = finish_run(after, turns.drop_first());
            if i > 0 {
                assert(finish_run(flow, turns)[i] == rest[i - 1]);
                a_recognition_is_still_due(after, turns.drop_first(), i - 1);
                after_frozen_comes_frozen(turns[0].state, flow, turns[0].reply);
                only_the_frozen_engine_recognises(after, turns.drop_first(), i - 1);
            }
        },
        Next::Done(_) => {},
    }
}

proof fn a_recognition_is_still_due(flow: FinishFlow, turns: Seq<Turn>, i: int)
    requires
        finish_answered(flow, turns),
        0 <= i < finish_run(flow, turns).len(),
        finish_run(flow, turns)[i] is Transcribe,
    ensures
        recognitions_left(flow.step) == 1,
    decreases turns.len(),
{
    a_finish_asks_rightly(turns[0].state, flow, turns[0].reply);
    match finish_step(turns[0].state, flow, turns[0].reply).next {
        Next::Await { flow: after, command } => {
            if i > 0 {
                let rest = finish_run(after, turns.drop_first());
                assert(finish_run(flow, turns)[i] == rest[i - 1]);
                a_recognition_is_still_due(after, turns.drop_first(), i - 1);
            }
        },
        Next::Done(_) => {},
    }
}

proof fn after_frozen_comes_frozen(o: OrchestratorView, flow: FinishFlow, reply: Reply)
    requires
        finish_awaits(flow.step, reply),
        frozen_engine(flow.step) is Some,
    ensures
        match finish_step(o, flow, reply).next {
            Next::Await { flow: after, .. } => recognitions_left(after.step) == 1 ==> frozen_engine(
                after.step,
            ) is Some,
            Next::Done(_) => true,
        },
{
    match flow.step {
        FinishStep::IssuingRecognition { .. } => {},
        FinishStep::AnnouncingRecognition { .. } => {},
        _ => {},
    }
}

/// Whether a step of a start looks at a selection or prepares a recording only
/// where that is allowed. A selection is looked at for the language model alone,
/// on a safe target, and if the user wants it read; the clipboard helps only if it
/// may and the native way has failed; and a recording is prepared only once the
/// system has granted the microphone.
pub open spec fn start_goes_rightly(o: OrchestratorView, flow: StartFlow, reply: Reply) -> bool {
    match start_step(o, flow, reply).next {
        Next::Await { command, .. } => {
            &&& command is ReadSelection ==> {
                &&& flow.step is CapturingTarget
                &&& flow.step->CapturingTarget_route is Llm
                &&& flow.step->CapturingTarget_settings.input.read_selected_text
                &&& reply->Target_0 is Ok
                &&& reply->Target_0->Ok_0.security == TargetSecurity::Safe
                &&& reply->Target_0->Ok_0.has_selection
                &&& command->ReadSelection_0 == reply->Target_0->Ok_0.target_ref
            }
            &&& command is ReadSelectionViaClipboard ==> {
                &&& flow.step is ReadingSelection
                &&& flow.step->ReadingSelection_settings.input.clipboard_bridge_allowed
                &&& reply->Selection_0 is Err
                &&& command->ReadSelectionViaClipboard_0
                    == flow.step->ReadingSelection_target.target_ref
            }
            &&& command is PrepareRecording ==> {
                &&& flow.step is RequestingMicrophone
                &&& reply->Microphone_0 == Ok::<MicrophoneAccess, PortError>(
                    MicrophoneAccess::Granted,
                )
                &&& command->PrepareRecording_session_id == flow.session_id
            }
            &&& command is RequestMicrophone ==> {
                ||| flow.step is CapturingTarget
                ||| flow.step is ReadingSelection
                ||| flow.step is ReadingClipboardSelection
            }
        },
        Next::Done(_) => true,
    }
}

proof fn start_rightly_after_acquiring_gate(o: OrchestratorView, flow: StartFlow, reply: Reply)
    requires
        flow.step is AcquiringGate,
        start_awaits(flow.step, reply),
    ensures
        start_goes_rightly(o, flow, reply),
{
}

proof fn start_rightly_after_loading_settings(o: OrchestratorView, flow: StartFlow, reply: Reply)
    requires
        flow.step is LoadingSettings,
        start_awaits(flow.step, reply),
    ensures
        start_goes_rightly(o, flow, reply),
{
}

proof fn start_rightly_after_resolving_route(o: OrchestratorView, flow: StartFlow, reply: Reply)
    requires
        flow.step is ResolvingRoute,
        start_awaits(flow.step, reply),
    ensures
        start_goes_rightly(o, flow, reply),
{
}

proof fn start_rightly_after_capturing_target(o: OrchestratorView, flow: StartFlow, reply: Reply)
    requires
        flow.step is CapturingTarget,
        start_awaits(flow.step, reply),
    ensures
        start_goes_rightly(o, flow, reply),
{
}

proof fn start_rightly_after_reading_selection(o: OrchestratorView, flow: StartFlow, reply: Reply)
    requires
        flow.step is ReadingSelection,
        start_awaits(flow.step, reply),
    ensures
        start_goes_rightly(o, flow, reply),
{
}

proof fn start_rightly_after_reading_clipboard_selection(
    o: OrchestratorView,
    flow: StartFlow,
    reply: Reply,
)
    requires
        flow.step is ReadingClipboardSelection,
        start_awaits(flow.step, reply),
    ensures
        start_goes_rightly(o, flow, reply),
{
}

proof fn start_rightly_after_requesting_microphone(
    o: OrchestratorView,
    flow: StartFlow,
    reply: Reply,
)
    requires
        flow.step is RequestingMicrophone,
        start_awaits(flow.step, reply),
    ensures
        start_goes_rightly(o, flow, reply),
{
}

proof fn start_rightly_after_preparing(o: OrchestratorView, flow: StartFlow, reply: Reply)
    requires
        flow.step is Preparing,
        start_awaits(flow.step, reply),
    ensures
        start_goes_rightly(o, flow, reply),
{
}

proof fn start_rightly_after_reading_clock(o: OrchestratorView, flow: StartFlow, reply: Reply)
    requires
        flow.step is ReadingClock,
        start_awaits(flow.step, reply),
    ensures
        start_goes_rightly(o, flow, reply),
{
}

proof fn start_rightly_after_announcing_recording(
    o: OrchestratorView,
    flow: StartFlow,
    reply: Reply,
)
    requires
        flow.step is AnnouncingRecording,
        start_awaits(flow.step, reply),
    ensures
        start_goes_rightly(o, flow, reply),
{
}

proof fn start_rightly_after_cancelling_capture(o: OrchestratorView, flow: StartFlow, reply: Reply)
    requires
        flow.step is CancellingCapture,
        start_awaits(flow.step, reply),
    ensures
        start_goes_rightly(o, flow, reply),
{
}

proof fn start_rightly_after_hiding_hud(o: OrchestratorView, flow: StartFlow, reply: Reply)
    requires
        flow.step is HidingHud,
        start_awaits(flow.step, reply),
    ensures
        start_goes_rightly(o, flow, reply),
{
}

proof fn start_rightly_after_notifying(o: OrchestratorView, flow: StartFlow, reply: Reply)
    requires
        flow.step is Notifying,
        start_awaits(flow.step, reply),
    ensures
        start_goes_rightly(o, flow, reply),
{
}

proof fn start_rightly_after_finishing(o: OrchestratorView, flow: StartFlow, reply: Reply)
    requires
        flow.step is Finishing,
        start_awaits(flow.step, reply),
    ensures
        start_goes_rightly(o, flow, reply),
{
}

/// A start looks at a selection and opens the microphone only where that is
/// allowed.
pub proof fn a_start_does_only_what_is_allowed(o: OrchestratorView, flow: StartFlow, reply: Reply)
    requires
        start_awaits(flow.step, reply),
    ensures
        start_goes_rightly(o, flow, reply),
{
    match flow.step {
        StartStep::AcquiringGate => start_rightly_after_acquiring_gate(o, flow, reply),
        StartStep::LoadingSettings => start_rightly_after_loading_settings(o, flow, reply),
        StartStep::ResolvingRoute { .. } => start_rightly_after_resolving_route(o, flow, reply),
        StartStep::CapturingTarget { .. } => start_rightly_after_capturing_target(o, flow, reply),
        StartStep::ReadingSelection { .. } => start_rightly_after_reading_selection(o, flow, reply),
        StartStep::ReadingClipboardSelection { .. } => {
            start_rightly_after_reading_clipboard_selection(o, flow, reply)
        },
        StartStep::RequestingMicrophone { .. } => start_rightly_after_requesting_microphone(
            o,
            flow,
            reply,
        ),
        StartStep::Preparing { .. } => start_rightly_after_preparing(o, flow, reply),
        StartStep::ReadingClock { .. } => start_rightly_after_reading_clock(o, flow, reply),
        StartStep::AnnouncingRecording { .. } => start_rightly_after_announcing_recording(
            o,
            flow,
            reply,
        ),
        StartStep::CancellingCapture { .. } => start_rightly_after_cancelling_capture(
            o,
            flow,
            reply,
        ),
        StartStep::HidingHud { .. } => start_rightly_after_hiding_hud(o, flow, reply),
        StartStep::Notifying { .. } => start_rightly_after_notifying(o, flow, reply),
        StartStep::Finishing => start_rightly_after_finishing(o, flow, reply),
    }
}

} // verus!
