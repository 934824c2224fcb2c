//! What holds of every run of a start, and of giving a recording up.

use crate::domain::{ProcessingMode, SessionId, SettingsSnapshot};
use crate::orchestrator::cancel::{cancel_step, CancelFlow};
use crate::orchestrator::delivery_laws::handed_out;
use crate::orchestrator::finish_laws::Turn;
use crate::orchestrator::prepare::{prepare_step, PrepareFlow};
use crate::orchestrator::protocol::{Command, Next, Reply};
use crate::orchestrator::quit::{quit_awaits, quit_step, QuitFlow};
use crate::orchestrator::retry::{retry_step, RetryFlow};
use crate::orchestrator::start::{start_awaits, start_step, StartFlow, StartStep};
use crate::orchestrator::state::OrchestratorView;
use crate::ports::RecordingCue;
use vstd::prelude::*;

verus! {

/// Whether every answer is of the kind that a start waits for.
pub open spec fn start_answered(flow: StartFlow, turns: Seq<Turn>) -> bool
    decreases turns.len(),
{
    turns.len() == 0 || start_awaits(flow.step, turns[0].reply) && match start_step(
        turns[0].state,
        flow,
        turns[0].reply,
    ).next {
        Next::Await { flow, .. } => start_answered(flow, turns.drop_first()),
        Next::Done(_) => true,
    }
}

/// The commands that a start gives, turn by turn, until it is over.
pub open spec fn start_run(flow: StartFlow, turns: Seq<Turn>) -> Seq<Command>
    decreases turns.len(),
{
    if turns.len() == 0 {
        Seq::empty()
    } else {
        match start_step(turns[0].state, flow, turns[0].reply).next {
            Next::Await { flow, command } => seq![command] + start_run(flow, turns.drop_first()),
            Next::Done(_) => Seq::empty(),
        }
    }
}

/// Whether a command asks about the language model or looks at a selection.
pub open spec fn is_for_processing(command: Command) -> bool {
    command is ResolveLlmRoute || command is ReadSelection || command is ReadSelectionViaClipboard
}

/// Whether a start has no business with the language model any more.
pub open spec fn is_direct(step: StartStep) -> bool {
    match step {
        StartStep::AcquiringGate
        | StartStep::LoadingSettings
        | StartStep::ResolvingRoute { .. }
        | StartStep::ReadingSelection { .. }
        | StartStep::ReadingClipboardSelection { .. } => false,
        StartStep::CapturingTarget { route, .. } => route is DirectAsr,
        _ => true,
    }
}

/// Whether none of the commands has to do with the language model.
pub open spec fn stays_local(commands: Seq<Command>) -> bool {
    forall|i: int| 0 <= i < commands.len() ==> !is_for_processing(#[trigger] commands[i])
}

proof fn the_rest_stays_local(command: Command, rest: Seq<Command>)
    requires
        !is_for_processing(command),
        stays_local(rest),
    ensures
        stays_local(seq![command] + rest),
{
    let all = seq![command] + rest;
    assert forall|i: int| 0 <= i < all.len() implies !is_for_processing(#[trigger] all[i]) by {
        if i > 0 {
            assert(all[i] == rest[i - 1]);
        }
    }
}

proof fn direct_while_capturing_target(o: OrchestratorView, flow: StartFlow, reply: Reply)
    requires
        flow.step is CapturingTarget,
        is_direct(flow.step),
    ensures
        match start_step(o, flow, reply).next {
            Next::Await { flow: after, command } => is_direct(after.step) && !is_for_processing(
                command,
            ),
            Next::Done(_) => true,
        },
{
}

proof fn direct_while_requesting_microphone(o: OrchestratorView, flow: StartFlow, reply: Reply)
    requires
        flow.step is RequestingMicrophone,
        is_direct(flow.step),
    ensures
        match start_step(o, flow, reply).next {
            Next::Await { flow: after, command } => is_direct(after.step) && !is_for_processing(
                command,
            ),
            Next::Done(_) => true,
        },
{
}

proof fn direct_while_preparing(o: OrchestratorView, flow: StartFlow, reply: Reply)
    requires
        flow.step is Preparing,
        is_direct(flow.step),
    ensures
        match start_step(o, flow, reply).next {
            Next::Await { flow: after, command } => is_direct(after.step) && !is_for_processing(
                command,
            ),
            Next::Done(_) => true,
        },
{
}

proof fn direct_while_reading_clock(o: OrchestratorView, flow: StartFlow, reply: Reply)
    requires
        flow.step is ReadingClock,
        is_direct(flow.step),
    ensures
        match start_step(o, flow, reply).next {
            Next::Await { flow: after, command } => is_direct(after.step) && !is_for_processing(
                command,
            ),
            Next::Done(_) => true,
        },
{
}

proof fn direct_while_announcing_recording(o: OrchestratorView, flow: StartFlow, reply: Reply)
    requires
        flow.step is AnnouncingRecording,
        is_direct(flow.step),
    ensures
        match start_step(o, flow, reply).next {
            Next::Await { flow: after, command } => is_direct(after.step) && !is_for_processing(
                command,
            ),
            Next::Done(_) => true,
        },
{
}

proof fn direct_while_cancelling_capture(o: OrchestratorView, flow: StartFlow, reply: Reply)
    requires
        flow.step is CancellingCapture,
        is_direct(flow.step),
    ensures
        match start_step(o, flow, reply).next {
            Next::Await { flow: after, command } => is_direct(after.step) && !is_for_processing(
                command,
            ),
            Next::Done(_) => true,
        },
{
}

proof fn direct_while_hiding_hud(o: OrchestratorView, flow: StartFlow, reply: Reply)
    requires
        flow.step is HidingHud,
        is_direct(flow.step),
    ensures
        match start_step(o, flow, reply).next {
            Next::Await { flow: after, command } => is_direct(after.step) && !is_for_processing(
                command,
            ),
            Next::Done(_) => true,
        },
{
}

proof fn direct_while_notifying(o: OrchestratorView, flow: StartFlow, reply: Reply)
    requires
        flow.step is Notifying,
        is_direct(flow.step),
    ensures
        match start_step(o, flow, reply).next {
            Next::Await { flow: after, command } => is_direct(after.step) && !is_for_processing(
                command,
            ),
            Next::Done(_) => true,
        },
{
}

proof fn direct_while_finishing(o: OrchestratorView, flow: StartFlow, reply: Reply)
    requires
        flow.step is Finishing,
        is_direct(flow.step),
    ensures
        match start_step(o, flow, reply).next {
            Next::Await { flow: after, command } => is_direct(after.step) && !is_for_processing(
                command,
            ),
            Next::Done(_) => true,
        },
{
}

/// A start that has no business with the language model gets none.
pub proof fn a_direct_start_stays_direct(o: OrchestratorView, flow: StartFlow, reply: Reply)
    requires
        is_direct(flow.step),
    ensures
        match start_step(o, flow, reply).next {
            Next::Await { flow: after, command } => is_direct(after.step) && !is_for_processing(
                command,
            ),
            Next::Done(_) => true,
        },
{
    match flow.step {
        StartStep::CapturingTarget { .. } => direct_while_capturing_target(o, flow, reply),
        StartStep::RequestingMicrophone { .. } => direct_while_requesting_microphone(
            o,
            flow,
            reply,
        ),
        StartStep::Preparing { .. } => direct_while_preparing(o, flow, reply),
        StartStep::ReadingClock { .. } => direct_while_reading_clock(o, flow, reply),
        StartStep::AnnouncingRecording { .. } => direct_while_announcing_recording(o, flow, reply),
        StartStep::CancellingCapture { .. } => direct_while_cancelling_capture(o, flow, reply),
        StartStep::HidingHud { .. } => direct_while_hiding_hud(o, flow, reply),
        StartStep::Notifying { .. } => direct_while_notifying(o, flow, reply),
        StartStep::Finishing => direct_while_finishing(o, flow, reply),
        _ => {},
    }
}

/// A start whose transcript will not go through the language model looks at no
/// selection.
pub proof fn a_direct_start_reads_no_selection(flow: StartFlow, turns: Seq<Turn>)
    requires
        start_answered(flow, turns),
        is_direct(flow.step),
    ensures
        stays_local(start_run(flow, turns)),
    decreases turns.len(),
{
    if turns.len() > 0 {
        a_direct_start_stays_direct(turns[0].state, flow, turns[0].reply);
        match start_step(turns[0].state, flow, turns[0].reply).next {
            Next::Await { flow: after, command } => {
                a_direct_start_reads_no_selection(after, turns.drop_first());
                the_rest_stays_local(command, start_run(after, turns.drop_first()));
            },
            Next::Done(_) => {},
        }
    }
}

/// In raw mode a start neither asks about the language model nor looks at a
/// selection.
pub proof fn raw_mode_stays_local(
    session_id: SessionId,
    settings: SettingsSnapshot,
    turns: Seq<Turn>,
)
    requires
        start_answered(StartFlow { session_id, step: StartStep::LoadingSettings }, turns),
        turns.len() > 0,
        turns[0].reply == Reply::Settings(Ok(settings)),
        settings.input.processing_mode == ProcessingMode::Raw,
    ensures
        stays_local(
            start_run(StartFlow { session_id, step: StartStep::LoadingSettings }, turns),
        ),
{
    let flow = StartFlow { session_id, step: StartStep::LoadingSettings };
    match start_step(turns[0].state, flow, turns[0].reply).next {
        Next::Await { flow: after, command } => {
            a_direct_start_reads_no_selection(after, turns.drop_first());
            the_rest_stays_local(command, start_run(after, turns.drop_first()));
        },
        Next::Done(_) => {},
    }
}

/// Whether a command recognises, processes, delivers or keeps anything.
pub open spec fn is_progress(command: Command) -> bool {
    command is Transcribe || command is ProcessText || handed_out(command) is Some
}

/// Cancelling a recording never leads to a text. Its cue is heard only once the
/// capture is closed.
pub proof fn cancelling_leads_to_no_text(o: OrchestratorView, flow: CancelFlow, reply: Reply)
    ensures
        match cancel_step(o, flow, reply).next {
            Next::Await { command, .. } => {
                &&& !is_progress(command)
                &&& command is PlayCue ==> command == Command::PlayCue(RecordingCue::Cancel)
                    && flow.step is ClosingCapture && reply->Acted_0 is Ok
            },
            Next::Done(_) => true,
        },
{
}

/// Making a cleanup good never leads to a text.
pub proof fn retrying_leads_to_no_text(o: OrchestratorView, flow: RetryFlow, reply: Reply)
    ensures
        match retry_step(o, flow, reply).next {
            Next::Await { command, .. } => !is_progress(command),
            Next::Done(_) => true,
        },
{
}

/// Quitting never leads to a text.
pub proof fn quitting_leads_to_no_text(o: OrchestratorView, flow: QuitFlow, reply: Reply)
    requires
        quit_awaits(flow.step, reply),
    ensures
        match quit_step(o, flow, reply).next {
            Next::Await { command, .. } => !is_progress(command),
            Next::Done(_) => true,
        },
{
}

/// The microphone opens only after the start cue.
pub proof fn the_start_cue_comes_first(o: OrchestratorView, flow: PrepareFlow, reply: Reply)
    ensures
        match prepare_step(o, flow, reply).next {
            Next::Await { command, .. } => command is StartAudio ==> flow.step is PlayingCue,
            Next::Done(_) => true,
        },
{
}

} // verus!
