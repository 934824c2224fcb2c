//! What becomes of the capture that a start opens: a start that is turned away has closed
//! it, and one that could not close it owes it.

use crate::domain::SessionId;
use crate::orchestrator::cancel::capture_debt;
use crate::orchestrator::cleanup_laws::{cleanup_error, owes_its_capture};
use crate::orchestrator::prepare::{
    prepare_awaits, prepare_step, PreparationEnd, PrepareFlow, PrepareResult, PrepareStep,
};
use crate::orchestrator::protocol::{Command, Next, Reply};
use crate::orchestrator::start::{start_awaits, start_step, StartFlow, StartResult, StartStep};
use crate::orchestrator::state::{
    with_debt, without_debt, AudioCleanupDebt, AudioCleanupResource, OrchestratorError,
    OrchestratorView, PreparingStage, RecordingPreparation, StartOutcome,
};
use crate::ports::{AudioCaptureRef, PortError, RecordingCue};
use vstd::prelude::*;

verus! {

/// A command and its answer.
pub struct Exchange {
    pub command: Command,
    pub reply: Reply,
}

/// Whether a preparation that is let run alone exchanges just this and comes to an end.
pub open spec fn preparation_ends(
    o: OrchestratorView,
    flow: PrepareFlow,
    command: Command,
    told: Seq<Exchange>,
    after: OrchestratorView,
    result: PrepareResult,
) -> bool
    decreases told.len(),
{
    &&& told.len() > 0
    &&& told[0].command == command
    &&& prepare_awaits(flow.step, told[0].reply)
    &&& {
        let step = prepare_step(o, flow, told[0].reply);
        match step.next {
            Next::Await { flow, command } => preparation_ends(
                step.after,
                flow,
                command,
                told.drop_first(),
                after,
                result,
            ),
            Next::Done(end) => told.len() == 1 && after == step.after && result == end,
        }
    }
}

/// The preparation that a start lets run: what it exchanged, and the shared state that
/// it left.
pub struct Preparation {
    pub told: Seq<Exchange>,
    pub after: OrchestratorView,
}

/// Whether the preparation is the one that a command asks for.
pub open spec fn is_asked_for(
    preparation: Preparation,
    o: OrchestratorView,
    command: Command,
    result: PrepareResult,
) -> bool {
    match command {
        Command::PrepareRecording { session_id, display_hint, limit, .. } => preparation_ends(
            o,
            PrepareFlow { session_id, display_hint, limit, step: PrepareStep::PlayingCue },
            Command::PlayCue(RecordingCue::Start),
            preparation.told,
            preparation.after,
            result,
        ),
        _ => false,
    }
}

/// Whether a start that is let run alone, together with the preparation that it asks
/// for, exchanges just this and comes to an end. What a finish that it asks for leaves
/// is not looked at.
pub open spec fn start_ends(
    o: OrchestratorView,
    flow: StartFlow,
    command: Command,
    told: Seq<Exchange>,
    preparation: Preparation,
    after: OrchestratorView,
    result: StartResult,
) -> bool
    decreases told.len(),
{
    &&& told.len() > 0
    &&& told[0].command == command
    &&& start_awaits(flow.step, told[0].reply)
    &&& flow.step is Preparing ==> is_asked_for(preparation, o, command, told[0].reply->recording)
    &&& {
        let met = if flow.step is Preparing {
            preparation.after
        } else {
            o
        };
        let step = start_step(met, flow, told[0].reply);
        match step.next {
            Next::Await { flow, command } => start_ends(
                step.after,
                flow,
                command,
                told.drop_first(),
                preparation,
                after,
                result,
            ),
            Next::Done(end) => told.len() == 1 && result == end && (flow.step is Finishing || after
                == step.after),
        }
    }
}

/// The capture was opened.
pub open spec fn opening(session_id: SessionId, capture: AudioCaptureRef) -> Exchange {
    Exchange {
        command: Command::StartAudio(session_id),
        reply: Reply::Capture(Ok(capture)),
    }
}

/// An attempt to close the capture was answered.
pub open spec fn closing(capture: AudioCaptureRef, result: Result<(), PortError>) -> Exchange {
    Exchange { command: Command::CancelCapture(capture), reply: Reply::Acted(result) }
}

/// Whether nothing runs and nothing is owed.
pub open spec fn is_idle(o: OrchestratorView) -> bool {
    !o.has_work() && o.debts.len() == 0
}

/// Whether a session prepares alone, at the given stage, and nothing is owed.
pub open spec fn prepares_alone(
    o: OrchestratorView,
    session_id: SessionId,
    stage: PreparingStage,
) -> bool {
    &&& !o.quitting
    &&& o.starting is None
    &&& o.active is None
    &&& o.prepares(session_id)
    &&& o.preparing->0.stage == stage
    &&& o.debts =~= Seq::empty()
}

/// What a preparation that runs alone meets at each of its steps.
pub open spec fn preparation_is_alone(o: OrchestratorView, flow: PrepareFlow) -> bool {
    let session_id = flow.session_id;
    match flow.step {
        PrepareStep::PlayingCue | PrepareStep::StartingAudio => prepares_alone(
            o,
            session_id,
            PreparingStage::StartingAudio,
        ),
        PrepareStep::AbandoningCapture { .. } => false,
        PrepareStep::SchedulingDeadline { capture } | PrepareStep::ShowingHud { capture } => {
            prepares_alone(o, session_id, PreparingStage::Capturing { capture })
        },
        PrepareStep::CancellingCapture { capture, end } => {
            &&& prepares_alone(
                o,
                session_id,
                PreparingStage::Cancelling { capture, in_flight: true },
            )
            &&& end != PreparationEnd::Aborted
        },
        PrepareStep::HidingHud { end } => is_idle(o) && end != PreparationEnd::Aborted,
    }
}

/// What the end of a preparation that ran alone leaves: the capture it is ready with,
/// nothing at all, or the capture that it could not close.
pub open spec fn preparation_leaves(
    after: OrchestratorView,
    session_id: SessionId,
    result: PrepareResult,
) -> bool {
    match result {
        Ok(RecordingPreparation::Ready(capture)) => prepares_alone(
            after,
            session_id,
            PreparingStage::Capturing { capture },
        ),
        Ok(RecordingPreparation::Aborted) => false,
        Ok(_) => is_idle(after),
        Err(_) => true,
    }
}

/// The capture that a preparation has in hand while it waits.
pub open spec fn capture_in_hand(step: PrepareStep) -> Option<AudioCaptureRef> {
    match step {
        PrepareStep::SchedulingDeadline { capture }
        | PrepareStep::ShowingHud { capture }
        | PrepareStep::CancellingCapture { capture, .. } => Some(capture),
        _ => None,
    }
}

/// Whether a preparation has in hand what it commands: its command closes a capture
/// exactly where it waits for that.
pub open spec fn commands(step: PrepareStep, session_id: SessionId, command: Command) -> bool {
    &&& command is CancelCapture <==> step is CancellingCapture || step is AbandoningCapture
    &&& step is CancellingCapture ==> command == Command::CancelCapture(
        step->CancellingCapture_capture,
    )
    &&& command is StartAudio <==> step is StartingAudio
    &&& step is StartingAudio ==> command == Command::StartAudio(session_id)
}

/// What one exchange of a preparation that runs alone does to its capture.
pub open spec fn preparation_goes_on(
    flow: PrepareFlow,
    told: Exchange,
    after: OrchestratorView,
    next: Next<PrepareFlow, PrepareResult>,
) -> bool {
    let session_id = flow.session_id;
    match next {
        Next::Await { flow: then, command } => {
            &&& then.session_id == session_id
            &&& preparation_is_alone(after, then)
            &&& commands(then.step, session_id, command)
            // An opened capture is in hand, and one in hand stays there until it is closed.
            &&& forall|capture: AudioCaptureRef|
                told == #[trigger] opening(session_id, capture) ==> capture_in_hand(then.step)
                    == Some(capture)
            &&& capture_in_hand(flow.step) is Some ==> capture_in_hand(then.step)
                == capture_in_hand(flow.step) || told == closing(
                capture_in_hand(flow.step)->0,
                Ok(()),
            )
            &&& forall|capture: AudioCaptureRef, error: PortError|
                told != #[trigger] closing(capture, Err(error))
        },
        Next::Done(result) => {
            &&& preparation_leaves(after, session_id, result)
            &&& forall|capture: AudioCaptureRef| told != #[trigger] opening(session_id, capture)
            &&& capture_in_hand(flow.step) is Some && result is Ok ==> result == Ok::<
                RecordingPreparation,
                OrchestratorError,
            >(RecordingPreparation::Ready(capture_in_hand(flow.step)->0))
            &&& capture_in_hand(flow.step) is None && result is Ok ==> result->Ok_0 !is Ready
            &&& result is Err ==> told == closing(
                capture_in_hand(flow.step)->0,
                Err(result->Err_0->AudioCleanupFailed_source),
            )
            &&& forall|capture: AudioCaptureRef, error: PortError|
                told == #[trigger] closing(capture, Err(error)) ==> result == Err::<
                    RecordingPreparation,
                    OrchestratorError,
                >(cleanup_error(session_id, "audio_cancel", error)) && owes_its_capture(
                    after,
                    session_id,
                    capture,
                    error,
                )
        },
    }
}

proof fn owing_and_settling_from_nothing(
    session_id: SessionId,
    capture: AudioCaptureRef,
    result: Result<(), PortError>,
)
    ensures
        without_debt(
            Seq::empty(),
            session_id,
            AudioCleanupResource::Capture(capture),
        ) == Seq::<AudioCleanupDebt>::empty(),
        result is Err ==> with_debt(
            Seq::empty(),
            capture_debt(session_id, capture, result->Err_0),
        ) == seq![capture_debt(session_id, capture, result->Err_0)],
{
    reveal(Seq::filter);
}

proof fn a_preparation_goes_on(o: OrchestratorView, flow: PrepareFlow, told: Exchange)
    requires
        preparation_is_alone(o, flow),
        commands(flow.step, flow.session_id, told.command),
        prepare_awaits(flow.step, told.reply),
    ensures
        preparation_goes_on(
            flow,
            told,
            prepare_step(o, flow, told.reply).after,
            prepare_step(o, flow, told.reply).next,
        ),
{
    match flow.step {
        PrepareStep::PlayingCue => {},
        PrepareStep::StartingAudio => {},
        PrepareStep::AbandoningCapture { .. } => {},
        PrepareStep::SchedulingDeadline { .. } => {},
        PrepareStep::ShowingHud { .. } => {},
        PrepareStep::CancellingCapture { capture, .. } => {
            owing_and_settling_from_nothing(flow.session_id, capture, told.reply->Acted_0);
            assert(told.reply->Acted_0->Ok_0 == ());
        },
        PrepareStep::HidingHud { .. } => {},
    }
}

/// Whether an exchange is among those of a start or of its preparation.
pub open spec fn was_told(told: Seq<Exchange>, exchange: Exchange) -> bool {
    told.contains(exchange)
}

proof fn told_at_first_or_later(told: Seq<Exchange>, exchange: Exchange)
    requires
        told.len() > 0,
    ensures
        was_told(told, exchange) <==> told[0] == exchange || was_told(told.drop_first(), exchange),
{
    let rest = told.drop_first();
    if was_told(told, exchange) {
        let i = choose|i: int| 0 <= i < told.len() && told[i] == exchange;
        if i > 0 {
            assert(rest[i - 1] == exchange);
        }
    }
    if was_told(rest, exchange) {
        let i = choose|i: int| 0 <= i < rest.len() && rest[i] == exchange;
        assert(told[i + 1] == exchange);
    }
}

proof fn a_preparation_gives_its_capture_back(
    o: OrchestratorView,
    flow: PrepareFlow,
    command: Command,
    told: Seq<Exchange>,
    after: OrchestratorView,
    result: PrepareResult,
    capture: AudioCaptureRef,
    error: PortError,
)
    requires
        preparation_is_alone(o, flow),
        commands(flow.step, flow.session_id, command),
        preparation_ends(o, flow, command, told, after, result),
    ensures
        preparation_leaves(after, flow.session_id, result),
        (capture_in_hand(flow.step) == Some(capture) || was_told(
            told,
            opening(flow.session_id, capture),
        )) && result is Ok ==> result == Ok::<RecordingPreparation, OrchestratorError>(
            RecordingPreparation::Ready(capture),
        ) || was_told(told, closing(capture, Ok(()))),
        result is Err ==> exists|held: AudioCaptureRef, source: PortError|
            was_told(told, #[trigger] closing(held, Err(source))),
        was_told(told, closing(capture, Err(error))) ==> result == Err::<
            RecordingPreparation,
            OrchestratorError,
        >(cleanup_error(flow.session_id, "audio_cancel", error)) && owes_its_capture(
            after,
            flow.session_id,
            capture,
            error,
        ),
    decreases told.len(),
{
    let session_id = flow.session_id;
    let rest = told.drop_first();
    a_preparation_goes_on(o, flow, told[0]);
    told_at_first_or_later(told, opening(session_id, capture));
    told_at_first_or_later(told, closing(capture, Ok(())));
    told_at_first_or_later(told, closing(capture, Err(error)));
    let step = prepare_step(o, flow, told[0].reply);
    match step.next {
        Next::Await { flow: then, command: next } => {
            a_preparation_gives_its_capture_back(
                step.after,
                then,
                next,
                rest,
                after,
                result,
                capture,
                error,
            );
            assert(told[0] != closing(capture, Err(error)));
            assert(told[0] == opening(session_id, capture) ==> capture_in_hand(then.step) == Some(
                capture,
            ));
            if result is Err {
                let (held, source) = choose|held: AudioCaptureRef, source: PortError|
                    was_told(rest, #[trigger] closing(held, Err(source)));
                told_at_first_or_later(told, closing(held, Err(source)));
            }
        },
        Next::Done(_) => {
            assert(told[0] != opening(session_id, capture));
            assert(told[0] == closing(capture, Err(error)) ==> result == Err::<
                RecordingPreparation,
                OrchestratorError,
            >(cleanup_error(session_id, "audio_cancel", error)) && owes_its_capture(
                after,
                session_id,
                capture,
                error,
            ));
            assert(rest =~= Seq::empty());
            if result is Err {
                let held = capture_in_hand(flow.step)->0;
                let source = result->Err_0->AudioCleanupFailed_source;
                told_at_first_or_later(told, closing(held, Err(source)));
            }
        },
    }
}

/// Whether a start is reserved for a session, which has nothing open yet.
pub open spec fn is_reserved_alone(o: OrchestratorView, session_id: SessionId) -> bool {
    &&& !o.quitting
    &&& o.starting == Some(session_id)
    &&& o.preparing is None
    &&& o.active is None
    &&& o.debts =~= Seq::empty()
}

/// What a start that runs alone meets at each of its steps.
pub open spec fn start_is_alone(o: OrchestratorView, flow: StartFlow) -> bool {
    let session_id = flow.session_id;
    match flow.step {
        StartStep::AcquiringGate | StartStep::Finishing => true,
        StartStep::LoadingSettings
        | StartStep::ResolvingRoute { .. }
        | StartStep::CapturingTarget { .. }
        | StartStep::ReadingSelection { .. }
        | StartStep::ReadingClipboardSelection { .. }
        | StartStep::RequestingMicrophone { .. } => is_reserved_alone(o, session_id),
        StartStep::Preparing { .. } => prepares_alone(
            o,
            session_id,
            PreparingStage::StartingAudio,
        ),
        StartStep::ReadingClock { capture, .. }
        | StartStep::AnnouncingRecording { capture, .. } => prepares_alone(
            o,
            session_id,
            PreparingStage::Capturing { capture },
        ),
        StartStep::CancellingCapture { capture, .. } => prepares_alone(
            o,
            session_id,
            PreparingStage::Cancelling { capture, in_flight: true },
        ),
        StartStep::HidingHud { .. } | StartStep::Notifying { .. } => is_idle(o),
    }
}

/// The capture that a start has in hand while it waits.
pub open spec fn start_in_hand(step: StartStep) -> Option<AudioCaptureRef> {
    match step {
        StartStep::ReadingClock { capture, .. }
        | StartStep::AnnouncingRecording { capture, .. }
        | StartStep::CancellingCapture { capture, .. } => Some(capture),
        _ => None,
    }
}

/// Whether a start has in hand what it commands: its command closes a capture exactly
/// where it waits for that, and asks for a preparation exactly where it waits for one.
pub open spec fn start_commands(step: StartStep, session_id: SessionId, command: Command) -> bool {
    &&& command is CancelCapture <==> step is CancellingCapture
    &&& step is CancellingCapture ==> command == Command::CancelCapture(
        step->CancellingCapture_capture,
    )
    &&& command is PrepareRecording <==> step is Preparing
    &&& step is Preparing ==> command->PrepareRecording_session_id == session_id
}

/// Whether a start was turned away or failed.
pub open spec fn is_refusal(result: StartResult) -> bool {
    result is Ok && (result->Ok_0 is Rejected || result->Ok_0 is Failed)
}

/// What one exchange of a start that runs alone does to its capture.
pub open spec fn start_goes_on(
    flow: StartFlow,
    told: Exchange,
    after: OrchestratorView,
    next: Next<StartFlow, StartResult>,
) -> bool {
    let session_id = flow.session_id;
    match next {
        Next::Await { flow: then, command } => {
            &&& then.session_id == session_id
            &&& start_is_alone(after, then)
            &&& start_commands(then.step, session_id, command)
            &&& start_in_hand(flow.step) is Some && then.step !is Finishing ==> start_in_hand(
                then.step,
            ) == start_in_hand(flow.step) || told == closing(start_in_hand(flow.step)->0, Ok(()))
            &&& forall|capture: AudioCaptureRef, error: PortError|
                told != #[trigger] closing(capture, Err(error))
        },
        Next::Done(result) => {
            &&& is_refusal(result) && flow.step !is Finishing ==> is_idle(after) && start_in_hand(
                flow.step,
            ) is None
            &&& flow.step is Finishing ==> !is_refusal(result)
            &&& forall|capture: AudioCaptureRef, error: PortError|
                told == #[trigger] closing(capture, Err(error)) ==> result == Err::<
                    StartOutcome,
                    OrchestratorError,
                >(cleanup_error(session_id, "audio_cancel", error)) && owes_its_capture(
                    after,
                    session_id,
                    capture,
                    error,
                )
        },
    }
}

proof fn a_start_goes_on_after_acquiring_gate(o: OrchestratorView, flow: StartFlow, told: Exchange)
    requires
        flow.step is AcquiringGate,
        start_is_alone(o, flow),
        start_commands(flow.step, flow.session_id, told.command),
        start_awaits(flow.step, told.reply),
    ensures
        start_goes_on(
            flow,
            told,
            start_step(o, flow, told.reply).after,
            start_step(o, flow, told.reply).next,
        ),
{
}

proof fn a_start_goes_on_after_loading_settings(
    o: OrchestratorView,
    flow: StartFlow,
    told: Exchange,
)
    requires
        flow.step is LoadingSettings,
        start_is_alone(o, flow),
        start_commands(flow.step, flow.session_id, told.command),
        start_awaits(flow.step, told.reply),
    ensures
        start_goes_on(
            flow,
            told,
            start_step(o, flow, told.reply).after,
            start_step(o, flow, told.reply).next,
        ),
{
}

proof fn a_start_goes_on_after_resolving_route(o: OrchestratorView, flow: StartFlow, told: Exchange)
    requires
        flow.step is ResolvingRoute,
        start_is_alone(o, flow),
        start_commands(flow.step, flow.session_id, told.command),
        start_awaits(flow.step, told.reply),
    ensures
        start_goes_on(
            flow,
            told,
            start_step(o, flow, told.reply).after,
            start_step(o, flow, told.reply).next,
        ),
{
}

proof fn a_start_goes_on_after_capturing_target(
    o: OrchestratorView,
    flow: StartFlow,
    told: Exchange,
)
    requires
        flow.step is CapturingTarget,
        start_is_alone(o, flow),
        start_commands(flow.step, flow.session_id, told.command),
        start_awaits(flow.step, told.reply),
    ensures
        start_goes_on(
            flow,
            told,
            start_step(o, flow, told.reply).after,
            start_step(o, flow, told.reply).next,
        ),
{
}

proof fn a_start_goes_on_after_reading_selection(
    o: OrchestratorView,
    flow: StartFlow,
    told: Exchange,
)
    requires
        flow.step is ReadingSelection,
        start_is_alone(o, flow),
        start_commands(flow.step, flow.session_id, told.command),
        start_awaits(flow.step, told.reply),
    ensures
        start_goes_on(
            flow,
            told,
            start_step(o, flow, told.reply).after,
            start_step(o, flow, told.reply).next,
        ),
{
}

proof fn a_start_goes_on_after_reading_clipboard_selection(
    o: OrchestratorView,
    flow: StartFlow,
    told: Exchange,
)
    requires
        flow.step is ReadingClipboardSelection,
        start_is_alone(o, flow),
        start_commands(flow.step, flow.session_id, told.command),
        start_awaits(flow.step, told.reply),
    ensures
        start_goes_on(
            flow,
            told,
            start_step(o, flow, told.reply).after,
            start_step(o, flow, told.reply).next,
        ),
{
}

proof fn a_start_goes_on_after_requesting_microphone(
    o: OrchestratorView,
    flow: StartFlow,
    told: Exchange,
)
    requires
        flow.step is RequestingMicrophone,
        start_is_alone(o, flow),
        start_commands(flow.step, flow.session_id, told.command),
        start_awaits(flow.step, told.reply),
    ensures
        start_goes_on(
            flow,
            told,
            start_step(o, flow, told.reply).after,
            start_step(o, flow, told.reply).next,
        ),
{
}

proof fn a_start_goes_on_after_preparing(o: OrchestratorView, flow: StartFlow, told: Exchange)
    requires
        flow.step is Preparing,
        preparation_leaves(o, flow.session_id, told.reply->recording),
        start_commands(flow.step, flow.session_id, told.command),
        start_awaits(flow.step, told.reply),
    ensures
        start_goes_on(
            flow,
            told,
            start_step(o, flow, told.reply).after,
            start_step(o, flow, told.reply).next,
        ),
        match told.reply->recording {
            Ok(RecordingPreparation::Ready(capture)) => match start_step(o, flow, told.reply).next {
                Next::Await { flow: then, .. } => start_in_hand(then.step) == Some(capture),
                Next::Done(_) => false,
            },
            Ok(_) => start_step(o, flow, told.reply).next is Done,
            Err(error) => start_step(o, flow, told.reply).next == Next::<
                StartFlow,
                StartResult,
            >::Done(Err(error)) && start_step(o, flow, told.reply).after == o,
        },
{
}

proof fn a_start_goes_on_after_reading_clock(o: OrchestratorView, flow: StartFlow, told: Exchange)
    requires
        flow.step is ReadingClock,
        start_is_alone(o, flow),
        start_commands(flow.step, flow.session_id, told.command),
        start_awaits(flow.step, told.reply),
    ensures
        start_goes_on(
            flow,
            told,
            start_step(o, flow, told.reply).after,
            start_step(o, flow, told.reply).next,
        ),
{
}

proof fn a_start_goes_on_after_announcing_recording(
    o: OrchestratorView,
    flow: StartFlow,
    told: Exchange,
)
    requires
        flow.step is AnnouncingRecording,
        start_is_alone(o, flow),
        start_commands(flow.step, flow.session_id, told.command),
        start_awaits(flow.step, told.reply),
    ensures
        start_goes_on(
            flow,
            told,
            start_step(o, flow, told.reply).after,
            start_step(o, flow, told.reply).next,
        ),
{
}

proof fn a_start_goes_on_after_cancelling_capture(
    o: OrchestratorView,
    flow: StartFlow,
    told: Exchange,
)
    requires
        flow.step is CancellingCapture,
        start_is_alone(o, flow),
        start_commands(flow.step, flow.session_id, told.command),
        start_awaits(flow.step, told.reply),
    ensures
        start_goes_on(
            flow,
            told,
            start_step(o, flow, told.reply).after,
            start_step(o, flow, told.reply).next,
        ),
{
    owing_and_settling_from_nothing(
        flow.session_id,
        flow.step->CancellingCapture_capture,
        told.reply->Acted_0,
    );
    assert(told.reply->Acted_0->Ok_0 == ());
}

proof fn a_start_goes_on_after_hiding_hud(o: OrchestratorView, flow: StartFlow, told: Exchange)
    requires
        flow.step is HidingHud,
        start_is_alone(o, flow),
        start_commands(flow.step, flow.session_id, told.command),
        start_awaits(flow.step, told.reply),
    ensures
        start_goes_on(
            flow,
            told,
            start_step(o, flow, told.reply).after,
            start_step(o, flow, told.reply).next,
        ),
{
}

proof fn a_start_goes_on_after_notifying(o: OrchestratorView, flow: StartFlow, told: Exchange)
    requires
        flow.step is Notifying,
        start_is_alone(o, flow),
        start_commands(flow.step, flow.session_id, told.command),
        start_awaits(flow.step, told.reply),
    ensures
        start_goes_on(
            flow,
            told,
            start_step(o, flow, told.reply).after,
            start_step(o, flow, told.reply).next,
        ),
{
}

proof fn a_start_goes_on_after_finishing(o: OrchestratorView, flow: StartFlow, told: Exchange)
    requires
        flow.step is Finishing,
        start_is_alone(o, flow),
        start_commands(flow.step, flow.session_id, told.command),
        start_awaits(flow.step, told.reply),
    ensures
        start_goes_on(
            flow,
            told,
            start_step(o, flow, told.reply).after,
            start_step(o, flow, told.reply).next,
        ),
{
}

proof fn a_start_goes_on(o: OrchestratorView, flow: StartFlow, told: Exchange)
    requires
        flow.step !is Preparing,
        start_is_alone(o, flow),
        start_commands(flow.step, flow.session_id, told.command),
        start_awaits(flow.step, told.reply),
    ensures
        start_goes_on(
            flow,
            told,
            start_step(o, flow, told.reply).after,
            start_step(o, flow, told.reply).next,
        ),
{
    match flow.step {
        StartStep::AcquiringGate => {
            a_start_goes_on_after_acquiring_gate(o, flow, told)
        },
        StartStep::LoadingSettings => {
            a_start_goes_on_after_loading_settings(o, flow, told)
        },
        StartStep::ResolvingRoute { .. } => {
            a_start_goes_on_after_resolving_route(o, flow, told)
        },
        StartStep::CapturingTarget { .. } => {
            a_start_goes_on_after_capturing_target(o, flow, told)
        },
        StartStep::ReadingSelection { .. } => {
            a_start_goes_on_after_reading_selection(o, flow, told)
        },
        StartStep::ReadingClipboardSelection { .. } => {
            a_start_goes_on_after_reading_clipboard_selection(o, flow, told)
        },
        StartStep::RequestingMicrophone { .. } => {
            a_start_goes_on_after_requesting_microphone(o, flow, told)
        },
        StartStep::Preparing { .. } => {},
        StartStep::ReadingClock { .. } => {
            a_start_goes_on_after_reading_clock(o, flow, told)
        },
        StartStep::AnnouncingRecording { .. } => {
            a_start_goes_on_after_announcing_recording(o, flow, told)
        },
        StartStep::CancellingCapture { .. } => {
            a_start_goes_on_after_cancelling_capture(o, flow, told)
        },
        StartStep::HidingHud { .. } => {
            a_start_goes_on_after_hiding_hud(o, flow, told)
        },
        StartStep::Notifying { .. } => {
            a_start_goes_on_after_notifying(o, flow, told)
        },
        StartStep::Finishing => {
            a_start_goes_on_after_finishing(o, flow, told)
        },
    }
}

/// Whether a preparation was asked for.
pub open spec fn asked_for_preparation(told: Seq<Exchange>) -> bool {
    exists|i: int| 0 <= i < told.len() && (#[trigger] told[i]).command is PrepareRecording
}

proof fn asked_at_first_or_later(told: Seq<Exchange>)
    requires
        told.len() > 0,
    ensures
        asked_for_preparation(told) <==> told[0].command is PrepareRecording
            || asked_for_preparation(told.drop_first()),
{
    let rest = told.drop_first();
    if asked_for_preparation(told) {
        let i = choose|i: int| 0 <= i < told.len() && (#[trigger] told[i]).command
            is PrepareRecording;
        if i > 0 {
            assert(rest[i - 1] == told[i]);
        }
    }
    if asked_for_preparation(rest) {
        let i = choose|i: int| 0 <= i < rest.len() && (#[trigger] rest[i]).command
            is PrepareRecording;
        assert(told[i + 1] == rest[i]);
    }
}

proof fn a_start_gives_what_it_has_in_hand_back(
    o: OrchestratorView,
    flow: StartFlow,
    command: Command,
    told: Seq<Exchange>,
    preparation: Preparation,
    after: OrchestratorView,
    result: StartResult,
    capture: AudioCaptureRef,
    error: PortError,
)
    requires
        start_is_alone(o, flow),
        start_commands(flow.step, flow.session_id, command),
        start_ends(o, flow, command, told, preparation, after, result),
    ensures
        is_refusal(result) ==> is_idle(after) && flow.step !is Finishing,
        is_refusal(result) && start_in_hand(flow.step) == Some(capture) ==> was_told(
            told,
            closing(capture, Ok(())),
        ),
        is_refusal(result) && asked_for_preparation(told) && was_told(
            preparation.told,
            opening(flow.session_id, capture),
        ) ==> was_told(preparation.told, closing(capture, Ok(()))) || was_told(
            told,
            closing(capture, Ok(())),
        ),
        was_told(told, closing(capture, Err(error))) || asked_for_preparation(told) && was_told(
            preparation.told,
            closing(capture, Err(error)),
        ) ==> result == Err::<StartOutcome, OrchestratorError>(
            cleanup_error(flow.session_id, "audio_cancel", error),
        ) && owes_its_capture(after, flow.session_id, capture, error),
    decreases told.len(),
{
    let session_id = flow.session_id;
    let rest = told.drop_first();
    told_at_first_or_later(told, closing(capture, Ok(())));
    told_at_first_or_later(told, closing(capture, Err(error)));
    asked_at_first_or_later(told);
    let met = if flow.step is Preparing {
        preparation.after
    } else {
        o
    };
    let step = start_step(met, flow, told[0].reply);
    if flow.step is Preparing {
        let recording = told[0].reply->recording;
        a_preparation_gives_its_capture_back(
            o,
            PrepareFlow {
                session_id,
                display_hint: command->PrepareRecording_display_hint,
                limit: command->PrepareRecording_limit,
                step: PrepareStep::PlayingCue,
            },
            Command::PlayCue(RecordingCue::Start),
            preparation.told,
            preparation.after,
            recording,
            capture,
            error,
        );
        a_start_goes_on_after_preparing(met, flow, told[0]);
    } else {
        a_start_goes_on(o, flow, told[0]);
    }
    match step.next {
        Next::Await { flow: then, command: next } => {
            a_start_gives_what_it_has_in_hand_back(
                step.after,
                then,
                next,
                rest,
                preparation,
                after,
                result,
                capture,
                error,
            );
            assert(told[0] != closing(capture, Err(error)));
        },
        Next::Done(_) => {
            assert(told[0] == closing(capture, Err(error)) ==> result == Err::<
                StartOutcome,
                OrchestratorError,
            >(cleanup_error(session_id, "audio_cancel", error)) && owes_its_capture(
                step.after,
                session_id,
                capture,
                error,
            ));
            assert(rest =~= Seq::empty());
        },
    }
}

/// A start that opened its capture and was then turned away or failed has closed that
/// capture, and leaves nothing running and nothing owed. Where closing it failed, the
/// start tells so and its session owes the capture.
pub proof fn a_start_gives_its_capture_back(
    o: OrchestratorView,
    session_id: SessionId,
    told: Seq<Exchange>,
    preparation: Preparation,
    after: OrchestratorView,
    result: StartResult,
    capture: AudioCaptureRef,
    error: PortError,
)
    requires
        start_ends(
            o,
            StartFlow { session_id, step: StartStep::AcquiringGate },
            Command::AcquireConfigurationGate,
            told,
            preparation,
            after,
            result,
        ),
        asked_for_preparation(told),
        was_told(preparation.told, opening(session_id, capture)),
    ensures
        is_refusal(result) ==> {
            &&& was_told(preparation.told, closing(capture, Ok(()))) || was_told(
                told,
                closing(capture, Ok(())),
            )
            &&& !after.has_work()
            &&& after.occupant() is None
        },
        was_told(preparation.told, closing(capture, Err(error))) || was_told(
            told,
            closing(capture, Err(error)),
        ) ==> {
            &&& result == Err::<StartOutcome, OrchestratorError>(
                cleanup_error(session_id, "audio_cancel", error),
            )
            &&& owes_its_capture(after, session_id, capture, error)
            &&& after.occupant() == Some(session_id)
        },
{
    a_start_gives_what_it_has_in_hand_back(
        o,
        StartFlow { session_id, step: StartStep::AcquiringGate },
        Command::AcquireConfigurationGate,
        told,
        preparation,
        after,
        result,
        capture,
        error,
    );
}

} // verus!
