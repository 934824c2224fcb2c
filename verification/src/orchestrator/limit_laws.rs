//! What the preparation of a recording hands on is what it was begun with and what it was
//! told: the session, the limit and the place on the screen are those that it was asked
//! for, and the capture is the one that was opened.

use crate::domain::{Seconds, SessionId, SettingsSnapshot};
use crate::orchestrator::opening_laws::{preparation_ends, start_ends, Exchange, Preparation};
use crate::orchestrator::prepare::{
    prepare_awaits, prepare_step, PreparationEnd, PrepareFlow, PrepareResult, PrepareStep,
};
use crate::orchestrator::protocol::{Command, Next, Reply};
use crate::orchestrator::start::{start_step, StartFlow, StartResult, StartStep};
use crate::orchestrator::state::{
    OrchestratorError, OrchestratorView, PreparingStage, RecordingPreparation,
};
use crate::ports::{
    AudioCaptureRef, PortError, RecordingCue, RecordingDeadlineGuard, TargetDisplayHint,
};
use vstd::prelude::*;

verus! {

/// What a preparation was asked for.
pub struct Asked {
    pub session_id: SessionId,
    pub display_hint: Option<TargetDisplayHint>,
    pub limit: Seconds,
}

/// What a preparation was told so far.
pub struct Met {
    pub capture: Option<AudioCaptureRef>,
    /// No capture could be opened.
    pub audio_failed: bool,
    pub deadline: Option<RecordingDeadlineGuard>,
    /// No deadline could be set.
    pub deadline_failed: bool,
    pub shown: bool,
    /// The HUD could not be shown.
    pub hud_failed: bool,
    /// The capture could not be closed.
    pub unclosed: Option<PortError>,
}

impl Met {
    pub open spec fn nothing() -> Met {
        Met {
            capture: None,
            audio_failed: false,
            deadline: None,
            deadline_failed: false,
            shown: false,
            hud_failed: false,
            unclosed: None,
        }
    }

    /// What is known once a command has been answered too.
    pub open spec fn and(self, command: Command, reply: Reply) -> Met {
        match reply {
            Reply::Capture(Ok(capture)) => Met { capture: Some(capture), ..self },
            Reply::Capture(Err(_)) => Met { audio_failed: true, ..self },
            Reply::Deadline(Ok(deadline)) => Met { deadline: Some(deadline), ..self },
            Reply::Deadline(Err(_)) => Met { deadline_failed: true, ..self },
            Reply::Acted(result) => match command {
                Command::ShowHud { .. } => if result is Ok {
                    Met { shown: true, ..self }
                } else {
                    Met { hud_failed: true, ..self }
                },
                Command::CancelCapture(_) => match result {
                    Ok(_) => self,
                    Err(error) => Met { unclosed: Some(error), ..self },
                },
                _ => self,
            },
            _ => self,
        }
    }
}

/// Whether a command of a preparation carries what was asked for and what was met.
pub open spec fn is_as_asked(
    command: Command,
    after: OrchestratorView,
    asked: Asked,
    met: Met,
) -> bool {
    match command {
        Command::StartAudio(session_id) => session_id == asked.session_id && met.capture is None,
        Command::ScheduleDeadline { session_id, limit } => {
            &&& session_id == asked.session_id
            &&& limit == asked.limit
            &&& met.capture is Some && met.deadline is None
            &&& after.preparing->0.stage == (PreparingStage::Capturing { capture: met.capture->0 })
        },
        Command::ShowHud { session_id, state, display_hint, limit } => {
            &&& session_id == asked.session_id
            &&& state is Preparing
            &&& display_hint == asked.display_hint
            &&& limit == asked.limit
            &&& met.deadline is Some
            &&& after.preparing->0.recording_deadline == met.deadline
        },
        Command::CancelCapture(capture) => met.capture == Some(capture),
        Command::HideHud(session_id) => session_id == asked.session_id,
        _ => false,
    }
}

/// Whether the end of a preparation says what has happened.
pub open spec fn is_the_end(result: PrepareResult, asked: Asked, met: Met) -> bool {
    match result {
        Ok(RecordingPreparation::Ready(capture)) => {
            &&& met.capture == Some(capture)
            &&& met.deadline is Some
            &&& met.shown
        },
        Ok(RecordingPreparation::FailedAudio) => met.audio_failed && met.capture is None,
        Ok(RecordingPreparation::FailedLifecycle) => met.deadline_failed && met.unclosed is None,
        Ok(RecordingPreparation::RejectedHud) => met.hud_failed && met.unclosed is None,
        Ok(RecordingPreparation::Aborted) => true,
        Err(error) => match error {
            OrchestratorError::AudioCleanupFailed { session_id, phase, source } => {
                &&& session_id == asked.session_id
                &&& phase@ == "audio_cancel"@
                &&& met.unclosed == Some(source)
            },
            _ => false,
        },
    }
}

/// Whether a preparation stands where what it met has brought it.
pub open spec fn preparation_stands(
    flow: PrepareFlow,
    command: Command,
    asked: Asked,
    met: Met,
) -> bool {
    &&& flow.session_id == asked.session_id
    &&& flow.display_hint == asked.display_hint
    &&& flow.limit == asked.limit
    &&& met.unclosed is None
    &&& match flow.step {
        PrepareStep::PlayingCue => {
            &&& command == Command::PlayCue(RecordingCue::Start)
            &&& met == Met::nothing()
        },
        PrepareStep::StartingAudio => command is StartAudio && met == Met::nothing(),
        PrepareStep::AbandoningCapture { capture } => {
            &&& command == Command::CancelCapture(capture)
            &&& met.capture == Some(capture)
        },
        PrepareStep::SchedulingDeadline { capture } => {
            &&& command is ScheduleDeadline
            &&& met.capture == Some(capture)
            &&& met.deadline is None
        },
        PrepareStep::ShowingHud { capture } => {
            &&& command is ShowHud
            &&& met.capture == Some(capture)
            &&& met.deadline is Some
        },
        PrepareStep::CancellingCapture { capture, end } => {
            &&& command == Command::CancelCapture(capture)
            &&& met.capture == Some(capture)
            &&& is_given_up_for(end, met)
        },
        PrepareStep::HidingHud { end } => {
            &&& command is HideHud
            &&& is_given_up_for(end, met)
        },
    }
}

/// Why a preparation was given up.
pub open spec fn is_given_up_for(end: PreparationEnd, met: Met) -> bool {
    match end {
        PreparationEnd::FailedLifecycle => met.deadline_failed,
        PreparationEnd::RejectedHud => met.hud_failed,
        PreparationEnd::Aborted => true,
    }
}

/// Every step of a preparation hands on what it was asked for and what it met: the
/// deadline and the HUD get the limit that the preparation was begun with, and the
/// capture that is closed or handed on is the one that was opened.
pub proof fn a_preparation_does_what_it_was_asked_for(
    o: OrchestratorView,
    flow: PrepareFlow,
    command: Command,
    reply: Reply,
    asked: Asked,
    met: Met,
)
    requires
        prepare_awaits(flow.step, reply),
        preparation_stands(flow, command, asked, met),
    ensures
        ({
            let step = prepare_step(o, flow, reply);
            let now = met.and(command, reply);
            match step.next {
                Next::Await { flow: after, command: next } => {
                    &&& preparation_stands(after, next, asked, now)
                    &&& is_as_asked(next, step.after, asked, now)
                },
                Next::Done(result) => is_the_end(result, asked, now),
            }
        }),
{
    match flow.step {
        PrepareStep::PlayingCue => {},
        PrepareStep::StartingAudio => {},
        PrepareStep::AbandoningCapture { .. } => {},
        PrepareStep::SchedulingDeadline { .. } => {},
        PrepareStep::ShowingHud { .. } => {},
        PrepareStep::CancellingCapture { .. } => {},
        PrepareStep::HidingHud { .. } => {},
    }
}

/// Whether every deadline and every HUD that is asked for gets a limit.
pub open spec fn all_limited(told: Seq<Exchange>, session_id: SessionId, limit: Seconds) -> bool {
    forall|i: int|
        0 <= i < told.len() ==> is_limited((#[trigger] told[i]).command, session_id, limit)
}

/// Whether a deadline or a HUD, where one is asked for, gets a limit.
pub open spec fn is_limited(command: Command, session_id: SessionId, limit: Seconds) -> bool {
    match command {
        Command::ScheduleDeadline { session_id: told, limit: set } => {
            &&& told == session_id
            &&& set == limit
        },
        Command::ShowHud { session_id: told, limit: set, .. } => {
            &&& told == session_id
            &&& set == limit
        },
        _ => true,
    }
}

proof fn a_preparation_keeps_its_limit(
    o: OrchestratorView,
    flow: PrepareFlow,
    command: Command,
    told: Seq<Exchange>,
    after: OrchestratorView,
    result: PrepareResult,
    asked: Asked,
    met: Met,
)
    requires
        preparation_ends(o, flow, command, told, after, result),
        preparation_stands(flow, command, asked, met),
        is_limited(command, asked.session_id, asked.limit),
    ensures
        all_limited(told, asked.session_id, asked.limit),
    decreases told.len(),
{
    let reply = told[0].reply;
    let rest = told.drop_first();
    a_preparation_does_what_it_was_asked_for(o, flow, command, reply, asked, met);
    let step = prepare_step(o, flow, reply);
    match step.next {
        Next::Await { flow: then, command: next } => {
            let now = met.and(command, reply);
            a_preparation_keeps_its_limit(
                step.after,
                then,
                next,
                rest,
                after,
                result,
                asked,
                now,
            );
        },
        Next::Done(_) => {},
    }
    assert forall|i: int| 0 <= i < told.len() implies is_limited(
        (#[trigger] told[i]).command,
        asked.session_id,
        asked.limit,
    ) by {
        if i > 0 {
            assert(told[i] == rest[i - 1]);
        }
    }
}

/// Where a start stands, as far as the settings that it loaded go.
pub open spec fn start_has_loaded(
    step: StartStep,
    command: Command,
    session_id: SessionId,
    loaded: SettingsSnapshot,
) -> bool {
    match step {
        StartStep::AcquiringGate | StartStep::LoadingSettings => false,
        StartStep::ResolvingRoute { settings }
        | StartStep::CapturingTarget { settings, .. }
        | StartStep::ReadingSelection { settings, .. }
        | StartStep::ReadingClipboardSelection { settings, .. }
        | StartStep::RequestingMicrophone { settings, .. } => {
            &&& settings == loaded
            &&& !(command is PrepareRecording)
        },
        StartStep::Preparing { .. } => match command {
            Command::PrepareRecording { session_id: told, limit, .. } => {
                &&& told == session_id
                &&& limit == loaded.input.max_recording_duration
            },
            _ => false,
        },
        _ => !(command is PrepareRecording),
    }
}

proof fn a_start_keeps_what_it_loaded(
    o: OrchestratorView,
    flow: StartFlow,
    command: Command,
    reply: Reply,
    loaded: SettingsSnapshot,
)
    requires
        start_has_loaded(flow.step, command, flow.session_id, loaded),
    ensures
        match start_step(o, flow, reply).next {
            Next::Await { flow: after, command: next } => {
                &&& after.session_id == flow.session_id
                &&& start_has_loaded(after.step, next, flow.session_id, loaded)
            },
            Next::Done(_) => true,
        },
{
    match flow.step {
        StartStep::ResolvingRoute { .. } => {},
        StartStep::CapturingTarget { .. } => {},
        StartStep::ReadingSelection { .. } => {},
        StartStep::ReadingClipboardSelection { .. } => {},
        StartStep::RequestingMicrophone { .. } => {},
        StartStep::Preparing { .. } => {},
        StartStep::ReadingClock { .. } => {},
        StartStep::AnnouncingRecording { .. } => {},
        StartStep::CancellingCapture { .. } => {},
        StartStep::HidingHud { .. } => {},
        StartStep::Notifying { .. } => {},
        StartStep::Finishing => {},
        _ => {},
    }
}

/// Whether a recording was prepared for.
pub open spec fn has_prepared(told: Seq<Exchange>) -> bool {
    exists|i: int| 0 <= i < told.len() && (#[trigger] told[i]).command is PrepareRecording
}

proof fn a_loaded_start_keeps_the_limit(
    o: OrchestratorView,
    flow: StartFlow,
    command: Command,
    told: Seq<Exchange>,
    preparation: Preparation,
    after: OrchestratorView,
    result: StartResult,
    loaded: SettingsSnapshot,
)
    requires
        start_ends(o, flow, command, told, preparation, after, result),
        start_has_loaded(flow.step, command, flow.session_id, loaded),
        has_prepared(told),
    ensures
        all_limited(preparation.told, flow.session_id, loaded.input.max_recording_duration),
    decreases told.len(),
{
    let reply = told[0].reply;
    let rest = told.drop_first();
    if flow.step is Preparing {
        match command {
            Command::PrepareRecording { session_id, display_hint, limit, .. } => {
                let begun = PrepareFlow {
                    session_id,
                    display_hint,
                    limit,
                    step: PrepareStep::PlayingCue,
                };
                a_preparation_keeps_its_limit(
                    o,
                    begun,
                    Command::PlayCue(RecordingCue::Start),
                    preparation.told,
                    preparation.after,
                    reply->recording,
                    Asked { session_id, display_hint, limit },
                    Met::nothing(),
                );
            },
            _ => {},
        }
    } else {
        a_start_keeps_what_it_loaded(o, flow, command, reply, loaded);
        let i = choose|i: int|
            0 <= i < told.len() && (#[trigger] told[i]).command is PrepareRecording;
        assert(i > 0);
        assert(rest[i - 1] == told[i]);
        let step = start_step(o, flow, reply);
        match step.next {
            Next::Await { flow: then, command: next } => {
                a_loaded_start_keeps_the_limit(
                    step.after,
                    then,
                    next,
                    rest,
                    preparation,
                    after,
                    result,
                    loaded,
                );
            },
            Next::Done(_) => {},
        }
    }
}

/// Over every start that comes to prepare a recording, the deadline is set to the longest
/// recording that the settings allow which that start has loaded, and the HUD counts down
/// from it.
pub proof fn a_start_limits_the_recording_as_its_settings_say(
    o: OrchestratorView,
    session_id: SessionId,
    settings: SettingsSnapshot,
    told: Seq<Exchange>,
    preparation: Preparation,
    after: OrchestratorView,
    result: StartResult,
)
    requires
        start_ends(
            o,
            StartFlow { session_id, step: StartStep::LoadingSettings },
            Command::LoadSettings,
            told,
            preparation,
            after,
            result,
        ),
        told[0].reply == Reply::Settings(Ok(settings)),
        has_prepared(told),
    ensures
        all_limited(preparation.told, session_id, settings.input.max_recording_duration),
{
    let flow = StartFlow { session_id, step: StartStep::LoadingSettings };
    let step = start_step(o, flow, told[0].reply);
    let rest = told.drop_first();
    let i = choose|i: int| 0 <= i < told.len() && (#[trigger] told[i]).command is PrepareRecording;
    assert(i > 0);
    match step.next {
        Next::Await { flow: then, command: next } => {
            assert(rest[i - 1] == told[i]);
            a_loaded_start_keeps_the_limit(
                step.after,
                then,
                next,
                rest,
                preparation,
                after,
                result,
                settings,
            );
        },
        Next::Done(_) => {},
    }
}

} // verus!
