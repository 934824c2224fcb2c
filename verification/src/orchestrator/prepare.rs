//! Preparing a recording: the cue, the capture, the deadline and the HUD. A
//! preparation that loses its place closes what it has opened.

use crate::asr_route::{resolve_asr_route, spec_asr_route, ResolvedAsrRoute};
use crate::domain::{AsrPreference, Seconds, SessionId};
use crate::orchestrator::cancel::{capture_settled, settlement};
use crate::orchestrator::protocol::{
    acted, failure, note_failure, note_result, noted, stop_deadline, stopping, Command, Effect,
    Move, Next, Progress, Reply,
};
use crate::orchestrator::state::{
    OrchestratorError, OrchestratorView, PreparingStage, PreparingWorkflow, RecordingPreparation,
    TranscriptionOrchestrator,
};
use crate::ports::{
    AudioCaptureRef, EngineHealth, PortError, RecordingCue, RecordingDeadlineGuard,
    RecordingHudState, TargetDisplayHint,
};
use vstd::prelude::*;

verus! {

/// What a cancelled preparation is told as.
#[derive(Clone, Copy, Debug, PartialEq, Eq, Structural)]
pub enum PreparationEnd {
    FailedLifecycle,
    RejectedHud,
    Aborted,
}

impl PreparationEnd {
    pub open spec fn told(self) -> RecordingPreparation {
        match self {
            PreparationEnd::FailedLifecycle => RecordingPreparation::FailedLifecycle,
            PreparationEnd::RejectedHud => RecordingPreparation::RejectedHud,
            PreparationEnd::Aborted => RecordingPreparation::Aborted,
        }
    }

    fn tell(self) -> (r: RecordingPreparation)
        ensures
            r == self.told(),
    {
        match self {
            PreparationEnd::FailedLifecycle => RecordingPreparation::FailedLifecycle,
            PreparationEnd::RejectedHud => RecordingPreparation::RejectedHud,
            PreparationEnd::Aborted => RecordingPreparation::Aborted,
        }
    }
}

/// How far a preparation has come.
#[derive(PartialEq, Eq)]
pub enum PrepareStep {
    PlayingCue,
    StartingAudio,
    AbandoningCapture { capture: AudioCaptureRef },
    SchedulingDeadline { capture: AudioCaptureRef },
    ShowingHud { capture: AudioCaptureRef },
    CancellingCapture { capture: AudioCaptureRef, end: PreparationEnd },
    HidingHud { end: PreparationEnd },
}

/// A preparation under way.
#[derive(PartialEq, Eq)]
pub struct PrepareFlow {
    pub session_id: SessionId,
    pub display_hint: Option<TargetDisplayHint>,
    pub limit: Seconds,
    pub step: PrepareStep,
}

pub type PrepareResult = Result<RecordingPreparation, OrchestratorError>;

pub type PrepareMove = Move<PrepareFlow, PrepareResult>;

impl OrchestratorView {
    /// Whether the session in preparation may open its capture.
    pub open spec fn opens_audio(self, session_id: SessionId) -> bool {
        !self.quitting && self.prepares(session_id) && self.preparing->0.stage is StartingAudio
    }
}

pub open spec fn prepare_end(o: OrchestratorView, result: PrepareResult) -> PrepareMove {
    Move { after: o, effects: Seq::empty(), next: Next::Done(result) }
}

pub open spec fn prepare_wait(
    o: OrchestratorView,
    flow: PrepareFlow,
    step: PrepareStep,
    command: Command,
) -> PrepareMove {
    Move {
        after: o,
        effects: Seq::empty(),
        next: Next::Await { flow: PrepareFlow { step, ..flow }, command },
    }
}

/// The HUD disappears before the preparation is over.
pub open spec fn prepare_hiding(
    o: OrchestratorView,
    flow: PrepareFlow,
    end: PreparationEnd,
) -> PrepareMove {
    prepare_wait(o, flow, PrepareStep::HidingHud { end }, Command::HideHud(flow.session_id))
}

/// A preparation that still owns its capture closes it first; one that does not
/// has nothing to close.
pub open spec fn prepare_giving_up(
    o: OrchestratorView,
    flow: PrepareFlow,
    capture: AudioCaptureRef,
    end: PreparationEnd,
) -> PrepareMove {
    if o.captures(flow.session_id, capture) {
        prepare_wait(
            o.prepared_to(PreparingStage::Cancelling { capture, in_flight: true }),
            flow,
            PrepareStep::CancellingCapture { capture, end },
            Command::CancelCapture(capture),
        )
    } else {
        prepare_hiding(o, flow, PreparationEnd::Aborted)
    }
}

/// The start cue has ended before the capture opens.
pub open spec fn prepare_on_cue(o: OrchestratorView, flow: PrepareFlow) -> PrepareMove {
    if o.opens_audio(flow.session_id) {
        prepare_wait(
            o,
            flow,
            PrepareStep::StartingAudio,
            Command::StartAudio(flow.session_id),
        )
    } else {
        prepare_end(o, Ok(RecordingPreparation::Aborted))
    }
}

pub open spec fn prepare_on_capture(
    o: OrchestratorView,
    flow: PrepareFlow,
    result: Result<AudioCaptureRef, PortError>,
) -> PrepareMove {
    let session_id = flow.session_id;
    match result {
        Err(error) => prepare_end(
            o.unprepared(session_id),
            Ok(
                if o.prepares(session_id) {
                    RecordingPreparation::FailedAudio
                } else {
                    RecordingPreparation::Aborted
                },
            ),
        ).following(seq![failure(session_id, "audio_start", error)] + o.unpreparing(session_id)),
        Ok(capture) => if o.opens_audio(session_id) {
            prepare_wait(
                o.prepared_to(PreparingStage::Capturing { capture }),
                flow,
                PrepareStep::SchedulingDeadline { capture },
                Command::ScheduleDeadline { session_id, limit: flow.limit },
            )
        } else {
            prepare_wait(
                o,
                flow,
                PrepareStep::AbandoningCapture { capture },
                Command::CancelCapture(capture),
            )
        },
    }
}

pub open spec fn prepare_on_abandoned(
    o: OrchestratorView,
    flow: PrepareFlow,
    capture: AudioCaptureRef,
    result: Result<(), PortError>,
) -> PrepareMove {
    let session_id = flow.session_id;
    let after = capture_settled(o, session_id, capture, result);
    (match settlement(session_id, "audio_cancel", result) {
        Err(error) => prepare_end(after, Err(error)),
        Ok(_) => prepare_hiding(after, flow, PreparationEnd::Aborted),
    }).following(noted(session_id, "audio_cancel", result))
}

pub open spec fn prepare_on_deadline(
    o: OrchestratorView,
    flow: PrepareFlow,
    capture: AudioCaptureRef,
    result: Result<RecordingDeadlineGuard, PortError>,
) -> PrepareMove {
    let session_id = flow.session_id;
    match result {
        Err(error) => prepare_giving_up(
            o,
            flow,
            capture,
            PreparationEnd::FailedLifecycle,
        ).following(seq![failure(session_id, "recording_deadline", error)]),
        Ok(deadline) => if o.captures(session_id, capture) {
            prepare_wait(
                OrchestratorView {
                    preparing: Some(
                        PreparingWorkflow {
                            recording_deadline: Some(deadline),
                            ..o.preparing->0
                        },
                    ),
                    ..o
                },
                flow,
                PrepareStep::ShowingHud { capture },
                Command::ShowHud {
                    session_id,
                    state: RecordingHudState::Preparing,
                    display_hint: flow.display_hint,
                    limit: flow.limit,
                },
            ).following(stopping(o.preparing->0.recording_deadline))
        } else {
            prepare_hiding(o, flow, PreparationEnd::Aborted).following(
                seq![Effect::CancelDeadline(deadline)],
            )
        },
    }
}

pub open spec fn prepare_on_shown(
    o: OrchestratorView,
    flow: PrepareFlow,
    capture: AudioCaptureRef,
    result: Result<(), PortError>,
) -> PrepareMove {
    (match result {
        Err(_) => prepare_giving_up(o, flow, capture, PreparationEnd::RejectedHud),
        Ok(_) => if o.captures(flow.session_id, capture) {
            prepare_end(o, Ok(RecordingPreparation::Ready(capture)))
        } else {
            prepare_hiding(o, flow, PreparationEnd::Aborted)
        },
    }).following(noted(flow.session_id, "recording_hud_show", result))
}

/// A capture that could not be closed keeps the session's place.
pub open spec fn prepare_on_cancelled(
    o: OrchestratorView,
    flow: PrepareFlow,
    capture: AudioCaptureRef,
    end: PreparationEnd,
    result: Result<(), PortError>,
) -> PrepareMove {
    let session_id = flow.session_id;
    let after = capture_settled(o, session_id, capture, result);
    match settlement(session_id, "audio_cancel", result) {
        Err(error) => prepare_end(
            after.with_cleanup_in_flight(session_id, false),
            Err(error),
        ).following(noted(session_id, "audio_cancel", result)),
        Ok(_) => prepare_hiding(after.unprepared(session_id), flow, end).following(
            after.unpreparing(session_id),
        ),
    }
}

/// Whether a reply is what a preparation waits for.
pub open spec fn prepare_awaits(step: PrepareStep, reply: Reply) -> bool {
    match step {
        PrepareStep::StartingAudio => reply is Capture,
        PrepareStep::SchedulingDeadline { .. } => reply is Deadline,
        _ => reply is Acted,
    }
}

/// The whole preparation, one answer at a time.
pub open spec fn prepare_step(o: OrchestratorView, flow: PrepareFlow, reply: Reply) -> PrepareMove {
    match flow.step {
        PrepareStep::PlayingCue => prepare_on_cue(o, flow).following(
            noted(flow.session_id, "recording_cue", reply->Acted_0),
        ),
        PrepareStep::StartingAudio => prepare_on_capture(o, flow, reply->Capture_0),
        PrepareStep::AbandoningCapture { capture } => prepare_on_abandoned(
            o,
            flow,
            capture,
            reply->Acted_0,
        ),
        PrepareStep::SchedulingDeadline { capture } => prepare_on_deadline(
            o,
            flow,
            capture,
            reply->Deadline_0,
        ),
        PrepareStep::ShowingHud { capture } => prepare_on_shown(o, flow, capture, reply->Acted_0),
        PrepareStep::CancellingCapture { capture, end } => prepare_on_cancelled(
            o,
            flow,
            capture,
            end,
            reply->Acted_0,
        ),
        PrepareStep::HidingHud { end } => prepare_end(o, Ok(end.told())).following(
            noted(flow.session_id, "recording_hud_hide", reply->Acted_0),
        ),
    }
}

/// How a preparation begins: with the start cue.
pub fn begin_preparation(
    session_id: SessionId,
    display_hint: Option<TargetDisplayHint>,
    limit: Seconds,
) -> (r: (PrepareFlow, Command))
    ensures
        r.0 == (PrepareFlow { session_id, display_hint, limit, step: PrepareStep::PlayingCue }),
        r.1 == Command::PlayCue(RecordingCue::Start),
{
    (
        PrepareFlow { session_id, display_hint, limit, step: PrepareStep::PlayingCue },
        Command::PlayCue(RecordingCue::Start),
    )
}

/// The health that a check found; a check that failed found the engine unhealthy.
pub open spec fn found_health(result: Result<EngineHealth, PortError>) -> EngineHealth {
    match result {
        Ok(health) => health,
        Err(_) => EngineHealth::Unhealthy,
    }
}

/// The route for a session that is still starting. Only the preferred engine is
/// ever checked; the other one counts as missing.
pub open spec fn route_found(
    o: OrchestratorView,
    session_id: SessionId,
    preference: AsrPreference,
    result: Result<EngineHealth, PortError>,
) -> Option<ResolvedAsrRoute> {
    let health = found_health(result);
    if !o.reserved(session_id) {
        None
    } else {
        match spec_asr_route(
            preference,
            if preference == AsrPreference::Qwen {
                health
            } else {
                EngineHealth::Missing
            },
            if preference == AsrPreference::Whisper {
                health
            } else {
                EngineHealth::Missing
            },
        ) {
            Ok(route) => Some(route),
            Err(_) => None,
        }
    }
}

/// Which engine is checked for a preference.
pub fn engine_to_check(preference: AsrPreference) -> (r: Command)
    ensures
        r == Command::CheckEngine(preference.spec_engine()),
{
    Command::CheckEngine(preference.engine())
}

impl TranscriptionOrchestrator {
    /// Takes in what a health check found.
    pub fn resolve_route(
        &self,
        session_id: SessionId,
        preference: AsrPreference,
        result: Result<EngineHealth, PortError>,
    ) -> (r: (Option<ResolvedAsrRoute>, Vec<Effect>))
        ensures
            r.0 == route_found(self@, session_id, preference, result),
            r.1@ == (match result {
                Ok(_) => Seq::empty(),
                Err(error) => seq![failure(session_id, "asr_health", error)],
            }),
    {
        let mut effects: Vec<Effect> = Vec::new();
        let health = match result {
            Ok(health) => health,
            Err(error) => {
                note_failure(&mut effects, session_id, "asr_health", &error);
                EngineHealth::Unhealthy
            },
        };
        if !self.start_reservation_is_current(session_id) {
            return (None, effects);
        }
        let (qwen_health, whisper_health) = match preference {
            AsrPreference::Qwen => (health, EngineHealth::Missing),
            AsrPreference::Whisper => (EngineHealth::Missing, health),
        };
        match resolve_asr_route(preference, qwen_health, whisper_health) {
            Ok(route) => (Some(route), effects),
            Err(_) => (None, effects),
        }
    }

    fn opens_audio(&self, session_id: SessionId) -> (r: bool)
        ensures
            r == self@.opens_audio(session_id),
    {
        self.is_current_preparing_start(session_id)
    }

    fn hide_preparation(&self, flow: PrepareFlow, end: PreparationEnd) -> (next: Next<
        PrepareFlow,
        PrepareResult,
    >)
        ensures
            next == prepare_hiding(self@, flow, end).next,
    {
        let command = Command::HideHud(flow.session_id);
        Next::Await { flow: PrepareFlow { step: PrepareStep::HidingHud { end }, ..flow }, command }
    }

    fn give_up_preparation(
        &mut self,
        flow: PrepareFlow,
        capture: AudioCaptureRef,
        end: PreparationEnd,
    ) -> (next: Next<PrepareFlow, PrepareResult>)
        ensures
            next == prepare_giving_up(old(self)@, flow, capture, end).next,
            final(self)@ == prepare_giving_up(old(self)@, flow, capture, end).after,
    {
        if !self.claim_preparing_capture(flow.session_id, &capture) {
            return self.hide_preparation(flow, PreparationEnd::Aborted);
        }
        let command = Command::CancelCapture(capture.clone());
        Next::Await {
            flow: PrepareFlow { step: PrepareStep::CancellingCapture { capture, end }, ..flow },
            command,
        }
    }

    fn prepare_with_capture(
        &mut self,
        flow: PrepareFlow,
        result: Result<AudioCaptureRef, PortError>,
        effects: &mut Vec<Effect>,
    ) -> (next: Next<PrepareFlow, PrepareResult>)
        ensures
            next == prepare_on_capture(old(self)@, flow, result).next,
            final(self)@ == prepare_on_capture(old(self)@, flow, result).after,
            final(effects)@ == old(effects)@ + prepare_on_capture(
                old(self)@,
                flow,
                result,
            ).effects,
    {
        let session_id = flow.session_id;
        match result {
            Err(error) => {
                note_failure(effects, session_id, "audio_start", &error);
                if self.remove_preparing_if_current(session_id, effects) {
                    Next::Done(Ok(RecordingPreparation::FailedAudio))
                } else {
                    Next::Done(Ok(RecordingPreparation::Aborted))
                }
            },
            Ok(capture) => {
                if self.set_preparing_capture_if_current(session_id, capture.clone()) {
                    let limit = flow.limit;
                    Next::Await {
                        flow: PrepareFlow {
                            step: PrepareStep::SchedulingDeadline { capture },
                            ..flow
                        },
                        command: Command::ScheduleDeadline { session_id, limit },
                    }
                } else {
                    let command = Command::CancelCapture(capture.clone());
                    Next::Await {
                        flow: PrepareFlow {
                            step: PrepareStep::AbandoningCapture { capture },
                            ..flow
                        },
                        command,
                    }
                }
            },
        }
    }

    fn prepare_with_deadline(
        &mut self,
        flow: PrepareFlow,
        capture: AudioCaptureRef,
        result: Result<RecordingDeadlineGuard, PortError>,
        effects: &mut Vec<Effect>,
    ) -> (next: Next<PrepareFlow, PrepareResult>)
        ensures
            next == prepare_on_deadline(old(self)@, flow, capture, result).next,
            final(self)@ == prepare_on_deadline(old(self)@, flow, capture, result).after,
            final(effects)@ == old(effects)@ + prepare_on_deadline(
                old(self)@,
                flow,
                capture,
                result,
            ).effects,
    {
        let session_id = flow.session_id;
        match result {
            Err(error) => {
                note_failure(effects, session_id, "recording_deadline", &error);
                self.give_up_preparation(flow, capture, PreparationEnd::FailedLifecycle)
            },
            Ok(deadline) => {
                match self.set_preparing_deadline_if_current(session_id, &capture, deadline) {
                    Ok(replaced) => {
                        stop_deadline(effects, replaced);
                        let command = Command::ShowHud {
                            session_id,
                            state: RecordingHudState::Preparing,
                            display_hint: flow.display_hint,
                            limit: flow.limit,
                        };
                        Next::Await {
                            flow: PrepareFlow { step: PrepareStep::ShowingHud { capture }, ..flow },
                            command,
                        }
                    },
                    Err(deadline) => {
                        effects.push(Effect::CancelDeadline(deadline));
                        self.hide_preparation(flow, PreparationEnd::Aborted)
                    },
                }
            },
        }
    }

    fn prepare_with_hud(
        &mut self,
        flow: PrepareFlow,
        capture: AudioCaptureRef,
        result: Result<(), PortError>,
        effects: &mut Vec<Effect>,
    ) -> (next: Next<PrepareFlow, PrepareResult>)
        ensures
            next == prepare_on_shown(old(self)@, flow, capture, result).next,
            final(self)@ == prepare_on_shown(old(self)@, flow, capture, result).after,
            final(effects)@ == old(effects)@ + prepare_on_shown(
                old(self)@,
                flow,
                capture,
                result,
            ).effects,
    {
        note_result(effects, flow.session_id, "recording_hud_show", &result);
        if result.is_err() {
            return self.give_up_preparation(flow, capture, PreparationEnd::RejectedHud);
        }
        if self.is_current_preparing_capture(flow.session_id, &capture) {
            Next::Done(Ok(RecordingPreparation::Ready(capture)))
        } else {
            self.hide_preparation(flow, PreparationEnd::Aborted)
        }
    }

    fn prepare_with_cancelled(
        &mut self,
        flow: PrepareFlow,
        capture: AudioCaptureRef,
        end: PreparationEnd,
        result: Result<(), PortError>,
        effects: &mut Vec<Effect>,
    ) -> (next: Next<PrepareFlow, PrepareResult>)
        ensures
            next == prepare_on_cancelled(old(self)@, flow, capture, end, result).next,
            final(self)@ == prepare_on_cancelled(old(self)@, flow, capture, end, result).after,
            final(effects)@ == old(effects)@ + prepare_on_cancelled(
                old(self)@,
                flow,
                capture,
                end,
                result,
            ).effects,
    {
        let session_id = flow.session_id;
        match self.settle_capture(session_id, capture, result, effects) {
            Err(error) => {
                self.set_audio_cleanup_in_flight_if_current(session_id, false);
                Next::Done(Err(error))
            },
            Ok(_) => {
                let _ = self.remove_preparing_if_current(session_id, effects);
                self.hide_preparation(flow, end)
            },
        }
    }

    /// Goes on with a preparation.
    pub fn resume_preparation(&mut self, flow: PrepareFlow, reply: Reply) -> (r: Progress<
        PrepareFlow,
        PrepareResult,
    >)
        requires
            prepare_awaits(flow.step, reply),
        ensures
            r.effects@ == prepare_step(old(self)@, flow, reply).effects,
            r.next == prepare_step(old(self)@, flow, reply).next,
            final(self)@ == prepare_step(old(self)@, flow, reply).after,
    {
        let session_id = flow.session_id;
        let display_hint = flow.display_hint;
        let limit = flow.limit;
        let mut effects: Vec<Effect> = Vec::new();
        let rest = PrepareFlow { session_id, display_hint, limit, step: PrepareStep::PlayingCue };
        let next = match flow.step {
            PrepareStep::PlayingCue => {
                note_result(&mut effects, session_id, "recording_cue", &acted(reply));
                if self.opens_audio(session_id) {
                    Next::Await {
                        flow: PrepareFlow { step: PrepareStep::StartingAudio, ..rest },
                        command: Command::StartAudio(session_id),
                    }
                } else {
                    Next::Done(Ok(RecordingPreparation::Aborted))
                }
            },
            PrepareStep::StartingAudio => {
                let result = match reply {
                    Reply::Capture(result) => result,
                    _ => vstd::pervasive::unreached(),
                };
                self.prepare_with_capture(rest, result, &mut effects)
            },
            PrepareStep::AbandoningCapture { capture } => {
                match self.settle_capture(session_id, capture, acted(reply), &mut effects) {
                    Err(error) => Next::Done(Err(error)),
                    Ok(_) => self.hide_preparation(rest, PreparationEnd::Aborted),
                }
            },
            PrepareStep::SchedulingDeadline { capture } => {
                let result = match reply {
                    Reply::Deadline(result) => result,
                    _ => vstd::pervasive::unreached(),
                };
                self.prepare_with_deadline(rest, capture, result, &mut effects)
            },
            PrepareStep::ShowingHud { capture } => self.prepare_with_hud(
                rest,
                capture,
                acted(reply),
                &mut effects,
            ),
            PrepareStep::CancellingCapture { capture, end } => self.prepare_with_cancelled(
                rest,
                capture,
                end,
                acted(reply),
                &mut effects,
            ),
            PrepareStep::HidingHud { end } => {
                note_result(&mut effects, session_id, "recording_hud_hide", &acted(reply));
                Next::Done(Ok(end.tell()))
            },
        };
        Progress { effects, next }
    }
}

} // verus!
