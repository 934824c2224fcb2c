//! What cancelling, trying a cleanup again and quitting leave on record: each failure under
//! the name of what failed and with its own code, and nothing else.

use crate::domain::SessionId;
use crate::orchestrator::cancel::{cancel_step, CancelFlow, CancelStep};
use crate::orchestrator::departure_laws::{cancellation_stands, retry_stands};
use crate::orchestrator::protocol::{Command, Effect, Reply};
use crate::orchestrator::quit::{quit_awaits, quit_step, QuitFlow, QuitStep};
use crate::orchestrator::report_laws::{
    closing_phase, failure_is_recorded, failure_of, lets_go, records,
};
use crate::orchestrator::retry::{retry_step, RetryFlow, RetryStep};
use crate::orchestrator::state::{AudioCleanupResource, OrchestratorView};
use vstd::prelude::*;

verus! {

/// Whether a step leaves its failure on record, if it had one, and else only lets go of
/// what the session held.
pub open spec fn reports_alone(
    effects: Seq<Effect>,
    o: OrchestratorView,
    session_id: SessionId,
    name: Seq<char>,
    reply: Reply,
) -> bool {
    &&& failure_is_recorded(effects, session_id, name, reply)
    &&& forall|i: int|
        0 <= i < effects.len() ==> match #[trigger] effects[i] {
            Effect::Record(_) => failure_of(reply) is Some && records(
                effects[i],
                session_id,
                name,
                failure_of(reply)->0,
            ),
            _ => lets_go(effects[i], session_id, o),
        }
}

/// The name under which a cleanup is recorded where it fails.
pub open spec fn resource_phase(resource: AudioCleanupResource) -> Seq<char> {
    match resource {
        AudioCleanupResource::Capture(_) => "audio_cancel"@,
        AudioCleanupResource::Finalized(_) => "audio_cleanup"@,
    }
}

/// A cancellation leaves on record what failed.
pub proof fn a_cancellation_reports_what_has_happened(
    o: OrchestratorView,
    flow: CancelFlow,
    command: Command,
    reply: Reply,
)
    requires
        reply is Acted,
        cancellation_stands(flow, command),
    ensures
        reports_alone(
            cancel_step(o, flow, reply).effects,
            o,
            flow.session_id,
            match flow.step {
                CancelStep::ClosingCapture { .. } => "audio_cancel"@,
                CancelStep::PlayingCue { .. } => "recording_cue"@,
                CancelStep::HidingPreparation => "recording_hud_hide"@,
                CancelStep::ClosingSession { closing, .. } => closing_phase(closing),
            },
            reply,
        ),
{
    match flow.step {
        CancelStep::ClosingCapture { .. } => {},
        CancelStep::PlayingCue { .. } => {},
        CancelStep::HidingPreparation => {},
        CancelStep::ClosingSession { .. } => {},
    }
}

/// A retry leaves on record what failed.
pub proof fn a_retry_reports_what_has_happened(
    o: OrchestratorView,
    flow: RetryFlow,
    command: Command,
    reply: Reply,
)
    requires
        reply is Acted,
        retry_stands(flow, command),
    ensures
        reports_alone(
            retry_step(o, flow, reply).effects,
            o,
            flow.session_id,
            match flow.step {
                RetryStep::CleaningUp { resource } => resource_phase(resource),
                RetryStep::HidingPreparation => "recording_hud_hide"@,
                RetryStep::ClosingSession { closing } => closing_phase(closing),
            },
            reply,
        ),
{
    match flow.step {
        RetryStep::CleaningUp { .. } => {},
        RetryStep::HidingPreparation => {},
        RetryStep::ClosingSession { .. } => {},
    }
}

/// The session that a step of an exit is about.
pub open spec fn session_of(step: QuitStep) -> Option<SessionId> {
    match step {
        QuitStep::ClosingCapture { session_id, .. }
        | QuitStep::CancellingTranscription { session_id, .. }
        | QuitStep::RemovingAudio { session_id, .. }
        | QuitStep::CancellingProcessing { session_id }
        | QuitStep::HidingHud { session_id } => Some(session_id),
        QuitStep::SettlingDebts { debt, .. } => Some(debt.session_id),
        QuitStep::DrainingOperations | QuitStep::DrainingLifecycle => None,
    }
}

/// An exit leaves on record what failed, for the session that it concerns.
pub proof fn an_exit_reports_what_has_happened(
    o: OrchestratorView,
    flow: QuitFlow,
    reply: Reply,
    session_id: SessionId,
)
    requires
        quit_awaits(flow.step, reply),
        session_of(flow.step) is Some ==> session_of(flow.step) == Some(session_id),
    ensures
        reports_alone(
            quit_step(o, flow, reply).effects,
            o,
            session_id,
            match flow.step {
                QuitStep::ClosingCapture { .. } => "audio_cancel"@,
                QuitStep::CancellingTranscription { .. } => "asr_cancel"@,
                QuitStep::RemovingAudio { .. } => "audio_cleanup"@,
                QuitStep::CancellingProcessing { .. } => "llm_cancel"@,
                QuitStep::HidingHud { .. } => "recording_hud_hide"@,
                QuitStep::SettlingDebts { debt, .. } => resource_phase(debt.resource),
                QuitStep::DrainingOperations | QuitStep::DrainingLifecycle => ""@,
            },
            reply,
        ),
{
    match flow.step {
        QuitStep::ClosingCapture { .. } => {},
        QuitStep::CancellingTranscription { .. } => {},
        QuitStep::RemovingAudio { .. } => {},
        QuitStep::CancellingProcessing { .. } => {},
        QuitStep::HidingHud { .. } => {},
        QuitStep::DrainingOperations => {},
        QuitStep::DrainingLifecycle => {},
        QuitStep::SettlingDebts { .. } => {},
    }
}

} // verus!
