//! What a workflow leaves on record is what has happened: a failure under the name of what
//! failed and with its own code, a decision for the reason that led to it, and nothing of
//! another session.

use crate::domain::{RequestId, SessionId};
use crate::orchestrator::cancel::CancelStep;
use crate::orchestrator::closing::{Closing, ClosingStep};
use crate::orchestrator::deliver::{deliver_awaits, deliver_step, DeliverStep};
use crate::orchestrator::finish::{
    finish_awaits, finish_on_recognized, finish_step, FinishFlow, FinishStep,
};
use crate::orchestrator::prepare::{prepare_awaits, prepare_step, PrepareFlow, PrepareStep};
use crate::orchestrator::protocol::{Effect, Reply};
use crate::orchestrator::start::{start_awaits, start_step, StartFlow, StartStep};
use crate::orchestrator::state::{ActiveContext, OrchestratorView};
use crate::ports::{
    AsrResult, InsertOutcome, LlmRouteResolution, PortError, TargetSecurity,
    UserDirectedPasteOutcome,
};
use crate::text::blank;
use crate::trace::{Decision, Diagnostic};
use vstd::prelude::*;

verus! {

/// The failure that an answer tells of, if it does.
pub open spec fn failure_of(reply: Reply) -> Option<PortError> {
    match reply {
        Reply::Acted(Err(error)) => Some(error),
        Reply::Settings(Err(error)) => Some(error),
        Reply::LlmRoute(LlmRouteResolution::Unavailable { error, .. }) => Some(error),
        Reply::Target(Err(error)) => Some(error),
        Reply::Selection(Err(error)) => Some(error),
        Reply::Microphone(Err(error)) => Some(error),
        Reply::Capture(Err(error)) => Some(error),
        Reply::Deadline(Err(error)) => Some(error),
        Reply::Audio(Err(error)) => Some(error),
        Reply::Revalidation(Err(error)) => Some(error),
        Reply::Insertion(Err(error)) => Some(error),
        Reply::Paste(Err(error)) => Some(error),
        _ => None,
    }
}

/// Whether an effect is the record of a failure during a phase.
pub open spec fn records(
    effect: Effect,
    session: SessionId,
    name: Seq<char>,
    error: PortError,
) -> bool {
    match effect {
        Effect::Record(Diagnostic::PortFailed { session_id, phase, code }) => {
            &&& session_id == session
            &&& phase@ == name
            &&& code == error.code
        },
        _ => false,
    }
}

/// Whether a failure, if there was one, stands first on record, under its name.
pub open spec fn failure_is_recorded(
    effects: Seq<Effect>,
    session_id: SessionId,
    name: Seq<char>,
    reply: Reply,
) -> bool {
    failure_of(reply) is Some ==> effects.len() > 0 && records(
        effects[0],
        session_id,
        name,
        failure_of(reply)->0,
    )
}

/// Whether a session lets go of its own lifecycle or deadline.
pub open spec fn lets_go(effect: Effect, session_id: SessionId, o: OrchestratorView) -> bool {
    match effect {
        Effect::InvalidateLifecycle(ended) => ended == session_id,
        Effect::CancelDeadline(guard) => {
            ||| o.active is Some && o.active->0.recording_deadline == Some(guard)
            ||| o.preparing is Some && o.preparing->0.recording_deadline == Some(guard)
        },
        _ => false,
    }
}

/// The name under which the end of a session is recorded where it fails.
pub open spec fn closing_phase(closing: Closing) -> Seq<char> {
    match closing.step {
        ClosingStep::Publishing => "recording_hud_publish_terminal"@,
        ClosingStep::Hiding => "recording_hud_hide"@,
        ClosingStep::Notifying => "user_notification"@,
    }
}

/// The name under which a step of a delivery is recorded where it fails.
pub open spec fn delivery_phase(step: DeliverStep) -> Seq<char> {
    match step {
        DeliverStep::Announcing { .. }
        | DeliverStep::AnnouncingFinalization { .. }
        | DeliverStep::AnnouncingCompletion { .. } => "recording_hud_update"@,
        DeliverStep::Revalidating { .. } => "target_revalidate"@,
        DeliverStep::Inserting { .. } => "output_insert"@,
        DeliverStep::RevalidatingBridge { .. } => "clipboard_target_revalidate"@,
        DeliverStep::PastingAtTarget { .. } => "clipboard_insert"@,
        DeliverStep::PastingAtFocus { .. } => "user_directed_paste"@,
        DeliverStep::ShowingTemporary { .. } => "temporary_text"@,
        DeliverStep::Copying { .. } => "finalize_auto_copy"@,
        DeliverStep::Saving { .. } => "history_save"@,
        DeliverStep::ClosingSession { closing, .. } => closing_phase(closing),
        DeliverStep::IssuingId { .. } | DeliverStep::ReadingClock { .. } => ""@,
    }
}

/// Whether a decision on the way of a delivery was taken for its reason.
pub open spec fn is_decided_for(decision: Decision, step: DeliverStep, reply: Reply) -> bool {
    let allowed = match step {
        DeliverStep::Announcing { delivery, .. }
        | DeliverStep::Revalidating { delivery }
        | DeliverStep::Inserting { delivery }
        | DeliverStep::RevalidatingBridge { delivery } => {
            delivery.context.settings.input.clipboard_bridge_allowed
        },
        _ => true,
    };
    match decision {
        Decision::TemporaryForced => step is Announcing && step->Announcing_forced is Some,
        Decision::NoVerifiableTarget => {
            &&& step is Announcing && step->Announcing_forced is None
            &&& step->Announcing_delivery.context.target_security != TargetSecurity::Safe
        },
        Decision::Inserted => step is Inserting && reply == Reply::Insertion(
            Ok(InsertOutcome::Inserted),
        ),
        Decision::NotInserted => step is Inserting && reply == Reply::Insertion(
            Ok(InsertOutcome::NotInserted),
        ),
        Decision::InsertionIndeterminate => step is Inserting && reply == Reply::Insertion(
            Ok(InsertOutcome::Indeterminate),
        ),
        Decision::InsertionFailed { code } => {
            &&& step is Inserting && reply->Insertion_0 is Err
            &&& code == reply->Insertion_0->Err_0.code
        },
        Decision::TargetLost => {
            &&& step is Revalidating && reply->Revalidation_0 is Ok
            &&& !(reply->Revalidation_0->Ok_0 is Valid)
        },
        Decision::RevalidationFailed { code } => {
            &&& step is Revalidating && reply->Revalidation_0 is Err
            &&& code == reply->Revalidation_0->Err_0.code
        },
        Decision::BridgeForbidden => step is Inserting && !allowed,
        Decision::BridgeTargetLost => {
            &&& step is RevalidatingBridge && reply->Revalidation_0 is Ok
            &&& !(reply->Revalidation_0->Ok_0 is Valid)
        },
        Decision::BridgeRevalidationFailed { code } => {
            &&& step is RevalidatingBridge && reply->Revalidation_0 is Err
            &&& code == reply->Revalidation_0->Err_0.code
        },
        Decision::BridgeInserted => step is PastingAtTarget && reply == Reply::Insertion(
            Ok(InsertOutcome::Inserted),
        ),
        Decision::BridgeNotInserted => step is PastingAtTarget && reply == Reply::Insertion(
            Ok(InsertOutcome::NotInserted),
        ),
        Decision::BridgeIndeterminate => step is PastingAtTarget && reply == Reply::Insertion(
            Ok(InsertOutcome::Indeterminate),
        ),
        Decision::BridgeFailed { code } => {
            &&& step is PastingAtTarget && reply->Insertion_0 is Err
            &&& code == reply->Insertion_0->Err_0.code
        },
        Decision::PasteForbidden => !allowed && (step is Announcing || step is Revalidating
            || step is RevalidatingBridge),
        Decision::PasteDispatched => step is PastingAtFocus && reply == Reply::Paste(
            Ok(UserDirectedPasteOutcome::Dispatched),
        ),
        Decision::PasteNotDispatched => step is PastingAtFocus && reply == Reply::Paste(
            Ok(UserDirectedPasteOutcome::NotDispatched),
        ),
        Decision::PasteIndeterminate => step is PastingAtFocus && reply == Reply::Paste(
            Ok(UserDirectedPasteOutcome::Indeterminate),
        ),
        Decision::PasteFailed { code } => {
            &&& step is PastingAtFocus && reply->Paste_0 is Err
            &&& code == reply->Paste_0->Err_0.code
        },
        Decision::CaptureFailed { .. } | Decision::TargetCaptured { .. } => false,
    }
}

/// Whether a delivery that closes a session closes its own.
pub open spec fn delivery_closes_itself(step: DeliverStep, session_id: SessionId) -> bool {
    match step {
        DeliverStep::ClosingSession { closing, .. } => closing.session_id == session_id,
        _ => true,
    }
}

/// Whether a finish workflow that closes a session closes its own.
pub open spec fn finish_closes_itself(step: FinishStep, session_id: SessionId) -> bool {
    match step {
        FinishStep::CancellingEmptyCapture { step } => match step {
            CancelStep::ClosingSession { closing, .. } => closing.session_id == session_id,
            _ => true,
        },
        FinishStep::ClosingSession { closing, .. } => closing.session_id == session_id,
        _ => true,
    }
}

/// Whether what a delivery leaves behind is what has happened.
pub open spec fn delivery_reports(
    effects: Seq<Effect>,
    o: OrchestratorView,
    session_id: SessionId,
    step: DeliverStep,
    reply: Reply,
) -> bool {
    &&& failure_is_recorded(effects, session_id, delivery_phase(step), reply)
    &&& forall|i: int|
        0 <= i < effects.len() ==> match #[trigger] effects[i] {
            Effect::Record(_) => {
                &&& failure_of(reply) is Some
                &&& records(effects[i], session_id, delivery_phase(step), failure_of(reply)->0)
            },
            Effect::Trace(decision) => is_decided_for(decision, step, reply),
            _ => lets_go(effects[i], session_id, o),
        }
}

proof fn a_delivery_reports_after_issuing_id(
    o: OrchestratorView,
    session_id: SessionId,
    step: DeliverStep,
    reply: Reply,
)
    requires
        step is IssuingId,
        deliver_awaits(step, reply),
        delivery_closes_itself(step, session_id),
    ensures
        delivery_reports(
            deliver_step(o, session_id, step, reply).effects,
            o,
            session_id,
            step,
            reply,
        ),
{
}

proof fn a_delivery_reports_after_announcing(
    o: OrchestratorView,
    session_id: SessionId,
    step: DeliverStep,
    reply: Reply,
)
    requires
        step is Announcing,
        deliver_awaits(step, reply),
        delivery_closes_itself(step, session_id),
    ensures
        delivery_reports(
            deliver_step(o, session_id, step, reply).effects,
            o,
            session_id,
            step,
            reply,
        ),
{
}

proof fn a_delivery_reports_after_revalidating(
    o: OrchestratorView,
    session_id: SessionId,
    step: DeliverStep,
    reply: Reply,
)
    requires
        step is Revalidating,
        deliver_awaits(step, reply),
        delivery_closes_itself(step, session_id),
    ensures
        delivery_reports(
            deliver_step(o, session_id, step, reply).effects,
            o,
            session_id,
            step,
            reply,
        ),
{
}

proof fn a_delivery_reports_after_inserting(
    o: OrchestratorView,
    session_id: SessionId,
    step: DeliverStep,
    reply: Reply,
)
    requires
        step is Inserting,
        deliver_awaits(step, reply),
        delivery_closes_itself(step, session_id),
    ensures
        delivery_reports(
            deliver_step(o, session_id, step, reply).effects,
            o,
            session_id,
            step,
            reply,
        ),
{
}

proof fn a_delivery_reports_after_revalidating_bridge(
    o: OrchestratorView,
    session_id: SessionId,
    step: DeliverStep,
    reply: Reply,
)
    requires
        step is RevalidatingBridge,
        deliver_awaits(step, reply),
        delivery_closes_itself(step, session_id),
    ensures
        delivery_reports(
            deliver_step(o, session_id, step, reply).effects,
            o,
            session_id,
            step,
            reply,
        ),
{
}

proof fn a_delivery_reports_after_pasting_at_target(
    o: OrchestratorView,
    session_id: SessionId,
    step: DeliverStep,
    reply: Reply,
)
    requires
        step is PastingAtTarget,
        deliver_awaits(step, reply),
        delivery_closes_itself(step, session_id),
    ensures
        delivery_reports(
            deliver_step(o, session_id, step, reply).effects,
            o,
            session_id,
            step,
            reply,
        ),
{
}

proof fn a_delivery_reports_after_pasting_at_focus(
    o: OrchestratorView,
    session_id: SessionId,
    step: DeliverStep,
    reply: Reply,
)
    requires
        step is PastingAtFocus,
        deliver_awaits(step, reply),
        delivery_closes_itself(step, session_id),
    ensures
        delivery_reports(
            deliver_step(o, session_id, step, reply).effects,
            o,
            session_id,
            step,
            reply,
        ),
{
}

proof fn a_delivery_reports_after_showing_temporary(
    o: OrchestratorView,
    session_id: SessionId,
    step: DeliverStep,
    reply: Reply,
)
    requires
        step is ShowingTemporary,
        deliver_awaits(step, reply),
        delivery_closes_itself(step, session_id),
    ensures
        delivery_reports(
            deliver_step(o, session_id, step, reply).effects,
            o,
            session_id,
            step,
            reply,
        ),
{
}

proof fn a_delivery_reports_after_announcing_finalization(
    o: OrchestratorView,
    session_id: SessionId,
    step: DeliverStep,
    reply: Reply,
)
    requires
        step is AnnouncingFinalization,
        deliver_awaits(step, reply),
        delivery_closes_itself(step, session_id),
    ensures
        delivery_reports(
            deliver_step(o, session_id, step, reply).effects,
            o,
            session_id,
            step,
            reply,
        ),
{
}

proof fn a_delivery_reports_after_copying(
    o: OrchestratorView,
    session_id: SessionId,
    step: DeliverStep,
    reply: Reply,
)
    requires
        step is Copying,
        deliver_awaits(step, reply),
        delivery_closes_itself(step, session_id),
    ensures
        delivery_reports(
            deliver_step(o, session_id, step, reply).effects,
            o,
            session_id,
            step,
            reply,
        ),
{
}

proof fn a_delivery_reports_after_reading_clock(
    o: OrchestratorView,
    session_id: SessionId,
    step: DeliverStep,
    reply: Reply,
)
    requires
        step is ReadingClock,
        deliver_awaits(step, reply),
        delivery_closes_itself(step, session_id),
    ensures
        delivery_reports(
            deliver_step(o, session_id, step, reply).effects,
            o,
            session_id,
            step,
            reply,
        ),
{
}

proof fn a_delivery_reports_after_saving(
    o: OrchestratorView,
    session_id: SessionId,
    step: DeliverStep,
    reply: Reply,
)
    requires
        step is Saving,
        deliver_awaits(step, reply),
        delivery_closes_itself(step, session_id),
    ensures
        delivery_reports(
            deliver_step(o, session_id, step, reply).effects,
            o,
            session_id,
            step,
            reply,
        ),
{
}

proof fn a_delivery_reports_after_announcing_completion(
    o: OrchestratorView,
    session_id: SessionId,
    step: DeliverStep,
    reply: Reply,
)
    requires
        step is AnnouncingCompletion,
        deliver_awaits(step, reply),
        delivery_closes_itself(step, session_id),
    ensures
        delivery_reports(
            deliver_step(o, session_id, step, reply).effects,
            o,
            session_id,
            step,
            reply,
        ),
{
}

proof fn a_delivery_reports_after_closing_session(
    o: OrchestratorView,
    session_id: SessionId,
    step: DeliverStep,
    reply: Reply,
)
    requires
        step is ClosingSession,
        deliver_awaits(step, reply),
        delivery_closes_itself(step, session_id),
    ensures
        delivery_reports(
            deliver_step(o, session_id, step, reply).effects,
            o,
            session_id,
            step,
            reply,
        ),
{
}

/// A delivery leaves on record what failed, under its name and with its code, and every
/// decision for the reason that led to it.
pub proof fn a_delivery_reports_what_has_happened(
    o: OrchestratorView,
    session_id: SessionId,
    step: DeliverStep,
    reply: Reply,
)
    requires
        deliver_awaits(step, reply),
        delivery_closes_itself(step, session_id),
    ensures
        delivery_reports(
            deliver_step(o, session_id, step, reply).effects,
            o,
            session_id,
            step,
            reply,
        ),
{
    match step {
        DeliverStep::IssuingId { .. } => {
            a_delivery_reports_after_issuing_id(o, session_id, step, reply);
        },
        DeliverStep::Announcing { .. } => {
            a_delivery_reports_after_announcing(o, session_id, step, reply);
        },
        DeliverStep::Revalidating { .. } => {
            a_delivery_reports_after_revalidating(o, session_id, step, reply);
        },
        DeliverStep::Inserting { .. } => {
            a_delivery_reports_after_inserting(o, session_id, step, reply);
        },
        DeliverStep::RevalidatingBridge { .. } => {
            a_delivery_reports_after_revalidating_bridge(o, session_id, step, reply);
        },
        DeliverStep::PastingAtTarget { .. } => {
            a_delivery_reports_after_pasting_at_target(o, session_id, step, reply);
        },
        DeliverStep::PastingAtFocus { .. } => {
            a_delivery_reports_after_pasting_at_focus(o, session_id, step, reply);
        },
        DeliverStep::ShowingTemporary { .. } => {
            a_delivery_reports_after_showing_temporary(o, session_id, step, reply);
        },
        DeliverStep::AnnouncingFinalization { .. } => {
            a_delivery_reports_after_announcing_finalization(o, session_id, step, reply);
        },
        DeliverStep::Copying { .. } => {
            a_delivery_reports_after_copying(o, session_id, step, reply);
        },
        DeliverStep::ReadingClock { .. } => {
            a_delivery_reports_after_reading_clock(o, session_id, step, reply);
        },
        DeliverStep::Saving { .. } => {
            a_delivery_reports_after_saving(o, session_id, step, reply);
        },
        DeliverStep::AnnouncingCompletion { .. } => {
            a_delivery_reports_after_announcing_completion(o, session_id, step, reply);
        },
        DeliverStep::ClosingSession { .. } => {
            a_delivery_reports_after_closing_session(o, session_id, step, reply);
        },
    }
}

/// The name under which a step of a preparation is recorded where it fails.
pub open spec fn preparation_phase(step: PrepareStep) -> Seq<char> {
    match step {
        PrepareStep::PlayingCue => "recording_cue"@,
        PrepareStep::StartingAudio => "audio_start"@,
        PrepareStep::AbandoningCapture { .. } | PrepareStep::CancellingCapture { .. } => {
            "audio_cancel"@
        },
        PrepareStep::SchedulingDeadline { .. } => "recording_deadline"@,
        PrepareStep::ShowingHud { .. } => "recording_hud_show"@,
        PrepareStep::HidingHud { .. } => "recording_hud_hide"@,
    }
}

/// A preparation leaves on record what failed, under its name and with its code.
pub proof fn a_preparation_reports_what_has_happened(
    o: OrchestratorView,
    flow: PrepareFlow,
    reply: Reply,
    i: int,
)
    requires
        prepare_awaits(flow.step, reply),
    ensures
        ({
            let effects = prepare_step(o, flow, reply).effects;
            let name = preparation_phase(flow.step);
            &&& failure_is_recorded(effects, flow.session_id, name, reply)
            &&& 0 <= i < effects.len() ==> match effects[i] {
                Effect::Record(_) => {
                    &&& failure_of(reply) is Some
                    &&& records(effects[i], flow.session_id, name, failure_of(reply)->0)
                },
                Effect::CancelDeadline(guard) => {
                    ||| reply == Reply::Deadline(Ok(guard))
                    ||| lets_go(effects[i], flow.session_id, o)
                },
                _ => lets_go(effects[i], flow.session_id, o),
            }
        }),
{
    match flow.step {
        PrepareStep::PlayingCue => {},
        PrepareStep::StartingAudio => {},
        PrepareStep::AbandoningCapture { .. } => {},
        PrepareStep::SchedulingDeadline { .. } => {},
        PrepareStep::ShowingHud { .. } => {},
        PrepareStep::CancellingCapture { .. } => {},
        PrepareStep::HidingHud { .. } => {},
    }
}

/// The name under which a step of a start is recorded where it fails. A selection that the
/// clipboard may still help out with has a name of its own.
pub open spec fn start_phase(step: StartStep) -> Seq<char> {
    match step {
        StartStep::LoadingSettings => "preparing"@,
        StartStep::ResolvingRoute { .. } => "llm_route"@,
        StartStep::CapturingTarget { .. } => "target_capture"@,
        StartStep::ReadingSelection { settings, .. } => {
            if settings.input.clipboard_bridge_allowed {
                "selection_read_native"@
            } else {
                "selection_read"@
            }
        },
        StartStep::ReadingClipboardSelection { .. } => "selection_read"@,
        StartStep::RequestingMicrophone { .. } => "microphone_permission"@,
        StartStep::AnnouncingRecording { .. } => "recording_hud_update_ready"@,
        StartStep::CancellingCapture { .. } => "audio_cancel"@,
        StartStep::HidingHud { .. } => "recording_hud_hide"@,
        StartStep::Notifying { .. } => "user_notification"@,
        _ => ""@,
    }
}

/// Whether what a start leaves behind is what has happened.
pub open spec fn start_reports(
    effects: Seq<Effect>,
    o: OrchestratorView,
    flow: StartFlow,
    reply: Reply,
) -> bool {
    let session_id = flow.session_id;
    let name = start_phase(flow.step);
    // A start that has lost its place does not say any more what it was told.
    let placed = !o.quitting && (o.starting == Some(session_id) || o.preparing is Some
        && o.preparing->0.session_id == session_id);
    let silent = flow.step is CapturingTarget || flow.step is ReadingSelection || flow.step
        is ReadingClipboardSelection || flow.step is RequestingMicrophone;
    &&& placed || !silent ==> failure_is_recorded(effects, session_id, name, reply)
    &&& forall|i: int|
        0 <= i < effects.len() ==> match #[trigger] effects[i] {
            Effect::Record(_) => {
                &&& failure_of(reply) is Some
                &&& records(effects[i], session_id, name, failure_of(reply)->0)
            },
            Effect::Trace(Decision::CaptureFailed { code }) => {
                &&& flow.step is CapturingTarget && reply->Target_0 is Err
                &&& code == reply->Target_0->Err_0.code
            },
            Effect::Trace(Decision::TargetCaptured { security, has_selection }) => {
                &&& flow.step is CapturingTarget && reply->Target_0 is Ok
                &&& security == reply->Target_0->Ok_0.security
                &&& has_selection == reply->Target_0->Ok_0.has_selection
            },
            Effect::Trace(_) => false,
            Effect::OpenLifecycle(opened) => {
                opened == session_id && flow.step is RequestingMicrophone
            },
            Effect::ReleaseConfigurationGate => {
                flow.step is LoadingSettings || flow.step is ResolvingRoute
            },
            Effect::MarkSession => false,
            _ => lets_go(effects[i], session_id, o),
        }
}

proof fn a_start_reports_after_acquiring_gate(o: OrchestratorView, flow: StartFlow, reply: Reply)
    requires
        flow.step is AcquiringGate,
        start_awaits(flow.step, reply),
    ensures
        start_reports(start_step(o, flow, reply).effects, o, flow, reply),
{
}

proof fn a_start_reports_after_loading_settings(o: OrchestratorView, flow: StartFlow, reply: Reply)
    requires
        flow.step is LoadingSettings,
        start_awaits(flow.step, reply),
    ensures
        start_reports(start_step(o, flow, reply).effects, o, flow, reply),
{
}

proof fn a_start_reports_after_resolving_route(o: OrchestratorView, flow: StartFlow, reply: Reply)
    requires
        flow.step is ResolvingRoute,
        start_awaits(flow.step, reply),
    ensures
        start_reports(start_step(o, flow, reply).effects, o, flow, reply),
{
}

proof fn a_start_reports_after_capturing_target(o: OrchestratorView, flow: StartFlow, reply: Reply)
    requires
        flow.step is CapturingTarget,
        start_awaits(flow.step, reply),
    ensures
        start_reports(start_step(o, flow, reply).effects, o, flow, reply),
{
}

proof fn a_start_reports_after_reading_selection(o: OrchestratorView, flow: StartFlow, reply: Reply)
    requires
        flow.step is ReadingSelection,
        start_awaits(flow.step, reply),
    ensures
        start_reports(start_step(o, flow, reply).effects, o, flow, reply),
{
}

proof fn a_start_reports_after_reading_clipboard_selection(
    o: OrchestratorView,
    flow: StartFlow,
    reply: Reply,
)
    requires
        flow.step is ReadingClipboardSelection,
        start_awaits(flow.step, reply),
    ensures
        start_reports(start_step(o, flow, reply).effects, o, flow, reply),
{
}

proof fn a_start_reports_after_requesting_microphone(
    o: OrchestratorView,
    flow: StartFlow,
    reply: Reply,
)
    requires
        flow.step is RequestingMicrophone,
        start_awaits(flow.step, reply),
    ensures
        start_reports(start_step(o, flow, reply).effects, o, flow, reply),
{
}

proof fn a_start_reports_after_preparing(o: OrchestratorView, flow: StartFlow, reply: Reply)
    requires
        flow.step is Preparing,
        start_awaits(flow.step, reply),
    ensures
        start_reports(start_step(o, flow, reply).effects, o, flow, reply),
{
}

proof fn a_start_reports_after_reading_clock(o: OrchestratorView, flow: StartFlow, reply: Reply)
    requires
        flow.step is ReadingClock,
        start_awaits(flow.step, reply),
    ensures
        start_reports(start_step(o, flow, reply).effects, o, flow, reply),
{
}

proof fn a_start_reports_after_announcing_recording(
    o: OrchestratorView,
    flow: StartFlow,
    reply: Reply,
)
    requires
        flow.step is AnnouncingRecording,
        start_awaits(flow.step, reply),
    ensures
        start_reports(start_step(o, flow, reply).effects, o, flow, reply),
{
}

proof fn a_start_reports_after_cancelling_capture(
    o: OrchestratorView,
    flow: StartFlow,
    reply: Reply,
)
    requires
        flow.step is CancellingCapture,
        start_awaits(flow.step, reply),
    ensures
        start_reports(start_step(o, flow, reply).effects, o, flow, reply),
{
}

proof fn a_start_reports_after_hiding_hud(o: OrchestratorView, flow: StartFlow, reply: Reply)
    requires
        flow.step is HidingHud,
        start_awaits(flow.step, reply),
    ensures
        start_reports(start_step(o, flow, reply).effects, o, flow, reply),
{
}

proof fn a_start_reports_after_notifying(o: OrchestratorView, flow: StartFlow, reply: Reply)
    requires
        flow.step is Notifying,
        start_awaits(flow.step, reply),
    ensures
        start_reports(start_step(o, flow, reply).effects, o, flow, reply),
{
}

proof fn a_start_reports_after_finishing(o: OrchestratorView, flow: StartFlow, reply: Reply)
    requires
        flow.step is Finishing,
        start_awaits(flow.step, reply),
    ensures
        start_reports(start_step(o, flow, reply).effects, o, flow, reply),
{
}

/// A start leaves on record what failed, under its name and with its code, and what it made
/// of the target.
pub proof fn a_start_reports_what_has_happened(o: OrchestratorView, flow: StartFlow, reply: Reply)
    requires
        start_awaits(flow.step, reply),
    ensures
        start_reports(start_step(o, flow, reply).effects, o, flow, reply),
{
    match flow.step {
        StartStep::AcquiringGate => {
            a_start_reports_after_acquiring_gate(o, flow, reply);
        },
        StartStep::LoadingSettings => {
            a_start_reports_after_loading_settings(o, flow, reply);
        },
        StartStep::ResolvingRoute { .. } => {
            a_start_reports_after_resolving_route(o, flow, reply);
        },
        StartStep::CapturingTarget { .. } => {
            a_start_reports_after_capturing_target(o, flow, reply);
        },
        StartStep::ReadingSelection { .. } => {
            a_start_reports_after_reading_selection(o, flow, reply);
        },
        StartStep::ReadingClipboardSelection { .. } => {
            a_start_reports_after_reading_clipboard_selection(o, flow, reply);
        },
        StartStep::RequestingMicrophone { .. } => {
            a_start_reports_after_requesting_microphone(o, flow, reply);
        },
        StartStep::Preparing { .. } => {
            a_start_reports_after_preparing(o, flow, reply);
        },
        StartStep::ReadingClock { .. } => {
            a_start_reports_after_reading_clock(o, flow, reply);
        },
        StartStep::AnnouncingRecording { .. } => {
            a_start_reports_after_announcing_recording(o, flow, reply);
        },
        StartStep::CancellingCapture { .. } => {
            a_start_reports_after_cancelling_capture(o, flow, reply);
        },
        StartStep::HidingHud { .. } => {
            a_start_reports_after_hiding_hud(o, flow, reply);
        },
        StartStep::Notifying { .. } => {
            a_start_reports_after_notifying(o, flow, reply);
        },
        StartStep::Finishing => {
            a_start_reports_after_finishing(o, flow, reply);
        },
    }
}

/// Whether the record of what became of a recognition says what has happened to it.
pub open spec fn recognition_is_recorded(
    effect: Effect,
    session: SessionId,
    request_id: RequestId,
    context: ActiveContext,
    result: Result<AsrResult, PortError>,
) -> bool {
    let matched = result is Ok && result->Ok_0.session_id == session && result->Ok_0.request_id
        == request_id && result->Ok_0.engine == context.asr_route.engine;
    match effect {
        Effect::Record(Diagnostic::LateResponse { session_id, phase }) => {
            &&& session_id == session
            &&& phase@ == "asr_late"@ || phase@ == "asr_correlation_mismatch"@ && result is Ok
                && !matched
        },
        Effect::Record(Diagnostic::NoSpeech { session_id, phase }) => {
            &&& session_id == session
            &&& phase@ == "asr"@
            &&& match result {
                Ok(transcript) => matched && blank(transcript.final_text@),
                Err(error) => error.code@ == "asr.no_speech"@,
            }
        },
        Effect::Record(Diagnostic::PortFailed { .. }) => {
            &&& result is Err && result->Err_0.code@ != "asr.no_speech"@
            &&& records(effect, session, "asr"@, result->Err_0)
        },
        _ => false,
    }
}

/// What becomes of a recognition is on record.
pub proof fn a_recognition_reports_what_has_happened(
    o: OrchestratorView,
    session_id: SessionId,
    context: ActiveContext,
    request_id: RequestId,
    result: Result<AsrResult, PortError>,
    i: int,
)
    ensures
        ({
            let effects = finish_on_recognized(o, session_id, context, request_id, result).effects;
            &&& 0 <= i < effects.len() ==> recognition_is_recorded(
                effects[i],
                session_id,
                request_id,
                context,
                result,
            ) || lets_go(effects[i], session_id, o)
            &&& result is Err ==> effects.len() > 0 && recognition_is_recorded(
                effects[0],
                session_id,
                request_id,
                context,
                result,
            )
        }),
{
}

/// The name under which a step of a finish workflow is recorded where it fails.
pub open spec fn finish_phase(step: FinishStep) -> Seq<char> {
    match step {
        FinishStep::FinishingAudio { .. } => "audio_finish"@,
        FinishStep::CancellingEmptyCapture { step } => match step {
            CancelStep::ClosingCapture { .. } => "audio_cancel"@,
            CancelStep::PlayingCue { .. } => "recording_cue"@,
            CancelStep::HidingPreparation => "recording_hud_hide"@,
            CancelStep::ClosingSession { closing, .. } => closing_phase(closing),
        },
        FinishStep::CancellingFailedCapture { .. } => "audio_cancel"@,
        FinishStep::PlayingCue { .. } => "recording_cue"@,
        FinishStep::DiscardingAudio { .. } | FinishStep::CleaningAudio { .. } => "audio_cleanup"@,
        FinishStep::AnnouncingRecognition { .. } | FinishStep::AnnouncingProcessing { .. } => {
            "recording_hud_update"@
        },
        FinishStep::Delivering { step } => delivery_phase(step),
        FinishStep::ClosingSession { closing, .. } => closing_phase(closing),
        _ => ""@,
    }
}

/// Whether what a step before the delivery leaves behind is what has happened.
pub open spec fn finish_reports(
    effects: Seq<Effect>,
    o: OrchestratorView,
    flow: FinishFlow,
    reply: Reply,
) -> bool {
    let session = flow.session_id;
    let name = finish_phase(flow.step);
    let empty = reply is Audio && reply->Audio_0 is Err && reply->Audio_0->Err_0.code@
        == "audio.empty_capture"@;
    &&& !empty ==> failure_is_recorded(effects, session, name, reply)
    &&& forall|i: int|
        0 <= i < effects.len() ==> match #[trigger] effects[i] {
            Effect::Record(Diagnostic::PortFailed { .. }) => {
                ||| failure_of(reply) is Some && records(
                    effects[i],
                    session,
                    name,
                    failure_of(reply)->0,
                )
                ||| flow.step is Processing && reply->Text_result is Err && records(
                    effects[i],
                    session,
                    "llm"@,
                    reply->Text_result->Err_0,
                )
            },
            Effect::Record(Diagnostic::NoSpeech { session_id, phase }) => {
                session_id == session && phase@ == "audio_finish"@ && empty
            },
            Effect::Record(Diagnostic::LateResponse { session_id, phase }) => {
                &&& session_id == session
                &&& flow.step is Processing
                &&& match reply->Text_result {
                    Ok(text) => {
                        ||| phase@ == "llm_late"@
                        ||| phase@ == "llm_correlation_mismatch"@ && (text.session_id != session
                            || text.request_id != flow.step->Processing_request_id)
                        ||| phase@ == "llm_empty_response"@ && blank(text.final_text@)
                    },
                    Err(_) => phase@ == "llm_late"@,
                }
            },
            Effect::Record(Diagnostic::LlmRequested { session_id, processing_mode }) => {
                &&& session_id == session
                &&& flow.step is AnnouncingProcessing
                &&& processing_mode
                    == flow.step->AnnouncingProcessing_context.settings.input.processing_mode
            },
            Effect::Record(Diagnostic::LlmAnswered { session_id, duration_ms, failure }) => {
                &&& session_id == session
                &&& flow.step is Processing
                &&& duration_ms == reply->elapsed_ms
                &&& match reply->Text_result {
                    Ok(_) => failure is None,
                    Err(error) => failure == Some(error.code),
                }
            },
            _ => lets_go(effects[i], session, o),
        }
    &&& flow.step is Processing ==> effects.len() > 0 && effects[0] is Record
        && effects[0]->Record_0 is LlmAnswered
    &&& flow.step is AnnouncingProcessing ==> effects.len() > 0 && effects.last() is Record
        && effects.last()->Record_0 is LlmRequested
}

proof fn a_finish_reports_after_finishing_audio(
    o: OrchestratorView,
    flow: FinishFlow,
    reply: Reply,
)
    requires
        flow.step is FinishingAudio,
        finish_awaits(flow.step, reply),
        finish_closes_itself(flow.step, flow.session_id),
    ensures
        finish_reports(finish_step(o, flow, reply).effects, o, flow, reply),
{
}

proof fn a_finish_reports_after_cancelling_empty_capture(
    o: OrchestratorView,
    flow: FinishFlow,
    reply: Reply,
)
    requires
        flow.step is CancellingEmptyCapture,
        finish_awaits(flow.step, reply),
        finish_closes_itself(flow.step, flow.session_id),
    ensures
        finish_reports(finish_step(o, flow, reply).effects, o, flow, reply),
{
}

proof fn a_finish_reports_after_cancelling_failed_capture(
    o: OrchestratorView,
    flow: FinishFlow,
    reply: Reply,
)
    requires
        flow.step is CancellingFailedCapture,
        finish_awaits(flow.step, reply),
        finish_closes_itself(flow.step, flow.session_id),
    ensures
        finish_reports(finish_step(o, flow, reply).effects, o, flow, reply),
{
}

proof fn a_finish_reports_after_playing_cue(
    o: OrchestratorView,
    flow: FinishFlow,
    reply: Reply,
)
    requires
        flow.step is PlayingCue,
        finish_awaits(flow.step, reply),
        finish_closes_itself(flow.step, flow.session_id),
    ensures
        finish_reports(finish_step(o, flow, reply).effects, o, flow, reply),
{
}

proof fn a_finish_reports_after_discarding_audio(
    o: OrchestratorView,
    flow: FinishFlow,
    reply: Reply,
)
    requires
        flow.step is DiscardingAudio,
        finish_awaits(flow.step, reply),
        finish_closes_itself(flow.step, flow.session_id),
    ensures
        finish_reports(finish_step(o, flow, reply).effects, o, flow, reply),
{
}

proof fn a_finish_reports_after_issuing_recognition(
    o: OrchestratorView,
    flow: FinishFlow,
    reply: Reply,
)
    requires
        flow.step is IssuingRecognition,
        finish_awaits(flow.step, reply),
        finish_closes_itself(flow.step, flow.session_id),
    ensures
        finish_reports(finish_step(o, flow, reply).effects, o, flow, reply),
{
}

proof fn a_finish_reports_after_announcing_recognition(
    o: OrchestratorView,
    flow: FinishFlow,
    reply: Reply,
)
    requires
        flow.step is AnnouncingRecognition,
        finish_awaits(flow.step, reply),
        finish_closes_itself(flow.step, flow.session_id),
    ensures
        finish_reports(finish_step(o, flow, reply).effects, o, flow, reply),
{
}

proof fn a_finish_reports_after_issuing_processing(
    o: OrchestratorView,
    flow: FinishFlow,
    reply: Reply,
)
    requires
        flow.step is IssuingProcessing,
        finish_awaits(flow.step, reply),
        finish_closes_itself(flow.step, flow.session_id),
    ensures
        finish_reports(finish_step(o, flow, reply).effects, o, flow, reply),
{
}

proof fn a_finish_reports_after_announcing_processing(
    o: OrchestratorView,
    flow: FinishFlow,
    reply: Reply,
)
    requires
        flow.step is AnnouncingProcessing,
        finish_awaits(flow.step, reply),
        finish_closes_itself(flow.step, flow.session_id),
    ensures
        finish_reports(finish_step(o, flow, reply).effects, o, flow, reply),
{
}

proof fn a_finish_reports_after_processing(
    o: OrchestratorView,
    flow: FinishFlow,
    reply: Reply,
)
    requires
        flow.step is Processing,
        finish_awaits(flow.step, reply),
        finish_closes_itself(flow.step, flow.session_id),
    ensures
        finish_reports(finish_step(o, flow, reply).effects, o, flow, reply),
{
}

proof fn a_finish_reports_after_closing_session(
    o: OrchestratorView,
    flow: FinishFlow,
    reply: Reply,
)
    requires
        flow.step is ClosingSession,
        finish_awaits(flow.step, reply),
        finish_closes_itself(flow.step, flow.session_id),
    ensures
        finish_reports(finish_step(o, flow, reply).effects, o, flow, reply),
{
}

/// A finish workflow leaves on record what failed, under its name and with its code, what
/// it asked of the language model and what was answered. What becomes of the recognition
/// and of the delivery has records of its own.
pub proof fn a_finish_reports_what_has_happened(o: OrchestratorView, flow: FinishFlow, reply: Reply)
    requires
        finish_awaits(flow.step, reply),
        finish_closes_itself(flow.step, flow.session_id),
        !(flow.step is Transcribing),
        !(flow.step is CleaningAudio),
        !(flow.step is Delivering),
    ensures
        finish_reports(finish_step(o, flow, reply).effects, o, flow, reply),
{
    match flow.step {
        FinishStep::FinishingAudio { .. } => {
            a_finish_reports_after_finishing_audio(o, flow, reply);
        },
        FinishStep::CancellingEmptyCapture { .. } => {
            a_finish_reports_after_cancelling_empty_capture(o, flow, reply);
        },
        FinishStep::CancellingFailedCapture { .. } => {
            a_finish_reports_after_cancelling_failed_capture(o, flow, reply);
        },
        FinishStep::PlayingCue { .. } => {
            a_finish_reports_after_playing_cue(o, flow, reply);
        },
        FinishStep::DiscardingAudio { .. } => {
            a_finish_reports_after_discarding_audio(o, flow, reply);
        },
        FinishStep::IssuingRecognition { .. } => {
            a_finish_reports_after_issuing_recognition(o, flow, reply);
        },
        FinishStep::AnnouncingRecognition { .. } => {
            a_finish_reports_after_announcing_recognition(o, flow, reply);
        },
        FinishStep::IssuingProcessing { .. } => {
            a_finish_reports_after_issuing_processing(o, flow, reply);
        },
        FinishStep::AnnouncingProcessing { .. } => {
            a_finish_reports_after_announcing_processing(o, flow, reply);
        },
        FinishStep::Processing { .. } => {
            a_finish_reports_after_processing(o, flow, reply);
        },
        FinishStep::ClosingSession { .. } => {
            a_finish_reports_after_closing_session(o, flow, reply);
        },
        _ => {},
    }
}

/// Audio that could not be removed after a recognition is on record.
pub proof fn audio_that_stays_is_on_record(o: OrchestratorView, flow: FinishFlow, reply: Reply)
    requires
        flow.step is CleaningAudio,
        reply is Acted,
        reply->Acted_0 is Err,
    ensures
        failure_is_recorded(
            finish_step(o, flow, reply).effects,
            flow.session_id,
            "audio_cleanup"@,
            reply,
        ),
{
}

} // verus!
