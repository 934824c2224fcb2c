//! What a finish workflow hands on is what it was told: every command of a run carries
//! what the surroundings have answered so far, or what was frozen for the session, and
//! nothing else; and the end of a run says what has happened.

use crate::domain::{
    DeliveryId, FailureCategory, RequestId, SessionId, TerminalOutcome, TimestampMs,
};
use crate::orchestrator::cancel::{artifact_settled, CancelStep};
use crate::orchestrator::closing::{Closing, ClosingStep};
use crate::orchestrator::deliver::{
    deliver_awaits, deliver_begin, deliver_step, DeliverMove, DeliverStep, Delivered, Delivery,
    FinishEnd,
};
use crate::orchestrator::finish::{
    finish_awaits, finish_on_recognized, finish_step, FinishFlow, FinishMove, FinishStep,
};
use crate::orchestrator::protocol::{Command, Next, Reply};
use crate::orchestrator::state::{
    ActiveContext, CaptureCancellationTarget, CaptureCleanupCompletion, DeliveryKind,
    OrchestratorView, RuntimeStage,
};
use crate::ports::{
    AsrResult, AudioCaptureRef, FinalizedAudio, InsertOutcome, PortError, RecordingCue,
    RecordingHudState, TargetRevalidation, TemporaryTextStatus, TextProcessingResult,
    UserDirectedPasteOutcome, UserNotificationKind, ValidatedTargetRef,
};
use crate::text::blank;
use crate::text_route::{DirectDeliveryReason, TextProcessingRoute};
use vstd::prelude::*;

verus! {

/// What the surroundings have told a finish workflow so far.
pub struct Heard {
    /// The capture that is being finished.
    pub capture: AudioCaptureRef,
    pub audio: Option<FinalizedAudio>,
    /// Why there is no audio.
    pub lost: Option<PortError>,
    pub recognition: Option<RequestId>,
    pub transcript: Option<Result<AsrResult, PortError>>,
    pub processing: Option<RequestId>,
    pub text: Option<Result<TextProcessingResult, PortError>>,
    pub delivery: Option<DeliveryId>,
    /// What the HUD was told last.
    pub announced: Option<RecordingHudState>,
    /// The position that was found valid last, if it was.
    pub target: Option<ValidatedTargetRef>,
    /// A write may have happened, or not.
    pub uncertain: bool,
    /// How the text has reached the user.
    pub reached: Option<DeliveryKind>,
    /// What the temporary surface was shown for.
    pub shown: Option<TemporaryTextStatus>,
    /// Not even the temporary surface could be shown.
    pub unshown: bool,
    pub copied: Option<bool>,
    pub now: Option<TimestampMs>,
    pub kept: Option<bool>,
}

impl Heard {
    /// Nothing yet but which capture is to be finished.
    pub open spec fn nothing(capture: AudioCaptureRef) -> Heard {
        Heard {
            capture,
            audio: None,
            lost: None,
            recognition: None,
            transcript: None,
            processing: None,
            text: None,
            delivery: None,
            announced: None,
            target: None,
            uncertain: false,
            reached: None,
            shown: None,
            unshown: false,
            copied: None,
            now: None,
            kept: None,
        }
    }

    /// What is known once a command has been answered too.
    pub open spec fn and(self, command: Command, reply: Reply) -> Heard {
        match reply {
            Reply::Audio(Ok(audio)) => Heard { audio: Some(audio), ..self },
            Reply::Audio(Err(error)) => Heard { lost: Some(error), ..self },
            Reply::Request(request_id) => if self.transcript is None {
                Heard { recognition: Some(request_id), ..self }
            } else {
                Heard { processing: Some(request_id), ..self }
            },
            Reply::Transcript(transcript) => Heard { transcript: Some(transcript), ..self },
            Reply::Text { result, .. } => Heard { text: Some(result), ..self },
            Reply::Delivery(delivery_id) => Heard { delivery: Some(delivery_id), ..self },
            Reply::Revalidation(Ok(TargetRevalidation::Valid(target))) => Heard {
                target: Some(target),
                ..self
            },
            Reply::Revalidation(_) => Heard { target: None, ..self },
            Reply::Insertion(Ok(InsertOutcome::Inserted)) => Heard {
                reached: Some(
                    if command is Insert {
                        DeliveryKind::Inserted
                    } else {
                        DeliveryKind::ClipboardBridge
                    },
                ),
                ..self
            },
            Reply::Insertion(Ok(InsertOutcome::Indeterminate)) => Heard { uncertain: true, ..self },
            Reply::Paste(Ok(UserDirectedPasteOutcome::Dispatched)) => Heard {
                reached: Some(DeliveryKind::ClipboardBridge),
                ..self
            },
            Reply::Paste(Ok(UserDirectedPasteOutcome::Indeterminate)) => Heard {
                uncertain: true,
                ..self
            },
            Reply::Now(now) => Heard { now: Some(now), ..self },
            Reply::Acted(result) => match command {
                Command::UpdateHud(_, state) => Heard { announced: Some(state), ..self },
                Command::ShowTemporaryText { status, .. } => if result is Ok {
                    Heard {
                        reached: Some(DeliveryKind::TemporaryText),
                        shown: Some(status),
                        ..self
                    }
                } else {
                    Heard { unshown: true, ..self }
                },
                Command::WriteClipboard(_) => Heard { copied: Some(result is Ok), ..self },
                Command::SaveHistory { .. } => Heard { kept: Some(result is Ok), ..self },
                _ => self,
            },
            _ => self,
        }
    }
}

/// Whether a session, where it works, works by what was frozen for it.
pub open spec fn stays_with(
    o: OrchestratorView,
    session_id: SessionId,
    frozen: ActiveContext,
) -> bool {
    o.active is Some && o.active->0.session_id == session_id ==> {
        let active = o.active->0;
        &&& active.settings == frozen.settings
        &&& active.processing_route == frozen.processing_route
        &&& active.asr_route == frozen.asr_route
        &&& active.target_ref == frozen.target_ref
        &&& active.target_security == frozen.target_security
        &&& active.selected_text == frozen.selected_text
    }
}

/// Whether the recogniser that was chosen has answered this session's request.
pub open spec fn is_recognised(heard: Heard, session_id: SessionId, frozen: ActiveContext) -> bool {
    match heard.transcript {
        Some(Ok(transcript)) => {
            &&& transcript.session_id == session_id
            &&& heard.recognition == Some(transcript.request_id)
            &&& transcript.engine == frozen.asr_route.engine
        },
        _ => false,
    }
}

/// Whether something was said.
pub open spec fn is_heard(heard: Heard, session_id: SessionId, frozen: ActiveContext) -> bool {
    is_recognised(heard, session_id, frozen) && !blank(heard.transcript->0->Ok_0.final_text@)
}

/// Whether the language model has answered this session's request with a text.
pub open spec fn is_processed(heard: Heard, session_id: SessionId) -> bool {
    match heard.text {
        Some(Ok(text)) => {
            &&& text.session_id == session_id
            &&& heard.processing == Some(text.request_id)
            &&& !blank(text.final_text@)
        },
        _ => false,
    }
}

/// Whether a text is what the session came to: what the language model made of it where
/// it was asked and answered, and otherwise what the recogniser heard.
pub open spec fn is_outcome(
    text: String,
    heard: Heard,
    session_id: SessionId,
    frozen: ActiveContext,
) -> bool {
    &&& is_heard(heard, session_id, frozen)
    &&& frozen.processing_route is Llm <==> heard.text is Some
    &&& text == if is_processed(heard, session_id) {
        heard.text->0->Ok_0.final_text
    } else {
        heard.transcript->0->Ok_0.final_text
    }
}

/// Whether processing was asked for and could not be had.
pub open spec fn falls_back(heard: Heard, session_id: SessionId, frozen: ActiveContext) -> bool {
    match frozen.processing_route {
        TextProcessingRoute::Llm(_) => !is_processed(heard, session_id),
        TextProcessingRoute::DirectAsr(reason) => reason is LlmUnavailable,
    }
}

/// Why a text was not processed, where none was meant to be.
pub open spec fn reason_given(frozen: ActiveContext) -> Option<DirectDeliveryReason> {
    match frozen.processing_route {
        TextProcessingRoute::DirectAsr(reason) => Some(reason),
        TextProcessingRoute::Llm(_) => None,
    }
}

/// Whether nothing was said: the capture was empty, or the recogniser found no words.
pub open spec fn is_silent(heard: Heard, session_id: SessionId, frozen: ActiveContext) -> bool {
    ||| heard.lost is Some && heard.lost->0.code@ == "audio.empty_capture"@
    ||| match heard.transcript {
        Some(Err(error)) => error.code@ == "asr.no_speech"@,
        Some(Ok(transcript)) => is_recognised(heard, session_id, frozen) && blank(
            transcript.final_text@,
        ),
        None => false,
    }
}

/// Whether a session failed in this way.
pub open spec fn has_failed(
    category: FailureCategory,
    heard: Heard,
    session_id: SessionId,
    frozen: ActiveContext,
) -> bool {
    match category {
        FailureCategory::Audio => heard.lost is Some && heard.lost->0.code@
            != "audio.empty_capture"@,
        FailureCategory::Asr => match heard.transcript {
            Some(Err(error)) => error.code@ != "asr.no_speech"@,
            Some(Ok(_)) => !is_recognised(heard, session_id, frozen),
            None => false,
        },
        FailureCategory::Delivery => heard.unshown && heard.reached is None,
        _ => false,
    }
}

/// Whether the temporary surface says what it is there for.
pub open spec fn is_shown_for(
    status: TemporaryTextStatus,
    heard: Heard,
    session_id: SessionId,
    frozen: ActiveContext,
) -> bool {
    &&& status is LlmFallback <==> falls_back(heard, session_id, frozen)
    &&& status is Indeterminate <==> heard.uncertain
}

/// Whether the end of a workflow says what has happened.
pub open spec fn ends_rightly(
    end: FinishEnd,
    heard: Heard,
    session_id: SessionId,
    frozen: ActiveContext,
) -> bool {
    match end {
        FinishEnd::Completed {
            final_text,
            delivery,
            direct_delivery_reason,
            auto_copy_failed,
            history_save_failed,
        } => {
            let settings = frozen.settings.input;
            &&& is_outcome(final_text, heard, session_id, frozen)
            &&& heard.reached == Some(delivery)
            &&& direct_delivery_reason == reason_given(frozen)
            &&& heard.copied is Some <==> settings.auto_copy_result
            &&& heard.kept is Some <==> settings.history_policy.enabled
            &&& auto_copy_failed == (heard.copied == Some(false))
            &&& history_save_failed == (heard.kept == Some(false))
            &&& heard.announced == Some(RecordingHudState::Completed)
        },
        FinishEnd::Failed(category) => has_failed(category, heard, session_id, frozen),
        FinishEnd::NoSpeech => is_silent(heard, session_id, frozen),
        FinishEnd::NotRecording => false,
        FinishEnd::Discarded | FinishEnd::Error(_) => true,
    }
}

/// Whether a command carries what was heard or frozen, and is in order now.
pub open spec fn is_in_order(
    command: Command,
    after: OrchestratorView,
    heard: Heard,
    session_id: SessionId,
    frozen: ActiveContext,
) -> bool {
    let settings = frozen.settings.input;
    match command {
        Command::PlayCue(RecordingCue::Finish) => heard.audio is Some,
        Command::PlayCue(RecordingCue::Cancel) => heard.audio is None && heard.lost is Some,
        Command::CancelCapture(capture) => capture == heard.capture && heard.lost is Some,
        Command::CleanupAudio(audio_ref) => {
            ||| heard.audio is Some && audio_ref == heard.audio->0.audio_ref
            ||| heard.recognition is Some && after.active is Some && after.active->0.stage
                == (RuntimeStage::CleaningAudio {
                request_id: heard.recognition->0,
                audio_ref,
                in_flight: true,
            })
        },
        Command::IssueRequestId => heard.processing is None,
        Command::IssueDeliveryId => heard.delivery is None && is_heard(heard, session_id, frozen),
        Command::UpdateHud(told, RecordingHudState::Recognizing) => {
            &&& told == session_id
            &&& heard.announced is None
            &&& heard.audio is Some && heard.recognition is Some
            &&& after.active->0.stage == (RuntimeStage::Recognizing {
                request_id: heard.recognition->0,
                audio_ref: Some(heard.audio->0.audio_ref),
            })
        },
        Command::UpdateHud(told, RecordingHudState::Processing) => {
            &&& told == session_id
            &&& heard.announced == Some(RecordingHudState::Recognizing)
            &&& heard.processing is Some
            &&& after.active->0.stage == (RuntimeStage::Processing {
                request_id: heard.processing->0,
            })
        },
        Command::UpdateHud(told, RecordingHudState::Delivering) => {
            &&& told == session_id
            &&& heard.announced == Some(
                if frozen.processing_route is Llm {
                    RecordingHudState::Processing
                } else {
                    RecordingHudState::Recognizing
                },
            )
            &&& heard.delivery is Some
            &&& after.active->0.stage == (RuntimeStage::Delivering {
                delivery_id: heard.delivery->0,
            })
        },
        Command::UpdateHud(told, RecordingHudState::Finalizing) => {
            &&& told == session_id
            &&& heard.announced == Some(RecordingHudState::Delivering)
            &&& heard.reached is Some
            &&& after.active->0.stage == (RuntimeStage::Finalizing {
                delivery_id: heard.delivery->0,
            })
        },
        Command::UpdateHud(told, RecordingHudState::Completed) => {
            &&& told == session_id
            &&& heard.announced == Some(RecordingHudState::Finalizing)
            &&& heard.copied is Some <==> settings.auto_copy_result
            &&& heard.kept is Some <==> settings.history_policy.enabled
        },
        Command::Transcribe(request) => {
            &&& request.session_id == session_id
            &&& heard.recognition == Some(request.request_id)
            &&& request.engine == frozen.asr_route.engine
            &&& heard.audio == Some(request.audio)
            &&& request.language_hint is None
            &&& request.deadline_ms == u64::MAX
        },
        Command::ProcessText { route, request } => {
            &&& is_heard(heard, session_id, frozen)
            &&& frozen.processing_route == TextProcessingRoute::Llm(route)
            &&& request.session_id == session_id
            &&& heard.processing == Some(request.request_id)
            &&& request.processing_mode == settings.processing_mode
            &&& request.raw_transcript == heard.transcript->0->Ok_0.final_text
            &&& request.selected_text == frozen.selected_text
        },
        Command::Revalidate(target_ref) => {
            &&& target_ref == frozen.target_ref
            &&& frozen.target_security is Safe
            &&& heard.reached is None && !heard.uncertain
        },
        Command::Insert { target, text, delivery_id, lifecycle } => {
            &&& heard.target == Some(target)
            &&& is_outcome(text, heard, session_id, frozen)
            &&& heard.delivery == Some(delivery_id)
            &&& lifecycle == session_id
            &&& heard.reached is None && !heard.uncertain
        },
        Command::PasteAtTarget { target, text, delivery_id, lifecycle } => {
            &&& heard.target == Some(target)
            &&& is_outcome(text, heard, session_id, frozen)
            &&& heard.delivery == Some(delivery_id)
            &&& lifecycle == session_id
            &&& heard.reached is None && !heard.uncertain
            &&& settings.clipboard_bridge_allowed
        },
        Command::PasteAtFocus { text, delivery_id, lifecycle } => {
            &&& is_outcome(text, heard, session_id, frozen)
            &&& heard.delivery == Some(delivery_id)
            &&& lifecycle == session_id
            &&& heard.target is None
            &&& heard.reached is None && !heard.uncertain
            &&& settings.clipboard_bridge_allowed
        },
        Command::ShowTemporaryText { delivery_id, text, status, lifecycle } => {
            &&& is_outcome(text, heard, session_id, frozen)
            &&& heard.delivery == Some(delivery_id)
            &&& lifecycle == session_id
            &&& heard.reached is None
            &&& is_shown_for(status, heard, session_id, frozen)
        },
        Command::WriteClipboard(text) => {
            &&& is_outcome(text, heard, session_id, frozen)
            &&& heard.reached is Some
            &&& settings.auto_copy_result
            &&& heard.copied is None
        },
        Command::ReadClock => {
            &&& heard.reached is Some
            &&& settings.history_policy.enabled
            &&& heard.copied is Some <==> settings.auto_copy_result
        },
        Command::SaveHistory { record, settings: kept_by, lifecycle } => {
            &&& heard.delivery == Some(record.delivery_id)
            &&& is_outcome(record.final_text, heard, session_id, frozen)
            &&& heard.now == Some(record.created_at)
            &&& kept_by == frozen.settings
            &&& lifecycle == session_id
            &&& heard.reached is Some
            &&& settings.history_policy.enabled
            &&& heard.kept is None
        },
        Command::PublishTerminal(told, outcome) => {
            &&& told == session_id
            &&& match outcome {
                TerminalOutcome::Completed => heard.reached is Some && heard.announced == Some(
                    RecordingHudState::Completed,
                ),
                TerminalOutcome::Cancelled => is_silent(heard, session_id, frozen),
                TerminalOutcome::Failed(category) => has_failed(
                    category,
                    heard,
                    session_id,
                    frozen,
                ),
                TerminalOutcome::Rejected(_) => false,
            }
        },
        Command::HideHud(told) => told == session_id,
        Command::Notify(told, UserNotificationKind::Asr) => {
            &&& told == session_id
            &&& has_failed(FailureCategory::Asr, heard, session_id, frozen)
        },
        Command::Notify(told, UserNotificationKind::Llm) => {
            &&& told == session_id
            &&& heard.shown == Some(TemporaryTextStatus::LlmFallback)
            &&& falls_back(heard, session_id, frozen)
        },
        _ => false,
    }
}

/// Whom the end of a session is told to.
pub open spec fn notice_due(end: FinishEnd, heard: Heard) -> Option<UserNotificationKind> {
    match end {
        FinishEnd::Failed(FailureCategory::Asr) => Some(UserNotificationKind::Asr),
        FinishEnd::Completed { .. } => if heard.shown == Some(TemporaryTextStatus::LlmFallback) {
            Some(UserNotificationKind::Llm)
        } else {
            None
        },
        _ => None,
    }
}

/// Whether a session closes as its end asks for.
pub open spec fn closes_for(
    closing: Closing,
    command: Command,
    session_id: SessionId,
    notice: Option<UserNotificationKind>,
) -> bool {
    &&& closing.session_id == session_id
    &&& closing.notification == notice
    &&& match closing.step {
        ClosingStep::Publishing => command is PublishTerminal,
        ClosingStep::Hiding => command == Command::HideHud(session_id),
        ClosingStep::Notifying => notice is Some && command == Command::Notify(
            session_id,
            notice->0,
        ),
    }
}

/// Whether a delivery is of what was heard.
pub open spec fn is_delivery_of(
    delivery: Delivery,
    heard: Heard,
    session_id: SessionId,
    frozen: ActiveContext,
) -> bool {
    &&& delivery.context == frozen
    &&& heard.delivery == Some(delivery.delivery_id)
    &&& is_outcome(delivery.final_text, heard, session_id, frozen)
    &&& delivery.direct_delivery_reason == reason_given(frozen)
}

/// Whether nothing has come of a delivery yet.
pub open spec fn is_untried(heard: Heard) -> bool {
    &&& heard.reached is None
    &&& heard.shown is None
    &&& !heard.uncertain
    &&& !heard.unshown
    &&& heard.copied is None
    &&& heard.now is None
    &&& heard.kept is None
}

/// Whether what was delivered is what was heard of it.
pub open spec fn is_delivered_as(
    delivered: Delivered,
    heard: Heard,
    session_id: SessionId,
    frozen: ActiveContext,
) -> bool {
    &&& is_delivery_of(delivered.delivery, heard, session_id, frozen)
    &&& heard.reached == Some(delivered.kind)
    &&& heard.shown is Some ==> is_shown_for(heard.shown->0, heard, session_id, frozen)
    &&& delivered.notification == if heard.shown == Some(TemporaryTextStatus::LlmFallback) {
        Some(UserNotificationKind::Llm)
    } else {
        None
    }
    &&& delivered.auto_copy_failed == (heard.copied == Some(false))
    &&& delivered.history_save_failed == (heard.kept == Some(false))
}

/// Whether a delivery stands where what was heard has brought it.
pub open spec fn delivery_stands(
    step: DeliverStep,
    command: Command,
    heard: Heard,
    session_id: SessionId,
    frozen: ActiveContext,
) -> bool {
    let settings = frozen.settings.input;
    let forced = if falls_back(heard, session_id, frozen) {
        Some(TemporaryTextStatus::LlmFallback)
    } else {
        None
    };
    let before = Some(
        if frozen.processing_route is Llm {
            RecordingHudState::Processing
        } else {
            RecordingHudState::Recognizing
        },
    );
    match step {
        DeliverStep::IssuingId {
            context,
            final_text,
            direct_delivery_reason,
            forced: wanted,
        } => {
            &&& command is IssueDeliveryId
            &&& context == frozen
            &&& is_outcome(final_text, heard, session_id, frozen)
            &&& direct_delivery_reason == reason_given(frozen)
            &&& wanted == forced
            &&& is_untried(heard)
            &&& heard.announced == before
            &&& heard.target is None
        },
        DeliverStep::Announcing { delivery, forced: wanted } => {
            &&& command == Command::UpdateHud(session_id, RecordingHudState::Delivering)
            &&& is_delivery_of(delivery, heard, session_id, frozen)
            &&& wanted == forced
            &&& is_untried(heard)
            &&& heard.announced == before
            &&& heard.target is None
        },
        DeliverStep::Revalidating { delivery } | DeliverStep::RevalidatingBridge { delivery } => {
            &&& command is Revalidate
            &&& step is RevalidatingBridge ==> settings.clipboard_bridge_allowed
            &&& is_delivery_of(delivery, heard, session_id, frozen)
            &&& forced is None
            &&& is_untried(heard)
            &&& heard.announced == Some(RecordingHudState::Delivering)
            &&& frozen.target_security is Safe
        },
        DeliverStep::Inserting { delivery } => {
            &&& command is Insert
            &&& is_delivery_of(delivery, heard, session_id, frozen)
            &&& forced is None
            &&& is_untried(heard)
            &&& heard.announced == Some(RecordingHudState::Delivering)
            &&& frozen.target_security is Safe
        },
        DeliverStep::PastingAtTarget { delivery } => {
            &&& command is PasteAtTarget
            &&& is_delivery_of(delivery, heard, session_id, frozen)
            &&& forced is None
            &&& is_untried(heard)
            &&& heard.announced == Some(RecordingHudState::Delivering)
        },
        DeliverStep::PastingAtFocus { delivery } => {
            &&& command is PasteAtFocus
            &&& is_delivery_of(delivery, heard, session_id, frozen)
            &&& forced is None
            &&& is_untried(heard)
            &&& heard.announced == Some(RecordingHudState::Delivering)
        },
        DeliverStep::ShowingTemporary { delivery, status } => {
            &&& command is ShowTemporaryText && command->ShowTemporaryText_status == status
            &&& is_delivery_of(delivery, heard, session_id, frozen)
            &&& is_shown_for(status, heard, session_id, frozen)
            &&& is_untried(Heard { uncertain: false, ..heard })
            &&& heard.announced == Some(RecordingHudState::Delivering)
        },
        DeliverStep::AnnouncingFinalization { delivered } => {
            &&& command == Command::UpdateHud(session_id, RecordingHudState::Finalizing)
            &&& is_delivered_as(delivered, heard, session_id, frozen)
            &&& heard.copied is None && heard.now is None && heard.kept is None
            &&& heard.announced == Some(RecordingHudState::Delivering)
        },
        DeliverStep::Copying { delivered } => {
            &&& command is WriteClipboard
            &&& is_delivered_as(delivered, heard, session_id, frozen)
            &&& settings.auto_copy_result && heard.copied is None
            &&& heard.now is None && heard.kept is None
            &&& heard.announced == Some(RecordingHudState::Finalizing)
        },
        DeliverStep::ReadingClock { delivered } => {
            &&& command is ReadClock
            &&& is_delivered_as(delivered, heard, session_id, frozen)
            &&& heard.copied is Some <==> settings.auto_copy_result
            &&& settings.history_policy.enabled && heard.now is None && heard.kept is None
            &&& heard.announced == Some(RecordingHudState::Finalizing)
        },
        DeliverStep::Saving { delivered } => {
            &&& command is SaveHistory
            &&& is_delivered_as(delivered, heard, session_id, frozen)
            &&& heard.copied is Some <==> settings.auto_copy_result
            &&& settings.history_policy.enabled && heard.kept is None
            &&& heard.announced == Some(RecordingHudState::Finalizing)
        },
        DeliverStep::AnnouncingCompletion { delivered } => {
            &&& command == Command::UpdateHud(session_id, RecordingHudState::Completed)
            &&& is_delivered_as(delivered, heard, session_id, frozen)
            &&& heard.copied is Some <==> settings.auto_copy_result
            &&& heard.kept is Some <==> settings.history_policy.enabled
            &&& heard.announced == Some(RecordingHudState::Finalizing)
        },
        DeliverStep::ClosingSession { closing, end } => {
            &&& closes_for(closing, command, session_id, notice_due(end, heard))
            &&& ends_rightly(end, heard, session_id, frozen)
            &&& end is Completed || end == FinishEnd::Failed(FailureCategory::Delivery)
            &&& heard.shown is Some ==> is_shown_for(heard.shown->0, heard, session_id, frozen)
        },
    }
}

/// Whether a finish workflow stands where what was heard has brought it.
pub open spec fn finish_stands(
    step: FinishStep,
    command: Command,
    heard: Heard,
    session_id: SessionId,
    frozen: ActiveContext,
) -> bool {
    let unheard = heard.transcript is None && heard.processing is None && heard.text is None
        && heard.delivery is None && heard.target is None && is_untried(heard);
    match step {
        FinishStep::FinishingAudio { capture } => {
            &&& command is FinishAudio
            &&& heard == Heard::nothing(capture)
        },
        FinishStep::CancellingEmptyCapture { step } => {
            let target = CaptureCancellationTarget::Active(CaptureCleanupCompletion::Cancelled);
            &&& heard.audio is None
            &&& heard.lost is Some && heard.lost->0.code@ == "audio.empty_capture"@
            &&& is_untried(heard)
            &&& match step {
                CancelStep::ClosingCapture { capture, target: held } => {
                    &&& command == Command::CancelCapture(capture)
                    &&& held == target
                },
                CancelStep::PlayingCue { target: held } => {
                    &&& command == Command::PlayCue(RecordingCue::Cancel)
                    &&& held == target
                },
                CancelStep::HidingPreparation => false,
                CancelStep::ClosingSession { closing, .. } => closes_for(
                    closing,
                    command,
                    session_id,
                    None,
                ),
            }
        },
        FinishStep::CancellingFailedCapture { capture } => {
            &&& command == Command::CancelCapture(capture)
            &&& heard.lost is Some && heard.lost->0.code@ != "audio.empty_capture"@
            &&& is_untried(heard)
        },
        FinishStep::PlayingCue { audio } => {
            &&& command == Command::PlayCue(RecordingCue::Finish)
            &&& heard.audio == Some(audio)
            &&& unheard && heard.announced is None && heard.recognition is None
        },
        FinishStep::DiscardingAudio { audio_ref } => {
            &&& command == Command::CleanupAudio(audio_ref)
            &&& is_untried(heard)
        },
        FinishStep::IssuingRecognition { audio, context } => {
            &&& command is IssueRequestId
            &&& context == frozen
            &&& heard.audio == Some(audio)
            &&& unheard && heard.announced is None && heard.recognition is None
        },
        FinishStep::AnnouncingRecognition { audio, context, request_id } => {
            &&& command == Command::UpdateHud(session_id, RecordingHudState::Recognizing)
            &&& context == frozen
            &&& heard.audio == Some(audio)
            &&& heard.recognition == Some(request_id)
            &&& unheard && heard.announced is None
        },
        FinishStep::Transcribing { context, request_id } => {
            &&& command is Transcribe
            &&& context == frozen
            &&& heard.recognition == Some(request_id)
            &&& unheard && heard.announced == Some(RecordingHudState::Recognizing)
        },
        FinishStep::CleaningAudio { context, request_id, audio_ref, result } => {
            &&& command == Command::CleanupAudio(audio_ref)
            &&& context == frozen
            &&& heard.recognition == Some(request_id)
            &&& heard.transcript == Some(result)
            &&& is_unprocessed(heard)
        },
        FinishStep::IssuingProcessing { context, route, raw_transcript } => {
            &&& command is IssueRequestId
            &&& context == frozen
            &&& frozen.processing_route == TextProcessingRoute::Llm(route)
            &&& is_heard(heard, session_id, frozen)
            &&& raw_transcript == heard.transcript->0->Ok_0.final_text
            &&& is_unprocessed(heard)
        },
        FinishStep::AnnouncingProcessing { context, route, raw_transcript, request_id } => {
            &&& command == Command::UpdateHud(session_id, RecordingHudState::Processing)
            &&& context == frozen
            &&& frozen.processing_route == TextProcessingRoute::Llm(route)
            &&& is_heard(heard, session_id, frozen)
            &&& raw_transcript == heard.transcript->0->Ok_0.final_text
            &&& heard.processing == Some(request_id)
            &&& is_unprocessed(Heard { processing: None, ..heard })
        },
        FinishStep::Processing { raw_transcript, request_id } => {
            &&& command is ProcessText
            &&& frozen.processing_route is Llm
            &&& is_heard(heard, session_id, frozen)
            &&& raw_transcript == heard.transcript->0->Ok_0.final_text
            &&& heard.processing == Some(request_id)
            &&& heard.announced == Some(RecordingHudState::Processing)
            &&& heard.text is None && heard.delivery is None && heard.target is None
            &&& is_untried(heard)
        },
        FinishStep::Delivering { step } => delivery_stands(
            step,
            command,
            heard,
            session_id,
            frozen,
        ),
        FinishStep::ClosingSession { closing, end } => {
            &&& closes_for(closing, command, session_id, notice_due(end, heard))
            &&& ends_rightly(end, heard, session_id, frozen)
            &&& end is Failed || end is NoSpeech
            &&& is_untried(heard)
        },
    }
}

/// Whether there is an answer of the recogniser and nothing has come of it yet.
pub open spec fn is_unprocessed(heard: Heard) -> bool {
    &&& heard.transcript is Some
    &&& heard.processing is None
    &&& heard.text is None
    &&& heard.delivery is None
    &&& heard.target is None
    &&& is_untried(heard)
    &&& heard.announced == Some(RecordingHudState::Recognizing)
}

/// Whether one step of a delivery goes on from what was heard.
pub open spec fn delivery_goes_on(
    step: DeliverMove,
    heard: Heard,
    session_id: SessionId,
    frozen: ActiveContext,
) -> bool {
    &&& stays_with(step.after, session_id, frozen)
    &&& match step.next {
        Next::Await { flow, command } => {
            &&& flow.session_id == session_id
            &&& delivery_stands(flow.step, command, heard, session_id, frozen)
            &&& is_in_order(command, step.after, heard, session_id, frozen)
        },
        Next::Done(end) => ends_rightly(end, heard, session_id, frozen),
    }
}

/// Whether one step of a finish workflow goes on from what was heard.
pub open spec fn finish_goes_on(
    step: FinishMove,
    heard: Heard,
    session_id: SessionId,
    frozen: ActiveContext,
) -> bool {
    &&& stays_with(step.after, session_id, frozen)
    &&& match step.next {
        Next::Await { flow, command } => {
            &&& flow.session_id == session_id
            &&& finish_stands(flow.step, command, heard, session_id, frozen)
            &&& is_in_order(command, step.after, heard, session_id, frozen)
        },
        Next::Done(end) => ends_rightly(end, heard, session_id, frozen),
    }
}

proof fn a_delivery_goes_on_after_issuing_id(
    o: OrchestratorView,
    step: DeliverStep,
    command: Command,
    reply: Reply,
    heard: Heard,
    session_id: SessionId,
    frozen: ActiveContext,
)
    requires
        step is IssuingId,
        deliver_awaits(step, reply),
        stays_with(o, session_id, frozen),
        delivery_stands(step, command, heard, session_id, frozen),
    ensures
        delivery_goes_on(
            deliver_step(o, session_id, step, reply),
            heard.and(command, reply),
            session_id,
            frozen,
        ),
{
}

proof fn a_delivery_goes_on_after_announcing(
    o: OrchestratorView,
    step: DeliverStep,
    command: Command,
    reply: Reply,
    heard: Heard,
    session_id: SessionId,
    frozen: ActiveContext,
)
    requires
        step is Announcing,
        deliver_awaits(step, reply),
        stays_with(o, session_id, frozen),
        delivery_stands(step, command, heard, session_id, frozen),
    ensures
        delivery_goes_on(
            deliver_step(o, session_id, step, reply),
            heard.and(command, reply),
            session_id,
            frozen,
        ),
{
}

proof fn a_delivery_goes_on_after_revalidating(
    o: OrchestratorView,
    step: DeliverStep,
    command: Command,
    reply: Reply,
    heard: Heard,
    session_id: SessionId,
    frozen: ActiveContext,
)
    requires
        step is Revalidating,
        deliver_awaits(step, reply),
        stays_with(o, session_id, frozen),
        delivery_stands(step, command, heard, session_id, frozen),
    ensures
        delivery_goes_on(
            deliver_step(o, session_id, step, reply),
            heard.and(command, reply),
            session_id,
            frozen,
        ),
{
}

proof fn a_delivery_goes_on_after_inserting(
    o: OrchestratorView,
    step: DeliverStep,
    command: Command,
    reply: Reply,
    heard: Heard,
    session_id: SessionId,
    frozen: ActiveContext,
)
    requires
        step is Inserting,
        deliver_awaits(step, reply),
        stays_with(o, session_id, frozen),
        delivery_stands(step, command, heard, session_id, frozen),
    ensures
        delivery_goes_on(
            deliver_step(o, session_id, step, reply),
            heard.and(command, reply),
            session_id,
            frozen,
        ),
{
}

proof fn a_delivery_goes_on_after_revalidating_bridge(
    o: OrchestratorView,
    step: DeliverStep,
    command: Command,
    reply: Reply,
    heard: Heard,
    session_id: SessionId,
    frozen: ActiveContext,
)
    requires
        step is RevalidatingBridge,
        deliver_awaits(step, reply),
        stays_with(o, session_id, frozen),
        delivery_stands(step, command, heard, session_id, frozen),
    ensures
        delivery_goes_on(
            deliver_step(o, session_id, step, reply),
            heard.and(command, reply),
            session_id,
            frozen,
        ),
{
}

proof fn a_delivery_goes_on_after_pasting_at_target(
    o: OrchestratorView,
    step: DeliverStep,
    command: Command,
    reply: Reply,
    heard: Heard,
    session_id: SessionId,
    frozen: ActiveContext,
)
    requires
        step is PastingAtTarget,
        deliver_awaits(step, reply),
        stays_with(o, session_id, frozen),
        delivery_stands(step, command, heard, session_id, frozen),
    ensures
        delivery_goes_on(
            deliver_step(o, session_id, step, reply),
            heard.and(command, reply),
            session_id,
            frozen,
        ),
{
}

proof fn a_delivery_goes_on_after_pasting_at_focus(
    o: OrchestratorView,
    step: DeliverStep,
    command: Command,
    reply: Reply,
    heard: Heard,
    session_id: SessionId,
    frozen: ActiveContext,
)
    requires
        step is PastingAtFocus,
        deliver_awaits(step, reply),
        stays_with(o, session_id, frozen),
        delivery_stands(step, command, heard, session_id, frozen),
    ensures
        delivery_goes_on(
            deliver_step(o, session_id, step, reply),
            heard.and(command, reply),
            session_id,
            frozen,
        ),
{
}

proof fn a_delivery_goes_on_after_showing_temporary(
    o: OrchestratorView,
    step: DeliverStep,
    command: Command,
    reply: Reply,
    heard: Heard,
    session_id: SessionId,
    frozen: ActiveContext,
)
    requires
        step is ShowingTemporary,
        deliver_awaits(step, reply),
        stays_with(o, session_id, frozen),
        delivery_stands(step, command, heard, session_id, frozen),
    ensures
        delivery_goes_on(
            deliver_step(o, session_id, step, reply),
            heard.and(command, reply),
            session_id,
            frozen,
        ),
{
}

proof fn a_delivery_goes_on_after_announcing_finalization(
    o: OrchestratorView,
    step: DeliverStep,
    command: Command,
    reply: Reply,
    heard: Heard,
    session_id: SessionId,
    frozen: ActiveContext,
)
    requires
        step is AnnouncingFinalization,
        deliver_awaits(step, reply),
        stays_with(o, session_id, frozen),
        delivery_stands(step, command, heard, session_id, frozen),
    ensures
        delivery_goes_on(
            deliver_step(o, session_id, step, reply),
            heard.and(command, reply),
            session_id,
            frozen,
        ),
{
}

proof fn a_delivery_goes_on_after_copying(
    o: OrchestratorView,
    step: DeliverStep,
    command: Command,
    reply: Reply,
    heard: Heard,
    session_id: SessionId,
    frozen: ActiveContext,
)
    requires
        step is Copying,
        deliver_awaits(step, reply),
        stays_with(o, session_id, frozen),
        delivery_stands(step, command, heard, session_id, frozen),
    ensures
        delivery_goes_on(
            deliver_step(o, session_id, step, reply),
            heard.and(command, reply),
            session_id,
            frozen,
        ),
{
}

proof fn a_delivery_goes_on_after_reading_clock(
    o: OrchestratorView,
    step: DeliverStep,
    command: Command,
    reply: Reply,
    heard: Heard,
    session_id: SessionId,
    frozen: ActiveContext,
)
    requires
        step is ReadingClock,
        deliver_awaits(step, reply),
        stays_with(o, session_id, frozen),
        delivery_stands(step, command, heard, session_id, frozen),
    ensures
        delivery_goes_on(
            deliver_step(o, session_id, step, reply),
            heard.and(command, reply),
            session_id,
            frozen,
        ),
{
}

proof fn a_delivery_goes_on_after_saving(
    o: OrchestratorView,
    step: DeliverStep,
    command: Command,
    reply: Reply,
    heard: Heard,
    session_id: SessionId,
    frozen: ActiveContext,
)
    requires
        step is Saving,
        deliver_awaits(step, reply),
        stays_with(o, session_id, frozen),
        delivery_stands(step, command, heard, session_id, frozen),
    ensures
        delivery_goes_on(
            deliver_step(o, session_id, step, reply),
            heard.and(command, reply),
            session_id,
            frozen,
        ),
{
}

proof fn a_delivery_goes_on_after_announcing_completion(
    o: OrchestratorView,
    step: DeliverStep,
    command: Command,
    reply: Reply,
    heard: Heard,
    session_id: SessionId,
    frozen: ActiveContext,
)
    requires
        step is AnnouncingCompletion,
        deliver_awaits(step, reply),
        stays_with(o, session_id, frozen),
        delivery_stands(step, command, heard, session_id, frozen),
    ensures
        delivery_goes_on(
            deliver_step(o, session_id, step, reply),
            heard.and(command, reply),
            session_id,
            frozen,
        ),
{
}

proof fn a_delivery_goes_on_after_closing_session(
    o: OrchestratorView,
    step: DeliverStep,
    command: Command,
    reply: Reply,
    heard: Heard,
    session_id: SessionId,
    frozen: ActiveContext,
)
    requires
        step is ClosingSession,
        deliver_awaits(step, reply),
        stays_with(o, session_id, frozen),
        delivery_stands(step, command, heard, session_id, frozen),
    ensures
        delivery_goes_on(
            deliver_step(o, session_id, step, reply),
            heard.and(command, reply),
            session_id,
            frozen,
        ),
{
}

/// Every step of a delivery hands on what was heard.
pub proof fn a_delivery_hands_on_what_it_was_told(
    o: OrchestratorView,
    step: DeliverStep,
    command: Command,
    reply: Reply,
    heard: Heard,
    session_id: SessionId,
    frozen: ActiveContext,
)
    requires
        deliver_awaits(step, reply),
        stays_with(o, session_id, frozen),
        delivery_stands(step, command, heard, session_id, frozen),
    ensures
        delivery_goes_on(
            deliver_step(o, session_id, step, reply),
            heard.and(command, reply),
            session_id,
            frozen,
        ),
{
    match step {
        DeliverStep::IssuingId { .. } => {
            a_delivery_goes_on_after_issuing_id(
                o,
                step,
                command,
                reply,
                heard,
                session_id,
                frozen,
            );
        },
        DeliverStep::Announcing { .. } => {
            a_delivery_goes_on_after_announcing(
                o,
                step,
                command,
                reply,
                heard,
                session_id,
                frozen,
            );
        },
        DeliverStep::Revalidating { .. } => {
            a_delivery_goes_on_after_revalidating(
                o,
                step,
                command,
                reply,
                heard,
                session_id,
                frozen,
            );
        },
        DeliverStep::Inserting { .. } => {
            a_delivery_goes_on_after_inserting(
                o,
                step,
                command,
                reply,
                heard,
                session_id,
                frozen,
            );
        },
        DeliverStep::RevalidatingBridge { .. } => {
            a_delivery_goes_on_after_revalidating_bridge(
                o,
                step,
                command,
                reply,
                heard,
                session_id,
                frozen,
            );
        },
        DeliverStep::PastingAtTarget { .. } => {
            a_delivery_goes_on_after_pasting_at_target(
                o,
                step,
                command,
                reply,
                heard,
                session_id,
                frozen,
            );
        },
        DeliverStep::PastingAtFocus { .. } => {
            a_delivery_goes_on_after_pasting_at_focus(
                o,
                step,
                command,
                reply,
                heard,
                session_id,
                frozen,
            );
        },
        DeliverStep::ShowingTemporary { .. } => {
            a_delivery_goes_on_after_showing_temporary(
                o,
                step,
                command,
                reply,
                heard,
                session_id,
                frozen,
            );
        },
        DeliverStep::AnnouncingFinalization { .. } => {
            a_delivery_goes_on_after_announcing_finalization(
                o,
                step,
                command,
                reply,
                heard,
                session_id,
                frozen,
            );
        },
        DeliverStep::Copying { .. } => {
            a_delivery_goes_on_after_copying(
                o,
                step,
                command,
                reply,
                heard,
                session_id,
                frozen,
            );
        },
        DeliverStep::ReadingClock { .. } => {
            a_delivery_goes_on_after_reading_clock(
                o,
                step,
                command,
                reply,
                heard,
                session_id,
                frozen,
            );
        },
        DeliverStep::Saving { .. } => {
            a_delivery_goes_on_after_saving(
                o,
                step,
                command,
                reply,
                heard,
                session_id,
                frozen,
            );
        },
        DeliverStep::AnnouncingCompletion { .. } => {
            a_delivery_goes_on_after_announcing_completion(
                o,
                step,
                command,
                reply,
                heard,
                session_id,
                frozen,
            );
        },
        DeliverStep::ClosingSession { .. } => {
            a_delivery_goes_on_after_closing_session(
                o,
                step,
                command,
                reply,
                heard,
                session_id,
                frozen,
            );
        },
    }
}

/// A delivery begins with the text that the session came to.
proof fn a_delivery_begins_with_the_outcome(
    o: OrchestratorView,
    text: String,
    forced: Option<TemporaryTextStatus>,
    heard: Heard,
    session_id: SessionId,
    frozen: ActiveContext,
)
    requires
        stays_with(o, session_id, frozen),
        is_outcome(text, heard, session_id, frozen),
        forced == (if falls_back(heard, session_id, frozen) {
            Some(TemporaryTextStatus::LlmFallback)
        } else {
            None
        }),
        is_untried(heard),
        heard.target is None,
        heard.delivery is None,
        heard.announced == Some(
            if frozen.processing_route is Llm {
                RecordingHudState::Processing
            } else {
                RecordingHudState::Recognizing
            },
        ),
    ensures
        delivery_goes_on(
            deliver_begin(o, session_id, text, reason_given(frozen), forced),
            heard,
            session_id,
            frozen,
        ),
{
}

/// An answer of the recogniser leads on from what was heard.
proof fn a_recognition_goes_on(
    o: OrchestratorView,
    request_id: RequestId,
    result: Result<AsrResult, PortError>,
    heard: Heard,
    session_id: SessionId,
    frozen: ActiveContext,
)
    requires
        stays_with(o, session_id, frozen),
        heard.recognition == Some(request_id),
        heard.transcript == Some(result),
        is_unprocessed(heard),
    ensures
        finish_goes_on(
            finish_on_recognized(o, session_id, frozen, request_id, result),
            heard,
            session_id,
            frozen,
        ),
{
    if is_heard(heard, session_id, frozen) && frozen.processing_route is DirectAsr {
        let forced = if falls_back(heard, session_id, frozen) {
            Some(TemporaryTextStatus::LlmFallback)
        } else {
            None
        };
        a_delivery_begins_with_the_outcome(
            o,
            result->Ok_0.final_text,
            forced,
            heard,
            session_id,
            frozen,
        );
    }
}

proof fn a_finish_goes_on_after_finishing_audio(
    o: OrchestratorView,
    flow: FinishFlow,
    command: Command,
    reply: Reply,
    heard: Heard,
    frozen: ActiveContext,
)
    requires
        flow.step is FinishingAudio,
        finish_awaits(flow.step, reply),
        stays_with(o, flow.session_id, frozen),
        finish_stands(flow.step, command, heard, flow.session_id, frozen),
    ensures
        finish_goes_on(
            finish_step(o, flow, reply),
            heard.and(command, reply),
            flow.session_id,
            frozen,
        ),
{
}

proof fn a_finish_goes_on_after_cancelling_empty_capture(
    o: OrchestratorView,
    flow: FinishFlow,
    command: Command,
    reply: Reply,
    heard: Heard,
    frozen: ActiveContext,
)
    requires
        flow.step is CancellingEmptyCapture,
        finish_awaits(flow.step, reply),
        stays_with(o, flow.session_id, frozen),
        finish_stands(flow.step, command, heard, flow.session_id, frozen),
    ensures
        finish_goes_on(
            finish_step(o, flow, reply),
            heard.and(command, reply),
            flow.session_id,
            frozen,
        ),
{
}

proof fn a_finish_goes_on_after_cancelling_failed_capture(
    o: OrchestratorView,
    flow: FinishFlow,
    command: Command,
    reply: Reply,
    heard: Heard,
    frozen: ActiveContext,
)
    requires
        flow.step is CancellingFailedCapture,
        finish_awaits(flow.step, reply),
        stays_with(o, flow.session_id, frozen),
        finish_stands(flow.step, command, heard, flow.session_id, frozen),
    ensures
        finish_goes_on(
            finish_step(o, flow, reply),
            heard.and(command, reply),
            flow.session_id,
            frozen,
        ),
{
}

proof fn a_finish_goes_on_after_playing_cue(
    o: OrchestratorView,
    flow: FinishFlow,
    command: Command,
    reply: Reply,
    heard: Heard,
    frozen: ActiveContext,
)
    requires
        flow.step is PlayingCue,
        finish_awaits(flow.step, reply),
        stays_with(o, flow.session_id, frozen),
        finish_stands(flow.step, command, heard, flow.session_id, frozen),
    ensures
        finish_goes_on(
            finish_step(o, flow, reply),
            heard.and(command, reply),
            flow.session_id,
            frozen,
        ),
{
}

proof fn a_finish_goes_on_after_discarding_audio(
    o: OrchestratorView,
    flow: FinishFlow,
    command: Command,
    reply: Reply,
    heard: Heard,
    frozen: ActiveContext,
)
    requires
        flow.step is DiscardingAudio,
        finish_awaits(flow.step, reply),
        stays_with(o, flow.session_id, frozen),
        finish_stands(flow.step, command, heard, flow.session_id, frozen),
    ensures
        finish_goes_on(
            finish_step(o, flow, reply),
            heard.and(command, reply),
            flow.session_id,
            frozen,
        ),
{
}

proof fn a_finish_goes_on_after_issuing_recognition(
    o: OrchestratorView,
    flow: FinishFlow,
    command: Command,
    reply: Reply,
    heard: Heard,
    frozen: ActiveContext,
)
    requires
        flow.step is IssuingRecognition,
        finish_awaits(flow.step, reply),
        stays_with(o, flow.session_id, frozen),
        finish_stands(flow.step, command, heard, flow.session_id, frozen),
    ensures
        finish_goes_on(
            finish_step(o, flow, reply),
            heard.and(command, reply),
            flow.session_id,
            frozen,
        ),
{
}

proof fn a_finish_goes_on_after_announcing_recognition(
    o: OrchestratorView,
    flow: FinishFlow,
    command: Command,
    reply: Reply,
    heard: Heard,
    frozen: ActiveContext,
)
    requires
        flow.step is AnnouncingRecognition,
        finish_awaits(flow.step, reply),
        stays_with(o, flow.session_id, frozen),
        finish_stands(flow.step, command, heard, flow.session_id, frozen),
    ensures
        finish_goes_on(
            finish_step(o, flow, reply),
            heard.and(command, reply),
            flow.session_id,
            frozen,
        ),
{
}

proof fn a_finish_goes_on_after_transcribing(
    o: OrchestratorView,
    flow: FinishFlow,
    command: Command,
    reply: Reply,
    heard: Heard,
    frozen: ActiveContext,
)
    requires
        flow.step is Transcribing,
        finish_awaits(flow.step, reply),
        stays_with(o, flow.session_id, frozen),
        finish_stands(flow.step, command, heard, flow.session_id, frozen),
    ensures
        finish_goes_on(
            finish_step(o, flow, reply),
            heard.and(command, reply),
            flow.session_id,
            frozen,
        ),
{
    let request_id = flow.step->Transcribing_request_id;
    if o.cleanable_audio(flow.session_id, request_id) is None {
        a_recognition_goes_on(
            o,
            request_id,
            reply->Transcript_0,
            heard.and(command, reply),
            flow.session_id,
            frozen,
        );
    }
}

proof fn a_finish_goes_on_after_cleaning_audio(
    o: OrchestratorView,
    flow: FinishFlow,
    command: Command,
    reply: Reply,
    heard: Heard,
    frozen: ActiveContext,
)
    requires
        flow.step is CleaningAudio,
        finish_awaits(flow.step, reply),
        stays_with(o, flow.session_id, frozen),
        finish_stands(flow.step, command, heard, flow.session_id, frozen),
    ensures
        finish_goes_on(
            finish_step(o, flow, reply),
            heard.and(command, reply),
            flow.session_id,
            frozen,
        ),
{
    if reply->Acted_0 is Ok {
        let request_id = flow.step->CleaningAudio_request_id;
        let audio_ref = flow.step->CleaningAudio_audio_ref;
        let after = artifact_settled(o, flow.session_id, audio_ref, reply->Acted_0);
        if after.cleans(flow.session_id, request_id, audio_ref) {
            a_recognition_goes_on(
                after.staged(RuntimeStage::Recognizing { request_id, audio_ref: None }),
                request_id,
                flow.step->result,
                heard,
                flow.session_id,
                frozen,
            );
        }
    }
}

proof fn a_finish_goes_on_after_issuing_processing(
    o: OrchestratorView,
    flow: FinishFlow,
    command: Command,
    reply: Reply,
    heard: Heard,
    frozen: ActiveContext,
)
    requires
        flow.step is IssuingProcessing,
        finish_awaits(flow.step, reply),
        stays_with(o, flow.session_id, frozen),
        finish_stands(flow.step, command, heard, flow.session_id, frozen),
    ensures
        finish_goes_on(
            finish_step(o, flow, reply),
            heard.and(command, reply),
            flow.session_id,
            frozen,
        ),
{
}

proof fn a_finish_goes_on_after_announcing_processing(
    o: OrchestratorView,
    flow: FinishFlow,
    command: Command,
    reply: Reply,
    heard: Heard,
    frozen: ActiveContext,
)
    requires
        flow.step is AnnouncingProcessing,
        finish_awaits(flow.step, reply),
        stays_with(o, flow.session_id, frozen),
        finish_stands(flow.step, command, heard, flow.session_id, frozen),
    ensures
        finish_goes_on(
            finish_step(o, flow, reply),
            heard.and(command, reply),
            flow.session_id,
            frozen,
        ),
{
}

proof fn a_finish_goes_on_after_processing(
    o: OrchestratorView,
    flow: FinishFlow,
    command: Command,
    reply: Reply,
    heard: Heard,
    frozen: ActiveContext,
)
    requires
        flow.step is Processing,
        finish_awaits(flow.step, reply),
        stays_with(o, flow.session_id, frozen),
        finish_stands(flow.step, command, heard, flow.session_id, frozen),
    ensures
        finish_goes_on(
            finish_step(o, flow, reply),
            heard.and(command, reply),
            flow.session_id,
            frozen,
        ),
{
    let now = heard.and(command, reply);
    let text = if is_processed(now, flow.session_id) {
        reply->Text_result->Ok_0.final_text
    } else {
        flow.step->Processing_raw_transcript
    };
    let forced = if falls_back(now, flow.session_id, frozen) {
        Some(TemporaryTextStatus::LlmFallback)
    } else {
        None
    };
    a_delivery_begins_with_the_outcome(o, text, forced, now, flow.session_id, frozen);
}

proof fn a_finish_goes_on_after_delivering(
    o: OrchestratorView,
    flow: FinishFlow,
    command: Command,
    reply: Reply,
    heard: Heard,
    frozen: ActiveContext,
)
    requires
        flow.step is Delivering,
        finish_awaits(flow.step, reply),
        stays_with(o, flow.session_id, frozen),
        finish_stands(flow.step, command, heard, flow.session_id, frozen),
    ensures
        finish_goes_on(
            finish_step(o, flow, reply),
            heard.and(command, reply),
            flow.session_id,
            frozen,
        ),
{
    a_delivery_hands_on_what_it_was_told(
        o,
        flow.step->Delivering_step,
        command,
        reply,
        heard,
        flow.session_id,
        frozen,
    );
}

proof fn a_finish_goes_on_after_closing_session(
    o: OrchestratorView,
    flow: FinishFlow,
    command: Command,
    reply: Reply,
    heard: Heard,
    frozen: ActiveContext,
)
    requires
        flow.step is ClosingSession,
        finish_awaits(flow.step, reply),
        stays_with(o, flow.session_id, frozen),
        finish_stands(flow.step, command, heard, flow.session_id, frozen),
    ensures
        finish_goes_on(
            finish_step(o, flow, reply),
            heard.and(command, reply),
            flow.session_id,
            frozen,
        ),
{
}

/// Every step of a finish workflow hands on what was heard.
pub proof fn a_finish_hands_on_what_it_was_told(
    o: OrchestratorView,
    flow: FinishFlow,
    command: Command,
    reply: Reply,
    heard: Heard,
    frozen: ActiveContext,
)
    requires
        finish_awaits(flow.step, reply),
        stays_with(o, flow.session_id, frozen),
        finish_stands(flow.step, command, heard, flow.session_id, frozen),
    ensures
        finish_goes_on(
            finish_step(o, flow, reply),
            heard.and(command, reply),
            flow.session_id,
            frozen,
        ),
{
    match flow.step {
        FinishStep::FinishingAudio { .. } => {
            a_finish_goes_on_after_finishing_audio(o, flow, command, reply, heard, frozen);
        },
        FinishStep::CancellingEmptyCapture { .. } => {
            a_finish_goes_on_after_cancelling_empty_capture(o, flow, command, reply, heard, frozen);
        },
        FinishStep::CancellingFailedCapture { .. } => {
            a_finish_goes_on_after_cancelling_failed_capture(
                o,
                flow,
                command,
                reply,
                heard,
                frozen,
            );
        },
        FinishStep::PlayingCue { .. } => {
            a_finish_goes_on_after_playing_cue(o, flow, command, reply, heard, frozen);
        },
        FinishStep::DiscardingAudio { .. } => {
            a_finish_goes_on_after_discarding_audio(o, flow, command, reply, heard, frozen);
        },
        FinishStep::IssuingRecognition { .. } => {
            a_finish_goes_on_after_issuing_recognition(o, flow, command, reply, heard, frozen);
        },
        FinishStep::AnnouncingRecognition { .. } => {
            a_finish_goes_on_after_announcing_recognition(o, flow, command, reply, heard, frozen);
        },
        FinishStep::Transcribing { .. } => {
            a_finish_goes_on_after_transcribing(o, flow, command, reply, heard, frozen);
        },
        FinishStep::CleaningAudio { .. } => {
            a_finish_goes_on_after_cleaning_audio(o, flow, command, reply, heard, frozen);
        },
        FinishStep::IssuingProcessing { .. } => {
            a_finish_goes_on_after_issuing_processing(o, flow, command, reply, heard, frozen);
        },
        FinishStep::AnnouncingProcessing { .. } => {
            a_finish_goes_on_after_announcing_processing(o, flow, command, reply, heard, frozen);
        },
        FinishStep::Processing { .. } => {
            a_finish_goes_on_after_processing(o, flow, command, reply, heard, frozen);
        },
        FinishStep::Delivering { .. } => {
            a_finish_goes_on_after_delivering(o, flow, command, reply, heard, frozen);
        },
        FinishStep::ClosingSession { .. } => {
            a_finish_goes_on_after_closing_session(o, flow, command, reply, heard, frozen);
        },
    }
}

} // verus!
