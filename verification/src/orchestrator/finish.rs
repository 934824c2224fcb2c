//! Finishing a recording: the audio is closed, recognised and removed, the text
//! is processed where that was asked for, and then delivered.

use crate::domain::{FailureCategory, RequestId, SessionEvent, SessionId, TerminalOutcome};
use crate::orchestrator::cancel::{
    artifact_settled, cancel_step, capture_settled, settlement, CancelFlow, CancelResult,
    CancelStep,
};
use crate::orchestrator::closing::{
    closing_begin, closing_step, failure_after, failure_effects, failure_start, Closing,
    ClosingMove, FailureStart,
};
use crate::orchestrator::deliver::{
    deliver_awaits, deliver_begin, deliver_step, DeliverFlow, DeliverMove, DeliverStep, FinishEnd,
};
use crate::orchestrator::protocol::{
    acted, failure, note_failure, note_result, noted, stop_deadline, stopping, Command, Effect,
    Entered, Move, Next, Progress, Reply,
};
use crate::orchestrator::state::{
    ActiveContext, CaptureCancellationTarget, CaptureCleanupCompletion, OrchestratorView,
    RuntimeStage, TranscriptionOrchestrator,
};
use crate::ports::{
    AsrRequest, AsrResult, AudioCaptureRef, AudioRef, FinalizedAudio, PortError, RecordingCue,
    RecordingHudState, ResolvedLlmRoute, TemporaryTextStatus, TextProcessingRequest,
    TextProcessingResult, ASR_NO_SPEECH_CODE, AUDIO_EMPTY_CAPTURE_CODE,
};
use crate::text::{blank, is_blank};
use crate::text_route::{DirectDeliveryReason, TextProcessingRoute};
use crate::trace::Diagnostic;
use vstd::prelude::*;

verus! {

/// Recognition runs without a deadline.
pub const UNBOUNDED_DEADLINE_MS: u64 = u64::MAX;

/// How far a finish workflow has come.
#[derive(PartialEq, Eq)]
pub enum FinishStep {
    FinishingAudio { capture: AudioCaptureRef },
    CancellingEmptyCapture { step: CancelStep },
    CancellingFailedCapture { capture: AudioCaptureRef },
    PlayingCue { audio: FinalizedAudio },
    DiscardingAudio { audio_ref: AudioRef },
    IssuingRecognition { audio: FinalizedAudio, context: ActiveContext },
    AnnouncingRecognition {
        audio: FinalizedAudio,
        context: ActiveContext,
        request_id: RequestId,
    },
    Transcribing { context: ActiveContext, request_id: RequestId },
    CleaningAudio {
        context: ActiveContext,
        request_id: RequestId,
        audio_ref: AudioRef,
        result: Result<AsrResult, PortError>,
    },
    IssuingProcessing { context: ActiveContext, route: ResolvedLlmRoute, raw_transcript: String },
    AnnouncingProcessing {
        context: ActiveContext,
        route: ResolvedLlmRoute,
        raw_transcript: String,
        request_id: RequestId,
    },
    Processing { raw_transcript: String, request_id: RequestId },
    Delivering { step: DeliverStep },
    ClosingSession { closing: Closing, end: FinishEnd },
}

/// A finish workflow under way.
#[derive(PartialEq, Eq)]
pub struct FinishFlow {
    pub session_id: SessionId,
    pub step: FinishStep,
}

pub type FinishMove = Move<FinishFlow, FinishEnd>;

impl OrchestratorView {
    /// Whether the audio of a session is still being finalized.
    pub open spec fn finalizes_audio(self, session_id: SessionId) -> bool {
        self.current(session_id) && self.active->0.stage is FinishingAudio
    }

    /// Whether a recognition is still the one that its session waits for.
    pub open spec fn recognizes(self, session_id: SessionId, request_id: RequestId) -> bool {
        &&& self.current(session_id)
        &&& match self.active->0.stage {
            RuntimeStage::Recognizing { request_id: held, .. } => held == request_id,
            _ => false,
        }
    }

    /// Whether a processing is still the one that its session waits for.
    pub open spec fn processes(self, session_id: SessionId, request_id: RequestId) -> bool {
        self.current(session_id) && self.active->0.stage == (RuntimeStage::Processing {
            request_id,
        })
    }
}

pub open spec fn finish_end(o: OrchestratorView, end: FinishEnd) -> FinishMove {
    Move { after: o, effects: Seq::empty(), next: Next::Done(end) }
}

pub open spec fn finish_wait(
    o: OrchestratorView,
    session_id: SessionId,
    step: FinishStep,
    command: Command,
) -> FinishMove {
    Move {
        after: o,
        effects: Seq::empty(),
        next: Next::Await { flow: FinishFlow { session_id, step }, command },
    }
}

/// An end of the session that leads to an end of the workflow.
pub open spec fn finish_closing(
    session_id: SessionId,
    step: ClosingMove,
    end: FinishEnd,
) -> FinishMove {
    Move {
        after: step.after,
        effects: step.effects,
        next: match step.next {
            Some((closing, command)) => Next::Await {
                flow: FinishFlow { session_id, step: FinishStep::ClosingSession { closing, end } },
                command,
            },
            None => Next::Done(end),
        },
    }
}

/// A failure of the session that ends the workflow with it.
pub open spec fn finish_failure(
    o: OrchestratorView,
    session_id: SessionId,
    category: FailureCategory,
) -> FinishMove {
    let after = failure_after(o, session_id, category);
    let effects = failure_effects(o, session_id, category);
    match failure_start(o, session_id, category) {
        FailureStart::NotCurrent => Move {
            after,
            effects,
            next: Next::Done(FinishEnd::Discarded),
        },
        FailureStart::Refused(error) => Move {
            after,
            effects,
            next: Next::Done(FinishEnd::Error(error)),
        },
        FailureStart::Closing(next) => finish_closing(
            session_id,
            ClosingMove { after, effects, next },
            FinishEnd::Failed(category),
        ),
    }
}

/// Nothing was said: the session ends quietly.
pub open spec fn finish_no_speech(o: OrchestratorView, session_id: SessionId) -> FinishMove {
    let after = o.advanced(session_id, SessionEvent::NoSpeech);
    match o.advancing(session_id, SessionEvent::NoSpeech) {
        Err(error) => finish_end(after, FinishEnd::Error(error)),
        Ok(false) => finish_end(after, FinishEnd::Discarded),
        Ok(true) => finish_closing(
            session_id,
            closing_begin(after, session_id, Some(TerminalOutcome::Cancelled), None),
            FinishEnd::NoSpeech,
        ),
    }
}

/// A delivery as part of the workflow.
pub open spec fn finish_delivery(step: DeliverMove) -> FinishMove {
    Move {
        after: step.after,
        effects: step.effects,
        next: match step.next {
            Next::Await { flow, command } => Next::Await {
                flow: FinishFlow {
                    session_id: flow.session_id,
                    step: FinishStep::Delivering { step: flow.step },
                },
                command,
            },
            Next::Done(end) => Next::Done(end),
        },
    }
}

/// The cancellation of an empty capture as part of the workflow: however it
/// goes on, nothing was said.
pub open spec fn finish_cancellation(step: Move<CancelFlow, CancelResult>) -> FinishMove {
    Move {
        after: step.after,
        effects: step.effects,
        next: match step.next {
            Next::Await { flow, command } => Next::Await {
                flow: FinishFlow {
                    session_id: flow.session_id,
                    step: FinishStep::CancellingEmptyCapture { step: flow.step },
                },
                command,
            },
            Next::Done(Ok(_)) => Next::Done(FinishEnd::NoSpeech),
            Next::Done(Err(error)) => Next::Done(FinishEnd::Error(error)),
        },
    }
}

/// Audio of a session that is gone is removed before the workflow gives up.
pub open spec fn finish_discarding(
    o: OrchestratorView,
    session_id: SessionId,
    audio_ref: AudioRef,
) -> FinishMove {
    finish_wait(
        o,
        session_id,
        FinishStep::DiscardingAudio { audio_ref },
        Command::CleanupAudio(audio_ref),
    )
}

/// How a finish begins: only a session that records has something to finish.
pub open spec fn finish_begin(o: OrchestratorView, session_id: SessionId) -> FinishMove {
    if !o.operations.open {
        finish_end(o, FinishEnd::Discarded)
    } else {
        let entered = OrchestratorView { operations: o.operations.entered(), ..o };
        if !o.records(session_id) {
            finish_end(entered, FinishEnd::NotRecording)
        } else {
            let capture = o.active->0.stage->Recording_capture;
            finish_wait(
                entered.finishing(),
                session_id,
                FinishStep::FinishingAudio { capture },
                Command::FinishAudio(capture),
            ).following(stopping(o.active->0.recording_deadline))
        }
    }
}

/// A capture that could not be finalized is not known to be closed: it is
/// cancelled before anything else happens. An empty one counts as silence, any
/// other failure fails the session.
pub open spec fn finish_on_audio(
    o: OrchestratorView,
    session_id: SessionId,
    capture: AudioCaptureRef,
    result: Result<FinalizedAudio, PortError>,
) -> FinishMove {
    match result {
        Ok(audio) => finish_wait(
            o,
            session_id,
            FinishStep::PlayingCue { audio },
            Command::PlayCue(RecordingCue::Finish),
        ),
        Err(error) => {
            let empty = error.code@ == AUDIO_EMPTY_CAPTURE_CODE@;
            let completion = if empty {
                CaptureCleanupCompletion::Cancelled
            } else {
                CaptureCleanupCompletion::FailAudio
            };
            (if !o.finalizes_audio(session_id) {
                finish_end(o, FinishEnd::Discarded)
            } else {
                finish_wait(
                    o.staged(RuntimeStage::Cancelling { capture, completion, in_flight: true }),
                    session_id,
                    if empty {
                        FinishStep::CancellingEmptyCapture {
                            step: CancelStep::ClosingCapture {
                                capture,
                                target: CaptureCancellationTarget::Active(completion),
                            },
                        }
                    } else {
                        FinishStep::CancellingFailedCapture { capture }
                    },
                    Command::CancelCapture(capture),
                )
            }).following(
                seq![
                    if empty {
                        Effect::Record(Diagnostic::NoSpeech { session_id, phase: "audio_finish" })
                    } else {
                        failure(session_id, "audio_finish", error)
                    },
                ],
            )
        },
    }
}

pub open spec fn finish_on_failed_capture(
    o: OrchestratorView,
    session_id: SessionId,
    capture: AudioCaptureRef,
    result: Result<(), PortError>,
) -> FinishMove {
    let after = capture_settled(o, session_id, capture, result);
    match settlement(session_id, "audio_cancel", result) {
        Err(error) => finish_end(
            after.with_cleanup_in_flight(session_id, false),
            FinishEnd::Error(error),
        ).following(noted(session_id, "audio_cancel", result)),
        Ok(_) => finish_failure(after, session_id, FailureCategory::Audio),
    }
}

/// Only a closed capture may enter recognition.
pub open spec fn finish_on_cue(
    o: OrchestratorView,
    session_id: SessionId,
    audio: FinalizedAudio,
) -> FinishMove {
    if !o.finalizes_audio(session_id) {
        finish_discarding(o, session_id, audio.audio_ref)
    } else {
        let after = o.advanced(session_id, SessionEvent::FinishRecording);
        match o.advancing(session_id, SessionEvent::FinishRecording) {
            Err(error) => finish_end(after, FinishEnd::Error(error)),
            Ok(false) => finish_discarding(after, session_id, audio.audio_ref),
            Ok(true) => finish_wait(
                after,
                session_id,
                FinishStep::IssuingRecognition { audio, context: o.active->0.context() },
                Command::IssueRequestId,
            ),
        }
    }
}

pub open spec fn finish_on_discarded(
    o: OrchestratorView,
    session_id: SessionId,
    audio_ref: AudioRef,
    result: Result<(), PortError>,
) -> FinishMove {
    finish_end(
        artifact_settled(o, session_id, audio_ref, result),
        match settlement(session_id, "audio_cleanup", result) {
            Err(error) => FinishEnd::Error(error),
            Ok(_) => FinishEnd::Discarded,
        },
    ).following(noted(session_id, "audio_cleanup", result))
}

pub open spec fn finish_on_recognition_id(
    o: OrchestratorView,
    session_id: SessionId,
    audio: FinalizedAudio,
    context: ActiveContext,
    request_id: RequestId,
) -> FinishMove {
    if !o.current(session_id) {
        finish_discarding(o, session_id, audio.audio_ref)
    } else {
        finish_wait(
            o.staged(
                RuntimeStage::Recognizing { request_id, audio_ref: Some(audio.audio_ref) },
            ),
            session_id,
            FinishStep::AnnouncingRecognition { audio, context, request_id },
            Command::UpdateHud(session_id, RecordingHudState::Recognizing),
        )
    }
}

/// The request to the recogniser that the session is bound to.
pub open spec fn recognition_request(
    session_id: SessionId,
    audio: FinalizedAudio,
    context: ActiveContext,
    request_id: RequestId,
) -> AsrRequest {
    AsrRequest {
        session_id,
        request_id,
        engine: context.asr_route.engine,
        audio,
        language_hint: None,
        deadline_ms: UNBOUNDED_DEADLINE_MS,
    }
}

/// Whether a transcript answers a request.
pub open spec fn transcript_is_valid(
    result: AsrResult,
    session_id: SessionId,
    request_id: RequestId,
    context: ActiveContext,
) -> bool {
    &&& result.session_id == session_id
    &&& result.request_id == request_id
    &&& result.engine == context.asr_route.engine
}

/// How a text without processing is delivered: where processing was asked for
/// and cannot be had, the text goes straight to the temporary surface.
pub open spec fn forced_status(reason: DirectDeliveryReason) -> Option<TemporaryTextStatus> {
    if reason == DirectDeliveryReason::LlmUnavailable {
        Some(TemporaryTextStatus::LlmFallback)
    } else {
        None
    }
}

/// Processing of a session that is still there and takes to it.
pub open spec fn finish_processing(
    o: OrchestratorView,
    session_id: SessionId,
    route: ResolvedLlmRoute,
    raw_transcript: String,
) -> FinishMove {
    if !o.works(session_id) {
        finish_end(o, FinishEnd::Discarded)
    } else {
        let after = o.advanced(session_id, SessionEvent::BeginProcessing);
        match o.advancing(session_id, SessionEvent::BeginProcessing) {
            Err(error) => finish_end(after, FinishEnd::Error(error)),
            Ok(false) => finish_end(after, FinishEnd::Discarded),
            Ok(true) => finish_wait(
                after,
                session_id,
                FinishStep::IssuingProcessing {
                    context: o.active->0.context(),
                    route,
                    raw_transcript,
                },
                Command::IssueRequestId,
            ),
        }
    }
}

/// What a transcript leads to. A late or foreign answer is never delivered, and
/// the other recogniser is never asked.
pub open spec fn finish_on_recognized(
    o: OrchestratorView,
    session_id: SessionId,
    context: ActiveContext,
    request_id: RequestId,
    result: Result<AsrResult, PortError>,
) -> FinishMove {
    if !o.recognizes(session_id, request_id) {
        finish_end(o, FinishEnd::Discarded).following(
            seq![Effect::Record(Diagnostic::LateResponse { session_id, phase: "asr_late" })],
        )
    } else {
        match result {
            Ok(transcript) => if !transcript_is_valid(
                transcript,
                session_id,
                request_id,
                context,
            ) {
                finish_failure(o, session_id, FailureCategory::Asr).following(
                    seq![
                        Effect::Record(
                            Diagnostic::LateResponse {
                                session_id,
                                phase: "asr_correlation_mismatch",
                            },
                        ),
                    ],
                )
            } else if blank(transcript.final_text@) {
                finish_no_speech(o, session_id).following(
                    seq![Effect::Record(Diagnostic::NoSpeech { session_id, phase: "asr" })],
                )
            } else {
                match context.processing_route {
                    TextProcessingRoute::DirectAsr(reason) => finish_delivery(
                        deliver_begin(
                            o,
                            session_id,
                            transcript.final_text,
                            Some(reason),
                            forced_status(reason),
                        ),
                    ),
                    TextProcessingRoute::Llm(route) => finish_processing(
                        o,
                        session_id,
                        route,
                        transcript.final_text,
                    ),
                }
            },
            Err(error) => if error.code@ == ASR_NO_SPEECH_CODE@ {
                finish_no_speech(o, session_id).following(
                    seq![Effect::Record(Diagnostic::NoSpeech { session_id, phase: "asr" })],
                )
            } else {
                finish_failure(o, session_id, FailureCategory::Asr).following(
                    seq![failure(session_id, "asr", error)],
                )
            },
        }
    }
}

/// The finalized audio is removed before the transcript is looked at.
pub open spec fn finish_on_transcript(
    o: OrchestratorView,
    session_id: SessionId,
    context: ActiveContext,
    request_id: RequestId,
    result: Result<AsrResult, PortError>,
) -> FinishMove {
    match o.cleanable_audio(session_id, request_id) {
        Some(audio_ref) => finish_wait(
            o.staged(RuntimeStage::CleaningAudio { request_id, audio_ref, in_flight: true }),
            session_id,
            FinishStep::CleaningAudio { context, request_id, audio_ref, result },
            Command::CleanupAudio(audio_ref),
        ),
        None => finish_on_recognized(o, session_id, context, request_id, result),
    }
}

/// Audio that could not be removed stops the workflow and keeps the session's
/// place.
pub open spec fn finish_on_cleaned(
    o: OrchestratorView,
    session_id: SessionId,
    context: ActiveContext,
    request_id: RequestId,
    audio_ref: AudioRef,
    transcript: Result<AsrResult, PortError>,
    result: Result<(), PortError>,
) -> FinishMove {
    let after = artifact_settled(o, session_id, audio_ref, result);
    match settlement(session_id, "audio_cleanup", result) {
        Err(error) => finish_end(
            after.with_cleanup_in_flight(session_id, false),
            FinishEnd::Error(error),
        ).following(noted(session_id, "audio_cleanup", result)),
        Ok(_) => if !after.cleans(session_id, request_id, audio_ref) {
            finish_end(after, FinishEnd::Discarded)
        } else {
            finish_on_recognized(
                after.staged(RuntimeStage::Recognizing { request_id, audio_ref: None }),
                session_id,
                context,
                request_id,
                transcript,
            )
        },
    }
}

pub open spec fn finish_on_processing_id(
    o: OrchestratorView,
    session_id: SessionId,
    context: ActiveContext,
    route: ResolvedLlmRoute,
    raw_transcript: String,
    request_id: RequestId,
) -> FinishMove {
    if !o.current(session_id) {
        finish_end(o, FinishEnd::Discarded)
    } else {
        finish_wait(
            o.staged(RuntimeStage::Processing { request_id }),
            session_id,
            FinishStep::AnnouncingProcessing { context, route, raw_transcript, request_id },
            Command::UpdateHud(session_id, RecordingHudState::Processing),
        )
    }
}

pub open spec fn finish_on_processing_announced(
    o: OrchestratorView,
    session_id: SessionId,
    context: ActiveContext,
    route: ResolvedLlmRoute,
    raw_transcript: String,
    request_id: RequestId,
) -> FinishMove {
    finish_wait(
        o,
        session_id,
        FinishStep::Processing { raw_transcript, request_id },
        Command::ProcessText {
            route,
            request: TextProcessingRequest {
                session_id,
                request_id,
                processing_mode: context.settings.input.processing_mode,
                raw_transcript,
                selected_text: context.selected_text,
            },
        },
    ).following(
        seq![
            Effect::Record(
                Diagnostic::LlmRequested {
                    session_id,
                    processing_mode: context.settings.input.processing_mode,
                },
            ),
        ],
    )
}

/// The local transcript, in the temporary surface.
pub open spec fn finish_fallback(
    o: OrchestratorView,
    session_id: SessionId,
    raw_transcript: String,
) -> FinishMove {
    finish_delivery(
        deliver_begin(
            o,
            session_id,
            raw_transcript,
            None,
            Some(TemporaryTextStatus::LlmFallback),
        ),
    )
}

/// What a processed text leads to. Whatever is wrong with the answer, the local
/// transcript is kept and nothing of the answer is delivered.
pub open spec fn finish_on_processed(
    o: OrchestratorView,
    session_id: SessionId,
    raw_transcript: String,
    request_id: RequestId,
    result: Result<TextProcessingResult, PortError>,
) -> FinishMove {
    if !o.processes(session_id, request_id) {
        finish_end(o, FinishEnd::Discarded).following(
            seq![Effect::Record(Diagnostic::LateResponse { session_id, phase: "llm_late" })],
        )
    } else {
        match result {
            Ok(text) => if text.session_id != session_id || text.request_id != request_id {
                finish_fallback(o, session_id, raw_transcript).following(
                    seq![
                        Effect::Record(
                            Diagnostic::LateResponse {
                                session_id,
                                phase: "llm_correlation_mismatch",
                            },
                        ),
                    ],
                )
            } else if blank(text.final_text@) {
                finish_fallback(o, session_id, raw_transcript).following(
                    seq![
                        Effect::Record(
                            Diagnostic::LateResponse { session_id, phase: "llm_empty_response" },
                        ),
                    ],
                )
            } else {
                finish_delivery(deliver_begin(o, session_id, text.final_text, None, None))
            },
            Err(error) => finish_fallback(o, session_id, raw_transcript).following(
                seq![failure(session_id, "llm", error)],
            ),
        }
    }
}

/// What diagnostics keep of an answer of the language model.
pub open spec fn answer_record(
    session_id: SessionId,
    result: Result<TextProcessingResult, PortError>,
    elapsed_ms: u64,
) -> Effect {
    Effect::Record(
        Diagnostic::LlmAnswered {
            session_id,
            duration_ms: elapsed_ms,
            failure: match result {
                Ok(_) => None,
                Err(error) => Some(error.code),
            },
        },
    )
}

/// Whether a reply is what a finish workflow waits for.
pub open spec fn finish_awaits(step: FinishStep, reply: Reply) -> bool {
    match step {
        FinishStep::FinishingAudio { .. } => reply is Audio,
        FinishStep::IssuingRecognition { .. } | FinishStep::IssuingProcessing { .. } => {
            reply is Request
        },
        FinishStep::Transcribing { .. } => reply is Transcript,
        FinishStep::Processing { .. } => reply is Text,
        FinishStep::Delivering { step } => deliver_awaits(step, reply),
        _ => reply is Acted,
    }
}

/// The whole workflow, one answer at a time.
pub open spec fn finish_step(o: OrchestratorView, flow: FinishFlow, reply: Reply) -> FinishMove {
    let session_id = flow.session_id;
    match flow.step {
        FinishStep::FinishingAudio { capture } => finish_on_audio(
            o,
            session_id,
            capture,
            reply->Audio_0,
        ),
        FinishStep::CancellingEmptyCapture { step } => finish_cancellation(
            cancel_step(o, CancelFlow { session_id, step }, reply),
        ),
        FinishStep::CancellingFailedCapture { capture } => finish_on_failed_capture(
            o,
            session_id,
            capture,
            reply->Acted_0,
        ),
        FinishStep::PlayingCue { audio } => finish_on_cue(o, session_id, audio).following(
            noted(session_id, "recording_cue", reply->Acted_0),
        ),
        FinishStep::DiscardingAudio { audio_ref } => finish_on_discarded(
            o,
            session_id,
            audio_ref,
            reply->Acted_0,
        ),
        FinishStep::IssuingRecognition { audio, context } => finish_on_recognition_id(
            o,
            session_id,
            audio,
            context,
            reply->Request_0,
        ),
        FinishStep::AnnouncingRecognition { audio, context, request_id } => finish_wait(
            o,
            session_id,
            FinishStep::Transcribing { context, request_id },
            Command::Transcribe(recognition_request(session_id, audio, context, request_id)),
        ).following(noted(session_id, "recording_hud_update", reply->Acted_0)),
        FinishStep::Transcribing { context, request_id } => finish_on_transcript(
            o,
            session_id,
            context,
            request_id,
            reply->Transcript_0,
        ),
        FinishStep::CleaningAudio { context, request_id, audio_ref, result } => finish_on_cleaned(
            o,
            session_id,
            context,
            request_id,
            audio_ref,
            result,
            reply->Acted_0,
        ),
        FinishStep::IssuingProcessing { context, route, raw_transcript } => {
            finish_on_processing_id(
                o,
                session_id,
                context,
                route,
                raw_transcript,
                reply->Request_0,
            )
        },
        FinishStep::AnnouncingProcessing { context, route, raw_transcript, request_id } => {
            finish_on_processing_announced(
                o,
                session_id,
                context,
                route,
                raw_transcript,
                request_id,
            ).following(noted(session_id, "recording_hud_update", reply->Acted_0))
        },
        FinishStep::Processing { raw_transcript, request_id } => finish_on_processed(
            o,
            session_id,
            raw_transcript,
            request_id,
            reply->Text_result,
        ).following(seq![answer_record(session_id, reply->Text_result, reply->elapsed_ms)]),
        FinishStep::Delivering { step } => finish_delivery(
            deliver_step(o, session_id, step, reply),
        ),
        FinishStep::ClosingSession { closing, end } => finish_closing(
            session_id,
            closing_step(o, closing, reply->Acted_0),
            end,
        ),
    }
}

fn lift_delivery(next: Next<DeliverFlow, FinishEnd>) -> (r: Next<FinishFlow, FinishEnd>)
    ensures
        forall|step: DeliverMove| step.next == next ==> #[trigger] finish_delivery(step).next == r,
{
    match next {
        Next::Await { flow, command } => Next::Await {
            flow: FinishFlow {
                session_id: flow.session_id,
                step: FinishStep::Delivering { step: flow.step },
            },
            command,
        },
        Next::Done(end) => Next::Done(end),
    }
}

impl TranscriptionOrchestrator {
    fn finalizes_audio(&self, session_id: SessionId) -> (r: bool)
        ensures
            r == self@.finalizes_audio(session_id),
    {
        match self.current_stage(session_id) {
            Some(RuntimeStage::FinishingAudio { .. }) => true,
            _ => false,
        }
    }

    fn recognizes(&self, session_id: SessionId, request_id: RequestId) -> (r: bool)
        ensures
            r == self@.recognizes(session_id, request_id),
    {
        match self.current_stage(session_id) {
            Some(RuntimeStage::Recognizing { request_id: held, .. }) => *held == request_id,
            _ => false,
        }
    }

    fn processes(&self, session_id: SessionId, request_id: RequestId) -> (r: bool)
        ensures
            r == self@.processes(session_id, request_id),
    {
        match self.current_stage(session_id) {
            Some(RuntimeStage::Processing { request_id: held }) => *held == request_id,
            _ => false,
        }
    }

    fn finish_end_session(
        &self,
        session_id: SessionId,
        next: Option<(Closing, Command)>,
        end: FinishEnd,
    ) -> (r: Next<FinishFlow, FinishEnd>)
        ensures
            r == finish_closing(
                session_id,
                ClosingMove { after: self@, effects: Seq::empty(), next },
                end,
            ).next,
    {
        match next {
            Some((closing, command)) => Next::Await {
                flow: FinishFlow { session_id, step: FinishStep::ClosingSession { closing, end } },
                command,
            },
            None => Next::Done(end),
        }
    }

    fn finish_by_failure(
        &mut self,
        session_id: SessionId,
        category: FailureCategory,
        effects: &mut Vec<Effect>,
    ) -> (next: Next<FinishFlow, FinishEnd>)
        ensures
            next == finish_failure(old(self)@, session_id, category).next,
            final(self)@ == finish_failure(old(self)@, session_id, category).after,
            final(effects)@ == old(effects)@ + finish_failure(
                old(self)@,
                session_id,
                category,
            ).effects,
    {
        match self.begin_failure(session_id, category, effects) {
            FailureStart::NotCurrent => Next::Done(FinishEnd::Discarded),
            FailureStart::Refused(error) => Next::Done(FinishEnd::Error(error)),
            FailureStart::Closing(next) => self.finish_end_session(
                session_id,
                next,
                FinishEnd::Failed(category),
            ),
        }
    }

    fn complete_no_speech(&mut self, session_id: SessionId, effects: &mut Vec<Effect>) -> (next:
        Next<FinishFlow, FinishEnd>)
        ensures
            next == finish_no_speech(old(self)@, session_id).next,
            final(self)@ == finish_no_speech(old(self)@, session_id).after,
            final(effects)@ == old(effects)@ + finish_no_speech(old(self)@, session_id).effects,
    {
        match self.apply_if_current(session_id, SessionEvent::NoSpeech) {
            Err(error) => Next::Done(FinishEnd::Error(error)),
            Ok(false) => Next::Done(FinishEnd::Discarded),
            Ok(true) => {
                let next = self.begin_closing(
                    session_id,
                    Some(TerminalOutcome::Cancelled),
                    None,
                    effects,
                );
                self.finish_end_session(session_id, next, FinishEnd::NoSpeech)
            },
        }
    }

    fn discard_audio(&self, session_id: SessionId, audio_ref: AudioRef) -> (next: Next<
        FinishFlow,
        FinishEnd,
    >)
        ensures
            next == finish_discarding(self@, session_id, audio_ref).next,
    {
        let command = Command::CleanupAudio(audio_ref.clone());
        Next::Await {
            flow: FinishFlow { session_id, step: FinishStep::DiscardingAudio { audio_ref } },
            command,
        }
    }

    /// Finishes the recording of a session.
    pub fn finish_recording(&mut self, session_id: SessionId) -> (r: Entered<FinishFlow, FinishEnd>)
        requires
            old(self)@.operations.in_flight < usize::MAX,
        ensures
            r.guard is Some <==> old(self)@.operations.open,
            r.progress.effects@ == finish_begin(old(self)@, session_id).effects,
            r.progress.next == finish_begin(old(self)@, session_id).next,
            final(self)@ == finish_begin(old(self)@, session_id).after,
    {
        let guard = self.enter_operation();
        let mut effects: Vec<Effect> = Vec::new();
        if guard.is_none() {
            return Entered {
                guard,
                progress: Progress { effects, next: Next::Done(FinishEnd::Discarded) },
            };
        }
        match self.select_finish(session_id) {
            None => Entered {
                guard,
                progress: Progress { effects, next: Next::Done(FinishEnd::NotRecording) },
            },
            Some((capture, deadline)) => {
                stop_deadline(&mut effects, deadline);
                let command = Command::FinishAudio(capture.clone());
                Entered {
                    guard,
                    progress: Progress {
                        effects,
                        next: Next::Await {
                            flow: FinishFlow {
                                session_id,
                                step: FinishStep::FinishingAudio { capture },
                            },
                            command,
                        },
                    },
                }
            },
        }
    }

    fn finish_with_audio(
        &mut self,
        session_id: SessionId,
        capture: AudioCaptureRef,
        result: Result<FinalizedAudio, PortError>,
        effects: &mut Vec<Effect>,
    ) -> (next: Next<FinishFlow, FinishEnd>)
        ensures
            next == finish_on_audio(old(self)@, session_id, capture, result).next,
            final(self)@ == finish_on_audio(old(self)@, session_id, capture, result).after,
            final(effects)@ == old(effects)@ + finish_on_audio(
                old(self)@,
                session_id,
                capture,
                result,
            ).effects,
    {
        let error = match result {
            Ok(audio) => {
                return Next::Await {
                    flow: FinishFlow { session_id, step: FinishStep::PlayingCue { audio } },
                    command: Command::PlayCue(RecordingCue::Finish),
                };
            },
            Err(error) => error,
        };
        let empty = error.has_code(AUDIO_EMPTY_CAPTURE_CODE);
        if empty {
            effects.push(
                Effect::Record(Diagnostic::NoSpeech { session_id, phase: "audio_finish" }),
            );
        } else {
            note_failure(effects, session_id, "audio_finish", &error);
        }
        if !self.finalizes_audio(session_id) {
            return Next::Done(FinishEnd::Discarded);
        }
        let completion = if empty {
            CaptureCleanupCompletion::Cancelled
        } else {
            CaptureCleanupCompletion::FailAudio
        };
        if !self.set_stage_if_current(
            session_id,
            RuntimeStage::Cancelling { capture: capture.clone(), completion, in_flight: true },
        ) {
            return Next::Done(FinishEnd::Discarded);
        }
        let command = Command::CancelCapture(capture.clone());
        let step = if empty {
            FinishStep::CancellingEmptyCapture {
                step: CancelStep::ClosingCapture {
                    capture,
                    target: CaptureCancellationTarget::Active(completion),
                },
            }
        } else {
            FinishStep::CancellingFailedCapture { capture }
        };
        Next::Await { flow: FinishFlow { session_id, step }, command }
    }

    fn finish_with_failed_capture(
        &mut self,
        session_id: SessionId,
        capture: AudioCaptureRef,
        result: Result<(), PortError>,
        effects: &mut Vec<Effect>,
    ) -> (next: Next<FinishFlow, FinishEnd>)
        ensures
            next == finish_on_failed_capture(old(self)@, session_id, capture, result).next,
            final(self)@ == finish_on_failed_capture(old(self)@, session_id, capture, result).after,
            final(effects)@ == old(effects)@ + finish_on_failed_capture(
                old(self)@,
                session_id,
                capture,
                result,
            ).effects,
    {
        match self.settle_capture(session_id, capture, result, effects) {
            Err(error) => {
                self.set_audio_cleanup_in_flight_if_current(session_id, false);
                Next::Done(FinishEnd::Error(error))
            },
            Ok(_) => self.finish_by_failure(session_id, FailureCategory::Audio, effects),
        }
    }

    fn finish_with_cue(&mut self, session_id: SessionId, audio: FinalizedAudio) -> (next: Next<
        FinishFlow,
        FinishEnd,
    >)
        ensures
            next == finish_on_cue(old(self)@, session_id, audio).next,
            final(self)@ == finish_on_cue(old(self)@, session_id, audio).after,
    {
        if !self.finalizes_audio(session_id) {
            return self.discard_audio(session_id, audio.audio_ref);
        }
        let context = match self.active_context(session_id) {
            Some(context) => context,
            None => {
                return self.discard_audio(session_id, audio.audio_ref);
            },
        };
        match self.apply_if_current(session_id, SessionEvent::FinishRecording) {
            Err(error) => Next::Done(FinishEnd::Error(error)),
            Ok(false) => self.discard_audio(session_id, audio.audio_ref),
            Ok(true) => Next::Await {
                flow: FinishFlow {
                    session_id,
                    step: FinishStep::IssuingRecognition { audio, context },
                },
                command: Command::IssueRequestId,
            },
        }
    }

    fn finish_with_recognition_id(
        &mut self,
        session_id: SessionId,
        audio: FinalizedAudio,
        context: ActiveContext,
        request_id: RequestId,
    ) -> (next: Next<FinishFlow, FinishEnd>)
        ensures
            next == finish_on_recognition_id(
                old(self)@,
                session_id,
                audio,
                context,
                request_id,
            ).next,
            final(self)@ == finish_on_recognition_id(
                old(self)@,
                session_id,
                audio,
                context,
                request_id,
            ).after,
    {
        if !self.set_stage_if_current(
            session_id,
            RuntimeStage::Recognizing { request_id, audio_ref: Some(audio.audio_ref.clone()) },
        ) {
            return self.discard_audio(session_id, audio.audio_ref);
        }
        Next::Await {
            flow: FinishFlow {
                session_id,
                step: FinishStep::AnnouncingRecognition { audio, context, request_id },
            },
            command: Command::UpdateHud(session_id, RecordingHudState::Recognizing),
        }
    }

    fn process_with_llm(
        &mut self,
        session_id: SessionId,
        route: ResolvedLlmRoute,
        raw_transcript: String,
    ) -> (next: Next<FinishFlow, FinishEnd>)
        ensures
            next == finish_processing(old(self)@, session_id, route, raw_transcript).next,
            final(self)@ == finish_processing(old(self)@, session_id, route, raw_transcript).after,
    {
        let context = match self.active_context(session_id) {
            Some(context) => context,
            None => {
                return Next::Done(FinishEnd::Discarded);
            },
        };
        match self.apply_if_current(session_id, SessionEvent::BeginProcessing) {
            Err(error) => Next::Done(FinishEnd::Error(error)),
            Ok(false) => Next::Done(FinishEnd::Discarded),
            Ok(true) => Next::Await {
                flow: FinishFlow {
                    session_id,
                    step: FinishStep::IssuingProcessing { context, route, raw_transcript },
                },
                command: Command::IssueRequestId,
            },
        }
    }

    fn finish_with_recognition(
        &mut self,
        session_id: SessionId,
        context: ActiveContext,
        request_id: RequestId,
        result: Result<AsrResult, PortError>,
        effects: &mut Vec<Effect>,
    ) -> (next: Next<FinishFlow, FinishEnd>)
        ensures
            next == finish_on_recognized(
                old(self)@,
                session_id,
                context,
                request_id,
                result,
            ).next,
            final(self)@ == finish_on_recognized(
                old(self)@,
                session_id,
                context,
                request_id,
                result,
            ).after,
            final(effects)@ == old(effects)@ + finish_on_recognized(
                old(self)@,
                session_id,
                context,
                request_id,
                result,
            ).effects,
    {
        if !self.recognizes(session_id, request_id) {
            effects.push(
                Effect::Record(Diagnostic::LateResponse { session_id, phase: "asr_late" }),
            );
            return Next::Done(FinishEnd::Discarded);
        }
        let transcript = match result {
            Ok(transcript) => transcript,
            Err(error) => {
                if error.has_code(ASR_NO_SPEECH_CODE) {
                    effects.push(
                        Effect::Record(Diagnostic::NoSpeech { session_id, phase: "asr" }),
                    );
                    return self.complete_no_speech(session_id, effects);
                }
                note_failure(effects, session_id, "asr", &error);
                return self.finish_by_failure(session_id, FailureCategory::Asr, effects);
            },
        };
        if transcript.session_id != session_id || transcript.request_id != request_id
            || transcript.engine != context.asr_route.engine() {
            effects.push(
                Effect::Record(
                    Diagnostic::LateResponse { session_id, phase: "asr_correlation_mismatch" },
                ),
            );
            return self.finish_by_failure(session_id, FailureCategory::Asr, effects);
        }
        if is_blank(transcript.final_text.as_str()) {
            effects.push(Effect::Record(Diagnostic::NoSpeech { session_id, phase: "asr" }));
            return self.complete_no_speech(session_id, effects);
        }
        match context.processing_route {
            TextProcessingRoute::DirectAsr(reason) => {
                let forced = match reason {
                    DirectDeliveryReason::LlmUnavailable => Some(TemporaryTextStatus::LlmFallback),
                    _ => None,
                };
                let next = self.begin_delivery(
                    session_id,
                    transcript.final_text,
                    Some(reason),
                    forced,
                );
                lift_delivery(next)
            },
            TextProcessingRoute::Llm(route) => {
                self.process_with_llm(session_id, route, transcript.final_text)
            },
        }
    }

    fn finish_with_transcript(
        &mut self,
        session_id: SessionId,
        context: ActiveContext,
        request_id: RequestId,
        result: Result<AsrResult, PortError>,
        effects: &mut Vec<Effect>,
    ) -> (next: Next<FinishFlow, FinishEnd>)
        ensures
            next == finish_on_transcript(
                old(self)@,
                session_id,
                context,
                request_id,
                result,
            ).next,
            final(self)@ == finish_on_transcript(
                old(self)@,
                session_id,
                context,
                request_id,
                result,
            ).after,
            final(effects)@ == old(effects)@ + finish_on_transcript(
                old(self)@,
                session_id,
                context,
                request_id,
                result,
            ).effects,
    {
        match self.begin_recognizing_audio_cleanup(session_id, request_id) {
            Some(audio_ref) => {
                let command = Command::CleanupAudio(audio_ref.clone());
                Next::Await {
                    flow: FinishFlow {
                        session_id,
                        step: FinishStep::CleaningAudio { context, request_id, audio_ref, result },
                    },
                    command,
                }
            },
            None => self.finish_with_recognition(session_id, context, request_id, result, effects),
        }
    }

    fn finish_with_cleanup(
        &mut self,
        session_id: SessionId,
        context: ActiveContext,
        request_id: RequestId,
        audio_ref: AudioRef,
        transcript: Result<AsrResult, PortError>,
        result: Result<(), PortError>,
        effects: &mut Vec<Effect>,
    ) -> (next: Next<FinishFlow, FinishEnd>)
        ensures
            next == finish_on_cleaned(
                old(self)@,
                session_id,
                context,
                request_id,
                audio_ref,
                transcript,
                result,
            ).next,
            final(self)@ == finish_on_cleaned(
                old(self)@,
                session_id,
                context,
                request_id,
                audio_ref,
                transcript,
                result,
            ).after,
            final(effects)@ == old(effects)@ + finish_on_cleaned(
                old(self)@,
                session_id,
                context,
                request_id,
                audio_ref,
                transcript,
                result,
            ).effects,
    {
        match self.settle_artifact(session_id, audio_ref.clone(), result, effects) {
            Err(error) => {
                self.set_audio_cleanup_in_flight_if_current(session_id, false);
                Next::Done(FinishEnd::Error(error))
            },
            Ok(_) => {
                if !self.complete_recognizing_audio_cleanup(session_id, request_id, &audio_ref) {
                    return Next::Done(FinishEnd::Discarded);
                }
                self.finish_with_recognition(session_id, context, request_id, transcript, effects)
            },
        }
    }

    fn finish_with_processing_id(
        &mut self,
        session_id: SessionId,
        context: ActiveContext,
        route: ResolvedLlmRoute,
        raw_transcript: String,
        request_id: RequestId,
    ) -> (next: Next<FinishFlow, FinishEnd>)
        ensures
            next == finish_on_processing_id(
                old(self)@,
                session_id,
                context,
                route,
                raw_transcript,
                request_id,
            ).next,
            final(self)@ == finish_on_processing_id(
                old(self)@,
                session_id,
                context,
                route,
                raw_transcript,
                request_id,
            ).after,
    {
        if !self.set_stage_if_current(session_id, RuntimeStage::Processing { request_id }) {
            return Next::Done(FinishEnd::Discarded);
        }
        Next::Await {
            flow: FinishFlow {
                session_id,
                step: FinishStep::AnnouncingProcessing {
                    context,
                    route,
                    raw_transcript,
                    request_id,
                },
            },
            command: Command::UpdateHud(session_id, RecordingHudState::Processing),
        }
    }

    fn finish_with_processing_announced(
        &self,
        session_id: SessionId,
        context: ActiveContext,
        route: ResolvedLlmRoute,
        raw_transcript: String,
        request_id: RequestId,
        effects: &mut Vec<Effect>,
    ) -> (next: Next<FinishFlow, FinishEnd>)
        ensures
            next == finish_on_processing_announced(
                self@,
                session_id,
                context,
                route,
                raw_transcript,
                request_id,
            ).next,
            final(effects)@ == old(effects)@ + finish_on_processing_announced(
                self@,
                session_id,
                context,
                route,
                raw_transcript,
                request_id,
            ).effects,
    {
        let processing_mode = context.settings.input.processing_mode;
        effects.push(Effect::Record(Diagnostic::LlmRequested { session_id, processing_mode }));
        let command = Command::ProcessText {
            route,
            request: TextProcessingRequest {
                session_id,
                request_id,
                processing_mode,
                raw_transcript: raw_transcript.clone(),
                selected_text: context.selected_text,
            },
        };
        Next::Await {
            flow: FinishFlow {
                session_id,
                step: FinishStep::Processing { raw_transcript, request_id },
            },
            command,
        }
    }

    fn fall_back_to_transcript(&mut self, session_id: SessionId, raw_transcript: String) -> (next:
        Next<FinishFlow, FinishEnd>)
        ensures
            next == finish_fallback(old(self)@, session_id, raw_transcript).next,
            final(self)@ == finish_fallback(old(self)@, session_id, raw_transcript).after,
            finish_fallback(old(self)@, session_id, raw_transcript).effects
                == Seq::<Effect>::empty(),
    {
        let next = self.begin_delivery(
            session_id,
            raw_transcript,
            None,
            Some(TemporaryTextStatus::LlmFallback),
        );
        lift_delivery(next)
    }

    fn finish_with_processed(
        &mut self,
        session_id: SessionId,
        raw_transcript: String,
        request_id: RequestId,
        result: Result<TextProcessingResult, PortError>,
        effects: &mut Vec<Effect>,
    ) -> (next: Next<FinishFlow, FinishEnd>)
        ensures
            next == finish_on_processed(
                old(self)@,
                session_id,
                raw_transcript,
                request_id,
                result,
            ).next,
            final(self)@ == finish_on_processed(
                old(self)@,
                session_id,
                raw_transcript,
                request_id,
                result,
            ).after,
            final(effects)@ == old(effects)@ + finish_on_processed(
                old(self)@,
                session_id,
                raw_transcript,
                request_id,
                result,
            ).effects,
    {
        if !self.processes(session_id, request_id) {
            effects.push(
                Effect::Record(Diagnostic::LateResponse { session_id, phase: "llm_late" }),
            );
            return Next::Done(FinishEnd::Discarded);
        }
        match result {
            Ok(text) => {
                if text.session_id != session_id || text.request_id != request_id {
                    effects.push(
                        Effect::Record(
                            Diagnostic::LateResponse {
                                session_id,
                                phase: "llm_correlation_mismatch",
                            },
                        ),
                    );
                    return self.fall_back_to_transcript(session_id, raw_transcript);
                }
                if is_blank(text.final_text.as_str()) {
                    effects.push(
                        Effect::Record(
                            Diagnostic::LateResponse { session_id, phase: "llm_empty_response" },
                        ),
                    );
                    return self.fall_back_to_transcript(session_id, raw_transcript);
                }
                let next = self.begin_delivery(session_id, text.final_text, None, None);
                lift_delivery(next)
            },
            Err(error) => {
                note_failure(effects, session_id, "llm", &error);
                self.fall_back_to_transcript(session_id, raw_transcript)
            },
        }
    }

    /// Goes on with a finish workflow.
    pub fn resume_finish(&mut self, flow: FinishFlow, reply: Reply) -> (r: Progress<
        FinishFlow,
        FinishEnd,
    >)
        requires
            finish_awaits(flow.step, reply),
        ensures
            r.effects@ == finish_step(old(self)@, flow, reply).effects,
            r.next == finish_step(old(self)@, flow, reply).next,
            final(self)@ == finish_step(old(self)@, flow, reply).after,
    {
        let session_id = flow.session_id;
        let mut effects: Vec<Effect> = Vec::new();
        let next = match flow.step {
            FinishStep::FinishingAudio { capture } => {
                let result = match reply {
                    Reply::Audio(result) => result,
                    _ => vstd::pervasive::unreached(),
                };
                self.finish_with_audio(session_id, capture, result, &mut effects)
            },
            FinishStep::CancellingEmptyCapture { step } => {
                let progress = self.resume_cancel(CancelFlow { session_id, step }, reply);
                return Progress {
                    effects: progress.effects,
                    next: match progress.next {
                        Next::Await { flow, command } => Next::Await {
                            flow: FinishFlow {
                                session_id: flow.session_id,
                                step: FinishStep::CancellingEmptyCapture { step: flow.step },
                            },
                            command,
                        },
                        Next::Done(Ok(_)) => Next::Done(FinishEnd::NoSpeech),
                        Next::Done(Err(error)) => Next::Done(FinishEnd::Error(error)),
                    },
                };
            },
            FinishStep::CancellingFailedCapture { capture } => self.finish_with_failed_capture(
                session_id,
                capture,
                acted(reply),
                &mut effects,
            ),
            FinishStep::PlayingCue { audio } => {
                note_result(&mut effects, session_id, "recording_cue", &acted(reply));
                self.finish_with_cue(session_id, audio)
            },
            FinishStep::DiscardingAudio { audio_ref } => {
                match self.settle_artifact(session_id, audio_ref, acted(reply), &mut effects) {
                    Err(error) => Next::Done(FinishEnd::Error(error)),
                    Ok(_) => Next::Done(FinishEnd::Discarded),
                }
            },
            FinishStep::IssuingRecognition { audio, context } => {
                let request_id = match reply {
                    Reply::Request(request_id) => request_id,
                    _ => vstd::pervasive::unreached(),
                };
                self.finish_with_recognition_id(session_id, audio, context, request_id)
            },
            FinishStep::AnnouncingRecognition { audio, context, request_id } => {
                note_result(&mut effects, session_id, "recording_hud_update", &acted(reply));
                let command = Command::Transcribe(
                    AsrRequest {
                        session_id,
                        request_id,
                        engine: context.asr_route.engine(),
                        audio,
                        language_hint: None,
                        deadline_ms: UNBOUNDED_DEADLINE_MS,
                    },
                );
                Next::Await {
                    flow: FinishFlow {
                        session_id,
                        step: FinishStep::Transcribing { context, request_id },
                    },
                    command,
                }
            },
            FinishStep::Transcribing { context, request_id } => {
                let result = match reply {
                    Reply::Transcript(result) => result,
                    _ => vstd::pervasive::unreached(),
                };
                self.finish_with_transcript(session_id, context, request_id, result, &mut effects)
            },
            FinishStep::CleaningAudio { context, request_id, audio_ref, result } => {
                self.finish_with_cleanup(
                    session_id,
                    context,
                    request_id,
                    audio_ref,
                    result,
                    acted(reply),
                    &mut effects,
                )
            },
            FinishStep::IssuingProcessing { context, route, raw_transcript } => {
                let request_id = match reply {
                    Reply::Request(request_id) => request_id,
                    _ => vstd::pervasive::unreached(),
                };
                self.finish_with_processing_id(
                    session_id,
                    context,
                    route,
                    raw_transcript,
                    request_id,
                )
            },
            FinishStep::AnnouncingProcessing { context, route, raw_transcript, request_id } => {
                note_result(&mut effects, session_id, "recording_hud_update", &acted(reply));
                self.finish_with_processing_announced(
                    session_id,
                    context,
                    route,
                    raw_transcript,
                    request_id,
                    &mut effects,
                )
            },
            FinishStep::Processing { raw_transcript, request_id } => {
                let (result, elapsed_ms) = match reply {
                    Reply::Text { result, elapsed_ms } => (result, elapsed_ms),
                    _ => vstd::pervasive::unreached(),
                };
                effects.push(
                    Effect::Record(
                        Diagnostic::LlmAnswered {
                            session_id,
                            duration_ms: elapsed_ms,
                            failure: match &result {
                                Ok(_) => None,
                                Err(error) => Some(error.code.clone()),
                            },
                        },
                    ),
                );
                self.finish_with_processed(
                    session_id,
                    raw_transcript,
                    request_id,
                    result,
                    &mut effects,
                )
            },
            FinishStep::Delivering { step } => {
                let next = self.resume_delivery(session_id, step, reply, &mut effects);
                lift_delivery(next)
            },
            FinishStep::ClosingSession { closing, end } => {
                let next = self.continue_closing(closing, acted(reply), &mut effects);
                self.finish_end_session(session_id, next, end)
            },
        };
        Progress { effects, next }
    }
}

} // verus!
