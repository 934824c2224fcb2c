//! Bringing the final text to the user: at the original position where that can
//! be proved, otherwise at the user's own focus where that is allowed, and
//! otherwise in a temporary surface. A write whose outcome is uncertain is never
//! followed by another automatic one.

use crate::domain::{DeliveryId, FailureCategory, SessionEvent, SessionId, TerminalOutcome, TimestampMs};
use crate::orchestrator::closing::{
    closing_begin, closing_step, failure_after, failure_effects, failure_start, Closing,
    ClosingMove, FailureStart,
};
use crate::orchestrator::protocol::{
    acted, failure, note_failure, note_result, noted, Command, Effect, Move, Next, Reply,
};
use crate::orchestrator::state::{
    ActiveContext, Completion, DeliveryKind, FinalizationWarning, FinishOutcome,
    OrchestratorError, OrchestratorView, RuntimeStage, TranscriptionOrchestrator,
};
use crate::ports::{
    HistoryRecord, InsertOutcome, PortError, RecordingHudState, TargetRevalidation,
    TargetSecurity, TemporaryTextStatus, UserDirectedPasteOutcome, UserNotificationKind,
};
use crate::text_route::DirectDeliveryReason;
use crate::trace::Decision;
use vstd::prelude::*;

verus! {

/// How a finish workflow ends.
#[derive(PartialEq, Eq)]
pub enum FinishEnd {
    Completed {
        final_text: String,
        delivery: DeliveryKind,
        direct_delivery_reason: Option<DirectDeliveryReason>,
        auto_copy_failed: bool,
        history_save_failed: bool,
    },
    Failed(FailureCategory),
    NoSpeech,
    Discarded,
    NotRecording,
    Error(OrchestratorError),
}

/// The warnings of a completed delivery, in the order of the steps that failed.
pub open spec fn warnings_of(auto_copy_failed: bool, history_save_failed: bool) -> Seq<
    FinalizationWarning,
> {
    (if auto_copy_failed {
        seq![FinalizationWarning::AutoCopyFailed]
    } else {
        Seq::empty()
    }) + (if history_save_failed {
        seq![FinalizationWarning::HistorySaveFailed]
    } else {
        Seq::empty()
    })
}

impl FinishEnd {
    /// Whether a result tells of this end.
    pub open spec fn is_told_by(self, result: Result<FinishOutcome, OrchestratorError>) -> bool {
        match self {
            FinishEnd::Completed {
                final_text,
                delivery,
                direct_delivery_reason,
                auto_copy_failed,
                history_save_failed,
            } => match result {
                Ok(FinishOutcome::Completed(completion)) => {
                    &&& completion.final_text == final_text
                    &&& completion.delivery == delivery
                    &&& completion.direct_delivery_reason == direct_delivery_reason
                    &&& completion.warnings@ == warnings_of(auto_copy_failed, history_save_failed)
                },
                _ => false,
            },
            FinishEnd::Failed(category) => result == Ok::<FinishOutcome, OrchestratorError>(
                FinishOutcome::Failed(category),
            ),
            FinishEnd::NoSpeech => result == Ok::<FinishOutcome, OrchestratorError>(
                FinishOutcome::NoSpeech,
            ),
            FinishEnd::Discarded => result == Ok::<FinishOutcome, OrchestratorError>(
                FinishOutcome::Discarded,
            ),
            FinishEnd::NotRecording => result == Ok::<FinishOutcome, OrchestratorError>(
                FinishOutcome::NotRecording,
            ),
            FinishEnd::Error(error) => result == Err::<FinishOutcome, OrchestratorError>(error),
        }
    }

    /// What the caller of a finish workflow is told.
    pub fn into_result(self) -> (r: Result<FinishOutcome, OrchestratorError>)
        ensures
            self.is_told_by(r),
    {
        match self {
            FinishEnd::Completed {
                final_text,
                delivery,
                direct_delivery_reason,
                auto_copy_failed,
                history_save_failed,
            } => {
                let mut warnings: Vec<FinalizationWarning> = Vec::new();
                if auto_copy_failed {
                    warnings.push(FinalizationWarning::AutoCopyFailed);
                }
                if history_save_failed {
                    warnings.push(FinalizationWarning::HistorySaveFailed);
                }
                assert(warnings@ =~= warnings_of(auto_copy_failed, history_save_failed));
                Ok(
                    FinishOutcome::Completed(
                        Completion { final_text, delivery, direct_delivery_reason, warnings },
                    ),
                )
            },
            FinishEnd::Failed(category) => Ok(FinishOutcome::Failed(category)),
            FinishEnd::NoSpeech => Ok(FinishOutcome::NoSpeech),
            FinishEnd::Discarded => Ok(FinishOutcome::Discarded),
            FinishEnd::NotRecording => Ok(FinishOutcome::NotRecording),
            FinishEnd::Error(error) => Err(error),
        }
    }
}

/// A text on its way to the user.
#[derive(PartialEq, Eq)]
pub struct Delivery {
    pub context: ActiveContext,
    pub delivery_id: DeliveryId,
    pub final_text: String,
    pub direct_delivery_reason: Option<DirectDeliveryReason>,
}

/// A text that has reached the user, while the rest is put in order.
#[derive(PartialEq, Eq)]
pub struct Delivered {
    pub delivery: Delivery,
    pub kind: DeliveryKind,
    pub notification: Option<UserNotificationKind>,
    pub auto_copy_failed: bool,
    pub history_save_failed: bool,
}

/// How far a delivery has come.
#[derive(PartialEq, Eq)]
pub enum DeliverStep {
    IssuingId {
        context: ActiveContext,
        final_text: String,
        direct_delivery_reason: Option<DirectDeliveryReason>,
        forced: Option<TemporaryTextStatus>,
    },
    Announcing { delivery: Delivery, forced: Option<TemporaryTextStatus> },
    Revalidating { delivery: Delivery },
    Inserting { delivery: Delivery },
    RevalidatingBridge { delivery: Delivery },
    PastingAtTarget { delivery: Delivery },
    PastingAtFocus { delivery: Delivery },
    ShowingTemporary { delivery: Delivery, status: TemporaryTextStatus },
    AnnouncingFinalization { delivered: Delivered },
    Copying { delivered: Delivered },
    ReadingClock { delivered: Delivered },
    Saving { delivered: Delivered },
    AnnouncingCompletion { delivered: Delivered },
    ClosingSession { closing: Closing, end: FinishEnd },
}

/// A delivery under way.
#[derive(PartialEq, Eq)]
pub struct DeliverFlow {
    pub session_id: SessionId,
    pub step: DeliverStep,
}

pub type DeliverMove = Move<DeliverFlow, FinishEnd>;

impl OrchestratorView {
    /// Whether a delivery is still the one that its session is about.
    pub open spec fn delivers(self, session_id: SessionId, delivery_id: DeliveryId) -> bool {
        self.current(session_id) && self.active->0.stage == (RuntimeStage::Delivering {
            delivery_id,
        })
    }

    /// Whether a finalization is still the one that its session is about.
    pub open spec fn finalizes(self, session_id: SessionId, delivery_id: DeliveryId) -> bool {
        self.current(session_id) && self.active->0.stage == (RuntimeStage::Finalizing {
            delivery_id,
        })
    }
}

/// The workflow is over.
pub open spec fn deliver_end(o: OrchestratorView, end: FinishEnd) -> DeliverMove {
    Move { after: o, effects: Seq::empty(), next: Next::Done(end) }
}

/// The workflow waits for a command.
pub open spec fn deliver_wait(
    o: OrchestratorView,
    session_id: SessionId,
    step: DeliverStep,
    command: Command,
) -> DeliverMove {
    Move {
        after: o,
        effects: Seq::empty(),
        next: Next::Await { flow: DeliverFlow { session_id, step }, command },
    }
}

/// An end of the session that leads to an end of the workflow.
pub open spec fn deliver_closing(
    session_id: SessionId,
    step: ClosingMove,
    end: FinishEnd,
) -> DeliverMove {
    Move {
        after: step.after,
        effects: step.effects,
        next: match step.next {
            Some((closing, command)) => Next::Await {
                flow: DeliverFlow {
                    session_id,
                    step: DeliverStep::ClosingSession { closing, end },
                },
                command,
            },
            None => Next::Done(end),
        },
    }
}

/// The delivery of a session that is still there and takes to it.
pub open spec fn deliver_begin(
    o: OrchestratorView,
    session_id: SessionId,
    final_text: String,
    direct_delivery_reason: Option<DirectDeliveryReason>,
    forced: Option<TemporaryTextStatus>,
) -> DeliverMove {
    if !o.works(session_id) {
        deliver_end(o, FinishEnd::Discarded)
    } else {
        let after = o.advanced(session_id, SessionEvent::BeginDelivery);
        match o.advancing(session_id, SessionEvent::BeginDelivery) {
            Err(error) => deliver_end(after, FinishEnd::Error(error)),
            Ok(false) => deliver_end(after, FinishEnd::Discarded),
            Ok(true) => deliver_wait(
                after,
                session_id,
                DeliverStep::IssuingId {
                    context: o.active->0.context(),
                    final_text,
                    direct_delivery_reason,
                    forced,
                },
                Command::IssueDeliveryId,
            ),
        }
    }
}

/// The temporary surface, for a session that is still there.
pub open spec fn deliver_temporary(
    o: OrchestratorView,
    session_id: SessionId,
    delivery: Delivery,
    status: TemporaryTextStatus,
) -> DeliverMove {
    if !o.works(session_id) {
        deliver_end(o, FinishEnd::Discarded)
    } else {
        deliver_wait(
            o,
            session_id,
            DeliverStep::ShowingTemporary { delivery, status },
            Command::ShowTemporaryText {
                delivery_id: delivery.delivery_id,
                text: delivery.final_text,
                status,
                lifecycle: session_id,
            },
        )
    }
}

/// One paste at the user's own focus, where the settings allow it.
pub open spec fn deliver_at_focus(
    o: OrchestratorView,
    session_id: SessionId,
    delivery: Delivery,
) -> DeliverMove {
    if !delivery.context.settings.input.clipboard_bridge_allowed {
        deliver_temporary(o, session_id, delivery, TemporaryTextStatus::NotInserted).following(
            seq![Effect::Trace(Decision::PasteForbidden)],
        )
    } else if !o.delivers(session_id, delivery.delivery_id) {
        deliver_end(o, FinishEnd::Discarded)
    } else {
        deliver_wait(
            o,
            session_id,
            DeliverStep::PastingAtFocus { delivery },
            Command::PasteAtFocus {
                text: delivery.final_text,
                delivery_id: delivery.delivery_id,
                lifecycle: session_id,
            },
        )
    }
}

/// The clipboard as a way to the original position, where the settings allow it.
pub open spec fn deliver_by_bridge(
    o: OrchestratorView,
    session_id: SessionId,
    delivery: Delivery,
) -> DeliverMove {
    if !delivery.context.settings.input.clipboard_bridge_allowed {
        deliver_temporary(o, session_id, delivery, TemporaryTextStatus::NotInserted).following(
            seq![Effect::Trace(Decision::BridgeForbidden)],
        )
    } else {
        deliver_wait(
            o,
            session_id,
            DeliverStep::RevalidatingBridge { delivery },
            Command::Revalidate(delivery.context.target_ref),
        )
    }
}

/// A text that has reached the user. From here on nothing undoes the delivery.
pub open spec fn deliver_done(
    o: OrchestratorView,
    session_id: SessionId,
    delivery: Delivery,
    kind: DeliveryKind,
    notification: Option<UserNotificationKind>,
) -> DeliverMove {
    if !o.delivers(session_id, delivery.delivery_id) {
        deliver_end(o, FinishEnd::Discarded)
    } else {
        let after = o.advanced(session_id, SessionEvent::BeginFinalizing);
        match o.advancing(session_id, SessionEvent::BeginFinalizing) {
            Err(error) => deliver_end(after, FinishEnd::Error(error)),
            Ok(false) => deliver_end(after, FinishEnd::Discarded),
            Ok(true) => deliver_wait(
                after.staged(RuntimeStage::Finalizing { delivery_id: delivery.delivery_id }),
                session_id,
                DeliverStep::AnnouncingFinalization {
                    delivered: Delivered {
                        delivery,
                        kind,
                        notification,
                        auto_copy_failed: false,
                        history_save_failed: false,
                    },
                },
                Command::UpdateHud(session_id, RecordingHudState::Finalizing),
            ),
        }
    }
}

/// Before the announcement, the delivery gets an identity of its own.
pub open spec fn deliver_on_id(
    o: OrchestratorView,
    session_id: SessionId,
    delivery: Delivery,
    forced: Option<TemporaryTextStatus>,
) -> DeliverMove {
    if !o.current(session_id) {
        deliver_end(o, FinishEnd::Discarded)
    } else {
        deliver_wait(
            o.staged(RuntimeStage::Delivering { delivery_id: delivery.delivery_id }),
            session_id,
            DeliverStep::Announcing { delivery, forced },
            Command::UpdateHud(session_id, RecordingHudState::Delivering),
        )
    }
}

/// The way of the delivery: a forced fallback tries nothing else, a target that
/// was not proved safe is left alone, and a safe one is looked at again first.
pub open spec fn deliver_on_announced(
    o: OrchestratorView,
    session_id: SessionId,
    delivery: Delivery,
    forced: Option<TemporaryTextStatus>,
) -> DeliverMove {
    match forced {
        Some(status) => deliver_temporary(o, session_id, delivery, status).following(
            seq![Effect::Trace(Decision::TemporaryForced)],
        ),
        None => if delivery.context.target_security != TargetSecurity::Safe {
            deliver_at_focus(o, session_id, delivery).following(
                seq![Effect::Trace(Decision::NoVerifiableTarget)],
            )
        } else {
            deliver_wait(
                o,
                session_id,
                DeliverStep::Revalidating { delivery },
                Command::Revalidate(delivery.context.target_ref),
            )
        },
    }
}

pub open spec fn deliver_on_revalidated(
    o: OrchestratorView,
    session_id: SessionId,
    delivery: Delivery,
    result: Result<TargetRevalidation, PortError>,
) -> DeliverMove {
    let expected = o.delivers(session_id, delivery.delivery_id);
    match result {
        Ok(TargetRevalidation::Valid(target)) => if !expected {
            deliver_end(o, FinishEnd::Discarded)
        } else {
            deliver_wait(
                o,
                session_id,
                DeliverStep::Inserting { delivery },
                Command::Insert {
                    target,
                    text: delivery.final_text,
                    delivery_id: delivery.delivery_id,
                    lifecycle: session_id,
                },
            )
        },
        Ok(TargetRevalidation::Invalid | TargetRevalidation::Indeterminate) => if !expected {
            deliver_end(o, FinishEnd::Discarded)
        } else {
            deliver_at_focus(o, session_id, delivery).following(
                seq![Effect::Trace(Decision::TargetLost)],
            )
        },
        Err(error) => (if !expected {
            deliver_end(o, FinishEnd::Discarded)
        } else {
            deliver_at_focus(o, session_id, delivery).following(
                seq![Effect::Trace(Decision::RevalidationFailed { code: error.code })],
            )
        }).following(seq![failure(session_id, "target_revalidate", error)]),
    }
}

pub open spec fn deliver_on_inserted(
    o: OrchestratorView,
    session_id: SessionId,
    delivery: Delivery,
    result: Result<InsertOutcome, PortError>,
) -> DeliverMove {
    let expected = o.delivers(session_id, delivery.delivery_id);
    match result {
        Ok(InsertOutcome::Inserted) => deliver_done(
            o,
            session_id,
            delivery,
            DeliveryKind::Inserted,
            None,
        ).following(seq![Effect::Trace(Decision::Inserted)]),
        Ok(InsertOutcome::NotInserted) => if !expected {
            deliver_end(o, FinishEnd::Discarded)
        } else {
            deliver_by_bridge(o, session_id, delivery).following(
                seq![Effect::Trace(Decision::NotInserted)],
            )
        },
        Ok(InsertOutcome::Indeterminate) => if !expected {
            deliver_end(o, FinishEnd::Discarded)
        } else {
            deliver_temporary(
                o,
                session_id,
                delivery,
                TemporaryTextStatus::Indeterminate,
            ).following(seq![Effect::Trace(Decision::InsertionIndeterminate)])
        },
        Err(error) => (if !expected {
            deliver_end(o, FinishEnd::Discarded)
        } else {
            deliver_by_bridge(o, session_id, delivery).following(
                seq![Effect::Trace(Decision::InsertionFailed { code: error.code })],
            )
        }).following(seq![failure(session_id, "output_insert", error)]),
    }
}

pub open spec fn deliver_on_bridge_revalidated(
    o: OrchestratorView,
    session_id: SessionId,
    delivery: Delivery,
    result: Result<TargetRevalidation, PortError>,
) -> DeliverMove {
    match result {
        Ok(TargetRevalidation::Valid(target)) => if !o.delivers(session_id, delivery.delivery_id) {
            deliver_end(o, FinishEnd::Discarded)
        } else {
            deliver_wait(
                o,
                session_id,
                DeliverStep::PastingAtTarget { delivery },
                Command::PasteAtTarget {
                    target,
                    text: delivery.final_text,
                    delivery_id: delivery.delivery_id,
                    lifecycle: session_id,
                },
            )
        },
        Ok(TargetRevalidation::Invalid | TargetRevalidation::Indeterminate) => deliver_at_focus(
            o,
            session_id,
            delivery,
        ).following(seq![Effect::Trace(Decision::BridgeTargetLost)]),
        Err(error) => deliver_at_focus(o, session_id, delivery).following(
            seq![
                failure(session_id, "clipboard_target_revalidate", error),
                Effect::Trace(Decision::BridgeRevalidationFailed { code: error.code }),
            ],
        ),
    }
}

pub open spec fn deliver_on_pasted_at_target(
    o: OrchestratorView,
    session_id: SessionId,
    delivery: Delivery,
    result: Result<InsertOutcome, PortError>,
) -> DeliverMove {
    let expected = o.delivers(session_id, delivery.delivery_id);
    match result {
        Ok(InsertOutcome::Inserted) => deliver_done(
            o,
            session_id,
            delivery,
            DeliveryKind::ClipboardBridge,
            None,
        ).following(seq![Effect::Trace(Decision::BridgeInserted)]),
        Ok(InsertOutcome::NotInserted) => if !expected {
            deliver_end(o, FinishEnd::Discarded)
        } else {
            deliver_temporary(o, session_id, delivery, TemporaryTextStatus::NotInserted).following(
                seq![Effect::Trace(Decision::BridgeNotInserted)],
            )
        },
        Ok(InsertOutcome::Indeterminate) => if !expected {
            deliver_end(o, FinishEnd::Discarded)
        } else {
            deliver_temporary(
                o,
                session_id,
                delivery,
                TemporaryTextStatus::Indeterminate,
            ).following(seq![Effect::Trace(Decision::BridgeIndeterminate)])
        },
        Err(error) => (if !expected {
            deliver_end(o, FinishEnd::Discarded)
        } else {
            deliver_temporary(o, session_id, delivery, TemporaryTextStatus::NotInserted).following(
                seq![Effect::Trace(Decision::BridgeFailed { code: error.code })],
            )
        }).following(seq![failure(session_id, "clipboard_insert", error)]),
    }
}

pub open spec fn deliver_on_pasted_at_focus(
    o: OrchestratorView,
    session_id: SessionId,
    delivery: Delivery,
    result: Result<UserDirectedPasteOutcome, PortError>,
) -> DeliverMove {
    let expected = o.delivers(session_id, delivery.delivery_id);
    match result {
        Ok(UserDirectedPasteOutcome::Dispatched) => deliver_done(
            o,
            session_id,
            delivery,
            DeliveryKind::ClipboardBridge,
            None,
        ).following(seq![Effect::Trace(Decision::PasteDispatched)]),
        Ok(UserDirectedPasteOutcome::NotDispatched) => if !expected {
            deliver_end(o, FinishEnd::Discarded)
        } else {
            deliver_temporary(o, session_id, delivery, TemporaryTextStatus::NotInserted).following(
                seq![Effect::Trace(Decision::PasteNotDispatched)],
            )
        },
        Ok(UserDirectedPasteOutcome::Indeterminate) => if !expected {
            deliver_end(o, FinishEnd::Discarded)
        } else {
            deliver_temporary(
                o,
                session_id,
                delivery,
                TemporaryTextStatus::Indeterminate,
            ).following(seq![Effect::Trace(Decision::PasteIndeterminate)])
        },
        Err(error) => (if !expected {
            deliver_end(o, FinishEnd::Discarded)
        } else {
            deliver_temporary(o, session_id, delivery, TemporaryTextStatus::NotInserted).following(
                seq![Effect::Trace(Decision::PasteFailed { code: error.code })],
            )
        }).following(seq![failure(session_id, "user_directed_paste", error)]),
    }
}

/// Who is told of a temporary surface: only a language-model fallback needs
/// more than the surface itself says.
pub open spec fn temporary_notice(status: TemporaryTextStatus) -> Option<UserNotificationKind> {
    if status == TemporaryTextStatus::LlmFallback {
        Some(UserNotificationKind::Llm)
    } else {
        None
    }
}

pub open spec fn deliver_on_shown(
    o: OrchestratorView,
    session_id: SessionId,
    delivery: Delivery,
    status: TemporaryTextStatus,
    result: Result<(), PortError>,
) -> DeliverMove {
    match result {
        Ok(_) => deliver_done(
            o,
            session_id,
            delivery,
            DeliveryKind::TemporaryText,
            temporary_notice(status),
        ),
        Err(error) => {
            let after = failure_after(o, session_id, FailureCategory::Delivery);
            let effects = failure_effects(o, session_id, FailureCategory::Delivery);
            (match failure_start(o, session_id, FailureCategory::Delivery) {
                FailureStart::NotCurrent => Move {
                    after,
                    effects,
                    next: Next::Done(FinishEnd::Discarded),
                },
                FailureStart::Refused(refusal) => Move {
                    after,
                    effects,
                    next: Next::Done(FinishEnd::Error(refusal)),
                },
                FailureStart::Closing(next) => deliver_closing(
                    session_id,
                    ClosingMove { after, effects, next },
                    FinishEnd::Failed(FailureCategory::Delivery),
                ),
            }).following(seq![failure(session_id, "temporary_text", error)])
        },
    }
}

/// The session completes.
pub open spec fn deliver_complete(
    o: OrchestratorView,
    session_id: SessionId,
    delivered: Delivered,
) -> DeliverMove {
    let after = o.advanced(session_id, SessionEvent::Complete);
    match o.advancing(session_id, SessionEvent::Complete) {
        Err(error) => deliver_end(after, FinishEnd::Error(error)),
        Ok(false) => deliver_end(after, FinishEnd::Discarded),
        Ok(true) => deliver_wait(
            after,
            session_id,
            DeliverStep::AnnouncingCompletion { delivered },
            Command::UpdateHud(session_id, RecordingHudState::Completed),
        ),
    }
}

/// History keeps the text where the frozen settings say so.
pub open spec fn deliver_to_history(
    o: OrchestratorView,
    session_id: SessionId,
    delivered: Delivered,
) -> DeliverMove {
    if delivered.delivery.context.settings.input.history_policy.enabled {
        deliver_wait(o, session_id, DeliverStep::ReadingClock { delivered }, Command::ReadClock)
    } else {
        deliver_complete(o, session_id, delivered)
    }
}

pub open spec fn deliver_on_finalizing(
    o: OrchestratorView,
    session_id: SessionId,
    delivered: Delivered,
) -> DeliverMove {
    if delivered.delivery.context.settings.input.auto_copy_result {
        deliver_wait(
            o,
            session_id,
            DeliverStep::Copying { delivered },
            Command::WriteClipboard(delivered.delivery.final_text),
        )
    } else {
        deliver_to_history(o, session_id, delivered)
    }
}

/// A copy that failed is a warning and nothing more.
pub open spec fn deliver_on_copied(
    o: OrchestratorView,
    session_id: SessionId,
    delivered: Delivered,
    result: Result<(), PortError>,
) -> DeliverMove {
    (if !o.finalizes(session_id, delivered.delivery.delivery_id) {
        deliver_end(o, FinishEnd::Discarded)
    } else {
        deliver_to_history(
            o,
            session_id,
            Delivered { auto_copy_failed: delivered.auto_copy_failed || result is Err, ..delivered },
        )
    }).following(noted(session_id, "finalize_auto_copy", result))
}

pub open spec fn deliver_on_clock(
    o: OrchestratorView,
    session_id: SessionId,
    delivered: Delivered,
    now: TimestampMs,
) -> DeliverMove {
    deliver_wait(
        o,
        session_id,
        DeliverStep::Saving { delivered },
        Command::SaveHistory {
            record: HistoryRecord {
                delivery_id: delivered.delivery.delivery_id,
                final_text: delivered.delivery.final_text,
                created_at: now,
            },
            settings: delivered.delivery.context.settings,
            lifecycle: session_id,
        },
    )
}

/// A history that could not be written is a warning and nothing more.
pub open spec fn deliver_on_saved(
    o: OrchestratorView,
    session_id: SessionId,
    delivered: Delivered,
    result: Result<(), PortError>,
) -> DeliverMove {
    (if !o.finalizes(session_id, delivered.delivery.delivery_id) {
        deliver_end(o, FinishEnd::Discarded)
    } else {
        deliver_complete(
            o,
            session_id,
            Delivered {
                history_save_failed: delivered.history_save_failed || result is Err,
                ..delivered
            },
        )
    }).following(noted(session_id, "history_save", result))
}

/// What a completed delivery is told as.
pub open spec fn completed(delivered: Delivered) -> FinishEnd {
    FinishEnd::Completed {
        final_text: delivered.delivery.final_text,
        delivery: delivered.kind,
        direct_delivery_reason: delivered.delivery.direct_delivery_reason,
        auto_copy_failed: delivered.auto_copy_failed,
        history_save_failed: delivered.history_save_failed,
    }
}

/// Whether a reply is what a delivery waits for.
pub open spec fn deliver_awaits(step: DeliverStep, reply: Reply) -> bool {
    match step {
        DeliverStep::IssuingId { .. } => reply is Delivery,
        DeliverStep::Revalidating { .. } | DeliverStep::RevalidatingBridge { .. } => {
            reply is Revalidation
        },
        DeliverStep::Inserting { .. } | DeliverStep::PastingAtTarget { .. } => reply is Insertion,
        DeliverStep::PastingAtFocus { .. } => reply is Paste,
        DeliverStep::ReadingClock { .. } => reply is Now,
        _ => reply is Acted,
    }
}

/// The whole delivery, one answer at a time.
pub open spec fn deliver_step(
    o: OrchestratorView,
    session_id: SessionId,
    step: DeliverStep,
    reply: Reply,
) -> DeliverMove {
    match step {
        DeliverStep::IssuingId { context, final_text, direct_delivery_reason, forced } => {
            deliver_on_id(
                o,
                session_id,
                Delivery {
                    context,
                    delivery_id: reply->Delivery_0,
                    final_text,
                    direct_delivery_reason,
                },
                forced,
            )
        },
        DeliverStep::Announcing { delivery, forced } => deliver_on_announced(
            o,
            session_id,
            delivery,
            forced,
        ).following(noted(session_id, "recording_hud_update", reply->Acted_0)),
        DeliverStep::Revalidating { delivery } => deliver_on_revalidated(
            o,
            session_id,
            delivery,
            reply->Revalidation_0,
        ),
        DeliverStep::Inserting { delivery } => deliver_on_inserted(
            o,
            session_id,
            delivery,
            reply->Insertion_0,
        ),
        DeliverStep::RevalidatingBridge { delivery } => deliver_on_bridge_revalidated(
            o,
            session_id,
            delivery,
            reply->Revalidation_0,
        ),
        DeliverStep::PastingAtTarget { delivery } => deliver_on_pasted_at_target(
            o,
            session_id,
            delivery,
            reply->Insertion_0,
        ),
        DeliverStep::PastingAtFocus { delivery } => deliver_on_pasted_at_focus(
            o,
            session_id,
            delivery,
            reply->Paste_0,
        ),
        DeliverStep::ShowingTemporary { delivery, status } => deliver_on_shown(
            o,
            session_id,
            delivery,
            status,
            reply->Acted_0,
        ),
        DeliverStep::AnnouncingFinalization { delivered } => deliver_on_finalizing(
            o,
            session_id,
            delivered,
        ).following(noted(session_id, "recording_hud_update", reply->Acted_0)),
        DeliverStep::Copying { delivered } => deliver_on_copied(
            o,
            session_id,
            delivered,
            reply->Acted_0,
        ),
        DeliverStep::ReadingClock { delivered } => deliver_on_clock(
            o,
            session_id,
            delivered,
            reply->Now_0,
        ),
        DeliverStep::Saving { delivered } => deliver_on_saved(
            o,
            session_id,
            delivered,
            reply->Acted_0,
        ),
        DeliverStep::AnnouncingCompletion { delivered } => deliver_closing(
            session_id,
            closing_begin(
                o,
                session_id,
                Some(TerminalOutcome::Completed),
                delivered.notification,
            ),
            completed(delivered),
        ).following(noted(session_id, "recording_hud_update", reply->Acted_0)),
        DeliverStep::ClosingSession { closing, end } => deliver_closing(
            session_id,
            closing_step(o, closing, reply->Acted_0),
            end,
        ),
    }
}

impl TranscriptionOrchestrator {
    fn delivers(&self, session_id: SessionId, delivery_id: DeliveryId) -> (r: bool)
        ensures
            r == self@.delivers(session_id, delivery_id),
    {
        match self.current_stage(session_id) {
            Some(RuntimeStage::Delivering { delivery_id: held }) => *held == delivery_id,
            _ => false,
        }
    }

    fn finalizes(&self, session_id: SessionId, delivery_id: DeliveryId) -> (r: bool)
        ensures
            r == self@.finalizes(session_id, delivery_id),
    {
        match self.current_stage(session_id) {
            Some(RuntimeStage::Finalizing { delivery_id: held }) => *held == delivery_id,
            _ => false,
        }
    }

    pub(crate) fn begin_delivery(
        &mut self,
        session_id: SessionId,
        final_text: String,
        direct_delivery_reason: Option<DirectDeliveryReason>,
        forced: Option<TemporaryTextStatus>,
    ) -> (next: Next<DeliverFlow, FinishEnd>)
        ensures
            next == deliver_begin(
                old(self)@,
                session_id,
                final_text,
                direct_delivery_reason,
                forced,
            ).next,
            final(self)@ == deliver_begin(
                old(self)@,
                session_id,
                final_text,
                direct_delivery_reason,
                forced,
            ).after,
            deliver_begin(
                old(self)@,
                session_id,
                final_text,
                direct_delivery_reason,
                forced,
            ).effects == Seq::<Effect>::empty(),
    {
        let context = match self.active_context(session_id) {
            Some(context) => context,
            None => {
                return Next::Done(FinishEnd::Discarded);
            },
        };
        match self.apply_if_current(session_id, SessionEvent::BeginDelivery) {
            Err(error) => Next::Done(FinishEnd::Error(error)),
            Ok(false) => Next::Done(FinishEnd::Discarded),
            Ok(true) => Next::Await {
                flow: DeliverFlow {
                    session_id,
                    step: DeliverStep::IssuingId {
                        context,
                        final_text,
                        direct_delivery_reason,
                        forced,
                    },
                },
                command: Command::IssueDeliveryId,
            },
        }
    }

    fn show_temporary_text(
        &mut self,
        session_id: SessionId,
        delivery: Delivery,
        status: TemporaryTextStatus,
    ) -> (next: Next<DeliverFlow, FinishEnd>)
        ensures
            next == deliver_temporary(old(self)@, session_id, delivery, status).next,
            final(self)@ == old(self)@,
    {
        if !self.is_active(session_id) {
            return Next::Done(FinishEnd::Discarded);
        }
        let command = Command::ShowTemporaryText {
            delivery_id: delivery.delivery_id,
            text: delivery.final_text.clone(),
            status,
            lifecycle: session_id,
        };
        Next::Await {
            flow: DeliverFlow {
                session_id,
                step: DeliverStep::ShowingTemporary { delivery, status },
            },
            command,
        }
    }

    fn try_user_directed_or_temporary(
        &mut self,
        session_id: SessionId,
        delivery: Delivery,
        effects: &mut Vec<Effect>,
    ) -> (next: Next<DeliverFlow, FinishEnd>)
        ensures
            next == deliver_at_focus(old(self)@, session_id, delivery).next,
            final(self)@ == old(self)@,
            final(effects)@ == old(effects)@ + deliver_at_focus(
                old(self)@,
                session_id,
                delivery,
            ).effects,
    {
        if !delivery.context.settings.input.clipboard_bridge_allowed {
            effects.push(Effect::Trace(Decision::PasteForbidden));
            return self.show_temporary_text(
                session_id,
                delivery,
                TemporaryTextStatus::NotInserted,
            );
        }
        if !self.delivers(session_id, delivery.delivery_id) {
            return Next::Done(FinishEnd::Discarded);
        }
        let command = Command::PasteAtFocus {
            text: delivery.final_text.clone(),
            delivery_id: delivery.delivery_id,
            lifecycle: session_id,
        };
        Next::Await {
            flow: DeliverFlow { session_id, step: DeliverStep::PastingAtFocus { delivery } },
            command,
        }
    }

    fn try_clipboard_or_temporary(
        &mut self,
        session_id: SessionId,
        delivery: Delivery,
        effects: &mut Vec<Effect>,
    ) -> (next: Next<DeliverFlow, FinishEnd>)
        ensures
            next == deliver_by_bridge(old(self)@, session_id, delivery).next,
            final(self)@ == old(self)@,
            final(effects)@ == old(effects)@ + deliver_by_bridge(
                old(self)@,
                session_id,
                delivery,
            ).effects,
    {
        if !delivery.context.settings.input.clipboard_bridge_allowed {
            effects.push(Effect::Trace(Decision::BridgeForbidden));
            return self.show_temporary_text(
                session_id,
                delivery,
                TemporaryTextStatus::NotInserted,
            );
        }
        let command = Command::Revalidate(delivery.context.target_ref.clone());
        Next::Await {
            flow: DeliverFlow { session_id, step: DeliverStep::RevalidatingBridge { delivery } },
            command,
        }
    }

    fn begin_finalization(
        &mut self,
        session_id: SessionId,
        delivery: Delivery,
        kind: DeliveryKind,
        notification: Option<UserNotificationKind>,
    ) -> (next: Next<DeliverFlow, FinishEnd>)
        ensures
            next == deliver_done(old(self)@, session_id, delivery, kind, notification).next,
            final(self)@ == deliver_done(
                old(self)@,
                session_id,
                delivery,
                kind,
                notification,
            ).after,
    {
        if !self.delivers(session_id, delivery.delivery_id) {
            return Next::Done(FinishEnd::Discarded);
        }
        match self.apply_if_current(session_id, SessionEvent::BeginFinalizing) {
            Err(error) => Next::Done(FinishEnd::Error(error)),
            Ok(false) => Next::Done(FinishEnd::Discarded),
            Ok(true) => {
                if !self.set_stage_if_current(
                    session_id,
                    RuntimeStage::Finalizing { delivery_id: delivery.delivery_id },
                ) {
                    return Next::Done(FinishEnd::Discarded);
                }
                Next::Await {
                    flow: DeliverFlow {
                        session_id,
                        step: DeliverStep::AnnouncingFinalization {
                            delivered: Delivered {
                                delivery,
                                kind,
                                notification,
                                auto_copy_failed: false,
                                history_save_failed: false,
                            },
                        },
                    },
                    command: Command::UpdateHud(session_id, RecordingHudState::Finalizing),
                }
            },
        }
    }

    fn deliver_with_id(
        &mut self,
        session_id: SessionId,
        delivery: Delivery,
        forced: Option<TemporaryTextStatus>,
    ) -> (next: Next<DeliverFlow, FinishEnd>)
        ensures
            next == deliver_on_id(old(self)@, session_id, delivery, forced).next,
            final(self)@ == deliver_on_id(old(self)@, session_id, delivery, forced).after,
    {
        if !self.set_stage_if_current(
            session_id,
            RuntimeStage::Delivering { delivery_id: delivery.delivery_id },
        ) {
            return Next::Done(FinishEnd::Discarded);
        }
        Next::Await {
            flow: DeliverFlow { session_id, step: DeliverStep::Announcing { delivery, forced } },
            command: Command::UpdateHud(session_id, RecordingHudState::Delivering),
        }
    }

    fn choose_delivery(
        &mut self,
        session_id: SessionId,
        delivery: Delivery,
        forced: Option<TemporaryTextStatus>,
        effects: &mut Vec<Effect>,
    ) -> (next: Next<DeliverFlow, FinishEnd>)
        ensures
            next == deliver_on_announced(old(self)@, session_id, delivery, forced).next,
            final(self)@ == deliver_on_announced(old(self)@, session_id, delivery, forced).after,
            final(effects)@ == old(effects)@ + deliver_on_announced(
                old(self)@,
                session_id,
                delivery,
                forced,
            ).effects,
    {
        if let Some(status) = forced {
            effects.push(Effect::Trace(Decision::TemporaryForced));
            return self.show_temporary_text(session_id, delivery, status);
        }
        if delivery.context.target_security != TargetSecurity::Safe {
            effects.push(Effect::Trace(Decision::NoVerifiableTarget));
            return self.try_user_directed_or_temporary(session_id, delivery, effects);
        }
        let command = Command::Revalidate(delivery.context.target_ref.clone());
        Next::Await {
            flow: DeliverFlow { session_id, step: DeliverStep::Revalidating { delivery } },
            command,
        }
    }

    fn deliver_revalidated(
        &mut self,
        session_id: SessionId,
        delivery: Delivery,
        result: Result<TargetRevalidation, PortError>,
        effects: &mut Vec<Effect>,
    ) -> (next: Next<DeliverFlow, FinishEnd>)
        ensures
            next == deliver_on_revalidated(old(self)@, session_id, delivery, result).next,
            final(self)@ == deliver_on_revalidated(old(self)@, session_id, delivery, result).after,
            final(effects)@ == old(effects)@ + deliver_on_revalidated(
                old(self)@,
                session_id,
                delivery,
                result,
            ).effects,
    {
        match result {
            Ok(TargetRevalidation::Valid(target)) => {
                if !self.delivers(session_id, delivery.delivery_id) {
                    return Next::Done(FinishEnd::Discarded);
                }
                let command = Command::Insert {
                    target,
                    text: delivery.final_text.clone(),
                    delivery_id: delivery.delivery_id,
                    lifecycle: session_id,
                };
                Next::Await {
                    flow: DeliverFlow { session_id, step: DeliverStep::Inserting { delivery } },
                    command,
                }
            },
            Ok(TargetRevalidation::Invalid | TargetRevalidation::Indeterminate) => {
                if !self.delivers(session_id, delivery.delivery_id) {
                    return Next::Done(FinishEnd::Discarded);
                }
                effects.push(Effect::Trace(Decision::TargetLost));
                self.try_user_directed_or_temporary(session_id, delivery, effects)
            },
            Err(error) => {
                note_failure(effects, session_id, "target_revalidate", &error);
                if !self.delivers(session_id, delivery.delivery_id) {
                    return Next::Done(FinishEnd::Discarded);
                }
                effects.push(Effect::Trace(Decision::RevalidationFailed { code: error.code }));
                self.try_user_directed_or_temporary(session_id, delivery, effects)
            },
        }
    }

    fn deliver_inserted(
        &mut self,
        session_id: SessionId,
        delivery: Delivery,
        result: Result<InsertOutcome, PortError>,
        effects: &mut Vec<Effect>,
    ) -> (next: Next<DeliverFlow, FinishEnd>)
        ensures
            next == deliver_on_inserted(old(self)@, session_id, delivery, result).next,
            final(self)@ == deliver_on_inserted(old(self)@, session_id, delivery, result).after,
            final(effects)@ == old(effects)@ + deliver_on_inserted(
                old(self)@,
                session_id,
                delivery,
                result,
            ).effects,
    {
        match result {
            Ok(InsertOutcome::Inserted) => {
                effects.push(Effect::Trace(Decision::Inserted));
                self.begin_finalization(session_id, delivery, DeliveryKind::Inserted, None)
            },
            Ok(InsertOutcome::NotInserted) => {
                if !self.delivers(session_id, delivery.delivery_id) {
                    return Next::Done(FinishEnd::Discarded);
                }
                effects.push(Effect::Trace(Decision::NotInserted));
                self.try_clipboard_or_temporary(session_id, delivery, effects)
            },
            Ok(InsertOutcome::Indeterminate) => {
                if !self.delivers(session_id, delivery.delivery_id) {
                    return Next::Done(FinishEnd::Discarded);
                }
                effects.push(Effect::Trace(Decision::InsertionIndeterminate));
                self.show_temporary_text(session_id, delivery, TemporaryTextStatus::Indeterminate)
            },
            Err(error) => {
                note_failure(effects, session_id, "output_insert", &error);
                if !self.delivers(session_id, delivery.delivery_id) {
                    return Next::Done(FinishEnd::Discarded);
                }
                effects.push(Effect::Trace(Decision::InsertionFailed { code: error.code }));
                self.try_clipboard_or_temporary(session_id, delivery, effects)
            },
        }
    }

    fn deliver_bridge_revalidated(
        &mut self,
        session_id: SessionId,
        delivery: Delivery,
        result: Result<TargetRevalidation, PortError>,
        effects: &mut Vec<Effect>,
    ) -> (next: Next<DeliverFlow, FinishEnd>)
        ensures
            next == deliver_on_bridge_revalidated(old(self)@, session_id, delivery, result).next,
            final(self)@ == deliver_on_bridge_revalidated(
                old(self)@,
                session_id,
                delivery,
                result,
            ).after,
            final(effects)@ == old(effects)@ + deliver_on_bridge_revalidated(
                old(self)@,
                session_id,
                delivery,
                result,
            ).effects,
    {
        match result {
            Ok(TargetRevalidation::Valid(target)) => {
                if !self.delivers(session_id, delivery.delivery_id) {
                    return Next::Done(FinishEnd::Discarded);
                }
                let command = Command::PasteAtTarget {
                    target,
                    text: delivery.final_text.clone(),
                    delivery_id: delivery.delivery_id,
                    lifecycle: session_id,
                };
                Next::Await {
                    flow: DeliverFlow {
                        session_id,
                        step: DeliverStep::PastingAtTarget { delivery },
                    },
                    command,
                }
            },
            Ok(TargetRevalidation::Invalid | TargetRevalidation::Indeterminate) => {
                effects.push(Effect::Trace(Decision::BridgeTargetLost));
                self.try_user_directed_or_temporary(session_id, delivery, effects)
            },
            Err(error) => {
                note_failure(effects, session_id, "clipboard_target_revalidate", &error);
                effects.push(
                    Effect::Trace(Decision::BridgeRevalidationFailed { code: error.code }),
                );
                self.try_user_directed_or_temporary(session_id, delivery, effects)
            },
        }
    }

    fn deliver_pasted_at_target(
        &mut self,
        session_id: SessionId,
        delivery: Delivery,
        result: Result<InsertOutcome, PortError>,
        effects: &mut Vec<Effect>,
    ) -> (next: Next<DeliverFlow, FinishEnd>)
        ensures
            next == deliver_on_pasted_at_target(old(self)@, session_id, delivery, result).next,
            final(self)@ == deliver_on_pasted_at_target(
                old(self)@,
                session_id,
                delivery,
                result,
            ).after,
            final(effects)@ == old(effects)@ + deliver_on_pasted_at_target(
                old(self)@,
                session_id,
                delivery,
                result,
            ).effects,
    {
        match result {
            Ok(InsertOutcome::Inserted) => {
                effects.push(Effect::Trace(Decision::BridgeInserted));
                self.begin_finalization(session_id, delivery, DeliveryKind::ClipboardBridge, None)
            },
            Ok(InsertOutcome::NotInserted) => {
                if !self.delivers(session_id, delivery.delivery_id) {
                    return Next::Done(FinishEnd::Discarded);
                }
                effects.push(Effect::Trace(Decision::BridgeNotInserted));
                self.show_temporary_text(session_id, delivery, TemporaryTextStatus::NotInserted)
            },
            Ok(InsertOutcome::Indeterminate) => {
                if !self.delivers(session_id, delivery.delivery_id) {
                    return Next::Done(FinishEnd::Discarded);
                }
                effects.push(Effect::Trace(Decision::BridgeIndeterminate));
                self.show_temporary_text(session_id, delivery, TemporaryTextStatus::Indeterminate)
            },
            Err(error) => {
                note_failure(effects, session_id, "clipboard_insert", &error);
                if !self.delivers(session_id, delivery.delivery_id) {
                    return Next::Done(FinishEnd::Discarded);
                }
                effects.push(Effect::Trace(Decision::BridgeFailed { code: error.code }));
                self.show_temporary_text(session_id, delivery, TemporaryTextStatus::NotInserted)
            },
        }
    }

    fn deliver_pasted_at_focus(
        &mut self,
        session_id: SessionId,
        delivery: Delivery,
        result: Result<UserDirectedPasteOutcome, PortError>,
        effects: &mut Vec<Effect>,
    ) -> (next: Next<DeliverFlow, FinishEnd>)
        ensures
            next == deliver_on_pasted_at_focus(old(self)@, session_id, delivery, result).next,
            final(self)@ == deliver_on_pasted_at_focus(
                old(self)@,
                session_id,
                delivery,
                result,
            ).after,
            final(effects)@ == old(effects)@ + deliver_on_pasted_at_focus(
                old(self)@,
                session_id,
                delivery,
                result,
            ).effects,
    {
        match result {
            Ok(UserDirectedPasteOutcome::Dispatched) => {
                effects.push(Effect::Trace(Decision::PasteDispatched));
                self.begin_finalization(session_id, delivery, DeliveryKind::ClipboardBridge, None)
            },
            Ok(UserDirectedPasteOutcome::NotDispatched) => {
                if !self.delivers(session_id, delivery.delivery_id) {
                    return Next::Done(FinishEnd::Discarded);
                }
                effects.push(Effect::Trace(Decision::PasteNotDispatched));
                self.show_temporary_text(session_id, delivery, TemporaryTextStatus::NotInserted)
            },
            Ok(UserDirectedPasteOutcome::Indeterminate) => {
                if !self.delivers(session_id, delivery.delivery_id) {
                    return Next::Done(FinishEnd::Discarded);
                }
                effects.push(Effect::Trace(Decision::PasteIndeterminate));
                self.show_temporary_text(session_id, delivery, TemporaryTextStatus::Indeterminate)
            },
            Err(error) => {
                note_failure(effects, session_id, "user_directed_paste", &error);
                if !self.delivers(session_id, delivery.delivery_id) {
                    return Next::Done(FinishEnd::Discarded);
                }
                effects.push(Effect::Trace(Decision::PasteFailed { code: error.code }));
                self.show_temporary_text(session_id, delivery, TemporaryTextStatus::NotInserted)
            },
        }
    }

    fn deliver_end_session(
        &self,
        session_id: SessionId,
        next: Option<(Closing, Command)>,
        end: FinishEnd,
    ) -> (r: Next<DeliverFlow, FinishEnd>)
        ensures
            r == deliver_closing(
                session_id,
                ClosingMove { after: self@, effects: Seq::empty(), next },
                end,
            ).next,
    {
        match next {
            Some((closing, command)) => Next::Await {
                flow: DeliverFlow {
                    session_id,
                    step: DeliverStep::ClosingSession { closing, end },
                },
                command,
            },
            None => Next::Done(end),
        }
    }

    fn deliver_shown(
        &mut self,
        session_id: SessionId,
        delivery: Delivery,
        status: TemporaryTextStatus,
        result: Result<(), PortError>,
        effects: &mut Vec<Effect>,
    ) -> (next: Next<DeliverFlow, FinishEnd>)
        ensures
            next == deliver_on_shown(old(self)@, session_id, delivery, status, result).next,
            final(self)@ == deliver_on_shown(
                old(self)@,
                session_id,
                delivery,
                status,
                result,
            ).after,
            final(effects)@ == old(effects)@ + deliver_on_shown(
                old(self)@,
                session_id,
                delivery,
                status,
                result,
            ).effects,
    {
        match result {
            Ok(_) => {
                let notification = match status {
                    TemporaryTextStatus::LlmFallback => Some(UserNotificationKind::Llm),
                    TemporaryTextStatus::Indeterminate | TemporaryTextStatus::NotInserted => None,
                };
                self.begin_finalization(
                    session_id,
                    delivery,
                    DeliveryKind::TemporaryText,
                    notification,
                )
            },
            Err(error) => {
                note_failure(effects, session_id, "temporary_text", &error);
                match self.begin_failure(session_id, FailureCategory::Delivery, effects) {
                    FailureStart::NotCurrent => Next::Done(FinishEnd::Discarded),
                    FailureStart::Refused(refusal) => Next::Done(FinishEnd::Error(refusal)),
                    FailureStart::Closing(next) => self.deliver_end_session(
                        session_id,
                        next,
                        FinishEnd::Failed(FailureCategory::Delivery),
                    ),
                }
            },
        }
    }

    fn complete_delivery(&mut self, session_id: SessionId, delivered: Delivered) -> (next: Next<
        DeliverFlow,
        FinishEnd,
    >)
        ensures
            next == deliver_complete(old(self)@, session_id, delivered).next,
            final(self)@ == deliver_complete(old(self)@, session_id, delivered).after,
    {
        match self.apply_if_current(session_id, SessionEvent::Complete) {
            Err(error) => Next::Done(FinishEnd::Error(error)),
            Ok(false) => Next::Done(FinishEnd::Discarded),
            Ok(true) => Next::Await {
                flow: DeliverFlow {
                    session_id,
                    step: DeliverStep::AnnouncingCompletion { delivered },
                },
                command: Command::UpdateHud(session_id, RecordingHudState::Completed),
            },
        }
    }

    fn keep_in_history(&mut self, session_id: SessionId, delivered: Delivered) -> (next: Next<
        DeliverFlow,
        FinishEnd,
    >)
        ensures
            next == deliver_to_history(old(self)@, session_id, delivered).next,
            final(self)@ == deliver_to_history(old(self)@, session_id, delivered).after,
    {
        if delivered.delivery.context.settings.input.history_policy.enabled {
            Next::Await {
                flow: DeliverFlow { session_id, step: DeliverStep::ReadingClock { delivered } },
                command: Command::ReadClock,
            }
        } else {
            self.complete_delivery(session_id, delivered)
        }
    }

    fn finalize_delivery(&mut self, session_id: SessionId, delivered: Delivered) -> (next: Next<
        DeliverFlow,
        FinishEnd,
    >)
        ensures
            next == deliver_on_finalizing(old(self)@, session_id, delivered).next,
            final(self)@ == deliver_on_finalizing(old(self)@, session_id, delivered).after,
    {
        if delivered.delivery.context.settings.input.auto_copy_result {
            let command = Command::WriteClipboard(delivered.delivery.final_text.clone());
            Next::Await {
                flow: DeliverFlow { session_id, step: DeliverStep::Copying { delivered } },
                command,
            }
        } else {
            self.keep_in_history(session_id, delivered)
        }
    }

    fn deliver_copied(
        &mut self,
        session_id: SessionId,
        delivered: Delivered,
        result: Result<(), PortError>,
        effects: &mut Vec<Effect>,
    ) -> (next: Next<DeliverFlow, FinishEnd>)
        ensures
            next == deliver_on_copied(old(self)@, session_id, delivered, result).next,
            final(self)@ == deliver_on_copied(old(self)@, session_id, delivered, result).after,
            final(effects)@ == old(effects)@ + deliver_on_copied(
                old(self)@,
                session_id,
                delivered,
                result,
            ).effects,
    {
        note_result(effects, session_id, "finalize_auto_copy", &result);
        if !self.finalizes(session_id, delivered.delivery.delivery_id) {
            return Next::Done(FinishEnd::Discarded);
        }
        let auto_copy_failed = delivered.auto_copy_failed || result.is_err();
        self.keep_in_history(session_id, Delivered { auto_copy_failed, ..delivered })
    }

    fn deliver_timed(&self, session_id: SessionId, delivered: Delivered, now: TimestampMs) -> (next:
        Next<DeliverFlow, FinishEnd>)
        ensures
            next == deliver_on_clock(self@, session_id, delivered, now).next,
    {
        let command = Command::SaveHistory {
            record: HistoryRecord {
                delivery_id: delivered.delivery.delivery_id,
                final_text: delivered.delivery.final_text.clone(),
                created_at: now,
            },
            settings: delivered.delivery.context.settings.clone(),
            lifecycle: session_id,
        };
        Next::Await {
            flow: DeliverFlow { session_id, step: DeliverStep::Saving { delivered } },
            command,
        }
    }

    fn deliver_saved(
        &mut self,
        session_id: SessionId,
        delivered: Delivered,
        result: Result<(), PortError>,
        effects: &mut Vec<Effect>,
    ) -> (next: Next<DeliverFlow, FinishEnd>)
        ensures
            next == deliver_on_saved(old(self)@, session_id, delivered, result).next,
            final(self)@ == deliver_on_saved(old(self)@, session_id, delivered, result).after,
            final(effects)@ == old(effects)@ + deliver_on_saved(
                old(self)@,
                session_id,
                delivered,
                result,
            ).effects,
    {
        note_result(effects, session_id, "history_save", &result);
        if !self.finalizes(session_id, delivered.delivery.delivery_id) {
            return Next::Done(FinishEnd::Discarded);
        }
        let history_save_failed = delivered.history_save_failed || result.is_err();
        self.complete_delivery(session_id, Delivered { history_save_failed, ..delivered })
    }

    fn deliver_announced_completion(
        &mut self,
        session_id: SessionId,
        delivered: Delivered,
        result: Result<(), PortError>,
        effects: &mut Vec<Effect>,
    ) -> (next: Next<DeliverFlow, FinishEnd>)
        ensures
            next == deliver_closing(
                session_id,
                closing_begin(
                    old(self)@,
                    session_id,
                    Some(TerminalOutcome::Completed),
                    delivered.notification,
                ),
                completed(delivered),
            ).next,
            final(self)@ == closing_begin(
                old(self)@,
                session_id,
                Some(TerminalOutcome::Completed),
                delivered.notification,
            ).after,
            final(effects)@ == old(effects)@ + (noted(session_id, "recording_hud_update", result)
                + closing_begin(
                old(self)@,
                session_id,
                Some(TerminalOutcome::Completed),
                delivered.notification,
            ).effects),
    {
        note_result(effects, session_id, "recording_hud_update", &result);
        let next = self.begin_closing(
            session_id,
            Some(TerminalOutcome::Completed),
            delivered.notification,
            effects,
        );
        let end = FinishEnd::Completed {
            final_text: delivered.delivery.final_text,
            delivery: delivered.kind,
            direct_delivery_reason: delivered.delivery.direct_delivery_reason,
            auto_copy_failed: delivered.auto_copy_failed,
            history_save_failed: delivered.history_save_failed,
        };
        self.deliver_end_session(session_id, next, end)
    }

    /// Goes on with a delivery.
    pub(crate) fn resume_delivery(
        &mut self,
        session_id: SessionId,
        step: DeliverStep,
        reply: Reply,
        effects: &mut Vec<Effect>,
    ) -> (next: Next<DeliverFlow, FinishEnd>)
        requires
            deliver_awaits(step, reply),
        ensures
            next == deliver_step(old(self)@, session_id, step, reply).next,
            final(self)@ == deliver_step(old(self)@, session_id, step, reply).after,
            final(effects)@ == old(effects)@ + deliver_step(
                old(self)@,
                session_id,
                step,
                reply,
            ).effects,
    {
        match step {
            DeliverStep::IssuingId { context, final_text, direct_delivery_reason, forced } => {
                let delivery_id = match reply {
                    Reply::Delivery(delivery_id) => delivery_id,
                    _ => vstd::pervasive::unreached(),
                };
                self.deliver_with_id(
                    session_id,
                    Delivery { context, delivery_id, final_text, direct_delivery_reason },
                    forced,
                )
            },
            DeliverStep::Announcing { delivery, forced } => {
                note_result(effects, session_id, "recording_hud_update", &acted(reply));
                self.choose_delivery(session_id, delivery, forced, effects)
            },
            DeliverStep::Revalidating { delivery } => {
                let result = match reply {
                    Reply::Revalidation(result) => result,
                    _ => vstd::pervasive::unreached(),
                };
                self.deliver_revalidated(session_id, delivery, result, effects)
            },
            DeliverStep::Inserting { delivery } => {
                let result = match reply {
                    Reply::Insertion(result) => result,
                    _ => vstd::pervasive::unreached(),
                };
                self.deliver_inserted(session_id, delivery, result, effects)
            },
            DeliverStep::RevalidatingBridge { delivery } => {
                let result = match reply {
                    Reply::Revalidation(result) => result,
                    _ => vstd::pervasive::unreached(),
                };
                self.deliver_bridge_revalidated(session_id, delivery, result, effects)
            },
            DeliverStep::PastingAtTarget { delivery } => {
                let result = match reply {
                    Reply::Insertion(result) => result,
                    _ => vstd::pervasive::unreached(),
                };
                self.deliver_pasted_at_target(session_id, delivery, result, effects)
            },
            DeliverStep::PastingAtFocus { delivery } => {
                let result = match reply {
                    Reply::Paste(result) => result,
                    _ => vstd::pervasive::unreached(),
                };
                self.deliver_pasted_at_focus(session_id, delivery, result, effects)
            },
            DeliverStep::ShowingTemporary { delivery, status } => {
                self.deliver_shown(session_id, delivery, status, acted(reply), effects)
            },
            DeliverStep::AnnouncingFinalization { delivered } => {
                note_result(effects, session_id, "recording_hud_update", &acted(reply));
                self.finalize_delivery(session_id, delivered)
            },
            DeliverStep::Copying { delivered } => {
                self.deliver_copied(session_id, delivered, acted(reply), effects)
            },
            DeliverStep::ReadingClock { delivered } => {
                let now = match reply {
                    Reply::Now(now) => now,
                    _ => vstd::pervasive::unreached(),
                };
                self.deliver_timed(session_id, delivered, now)
            },
            DeliverStep::Saving { delivered } => {
                self.deliver_saved(session_id, delivered, acted(reply), effects)
            },
            DeliverStep::AnnouncingCompletion { delivered } => {
                self.deliver_announced_completion(session_id, delivered, acted(reply), effects)
            },
            DeliverStep::ClosingSession { closing, end } => {
                let next = self.continue_closing(closing, acted(reply), effects);
                self.deliver_end_session(session_id, next, end)
            },
        }
    }
}

} // verus!
