//! How a session ends: the outcome is published, the session is dropped, its HUD
//! disappears, and the user hears of what needs attention.

use crate::domain::{FailureCategory, SessionEvent, SessionId, TerminalOutcome};
use crate::orchestrator::protocol::{note_result, noted, Command, Effect};
use crate::orchestrator::state::{OrchestratorError, OrchestratorView, TranscriptionOrchestrator};
use crate::ports::{PortError, UserNotificationKind};
use crate::session_coordinator::{mutation_of, slot_after, CoordinatorError};
use vstd::prelude::*;

verus! {

#[derive(Clone, Copy, Debug, PartialEq, Eq, Structural)]
pub enum ClosingStep {
    Publishing,
    Hiding,
    Notifying,
}

/// An end that is under way.
#[derive(Clone, Copy, Debug, PartialEq, Eq, Structural)]
pub struct Closing {
    pub session_id: SessionId,
    pub notification: Option<UserNotificationKind>,
    pub step: ClosingStep,
}

/// One step of an end: it waits for a command, or it is over.
pub struct ClosingMove {
    pub after: OrchestratorView,
    pub effects: Seq<Effect>,
    pub next: Option<(Closing, Command)>,
}

/// Last of all, the user is notified where there is something to tell.
pub open spec fn closing_notice(
    o: OrchestratorView,
    session_id: SessionId,
    notification: Option<UserNotificationKind>,
) -> ClosingMove {
    ClosingMove {
        after: o,
        effects: Seq::empty(),
        next: match notification {
            Some(kind) => Some(
                (
                    Closing { session_id, notification, step: ClosingStep::Notifying },
                    Command::Notify(session_id, kind),
                ),
            ),
            None => None,
        },
    }
}

/// The session is dropped, and its HUD with it.
pub open spec fn closing_drop(
    o: OrchestratorView,
    session_id: SessionId,
    notification: Option<UserNotificationKind>,
) -> ClosingMove {
    if o.works(session_id) {
        ClosingMove {
            after: o.cleared(session_id),
            effects: o.clearing(session_id),
            next: Some(
                (
                    Closing { session_id, notification, step: ClosingStep::Hiding },
                    Command::HideHud(session_id),
                ),
            ),
        }
    } else {
        closing_notice(o, session_id, notification)
    }
}

/// First of all, the outcome is published where the session reached one.
pub open spec fn closing_begin(
    o: OrchestratorView,
    session_id: SessionId,
    outcome: Option<TerminalOutcome>,
    notification: Option<UserNotificationKind>,
) -> ClosingMove {
    match outcome {
        Some(outcome) => ClosingMove {
            after: o,
            effects: Seq::empty(),
            next: Some(
                (
                    Closing { session_id, notification, step: ClosingStep::Publishing },
                    Command::PublishTerminal(session_id, outcome),
                ),
            ),
        },
        None => closing_drop(o, session_id, notification),
    }
}

/// Each deed on the way is best effort: a failure is recorded and nothing more.
pub open spec fn closing_step(
    o: OrchestratorView,
    closing: Closing,
    result: Result<(), PortError>,
) -> ClosingMove {
    let session_id = closing.session_id;
    match closing.step {
        ClosingStep::Publishing => {
            let step = closing_drop(o, session_id, closing.notification);
            ClosingMove {
                effects: noted(session_id, "recording_hud_publish_terminal", result)
                    + step.effects,
                ..step
            }
        },
        ClosingStep::Hiding => {
            let step = closing_notice(o, session_id, closing.notification);
            ClosingMove {
                effects: noted(session_id, "recording_hud_hide", result) + step.effects,
                ..step
            }
        },
        ClosingStep::Notifying => ClosingMove {
            after: o,
            effects: noted(session_id, "user_notification", result),
            next: None,
        },
    }
}

/// How a failure of a session begins.
pub enum FailureStart {
    /// The session is not there any more.
    NotCurrent,
    /// The session refuses to fail.
    Refused(OrchestratorError),
    /// The session ends, in one go or over some steps.
    Closing(Option<(Closing, Command)>),
}

/// Whom a failure concerns.
pub open spec fn failure_notice(category: FailureCategory) -> Option<UserNotificationKind> {
    if category == FailureCategory::Asr {
        Some(UserNotificationKind::Asr)
    } else {
        None
    }
}

/// The single slot after a session has been told to fail.
pub open spec fn failed(
    o: OrchestratorView,
    session_id: SessionId,
    category: FailureCategory,
) -> OrchestratorView {
    OrchestratorView {
        session: slot_after(o.session, session_id, SessionEvent::Fail(category)),
        ..o
    }
}

/// The end that a failure leads to. A session that is no longer in the slot has
/// no outcome to publish.
pub open spec fn failure_closing(
    o: OrchestratorView,
    session_id: SessionId,
    category: FailureCategory,
) -> ClosingMove {
    closing_begin(
        failed(o, session_id, category),
        session_id,
        match mutation_of(o.session, session_id, SessionEvent::Fail(category)) {
            Ok(mutation) => mutation.terminal_outcome,
            Err(_) => None,
        },
        failure_notice(category),
    )
}

pub open spec fn failure_start(
    o: OrchestratorView,
    session_id: SessionId,
    category: FailureCategory,
) -> FailureStart {
    if !o.works(session_id) {
        FailureStart::NotCurrent
    } else {
        match mutation_of(o.session, session_id, SessionEvent::Fail(category)) {
            Err(CoordinatorError::SessionNotFound) | Ok(_) => FailureStart::Closing(
                failure_closing(o, session_id, category).next,
            ),
            Err(error) => FailureStart::Refused(OrchestratorError::Coordinator(error)),
        }
    }
}

/// The shared state once a failure has begun.
pub open spec fn failure_after(
    o: OrchestratorView,
    session_id: SessionId,
    category: FailureCategory,
) -> OrchestratorView {
    if failure_start(o, session_id, category) is Closing {
        failure_closing(o, session_id, category).after
    } else {
        o
    }
}

/// What the beginning of a failure leaves behind.
pub open spec fn failure_effects(
    o: OrchestratorView,
    session_id: SessionId,
    category: FailureCategory,
) -> Seq<Effect> {
    if failure_start(o, session_id, category) is Closing {
        failure_closing(o, session_id, category).effects
    } else {
        Seq::empty()
    }
}

impl TranscriptionOrchestrator {
    fn close_with_notice(
        &mut self,
        session_id: SessionId,
        notification: Option<UserNotificationKind>,
    ) -> (r: Option<(Closing, Command)>)
        ensures
            r == closing_notice(old(self)@, session_id, notification).next,
            final(self)@ == old(self)@,
    {
        match notification {
            Some(kind) => Some(
                (
                    Closing { session_id, notification, step: ClosingStep::Notifying },
                    Command::Notify(session_id, kind),
                ),
            ),
            None => None,
        }
    }

    fn close_by_dropping(
        &mut self,
        session_id: SessionId,
        notification: Option<UserNotificationKind>,
        effects: &mut Vec<Effect>,
    ) -> (r: Option<(Closing, Command)>)
        ensures
            r == closing_drop(old(self)@, session_id, notification).next,
            final(self)@ == closing_drop(old(self)@, session_id, notification).after,
            final(effects)@ == old(effects)@ + closing_drop(
                old(self)@,
                session_id,
                notification,
            ).effects,
    {
        if self.clear_active_if_current(session_id, effects) {
            Some(
                (
                    Closing { session_id, notification, step: ClosingStep::Hiding },
                    Command::HideHud(session_id),
                ),
            )
        } else {
            self.close_with_notice(session_id, notification)
        }
    }

    pub(crate) fn begin_closing(
        &mut self,
        session_id: SessionId,
        outcome: Option<TerminalOutcome>,
        notification: Option<UserNotificationKind>,
        effects: &mut Vec<Effect>,
    ) -> (r: Option<(Closing, Command)>)
        ensures
            r == closing_begin(old(self)@, session_id, outcome, notification).next,
            final(self)@ == closing_begin(old(self)@, session_id, outcome, notification).after,
            final(effects)@ == old(effects)@ + closing_begin(
                old(self)@,
                session_id,
                outcome,
                notification,
            ).effects,
    {
        match outcome {
            Some(outcome) => Some(
                (
                    Closing { session_id, notification, step: ClosingStep::Publishing },
                    Command::PublishTerminal(session_id, outcome),
                ),
            ),
            None => self.close_by_dropping(session_id, notification, effects),
        }
    }

    pub(crate) fn continue_closing(
        &mut self,
        closing: Closing,
        result: Result<(), PortError>,
        effects: &mut Vec<Effect>,
    ) -> (r: Option<(Closing, Command)>)
        ensures
            r == closing_step(old(self)@, closing, result).next,
            final(self)@ == closing_step(old(self)@, closing, result).after,
            final(effects)@ == old(effects)@ + closing_step(old(self)@, closing, result).effects,
    {
        let session_id = closing.session_id;
        match closing.step {
            ClosingStep::Publishing => {
                note_result(effects, session_id, "recording_hud_publish_terminal", &result);
                self.close_by_dropping(session_id, closing.notification, effects)
            },
            ClosingStep::Hiding => {
                note_result(effects, session_id, "recording_hud_hide", &result);
                self.close_with_notice(session_id, closing.notification)
            },
            ClosingStep::Notifying => {
                note_result(effects, session_id, "user_notification", &result);
                None
            },
        }
    }

    /// Fails the active session, if it is the one named.
    pub(crate) fn begin_failure(
        &mut self,
        session_id: SessionId,
        category: FailureCategory,
        effects: &mut Vec<Effect>,
    ) -> (r: FailureStart)
        ensures
            r == failure_start(old(self)@, session_id, category),
            final(self)@ == failure_after(old(self)@, session_id, category),
            final(effects)@ == old(effects)@ + failure_effects(old(self)@, session_id, category),
    {
        if !self.is_active(session_id) {
            return FailureStart::NotCurrent;
        }
        let outcome = match self.apply_event(session_id, SessionEvent::Fail(category)) {
            Ok(mutation) => mutation.terminal_outcome,
            Err(CoordinatorError::SessionNotFound) => None,
            Err(error) => {
                return FailureStart::Refused(OrchestratorError::Coordinator(error));
            },
        };
        let notification = match category {
            FailureCategory::Asr => Some(UserNotificationKind::Asr),
            _ => None,
        };
        FailureStart::Closing(self.begin_closing(session_id, outcome, notification, effects))
    }
}

} // verus!
