//! The single slot that a running session occupies.

use crate::asr_route::ResolvedAsrRoute;
use crate::domain::{
    SessionEvent, SessionId, SessionPhase, SettingsSnapshot, TerminalOutcome, TimestampMs,
    TranscriptionSession, TransitionEffect, TransitionError,
};
use vstd::prelude::*;

verus! {

/// A session together with the recogniser frozen for it.
#[derive(Debug)]
pub struct ActiveSession {
    pub session: TranscriptionSession,
    pub asr_route: ResolvedAsrRoute,
}

/// Holds at most one session.
#[derive(Debug)]
pub struct SessionCoordinator {
    active: Option<ActiveSession>,
}

#[derive(Clone, Copy, Debug, PartialEq, Eq, Structural)]
pub enum StartSessionOutcome {
    Accepted { session_id: SessionId },
    Busy { active_session_id: SessionId },
}

#[derive(Clone, Copy, Debug, PartialEq, Eq, Structural)]
pub struct SessionMutation {
    pub effect: TransitionEffect,
    pub terminal_outcome: Option<TerminalOutcome>,
}

#[derive(Clone, Copy, Debug, PartialEq, Eq, Structural)]
pub enum CoordinatorError {
    StateLockPoisoned,
    SessionNotFound,
    InvalidTransition(TransitionError),
}

/// What a new session looks like in the slot.
pub open spec fn new_session(
    session_id: SessionId,
    created_at: TimestampMs,
    settings: SettingsSnapshot,
    asr_route: ResolvedAsrRoute,
) -> ActiveSession {
    ActiveSession {
        session: TranscriptionSession {
            id: session_id,
            created_at,
            settings,
            selected_asr_engine: asr_route.engine,
            phase: SessionPhase::Preparing,
        },
        asr_route,
    }
}

/// The slot after an event for a session: an event for another session changes
/// nothing, and a terminal outcome frees the slot.
pub open spec fn slot_after(
    slot: Option<ActiveSession>,
    session_id: SessionId,
    event: SessionEvent,
) -> Option<ActiveSession> {
    match slot {
        Some(active) if active.session.id == session_id => match active.session.phase.next(event) {
            Some(SessionPhase::Terminal(_)) => None,
            Some(phase) => Some(
                ActiveSession { session: TranscriptionSession { phase, ..active.session }, ..active },
            ),
            None => slot,
        },
        _ => slot,
    }
}

/// What the sender of an event learns.
pub open spec fn mutation_of(
    slot: Option<ActiveSession>,
    session_id: SessionId,
    event: SessionEvent,
) -> Result<SessionMutation, CoordinatorError> {
    match slot {
        Some(active) if active.session.id == session_id => match active.session.phase.next(event) {
            Some(phase) => Ok(
                SessionMutation {
                    effect: phase.effect(),
                    terminal_outcome: phase.spec_terminal_outcome(),
                },
            ),
            None => Err(
                CoordinatorError::InvalidTransition(
                    TransitionError { phase: active.session.phase, event },
                ),
            ),
        },
        _ => Err(CoordinatorError::SessionNotFound),
    }
}

impl View for SessionCoordinator {
    type V = Option<ActiveSession>;

    closed spec fn view(&self) -> Option<ActiveSession> {
        self.active
    }
}

impl SessionCoordinator {
    pub fn new() -> (r: SessionCoordinator)
        ensures
            r@ is None,
    {
        SessionCoordinator { active: None }
    }

    /// Starts a session where the slot is free. Where it is not, the slot stays
    /// as it is and the answer names the session that occupies it.
    pub fn try_start(
        &mut self,
        session_id: SessionId,
        created_at: TimestampMs,
        settings: SettingsSnapshot,
        asr_route: ResolvedAsrRoute,
    ) -> (r: StartSessionOutcome)
        ensures
            match old(self)@ {
                Some(active) => {
                    &&& r == (StartSessionOutcome::Busy { active_session_id: active.session.id })
                    &&& final(self)@ == old(self)@
                },
                None => {
                    &&& r == (StartSessionOutcome::Accepted { session_id })
                    &&& final(self)@ == Some(
                        new_session(session_id, created_at, settings, asr_route),
                    )
                },
            },
    {
        match &self.active {
            Some(active) => StartSessionOutcome::Busy { active_session_id: active.session.id },
            None => {
                self.active = Some(
                    ActiveSession {
                        session: TranscriptionSession::new(
                            session_id,
                            created_at,
                            settings,
                            asr_route.engine(),
                        ),
                        asr_route,
                    },
                );
                StartSessionOutcome::Accepted { session_id }
            },
        }
    }

    /// The session in the slot.
    pub fn active_snapshot(&self) -> (r: Option<TranscriptionSession>)
        ensures
            match self@ {
                Some(active) => r == Some(active.session),
                None => r is None,
            },
    {
        match &self.active {
            Some(active) => Some(active.session.clone()),
            None => None,
        }
    }

    /// The recogniser frozen for the session in the slot.
    pub fn active_asr_route(&self) -> (r: Option<ResolvedAsrRoute>)
        ensures
            match self@ {
                Some(active) => r == Some(active.asr_route),
                None => r is None,
            },
    {
        match &self.active {
            Some(active) => Some(active.asr_route),
            None => None,
        }
    }

    /// Hands an event to the session in the slot, if it is the one named.
    pub fn apply(&mut self, session_id: SessionId, event: SessionEvent) -> (r: Result<
        SessionMutation,
        CoordinatorError,
    >)
        ensures
            final(self)@ == slot_after(old(self)@, session_id, event),
            r == mutation_of(old(self)@, session_id, event),
    {
        let (effect, terminal_outcome) = match &mut self.active {
            None => {
                return Err(CoordinatorError::SessionNotFound);
            },
            Some(active) => {
                if active.session.id != session_id {
                    return Err(CoordinatorError::SessionNotFound);
                }
                match active.session.apply(event) {
                    Ok(effect) => (effect, active.session.terminal_outcome()),
                    Err(error) => {
                        return Err(CoordinatorError::InvalidTransition(error));
                    },
                }
            },
        };
        if terminal_outcome.is_some() {
            self.active = None;
        }
        Ok(SessionMutation { effect, terminal_outcome })
    }
}

/// A terminal outcome frees the slot, and nothing else does.
pub proof fn slot_is_freed_exactly_by_a_terminal_outcome(
    slot: Option<ActiveSession>,
    session_id: SessionId,
    event: SessionEvent,
)
    requires
        slot is Some,
    ensures
        slot_after(slot, session_id, event) is None <==> match mutation_of(slot, session_id, event) {
            Ok(mutation) => mutation.terminal_outcome is Some,
            Err(_) => false,
        },
{
}

/// An event for another session changes nothing, and neither does an event that
/// the session refuses.
pub proof fn refused_events_change_nothing(
    slot: Option<ActiveSession>,
    session_id: SessionId,
    event: SessionEvent,
)
    requires
        mutation_of(slot, session_id, event) is Err,
    ensures
        slot_after(slot, session_id, event) == slot,
{
}

/// A session keeps its identity, its settings and its recogniser for as long as
/// it occupies the slot.
pub proof fn frozen_choices_survive_every_event(
    slot: Option<ActiveSession>,
    session_id: SessionId,
    event: SessionEvent,
)
    requires
        slot_after(slot, session_id, event) is Some,
    ensures
        slot is Some,
        slot_after(slot, session_id, event)->0.asr_route == slot->0.asr_route,
        slot_after(slot, session_id, event)->0.session.id == slot->0.session.id,
        slot_after(slot, session_id, event)->0.session.settings == slot->0.session.settings,
        slot_after(slot, session_id, event)->0.session.selected_asr_engine
            == slot->0.session.selected_asr_engine,
{
}

/// A new session is the one that was asked for, from the time that was given, and nothing
/// has happened to it yet.
pub proof fn a_new_session_is_as_it_was_asked_for(
    session_id: SessionId,
    created_at: TimestampMs,
    settings: SettingsSnapshot,
    asr_route: ResolvedAsrRoute,
)
    ensures
        ({
            let active = new_session(session_id, created_at, settings, asr_route);
            &&& active.session.id == session_id
            &&& active.session.created_at == created_at
            &&& active.session.settings == settings
            &&& active.session.selected_asr_engine == asr_route.engine
            &&& active.session.phase is Preparing
            &&& active.asr_route == asr_route
        }),
{
}

/// What the sender of an event learns is what has happened to the session: the outcome
/// where it ended, and otherwise the phase in which the slot holds it now. A session that
/// is not there is not found, and an event that does not belong is named with the phase.
pub proof fn what_is_learned_is_what_has_happened(
    slot: Option<ActiveSession>,
    session_id: SessionId,
    event: SessionEvent,
)
    ensures
        ({
            let after = slot_after(slot, session_id, event);
            match mutation_of(slot, session_id, event) {
                Ok(mutation) => {
                    &&& slot is Some && slot->0.session.id == session_id
                    &&& match mutation.terminal_outcome {
                        Some(outcome) => {
                            &&& after is None
                            &&& mutation.effect == TransitionEffect::Terminated(outcome)
                        },
                        None => {
                            &&& after is Some
                            &&& mutation.effect == TransitionEffect::Advanced(
                                after->0.session.phase,
                            )
                        },
                    }
                },
                Err(CoordinatorError::SessionNotFound) => {
                    slot is None || slot->0.session.id != session_id
                },
                Err(CoordinatorError::InvalidTransition(error)) => {
                    &&& slot is Some && slot->0.session.id == session_id
                    &&& error.phase == slot->0.session.phase
                    &&& error.event == event
                },
                Err(CoordinatorError::StateLockPoisoned) => false,
            }
        }),
{
}

} // verus!
