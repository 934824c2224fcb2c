//! All requests to quit share one attempt at a time and its result.

use crate::orchestrator::state::{OrchestratorError, QuitOutcome};
use vstd::prelude::*;

verus! {

/// Whether an exit is under way.
#[derive(Clone, Copy, Debug, PartialEq, Eq, Structural)]
pub enum ExitState {
    Open,
    Running(u64),
    Complete(QuitOutcome),
}

/// Where all requests to quit stand, and the number of the next attempt.
pub struct ExitView {
    pub state: ExitState,
    pub next_attempt: u64,
}

/// What a request to quit has to do.
#[derive(Clone, Copy, Debug, PartialEq, Eq, Structural)]
pub enum ExitRole {
    /// Carry out the attempt with this number.
    Leader(u64),
    /// Wait for the attempt with this number.
    Follower(u64),
    /// Nothing: the application has quit.
    Completed(QuitOutcome),
}

/// Coordinates all shutdown callers around exactly one leader.
#[derive(Debug)]
pub struct ExitCompletion {
    state: ExitState,
    next_attempt: u64,
}

impl ExitView {
    /// The role of the next request.
    pub open spec fn role(self) -> ExitRole {
        match self.state {
            ExitState::Open => ExitRole::Leader(self.next_attempt),
            ExitState::Running(attempt) => ExitRole::Follower(attempt),
            ExitState::Complete(outcome) => ExitRole::Completed(outcome),
        }
    }

    /// An attempt is running once someone asked to quit.
    pub open spec fn begun(self) -> ExitView {
        match self.state {
            ExitState::Open => ExitView {
                state: ExitState::Running(self.next_attempt),
                next_attempt: if self.next_attempt == u64::MAX {
                    0
                } else {
                    (self.next_attempt + 1) as u64
                },
            },
            _ => self,
        }
    }

    /// A successful attempt is final, a failed one can be made again. The result
    /// of an attempt that is not the running one changes nothing.
    pub open spec fn ended(
        self,
        attempt: u64,
        result: Result<QuitOutcome, OrchestratorError>,
    ) -> ExitView {
        if self.state == ExitState::Running(attempt) {
            match result {
                Ok(outcome) => ExitView { state: ExitState::Complete(outcome), ..self },
                Err(_) => ExitView { state: ExitState::Open, ..self },
            }
        } else {
            self
        }
    }
}

impl View for ExitCompletion {
    type V = ExitView;

    closed spec fn view(&self) -> ExitView {
        ExitView { state: self.state, next_attempt: self.next_attempt }
    }
}

impl ExitCompletion {
    pub fn new() -> (r: ExitCompletion)
        ensures
            r@ == (ExitView { state: ExitState::Open, next_attempt: 0 }),
    {
        ExitCompletion { state: ExitState::Open, next_attempt: 0 }
    }

    pub fn begin(&mut self) -> (r: ExitRole)
        ensures
            r == old(self)@.role(),
            final(self)@ == old(self)@.begun(),
    {
        match self.state {
            ExitState::Open => {
                let attempt: u64 = self.next_attempt;
                self.next_attempt = if attempt == u64::MAX {
                    0
                } else {
                    attempt + 1
                };
                self.state = ExitState::Running(attempt);
                ExitRole::Leader(attempt)
            },
            ExitState::Running(attempt) => ExitRole::Follower(attempt),
            ExitState::Complete(outcome) => ExitRole::Completed(outcome),
        }
    }

    pub fn complete(&mut self, attempt: u64, result: &Result<QuitOutcome, OrchestratorError>)
        ensures
            final(self)@ == old(self)@.ended(attempt, *result),
    {
        if self.state == ExitState::Running(attempt) {
            self.state = match result {
                Ok(outcome) => ExitState::Complete(*outcome),
                Err(_) => ExitState::Open,
            };
        }
    }
}

/// What an attempt to quit came to, and who waits to hear of it.
pub struct AttemptView {
    pub result: Option<Result<QuitOutcome, OrchestratorError>>,
    pub waiters: Seq<u64>,
}

/// One attempt to quit, shared by its leader and its followers.
#[derive(Debug)]
pub struct ExitAttempt {
    result: Option<Result<QuitOutcome, OrchestratorError>>,
    waiters: Vec<u64>,
}

impl View for ExitAttempt {
    type V = AttemptView;

    closed spec fn view(&self) -> AttemptView {
        AttemptView { result: self.result, waiters: self.waiters@ }
    }
}

impl ExitAttempt {
    pub fn new() -> (r: ExitAttempt)
        ensures
            r@.result is None,
            r@.waiters == Seq::<u64>::empty(),
    {
        ExitAttempt { result: None, waiters: Vec::new() }
    }

    /// Publishes the result. Everyone who waited is handed back.
    pub fn complete(&mut self, result: Result<QuitOutcome, OrchestratorError>) -> (due: Vec<u64>)
        ensures
            final(self)@.result == Some(result),
            final(self)@.waiters == Seq::<u64>::empty(),
            due@ == old(self)@.waiters,
    {
        self.result = Some(result);
        let mut due: Vec<u64> = Vec::new();
        std::mem::swap(&mut due, &mut self.waiters);
        due
    }

    /// The result, once there is one. Until then the waiter is on record, once.
    pub fn poll(&mut self, waiter: u64) -> (r: Option<Result<QuitOutcome, OrchestratorError>>)
        ensures
            r == old(self)@.result,
            final(self)@.result == old(self)@.result,
            final(self)@.waiters == (if old(self)@.result is Some || old(self)@.waiters.contains(
                waiter,
            ) {
                old(self)@.waiters
            } else {
                old(self)@.waiters.push(waiter)
            }),
    {
        match &self.result {
            Some(Ok(outcome)) => {
                return Some(Ok(*outcome));
            },
            Some(Err(error)) => {
                return Some(Err(error.clone()));
            },
            None => {},
        }
        let mut i: usize = 0;
        while i < self.waiters.len()
            invariant
                i <= self.waiters.len(),
                self.result is None,
                *self == *old(self),
                forall|j: int| 0 <= j < i ==> self.waiters@[j] != waiter,
            decreases self.waiters.len() - i,
        {
            if self.waiters[i] == waiter {
                assert(self.waiters@[i as int] == waiter);
                return None;
            }
            i = i + 1;
        }
        self.waiters.push(waiter);
        None
    }
}

/// While an attempt is running, every further request follows it: there is one
/// leader.
pub proof fn an_exit_has_one_leader(exit: ExitView)
    ensures
        exit.role() is Leader ==> exit.begun().role() == ExitRole::Follower(
            exit.role()->Leader_0,
        ),
        exit.role() is Follower ==> exit.begun() == exit,
        exit.role() is Completed ==> exit.begun() == exit,
{
}

/// Once an attempt has succeeded, every later request gets the same outcome and
/// nothing runs again. After a failed attempt the next request leads a new one.
pub proof fn an_exit_is_final_only_when_it_succeeds(
    exit: ExitView,
    result: Result<QuitOutcome, OrchestratorError>,
    later: u64,
    later_result: Result<QuitOutcome, OrchestratorError>,
)
    requires
        exit.state == ExitState::Open,
    ensures
        match result {
            Ok(outcome) => {
                let ended = exit.begun().ended(exit.next_attempt, result);
                &&& ended.role() == ExitRole::Completed(outcome)
                &&& ended.begun() == ended
                &&& ended.ended(later, later_result) == ended
            },
            Err(_) => exit.begun().ended(exit.next_attempt, result).role() is Leader,
        },
{
}

} // verus!
