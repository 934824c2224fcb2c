//! Quitting: the entrances close, what runs is called off, everything that had
//! entered drains, and no capture is left open. An exit that still owes a
//! cleanup fails and can be asked for again.

use crate::domain::{FailureCategory, SessionEvent, SessionId};
use crate::orchestrator::exit::ExitRole;
use crate::orchestrator::protocol::{
    acted, note_result, noted, stop_deadline, stopping, Command, Effect, Move, Next, Progress,
    Reply,
};
use crate::orchestrator::retry::{
    cleanup_command, cleanup_phase, command_for_cleanup, resource_settled,
};
use crate::orchestrator::start::told;
use crate::orchestrator::state::{
    ActiveWorkflow, AudioCleanupDebt, AudioCleanupResource, OrchestratorError, OrchestratorView,
    PreparingStage, PreparingWorkflow, QuitOutcome, RuntimeStage, TranscriptionOrchestrator,
};
use crate::ports::{AudioCaptureRef, AudioRef};
use vstd::prelude::*;

verus! {

/// Owed cleanups, in the order in which an exit tries them.
pub enum DebtQueue {
    Empty,
    Owed { debt: AudioCleanupDebt, rest: Box<DebtQueue> },
}

/// The queue of all cleanups from a position on.
pub open spec fn queue_from(debts: Seq<AudioCleanupDebt>, position: nat) -> DebtQueue
    decreases debts.len() - position,
{
    if position < debts.len() {
        DebtQueue::Owed {
            debt: debts[position as int],
            rest: Box::new(queue_from(debts, position + 1)),
        }
    } else {
        DebtQueue::Empty
    }
}

/// How far an exit has come.
pub enum QuitStep {
    ClosingCapture { session_id: SessionId, capture: AudioCaptureRef },
    CancellingTranscription { session_id: SessionId, audio_ref: Option<AudioRef> },
    RemovingAudio { session_id: SessionId, audio_ref: AudioRef },
    CancellingProcessing { session_id: SessionId },
    HidingHud { session_id: SessionId },
    DrainingOperations,
    DrainingLifecycle,
    SettlingDebts { debt: AudioCleanupDebt, rest: Box<DebtQueue> },
}

/// What an exit has taken from the workflows, and what it will be told as.
pub struct QuitTaken {
    pub attempt: u64,
    pub preparing: Option<PreparingWorkflow>,
    pub active: Option<ActiveWorkflow>,
    pub lifecycle: Option<SessionId>,
    pub outcome: QuitOutcome,
}

/// An exit under way.
pub struct QuitFlow {
    pub taken: QuitTaken,
    pub step: QuitStep,
}

pub type QuitResult = Result<QuitOutcome, OrchestratorError>;

pub type QuitMove = Move<QuitFlow, QuitResult>;

/// What a request to quit comes to.
pub enum QuitStart {
    /// This request carries the exit out. Whoever waited for the operations and
    /// is due is handed back.
    Leading { attempt: u64, due: Vec<u64>, progress: Progress<QuitFlow, QuitResult> },
    /// Another request carries the exit out.
    Following { attempt: u64 },
    /// The application has quit.
    Completed(QuitOutcome),
}

pub open spec fn quit_wait(
    o: OrchestratorView,
    taken: QuitTaken,
    step: QuitStep,
    command: Command,
) -> QuitMove {
    Move {
        after: o,
        effects: Seq::empty(),
        next: Next::Await { flow: QuitFlow { taken, step }, command },
    }
}

/// What an exit has taken: the workflows without their deadlines, the lifecycle
/// to wait for, and the session that it ends, if any.
pub open spec fn quit_taken(o: OrchestratorView, attempt: u64) -> QuitTaken {
    QuitTaken {
        attempt,
        preparing: match o.preparing {
            Some(preparing) => Some(PreparingWorkflow { recording_deadline: None, ..preparing }),
            None => None,
        },
        active: match o.active {
            Some(active) => Some(ActiveWorkflow { recording_deadline: None, ..active }),
            None => None,
        },
        lifecycle: if o.active is Some {
            Some(o.active->0.session_id)
        } else if o.preparing is Some {
            Some(o.preparing->0.session_id)
        } else {
            None
        },
        outcome: if o.active is Some {
            QuitOutcome::Terminated(o.active->0.session_id)
        } else if o.preparing is Some {
            QuitOutcome::Terminated(o.preparing->0.session_id)
        } else if o.starting is Some {
            QuitOutcome::Terminated(o.starting->0)
        } else {
            QuitOutcome::Idle
        },
    }
}

pub open spec fn quit_hiding(
    o: OrchestratorView,
    taken: QuitTaken,
    session_id: SessionId,
) -> QuitMove {
    quit_wait(o, taken, QuitStep::HidingHud { session_id }, Command::HideHud(session_id))
}

pub open spec fn quit_draining(o: OrchestratorView, taken: QuitTaken) -> QuitMove {
    quit_wait(o, taken, QuitStep::DrainingOperations, Command::AwaitOperations)
}

/// What is called off first: the capture, the recognition or the processing that
/// the session was busy with. A cleanup that is already running is left to run.
pub open spec fn quit_calling_off(
    o: OrchestratorView,
    taken: QuitTaken,
    preparing: Option<PreparingWorkflow>,
    active: Option<ActiveWorkflow>,
) -> QuitMove {
    if active is Some {
        let session_id = active->0.session_id;
        match active->0.stage {
            RuntimeStage::Recording { capture } | RuntimeStage::FinishingAudio { capture } => {
                quit_wait(
                    o,
                    taken,
                    QuitStep::ClosingCapture { session_id, capture },
                    Command::CancelCapture(capture),
                )
            },
            RuntimeStage::Recognizing { request_id, audio_ref } => quit_wait(
                o,
                taken,
                QuitStep::CancellingTranscription { session_id, audio_ref },
                Command::CancelTranscription(request_id),
            ),
            RuntimeStage::Processing { request_id } => quit_wait(
                o,
                taken,
                QuitStep::CancellingProcessing { session_id },
                Command::CancelProcessing(request_id),
            ),
            _ => quit_hiding(o, taken, session_id),
        }
    } else if preparing is Some {
        let session_id = preparing->0.session_id;
        match preparing->0.stage {
            PreparingStage::Capturing { capture }
            | PreparingStage::Cancelling { capture, in_flight: false } => quit_wait(
                o,
                taken,
                QuitStep::ClosingCapture { session_id, capture },
                Command::CancelCapture(capture),
            ),
            _ => quit_hiding(o, taken, session_id),
        }
    } else {
        quit_draining(o, taken)
    }
}

/// The deadlines that an exit stops, and the lifecycle that it ends.
pub open spec fn quit_effects(o: OrchestratorView) -> Seq<Effect> {
    (match o.preparing {
        Some(preparing) => stopping(preparing.recording_deadline),
        None => Seq::empty(),
    }) + (match o.active {
        Some(active) => stopping(active.recording_deadline),
        None => Seq::empty(),
    }) + (if o.active is Some {
        seq![Effect::InvalidateLifecycle(o.active->0.session_id)]
    } else if o.preparing is Some {
        seq![Effect::InvalidateLifecycle(o.preparing->0.session_id)]
    } else {
        Seq::empty()
    })
}

/// The shared state once an exit has begun: the entrances are closed, nothing
/// runs, and the active session has failed.
pub open spec fn quit_emptied(o: OrchestratorView) -> OrchestratorView {
    let emptied = OrchestratorView { operations: o.operations.closed(), ..o }.emptied();
    if o.active is Some {
        told(
            emptied,
            o.active->0.session_id,
            SessionEvent::Fail(FailureCategory::Lifecycle),
        )
    } else {
        emptied
    }
}

/// How an exit begins.
pub open spec fn quit_begin(o: OrchestratorView, attempt: u64) -> QuitMove {
    quit_calling_off(
        quit_emptied(o),
        quit_taken(o, attempt),
        o.preparing,
        o.active,
    ).following(quit_effects(o))
}

/// How an exit ends: it fails where a cleanup is still owed, and puts back what
/// it had taken.
pub open spec fn quit_ending(o: OrchestratorView, taken: QuitTaken) -> QuitMove {
    let owed = o.debts.len() > 0;
    let result: QuitResult = if owed {
        Err(o.debts[0].spec_orchestrator_error())
    } else {
        Ok(taken.outcome)
    };
    let after = if owed {
        o.restored(taken.preparing, taken.active)
    } else {
        o
    };
    Move {
        after: OrchestratorView { exit: o.exit.ended(taken.attempt, result), ..after },
        effects: Seq::empty(),
        next: Next::Done(result),
    }
}

/// The owed cleanups are tried one after the other.
pub open spec fn quit_settling(
    o: OrchestratorView,
    taken: QuitTaken,
    queue: DebtQueue,
) -> QuitMove {
    match queue {
        DebtQueue::Empty => quit_ending(o, taken),
        DebtQueue::Owed { debt, rest } => quit_wait(
            o,
            taken,
            QuitStep::SettlingDebts { debt, rest },
            cleanup_command(debt.resource),
        ),
    }
}

pub open spec fn quit_on_drained(o: OrchestratorView, taken: QuitTaken) -> QuitMove {
    match taken.lifecycle {
        Some(session_id) => quit_wait(
            o,
            taken,
            QuitStep::DrainingLifecycle,
            Command::AwaitLifecycle(session_id),
        ),
        None => quit_settling(o, taken, queue_from(o.debts, 0)),
    }
}

/// Whether a reply is what an exit waits for.
pub open spec fn quit_awaits(step: QuitStep, reply: Reply) -> bool {
    match step {
        QuitStep::DrainingOperations | QuitStep::DrainingLifecycle => reply is Ready,
        _ => reply is Acted,
    }
}

/// The whole exit, one answer at a time. A failure on the way is recorded and,
/// where audio is concerned, owed.
pub open spec fn quit_step(o: OrchestratorView, flow: QuitFlow, reply: Reply) -> QuitMove {
    let taken = flow.taken;
    match flow.step {
        QuitStep::ClosingCapture { session_id, capture } => {
            let resource = AudioCleanupResource::Capture(capture);
            quit_hiding(
                resource_settled(o, session_id, resource, reply->Acted_0),
                taken,
                session_id,
            ).following(noted(session_id, "audio_cancel", reply->Acted_0))
        },
        QuitStep::CancellingTranscription { session_id, audio_ref } => (match audio_ref {
            Some(audio_ref) => quit_wait(
                o,
                taken,
                QuitStep::RemovingAudio { session_id, audio_ref },
                Command::CleanupAudio(audio_ref),
            ),
            None => quit_hiding(o, taken, session_id),
        }).following(noted(session_id, "asr_cancel", reply->Acted_0)),
        QuitStep::RemovingAudio { session_id, audio_ref } => {
            let resource = AudioCleanupResource::Finalized(audio_ref);
            quit_hiding(
                resource_settled(o, session_id, resource, reply->Acted_0),
                taken,
                session_id,
            ).following(noted(session_id, "audio_cleanup", reply->Acted_0))
        },
        QuitStep::CancellingProcessing { session_id } => quit_hiding(
            o,
            taken,
            session_id,
        ).following(noted(session_id, "llm_cancel", reply->Acted_0)),
        QuitStep::HidingHud { session_id } => quit_draining(o, taken).following(
            noted(session_id, "recording_hud_hide", reply->Acted_0),
        ),
        QuitStep::DrainingOperations => quit_on_drained(o, taken),
        QuitStep::DrainingLifecycle => quit_settling(o, taken, queue_from(o.debts, 0)),
        QuitStep::SettlingDebts { debt, rest } => quit_settling(
            resource_settled(o, debt.session_id, debt.resource, reply->Acted_0),
            taken,
            *rest,
        ).following(noted(debt.session_id, cleanup_phase(debt.resource), reply->Acted_0)),
    }
}

fn wait(taken: QuitTaken, step: QuitStep, command: Command) -> (next: Next<QuitFlow, QuitResult>)
    ensures
        next == (Next::<QuitFlow, QuitResult>::Await { flow: QuitFlow { taken, step }, command }),
{
    Next::Await { flow: QuitFlow { taken, step }, command }
}

fn queue_of(debts: Vec<AudioCleanupDebt>) -> (r: DebtQueue)
    ensures
        r == queue_from(debts@, 0),
{
    let mut debts = debts;
    let ghost all = debts@;
    let mut queue = DebtQueue::Empty;
    while debts.len() > 0
        invariant
            debts@.len() <= all.len(),
            debts@ == all.take(debts@.len() as int),
            queue == queue_from(all, debts@.len()),
        decreases debts.len(),
    {
        match debts.pop() {
            Some(debt) => {
                queue = DebtQueue::Owed { debt, rest: Box::new(queue) };
            },
            None => {},
        }
    }
    queue
}

impl TranscriptionOrchestrator {
    /// Asks the application to quit.
    pub fn quit(&mut self) -> (r: QuitStart)
        ensures
            match old(self)@.exit.role() {
                ExitRole::Completed(outcome) => {
                    &&& r == QuitStart::Completed(outcome)
                    &&& final(self)@ == old(self)@
                },
                ExitRole::Follower(attempt) => {
                    &&& r == (QuitStart::Following { attempt })
                    &&& final(self)@ == old(self)@
                },
                ExitRole::Leader(attempt) => {
                    let begun = OrchestratorView { exit: old(self)@.exit.begun(), ..old(self)@ };
                    &&& r is Leading
                    &&& r->Leading_attempt == attempt
                    &&& r->due@ == old(self)@.operations.due()
                    &&& r->progress.effects@ == quit_begin(begun, attempt).effects
                    &&& r->progress.next == quit_begin(begun, attempt).next
                    &&& final(self)@ == quit_begin(begun, attempt).after
                },
            },
    {
        let attempt = match self.begin_exit() {
            ExitRole::Completed(outcome) => {
                return QuitStart::Completed(outcome);
            },
            ExitRole::Follower(attempt) => {
                return QuitStart::Following { attempt };
            },
            ExitRole::Leader(attempt) => attempt,
        };
        let due = self.begin_quiescing();
        let mut effects: Vec<Effect> = Vec::new();
        let next = self.run_leader_quit(attempt, &mut effects);
        QuitStart::Leading { attempt, due, progress: Progress { effects, next } }
    }

    fn run_leader_quit(&mut self, attempt: u64, effects: &mut Vec<Effect>) -> (next: Next<
        QuitFlow,
        QuitResult,
    >)
        requires
            old(effects)@ == Seq::<Effect>::empty(),
        ensures
            next == quit_calling_off(
                quit_emptied(old(self)@),
                quit_taken(old(self)@, attempt),
                old(self)@.preparing,
                old(self)@.active,
            ).next,
            final(effects)@ == quit_effects(old(self)@),
            final(self)@ == (OrchestratorView {
                operations: old(self)@.operations,
                ..quit_emptied(old(self)@)
            }),
    {
        let (starting, mut preparing, mut active) = self.take_for_quit();
        if let Some(preparing) = &mut preparing {
            stop_deadline(effects, preparing.recording_deadline.take());
        }
        if let Some(active) = &mut active {
            stop_deadline(effects, active.recording_deadline.take());
        }
        if let Some(workflow) = &active {
            let session_id = workflow.session_id;
            effects.push(Effect::InvalidateLifecycle(session_id));
            let _ = self.apply_event(session_id, SessionEvent::Fail(FailureCategory::Lifecycle));
            let (step, command) = match &workflow.stage {
                RuntimeStage::Recording { capture } => (
                    QuitStep::ClosingCapture { session_id, capture: capture.clone() },
                    Command::CancelCapture(capture.clone()),
                ),
                RuntimeStage::FinishingAudio { capture } => (
                    QuitStep::ClosingCapture { session_id, capture: capture.clone() },
                    Command::CancelCapture(capture.clone()),
                ),
                RuntimeStage::Recognizing { request_id, audio_ref } => (
                    QuitStep::CancellingTranscription {
                        session_id,
                        audio_ref: match audio_ref {
                            Some(audio_ref) => Some(audio_ref.clone()),
                            None => None,
                        },
                    },
                    Command::CancelTranscription(*request_id),
                ),
                RuntimeStage::Processing { request_id } => (
                    QuitStep::CancellingProcessing { session_id },
                    Command::CancelProcessing(*request_id),
                ),
                _ => (QuitStep::HidingHud { session_id }, Command::HideHud(session_id)),
            };
            let taken = QuitTaken {
                attempt,
                preparing,
                active,
                lifecycle: Some(session_id),
                outcome: QuitOutcome::Terminated(session_id),
            };
            return wait(taken, step, command);
        }
        if let Some(workflow) = &preparing {
            let session_id = workflow.session_id;
            effects.push(Effect::InvalidateLifecycle(session_id));
            let closing = match &workflow.stage {
                PreparingStage::Capturing { capture } => Some(capture.clone()),
                PreparingStage::Cancelling { capture, in_flight } => {
                    if *in_flight {
                        None
                    } else {
                        Some(capture.clone())
                    }
                },
                PreparingStage::StartingAudio => None,
            };
            let taken = QuitTaken {
                attempt,
                preparing,
                active,
                lifecycle: Some(session_id),
                outcome: QuitOutcome::Terminated(session_id),
            };
            return match closing {
                Some(capture) => {
                    let command = Command::CancelCapture(capture.clone());
                    wait(taken, QuitStep::ClosingCapture { session_id, capture }, command)
                },
                None => wait(
                    taken,
                    QuitStep::HidingHud { session_id },
                    Command::HideHud(session_id),
                ),
            };
        }
        let outcome = match starting {
            Some(session_id) => QuitOutcome::Terminated(session_id),
            None => QuitOutcome::Idle,
        };
        let taken = QuitTaken { attempt, preparing, active, lifecycle: None, outcome };
        wait(taken, QuitStep::DrainingOperations, Command::AwaitOperations)
    }

    fn end_quit(&mut self, taken: QuitTaken) -> (next: Next<QuitFlow, QuitResult>)
        ensures
            next == quit_ending(old(self)@, taken).next,
            final(self)@ == quit_ending(old(self)@, taken).after,
    {
        let result: QuitResult = match self.first_audio_cleanup_debt() {
            Some(debt) => {
                self.restore(taken.preparing, taken.active);
                Err(debt.orchestrator_error())
            },
            None => Ok(taken.outcome),
        };
        self.complete_exit(taken.attempt, &result);
        Next::Done(result)
    }

    fn settle_debts(&mut self, taken: QuitTaken, queue: DebtQueue) -> (next: Next<
        QuitFlow,
        QuitResult,
    >)
        ensures
            next == quit_settling(old(self)@, taken, queue).next,
            final(self)@ == quit_settling(old(self)@, taken, queue).after,
    {
        match queue {
            DebtQueue::Empty => self.end_quit(taken),
            DebtQueue::Owed { debt, rest } => {
                let command = command_for_cleanup(&debt.resource);
                wait(taken, QuitStep::SettlingDebts { debt, rest }, command)
            },
        }
    }

    /// Goes on with an exit.
    pub fn resume_quit(&mut self, flow: QuitFlow, reply: Reply) -> (r: Progress<
        QuitFlow,
        QuitResult,
    >)
        requires
            quit_awaits(flow.step, reply),
        ensures
            r.effects@ == quit_step(old(self)@, flow, reply).effects,
            r.next == quit_step(old(self)@, flow, reply).next,
            final(self)@ == quit_step(old(self)@, flow, reply).after,
    {
        let taken = flow.taken;
        let mut effects: Vec<Effect> = Vec::new();
        let next = match flow.step {
            QuitStep::ClosingCapture { session_id, capture } => {
                let _ = self.settle_capture(session_id, capture, acted(reply), &mut effects);
                wait(taken, QuitStep::HidingHud { session_id }, Command::HideHud(session_id))
            },
            QuitStep::CancellingTranscription { session_id, audio_ref } => {
                note_result(&mut effects, session_id, "asr_cancel", &acted(reply));
                match audio_ref {
                    Some(audio_ref) => {
                        let command = Command::CleanupAudio(audio_ref.clone());
                        wait(taken, QuitStep::RemovingAudio { session_id, audio_ref }, command)
                    },
                    None => wait(
                        taken,
                        QuitStep::HidingHud { session_id },
                        Command::HideHud(session_id),
                    ),
                }
            },
            QuitStep::RemovingAudio { session_id, audio_ref } => {
                let _ = self.settle_artifact(session_id, audio_ref, acted(reply), &mut effects);
                wait(taken, QuitStep::HidingHud { session_id }, Command::HideHud(session_id))
            },
            QuitStep::CancellingProcessing { session_id } => {
                note_result(&mut effects, session_id, "llm_cancel", &acted(reply));
                wait(taken, QuitStep::HidingHud { session_id }, Command::HideHud(session_id))
            },
            QuitStep::HidingHud { session_id } => {
                note_result(&mut effects, session_id, "recording_hud_hide", &acted(reply));
                wait(taken, QuitStep::DrainingOperations, Command::AwaitOperations)
            },
            QuitStep::DrainingOperations => match taken.lifecycle {
                Some(session_id) => wait(
                    taken,
                    QuitStep::DrainingLifecycle,
                    Command::AwaitLifecycle(session_id),
                ),
                None => {
                    let queue = queue_of(self.audio_cleanup_debts());
                    self.settle_debts(taken, queue)
                },
            },
            QuitStep::DrainingLifecycle => {
                let queue = queue_of(self.audio_cleanup_debts());
                self.settle_debts(taken, queue)
            },
            QuitStep::SettlingDebts { debt, rest } => {
                let _ = self.settle_resource(
                    debt.session_id,
                    debt.resource,
                    acted(reply),
                    &mut effects,
                );
                self.settle_debts(taken, *rest)
            },
        };
        Progress { effects, next }
    }
}

} // verus!
