use remtene_application::lifecycle::LifecycleFence;
use remtene_application::orchestrator::exit::{ExitAttempt, ExitCompletion, ExitRole};
use remtene_application::{OrchestratorError, QuitOutcome};

#[test]
fn a_closed_fence_admits_no_commit() {
    let mut fence = LifecycleFence::new();
    assert!(fence.is_open());
    assert!(fence.invalidate().is_empty());

    assert!(!fence.is_open());
    assert!(fence.begin_commit().is_none());
    assert!(fence.invalidate().is_empty());
    assert!(fence.begin_commit().is_none());
}

#[test]
fn closing_a_fence_keeps_the_commits_that_are_running() {
    let mut fence = LifecycleFence::new();
    let first = fence.begin_commit().expect("an open fence");
    let second = fence.begin_commit().expect("an open fence");
    assert_eq!(fence.in_flight(), 2);

    let (quiescence, due) = fence.invalidate_and_wait();
    assert!(due.is_empty());
    assert_eq!(fence.in_flight(), 2);
    assert!(!quiescence.poll(&mut fence, 4));
    assert!(fence.end_commit(first).is_empty());
    assert!(!quiescence.poll(&mut fence, 4));
    assert_eq!(fence.end_commit(second), vec![4]);
    assert_eq!(fence.in_flight(), 0);
    assert!(quiescence.poll(&mut fence, 4));
}

#[test]
fn an_idle_fence_is_quiet_at_once() {
    let mut fence = LifecycleFence::new();
    let (quiescence, due) = fence.invalidate_and_wait();

    assert!(due.is_empty());
    assert!(quiescence.poll(&mut fence, 1));
}

#[test]
fn everybody_else_follows_the_leader_of_an_exit() {
    let mut exit = ExitCompletion::new();
    let ExitRole::Leader(attempt) = exit.begin() else {
        panic!("the first one leads");
    };
    assert_eq!(exit.begin(), ExitRole::Follower(attempt));

    exit.complete(attempt, &Err(OrchestratorError::RuntimeLockPoisoned));
    let ExitRole::Leader(again) = exit.begin() else {
        panic!("a failed exit can be tried again");
    };
    assert!(again != attempt);

    exit.complete(again, &Ok(QuitOutcome::Idle));
    assert_eq!(exit.begin(), ExitRole::Completed(QuitOutcome::Idle));
}

#[test]
fn an_attempt_tells_its_result_to_everyone_who_asks() {
    let mut attempt = ExitAttempt::new();
    assert_eq!(attempt.poll(3), None);
    assert_eq!(attempt.poll(5), None);

    assert_eq!(attempt.complete(Ok(QuitOutcome::Idle)), vec![3, 5]);
    assert_eq!(attempt.poll(3), Some(Ok(QuitOutcome::Idle)));
    assert_eq!(attempt.poll(9), Some(Ok(QuitOutcome::Idle)));
}
