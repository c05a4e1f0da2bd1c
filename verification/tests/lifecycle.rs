//! The helper's life, one notification after another, as a driver sees it.

use nouveau_workaround::bus::SleepNotification;
use nouveau_workaround::coordinator::{Command, Event, SleepCoordinator, Step};
use nouveau_workaround::hook::{HookOutcome, HookPhase};
use nouveau_workaround::state::{AcquireError, InhibitorState};

/// A lock handle that can be neither copied nor cloned, as a descriptor.
#[derive(Debug, PartialEq, Eq)]
struct Handle(u32);

fn going_down() -> Event<Handle> {
    Event::Notification(SleepNotification { going_down: true })
}

fn resumed() -> Event<Handle> {
    Event::Notification(SleepNotification { going_down: false })
}

fn hook_ok() -> Event<Handle> {
    Event::HookFinished(HookOutcome::Success)
}

/// A coordinator that has let its first lock go and waits for the resume.
fn asleep() -> SleepCoordinator<Handle> {
    let mut coordinator = SleepCoordinator::start(Ok(Handle(0)));
    coordinator.step(going_down()).unwrap();
    coordinator.step(hook_ok()).unwrap();
    coordinator
}

#[test]
fn sleep_while_holding_runs_pre_hook_then_releases() {
    let mut coordinator = SleepCoordinator::start(Ok(Handle(0)));
    assert_eq!(*coordinator.state(), InhibitorState::Holding(Handle(0)));
    assert_eq!(coordinator.pending(), Command::AwaitNotification);

    let first = coordinator.step(going_down());
    assert_eq!(first, Ok(Step { command: Command::RunHook(HookPhase::Pre), released: None }));
    // The lock is held for as long as the hook runs.
    assert_eq!(*coordinator.state(), InhibitorState::Holding(Handle(0)));

    let second = coordinator.step(hook_ok());
    assert_eq!(
        second,
        Ok(Step { command: Command::AwaitNotification, released: Some(Handle(0)) })
    );
    assert_eq!(*coordinator.state(), InhibitorState::WaitingForResume);
}

#[test]
fn resume_runs_post_hook_then_acquires_a_new_lock() {
    let mut coordinator = asleep();
    assert_eq!(*coordinator.state(), InhibitorState::WaitingForResume);

    let first = coordinator.step(resumed());
    assert_eq!(first, Ok(Step { command: Command::RunHook(HookPhase::Post), released: None }));
    assert_eq!(*coordinator.state(), InhibitorState::WaitingForResume);

    let second = coordinator.step(hook_ok());
    assert_eq!(second, Ok(Step { command: Command::AcquireLock, released: None }));
    assert_eq!(*coordinator.state(), InhibitorState::WaitingForResume);

    let third = coordinator.step(Event::Acquisition(Ok(Handle(1))));
    assert_eq!(third, Ok(Step { command: Command::AwaitNotification, released: None }));
    assert_eq!(*coordinator.state(), InhibitorState::Holding(Handle(1)));
    assert_ne!(*coordinator.state(), InhibitorState::Holding(Handle(0)));
}

#[test]
fn sleep_without_lock_runs_pre_hook_and_stays_unlocked() {
    let mut coordinator: SleepCoordinator<Handle> =
        SleepCoordinator::start(Err(AcquireError::CallFailed));
    assert_eq!(*coordinator.state(), InhibitorState::NoLock);

    let first = coordinator.step(going_down());
    assert_eq!(first, Ok(Step { command: Command::RunHook(HookPhase::Pre), released: None }));

    let second = coordinator.step(hook_ok());
    assert_eq!(second, Ok(Step { command: Command::AwaitNotification, released: None }));
    assert_eq!(*coordinator.state(), InhibitorState::NoLock);
}

#[test]
fn sleep_while_waiting_for_resume_keeps_waiting() {
    let mut coordinator = asleep();

    let first = coordinator.step(going_down());
    assert_eq!(first, Ok(Step { command: Command::RunHook(HookPhase::Pre), released: None }));

    let second = coordinator.step(hook_ok());
    assert_eq!(second, Ok(Step { command: Command::AwaitNotification, released: None }));
    assert_eq!(*coordinator.state(), InhibitorState::WaitingForResume);
}

#[test]
fn resume_while_holding_replaces_the_lock() {
    let mut coordinator = SleepCoordinator::start(Ok(Handle(0)));

    assert_eq!(
        coordinator.step(resumed()),
        Ok(Step { command: Command::RunHook(HookPhase::Post), released: None })
    );
    assert_eq!(
        coordinator.step(hook_ok()),
        Ok(Step { command: Command::AcquireLock, released: None })
    );
    // The old lock stays until the request is answered.
    assert_eq!(*coordinator.state(), InhibitorState::Holding(Handle(0)));

    let answered = coordinator.step(Event::Acquisition(Ok(Handle(2))));
    assert_eq!(
        answered,
        Ok(Step { command: Command::AwaitNotification, released: Some(Handle(0)) })
    );
    assert_eq!(*coordinator.state(), InhibitorState::Holding(Handle(2)));
}

#[test]
fn resume_while_holding_with_refused_lock_ends_unlocked() {
    let mut coordinator = SleepCoordinator::start(Ok(Handle(0)));
    coordinator.step(resumed()).unwrap();
    coordinator.step(hook_ok()).unwrap();

    let answered = coordinator.step(Event::Acquisition(Err(AcquireError::NoHandle)));
    assert_eq!(
        answered,
        Ok(Step { command: Command::AwaitNotification, released: Some(Handle(0)) })
    );
    assert_eq!(*coordinator.state(), InhibitorState::NoLock);
}

#[test]
fn malformed_payload_while_holding_stops_the_helper() {
    let mut coordinator = SleepCoordinator::start(Ok(Handle(0)));

    let stopped = coordinator.step(Event::MalformedPayload);
    assert_eq!(stopped, Ok(Step { command: Command::Stop, released: None }));
    assert!(coordinator.is_stopped());
    // The lock is not let go: it ends with the process.
    assert_eq!(*coordinator.state(), InhibitorState::Holding(Handle(0)));

    // Nothing is taken after the stop.
    assert_eq!(coordinator.step(going_down()), Err(going_down()));
    assert_eq!(coordinator.step(hook_ok()), Err(hook_ok()));
    assert!(coordinator.is_stopped());
}

#[test]
fn refused_lock_does_not_end_the_helper() {
    let mut coordinator = asleep();
    coordinator.step(resumed()).unwrap();
    coordinator.step(hook_ok()).unwrap();
    let answered = coordinator.step(Event::Acquisition(Err(AcquireError::CallFailed)));
    assert_eq!(answered, Ok(Step { command: Command::AwaitNotification, released: None }));
    assert_eq!(*coordinator.state(), InhibitorState::NoLock);
    assert!(!coordinator.is_stopped());

    // The next sleep is handled without a lock.
    assert_eq!(
        coordinator.step(going_down()),
        Ok(Step { command: Command::RunHook(HookPhase::Pre), released: None })
    );
    assert_eq!(
        coordinator.step(hook_ok()),
        Ok(Step { command: Command::AwaitNotification, released: None })
    );
    assert_eq!(*coordinator.state(), InhibitorState::NoLock);

    // The next resume asks again, and keeps what it gets.
    coordinator.step(resumed()).unwrap();
    assert_eq!(
        coordinator.step(hook_ok()),
        Ok(Step { command: Command::AcquireLock, released: None })
    );
    coordinator.step(Event::Acquisition(Ok(Handle(5)))).unwrap();
    assert_eq!(*coordinator.state(), InhibitorState::Holding(Handle(5)));
}

#[test]
fn failing_hooks_do_not_change_the_course() {
    let outcomes = || {
        vec![
            HookOutcome::Success,
            HookOutcome::NonZeroExit(Some(1)),
            HookOutcome::NonZeroExit(None),
            HookOutcome::SpawnFailed(String::from("No such file or directory")),
        ]
    };
    for outcome in outcomes() {
        let mut coordinator = SleepCoordinator::start(Ok(Handle(0)));
        coordinator.step(going_down()).unwrap();
        assert_eq!(
            coordinator.step(Event::HookFinished(outcome)),
            Ok(Step { command: Command::AwaitNotification, released: Some(Handle(0)) })
        );
        assert_eq!(*coordinator.state(), InhibitorState::WaitingForResume);
    }
    for outcome in outcomes() {
        let mut coordinator = asleep();
        coordinator.step(resumed()).unwrap();
        assert_eq!(
            coordinator.step(Event::HookFinished(outcome)),
            Ok(Step { command: Command::AcquireLock, released: None })
        );
    }
}
