//! The hook program's phases and outcomes.

use nouveau_workaround::bus::SleepNotification;
use nouveau_workaround::hook::{HookOutcome, HookPhase, HOOK_PROGRAM};

#[test]
fn sleep_calls_for_pre_and_resume_for_post() {
    assert_eq!(
        HookPhase::for_notification(SleepNotification { going_down: true }),
        HookPhase::Pre
    );
    assert_eq!(
        HookPhase::for_notification(SleepNotification { going_down: false }),
        HookPhase::Post
    );
}

#[test]
fn phase_is_the_sole_argument_of_the_hook() {
    assert_eq!(HookPhase::Pre.argument(), "pre");
    assert_eq!(HookPhase::Post.argument(), "post");
    assert_eq!(HOOK_PROGRAM, "/usr/local/bin/nouveau-hibernation.sh");
}

#[test]
fn exit_code_zero_is_success() {
    let outcome = HookOutcome::classify(Ok(Some(0)));
    assert_eq!(outcome, HookOutcome::Success);
    assert!(outcome.is_success());
}

#[test]
fn any_other_exit_code_is_a_non_zero_exit() {
    for code in [1, 2, 127, 255, -1, i32::MAX, i32::MIN] {
        let outcome = HookOutcome::classify(Ok(Some(code)));
        assert_eq!(outcome, HookOutcome::NonZeroExit(Some(code)));
        assert!(!outcome.is_success());
    }
}

#[test]
fn a_run_without_exit_code_is_a_non_zero_exit() {
    let outcome = HookOutcome::classify(Ok(None));
    assert_eq!(outcome, HookOutcome::NonZeroExit(None));
    assert!(!outcome.is_success());
}

#[test]
fn a_program_that_does_not_start_is_a_spawn_failure() {
    let outcome = HookOutcome::classify(Err(String::from("Permission denied (os error 13)")));
    assert_eq!(outcome, HookOutcome::SpawnFailed(String::from("Permission denied (os error 13)")));
    assert!(!outcome.is_success());
}
