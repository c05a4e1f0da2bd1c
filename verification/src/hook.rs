//! The hook program: which phase a notification calls for, how the program is
//! invoked, and how the way it ended is classified.

use vstd::prelude::*;
use crate::bus::SleepNotification;

verus! {

/// The program that is run before sleep and after resume.
pub const HOOK_PROGRAM: &'static str = "/usr/local/bin/nouveau-hibernation.sh";

/// The two moments at which the hook program is run.
#[derive(Debug, Clone, Copy, PartialEq, Eq)]
pub enum HookPhase {
    /// Before the system goes to sleep.
    Pre,
    /// After the system has woken up.
    Post,
}

impl HookPhase {
    /// The phase that a notification calls for.
    pub open spec fn of(notification: SleepNotification) -> HookPhase {
        if notification.going_down {
            HookPhase::Pre
        } else {
            HookPhase::Post
        }
    }

    /// The phase that a notification calls for: `Pre` when the system is
    /// going down, `Post` when it has come back.
    pub fn for_notification(notification: SleepNotification) -> (phase: HookPhase)
        ensures
            phase == HookPhase::of(notification),
    {
        if notification.going_down {
            HookPhase::Pre
        } else {
            HookPhase::Post
        }
    }

    /// The one argument that the hook program is given for this phase.
    pub fn argument(&self) -> (word: &'static str)
        ensures
            *self == HookPhase::Pre ==> word@ == "pre"@,
            *self == HookPhase::Post ==> word@ == "post"@,
    {
        match self {
            HookPhase::Pre => "pre",
            HookPhase::Post => "post",
        }
    }
}

/// How one run of the hook program ended. The helper reports it and goes on
/// in the same way whatever it is.
#[derive(Debug, PartialEq, Eq)]
pub enum HookOutcome {
    /// The program ran and left exit code 0.
    Success,
    /// The program ran and did not end well: with the exit code it left, or
    /// with none where it was ended from outside before it could leave one.
    NonZeroExit(Option<i32>),
    /// The program could not be started; the reason is kept for the report.
    SpawnFailed(String),
}

impl HookOutcome {
    /// The outcome that stands for a run: `run` is the reason where the
    /// program could not be started, else the exit code as far as it left one.
    pub open spec fn of(run: Result<Option<i32>, String>) -> HookOutcome {
        match run {
            Ok(Some(code)) => if code == 0 {
                HookOutcome::Success
            } else {
                HookOutcome::NonZeroExit(Some(code))
            },
            Ok(None) => HookOutcome::NonZeroExit(None),
            Err(reason) => HookOutcome::SpawnFailed(reason),
        }
    }

    /// Classifies a run of the hook program. Only exit code 0 is a success.
    pub fn classify(run: Result<Option<i32>, String>) -> (outcome: HookOutcome)
        ensures
            outcome == HookOutcome::of(run),
    {
        match run {
            Ok(Some(code)) => {
                if code == 0 {
                    HookOutcome::Success
                } else {
                    HookOutcome::NonZeroExit(Some(code))
                }
            },
            Ok(None) => HookOutcome::NonZeroExit(None),
            Err(reason) => HookOutcome::SpawnFailed(reason),
        }
    }

    /// Whether the hook ran and succeeded.
    pub fn is_success(&self) -> (ok: bool)
        ensures
            ok == (*self is Success),
    {
        match self {
            HookOutcome::Success => true,
            _ => false,
        }
    }
}

} // verus!
