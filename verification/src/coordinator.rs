//! The coordinator: one decision at a time, from what the helper holds and
//! what has just happened to what it holds next and what is to be done next.
//!
//! The coordinator does no outside work itself. It names the next piece of
//! work as a [`Command`]; its driver carries the command out and reports the
//! result as an [`Event`]; [`SleepCoordinator::step`] takes the event and
//! names the next command. A lock is only ever let go in a step, which hands
//! the handle out for disposal.

use vstd::prelude::*;
use crate::bus::SleepNotification;
use crate::hook::{HookOutcome, HookPhase};
use crate::state::{AcquireError, InhibitorState};

verus! {

/// How long the driver pauses after the notification stream has ended, in
/// seconds.
pub const STREAM_PAUSE_SECS: u64 = 2;

/// The piece of outside work that the driver is to do next.
#[derive(Debug, Clone, Copy, PartialEq, Eq)]
pub enum Command {
    /// Wait for the next item of the notification stream.
    AwaitNotification,
    /// Run the hook program for this phase and wait until it has ended.
    RunHook(HookPhase),
    /// Ask the power manager for a new delay lock.
    AcquireLock,
    /// Pause for [`STREAM_PAUSE_SECS`] seconds.
    Pause,
    /// End the helper.
    Stop,
}

/// What the driver reports back.
#[derive(Debug, PartialEq, Eq)]
pub enum Event<L> {
    /// The stream brought a notification.
    Notification(SleepNotification),
    /// The stream brought a message whose body is not one boolean.
    MalformedPayload,
    /// The stream brought an error in place of a message.
    ReceiveError,
    /// The stream has ended.
    StreamEnded,
    /// The pause is over.
    PauseElapsed,
    /// The hook program has ended, or could not be started.
    HookFinished(HookOutcome),
    /// The request for a lock has been answered.
    Acquisition(Result<L, AcquireError>),
}

/// What a step hands to the driver.
#[derive(Debug, PartialEq, Eq)]
pub struct Step<L> {
    /// The work to do next.
    pub command: Command,
    /// The handle of the lock that this step has let go, to be disposed of.
    pub released: Option<L>,
}

/// The coordinator as a value: what it holds of the inhibitor, and the
/// command whose result it is waiting for.
pub struct Machine<L> {
    /// What is held of the inhibitor.
    pub state: InhibitorState<L>,
    /// The command that the driver is carrying out.
    pub pending: Command,
}

/// Whether `event` can be the result of the command `pending`.
pub open spec fn answers<L>(pending: Command, event: Event<L>) -> bool {
    match pending {
        Command::AwaitNotification => {
            ||| event is Notification
            ||| event is MalformedPayload
            ||| event is ReceiveError
            ||| event is StreamEnded
        },
        Command::RunHook(_) => event is HookFinished,
        Command::AcquireLock => event is Acquisition,
        Command::Pause => event is PauseElapsed,
        Command::Stop => false,
    }
}

/// The command that follows when `event` answers `pending`.
///
/// A notification calls for its hook. After the hook before sleep the next
/// notification is awaited; after the hook at resume a lock is asked for. A
/// message that is no notification stops the helper; an error of the stream
/// is passed over; the end of the stream calls for a pause, after which the
/// same stream is listened to again.
pub open spec fn next_command<L>(pending: Command, event: Event<L>) -> Command {
    match (pending, event) {
        (Command::AwaitNotification, Event::Notification(n)) => Command::RunHook(HookPhase::of(n)),
        (Command::AwaitNotification, Event::MalformedPayload) => Command::Stop,
        (Command::AwaitNotification, Event::StreamEnded) => Command::Pause,
        (Command::RunHook(HookPhase::Post), Event::HookFinished(_)) => Command::AcquireLock,
        _ => Command::AwaitNotification,
    }
}

/// What the coordinator holds after `event` has answered `pending`.
///
/// Only two answers touch the inhibitor. The end of the hook before sleep
/// lets a held lock go. The answer to a request for a lock decides alone what
/// is held from then on, whatever was held before.
pub open spec fn next_state<L>(state: InhibitorState<L>, pending: Command, event: Event<L>)
    -> InhibitorState<L> {
    match (pending, event) {
        (Command::RunHook(HookPhase::Pre), Event::HookFinished(_)) => state.released(),
        (Command::AcquireLock, Event::Acquisition(outcome)) => InhibitorState::acquired(outcome),
        _ => state,
    }
}

/// The handle that leaves the coordinator when `event` answers `pending`.
pub open spec fn let_go<L>(state: InhibitorState<L>, pending: Command, event: Event<L>) -> Option<L> {
    match (pending, event) {
        (Command::RunHook(HookPhase::Pre), Event::HookFinished(_)) => state.held(),
        (Command::AcquireLock, Event::Acquisition(_)) => state.held(),
        _ => None,
    }
}

impl<L> Machine<L> {
    /// The coordinator at the start of the helper, after its first request
    /// for a lock.
    pub open spec fn initial(outcome: Result<L, AcquireError>) -> Machine<L> {
        Machine { state: InhibitorState::acquired(outcome), pending: Command::AwaitNotification }
    }

    /// Whether `event` is what the coordinator is waiting for.
    pub open spec fn expects(self, event: Event<L>) -> bool {
        answers(self.pending, event)
    }

    /// The coordinator after `event`. An event that it is not waiting for
    /// leaves it as it is.
    pub open spec fn after(self, event: Event<L>) -> Machine<L> {
        if self.expects(event) {
            Machine {
                state: next_state(self.state, self.pending, event),
                pending: next_command(self.pending, event),
            }
        } else {
            self
        }
    }

    /// The handle that the step on `event` hands out for disposal.
    pub open spec fn releases(self, event: Event<L>) -> Option<L> {
        if self.expects(event) {
            let_go(self.state, self.pending, event)
        } else {
            None
        }
    }
}

/// The coordinator of one helper.
pub struct SleepCoordinator<L> {
    state: InhibitorState<L>,
    pending: Command,
}

impl<L> View for SleepCoordinator<L> {
    type V = Machine<L>;

    closed spec fn view(&self) -> Machine<L> {
        Machine { state: self.state, pending: self.pending }
    }
}

impl<L> SleepCoordinator<L> {
    /// A coordinator that holds `state` and waits for a notification.
    pub fn new(state: InhibitorState<L>) -> (coordinator: Self)
        ensures
            coordinator@ == (Machine { state, pending: Command::AwaitNotification }),
    {
        SleepCoordinator { state, pending: Command::AwaitNotification }
    }

    /// The coordinator at the start of the helper. `outcome` is the answer to
    /// the first request for a lock; where that was refused the helper runs
    /// all the same, without protection until the next resume.
    pub fn start(outcome: Result<L, AcquireError>) -> (coordinator: Self)
        ensures
            coordinator@ == Machine::initial(outcome),
    {
        SleepCoordinator::new(InhibitorState::from_acquisition(outcome))
    }

    /// What is held of the inhibitor.
    pub fn state(&self) -> (state: &InhibitorState<L>)
        ensures
            *state == self@.state,
    {
        &self.state
    }

    /// The command whose result the coordinator is waiting for.
    pub fn pending(&self) -> (command: Command)
        ensures
            command == self@.pending,
    {
        self.pending
    }

    /// Whether the helper has been told to end.
    pub fn is_stopped(&self) -> (stopped: bool)
        ensures
            stopped == (self@.pending == Command::Stop),
    {
        match self.pending {
            Command::Stop => true,
            _ => false,
        }
    }

    /// Takes the result of the pending command and decides what comes next.
    ///
    /// An event that answers the pending command is accepted: the coordinator
    /// moves on as [`Machine::after`] says, and the step names the next
    /// command and hands out the handle of the lock that was let go, if one
    /// was. Any other event is handed back as it came, with whatever handle
    /// it carries, and the coordinator does not change.
    pub fn step(&mut self, event: Event<L>) -> (outcome: Result<Step<L>, Event<L>>)
        ensures
            final(self)@ == old(self)@.after(event),
            old(self)@.expects(event) ==> outcome == Ok::<Step<L>, Event<L>>(
                Step {
                    command: old(self)@.after(event).pending,
                    released: old(self)@.releases(event),
                },
            ),
            !old(self)@.expects(event) ==> outcome == Err::<Step<L>, Event<L>>(event),
    {
        match self.pending {
            Command::AwaitNotification => match event {
                Event::Notification(notification) => {
                    let command = Command::RunHook(HookPhase::for_notification(notification));
                    self.pending = command;
                    Ok(Step { command, released: None })
                },
                Event::MalformedPayload => {
                    self.pending = Command::Stop;
                    Ok(Step { command: Command::Stop, released: None })
                },
                Event::ReceiveError => Ok(Step { command: Command::AwaitNotification, released: None }),
                Event::StreamEnded => {
                    self.pending = Command::Pause;
                    Ok(Step { command: Command::Pause, released: None })
                },
                other => Err(other),
            },
            Command::RunHook(phase) => match event {
                Event::HookFinished(_) => match phase {
                    HookPhase::Pre => {
                        let released = self.state.release();
                        self.pending = Command::AwaitNotification;
                        Ok(Step { command: Command::AwaitNotification, released })
                    },
                    HookPhase::Post => {
                        self.pending = Command::AcquireLock;
                        Ok(Step { command: Command::AcquireLock, released: None })
                    },
                },
                other => Err(other),
            },
            Command::AcquireLock => match event {
                Event::Acquisition(answer) => {
                    let released = self.state.replace(InhibitorState::from_acquisition(answer));
                    self.pending = Command::AwaitNotification;
                    Ok(Step { command: Command::AwaitNotification, released })
                },
                other => Err(other),
            },
            Command::Pause => match event {
                Event::PauseElapsed => {
                    self.pending = Command::AwaitNotification;
                    Ok(Step { command: Command::AwaitNotification, released: None })
                },
                other => Err(other),
            },
            Command::Stop => Err(event),
        }
    }
}

} // verus!
