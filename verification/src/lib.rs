//! Coordination of a delay inhibitor with the hooks that a power-management
//! helper runs before sleep and after resume.
//!
//! The helper holds a delay lock of the power manager. While the lock is
//! held, the system waits with going to sleep, for at most the manager's own
//! grace period. On the notification of a sleep the helper runs its hook and
//! lets the lock go afterwards, so that the hook has run when the system goes
//! down; on the notification of a resume it runs the hook again and then asks
//! for a new lock.
//!
//! The crate holds the decisions and none of the outside work:
//!
//! - [`state`]: what is held of the inhibitor, and the one way in which a
//!   held lock leaves it;
//! - [`hook`]: the phases of the hook program and how its end is classified;
//! - [`bus`]: the signal that is listened for and the request for a lock, as
//!   plain values;
//! - [`coordinator`]: the coordinator, which turns each result of outside
//!   work into the next piece of outside work;
//! - [`laws`]: what is proved of the coordinator for every run.
//!
//! A driver connects to the bus, subscribes to [`bus::sleep_signal`], asks
//! for the first lock with [`bus::lock_request`], and starts a
//! [`coordinator::SleepCoordinator`] with the answer. From then on it carries
//! out the pending [`coordinator::Command`], reports the result with
//! [`coordinator::SleepCoordinator::step`], disposes of the handle that the
//! step hands out, and goes on with the command that the step names.

pub mod bus;
pub mod coordinator;
pub mod hook;
pub mod laws;
pub mod state;
