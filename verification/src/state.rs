//! What the helper holds of the delay inhibitor between two notifications.

use vstd::prelude::*;

verus! {

/// Why a request for the delay lock brought no lock.
#[derive(Debug, Clone, Copy, PartialEq, Eq)]
pub enum AcquireError {
    /// The request got no reply from the power manager.
    CallFailed,
    /// A reply came, and no handle could be taken out of it.
    NoHandle,
}

/// The inhibitor as the helper sees it. `L` is the handle of one held lock:
/// the lock lasts exactly as long as its handle, so the state that owns the
/// handle owns the lock, and whoever is handed the handle disposes of it.
#[derive(Debug, PartialEq, Eq)]
pub enum InhibitorState<L> {
    /// No lock is held and no resume is expected.
    NoLock,
    /// The lock behind this handle is all that delays sleep.
    Holding(L),
    /// The lock was given up for a sleep that has not ended yet.
    WaitingForResume,
}

impl<L> InhibitorState<L> {
    /// The handle that the state owns, if it owns one.
    pub open spec fn held(self) -> Option<L> {
        match self {
            InhibitorState::Holding(lock) => Some(lock),
            _ => None,
        }
    }

    /// The state that a request for the lock leaves, whatever was there
    /// before: the new lock where one was granted, no protection otherwise.
    pub open spec fn acquired(outcome: Result<L, AcquireError>) -> Self {
        match outcome {
            Ok(lock) => InhibitorState::Holding(lock),
            Err(_) => InhibitorState::NoLock,
        }
    }

    /// The state once sleep has been let through: a held lock is gone and the
    /// resume is awaited; a state without a lock stays as it is.
    pub open spec fn released(self) -> Self {
        match self {
            InhibitorState::Holding(_) => InhibitorState::WaitingForResume,
            other => other,
        }
    }

    /// Turns the outcome of a request for the lock into a state. A refusal is
    /// no failure of the helper: it goes on without protection.
    pub fn from_acquisition(outcome: Result<L, AcquireError>) -> (state: Self)
        ensures
            state == Self::acquired(outcome),
    {
        match outcome {
            Ok(lock) => InhibitorState::Holding(lock),
            Err(_) => InhibitorState::NoLock,
        }
    }

    /// Whether a lock is held.
    pub fn is_holding(&self) -> (holding: bool)
        ensures
            holding == (*self is Holding),
    {
        match self {
            InhibitorState::Holding(_) => true,
            _ => false,
        }
    }

    /// The held handle, left where it is.
    pub fn lock(&self) -> (handle: Option<&L>)
        ensures
            match handle {
                Some(lock) => self.held() == Some(*lock),
                None => self.held() is None,
            },
    {
        match self {
            InhibitorState::Holding(lock) => Some(lock),
            _ => None,
        }
    }

    /// Lets sleep through. A held handle leaves the state, which then waits
    /// for the resume, and is returned for disposal; the state has no way to
    /// hand it out a second time. Without a lock nothing changes.
    pub fn release(&mut self) -> (handle: Option<L>)
        ensures
            handle == old(self).held(),
            *final(self) == old(self).released(),
    {
        let mut previous = InhibitorState::WaitingForResume;
        core::mem::swap(self, &mut previous);
        match previous {
            InhibitorState::Holding(lock) => Some(lock),
            other => {
                *self = other;
                None
            },
        }
    }

    /// Puts `next` in the place of the state and returns the handle that the
    /// old state owned, for disposal.
    pub fn replace(&mut self, next: InhibitorState<L>) -> (handle: Option<L>)
        ensures
            handle == old(self).held(),
            *final(self) == next,
    {
        let mut previous = next;
        core::mem::swap(self, &mut previous);
        match previous {
            InhibitorState::Holding(lock) => Some(lock),
            _ => None,
        }
    }
}

} // verus!
