//! The inhibitor state and the handle it owns.

use nouveau_workaround::state::{AcquireError, InhibitorState};

#[derive(Debug, PartialEq, Eq)]
struct Handle(u32);

#[test]
fn a_granted_lock_is_held() {
    let state = InhibitorState::from_acquisition(Ok(Handle(3)));
    assert_eq!(state, InhibitorState::Holding(Handle(3)));
    assert!(state.is_holding());
    assert_eq!(state.lock(), Some(&Handle(3)));
}

#[test]
fn a_refused_lock_leaves_no_protection() {
    for error in [AcquireError::CallFailed, AcquireError::NoHandle] {
        let state: InhibitorState<Handle> = InhibitorState::from_acquisition(Err(error));
        assert_eq!(state, InhibitorState::NoLock);
        assert!(!state.is_holding());
        assert_eq!(state.lock(), None);
    }
}

#[test]
fn release_hands_the_lock_out_once() {
    let mut state = InhibitorState::Holding(Handle(3));
    assert_eq!(state.release(), Some(Handle(3)));
    assert_eq!(state, InhibitorState::WaitingForResume);
    assert_eq!(state.release(), None);
    assert_eq!(state, InhibitorState::WaitingForResume);
}

#[test]
fn release_without_lock_changes_nothing() {
    let mut unlocked: InhibitorState<Handle> = InhibitorState::NoLock;
    assert_eq!(unlocked.release(), None);
    assert_eq!(unlocked, InhibitorState::NoLock);

    let mut waiting: InhibitorState<Handle> = InhibitorState::WaitingForResume;
    assert_eq!(waiting.release(), None);
    assert_eq!(waiting, InhibitorState::WaitingForResume);
    assert!(!waiting.is_holding());
    assert_eq!(waiting.lock(), None);
}

#[test]
fn replace_hands_the_old_lock_out() {
    let mut state = InhibitorState::Holding(Handle(3));
    assert_eq!(state.replace(InhibitorState::Holding(Handle(4))), Some(Handle(3)));
    assert_eq!(state, InhibitorState::Holding(Handle(4)));
    assert_eq!(state.replace(InhibitorState::NoLock), Some(Handle(4)));
    assert_eq!(state, InhibitorState::NoLock);
    assert_eq!(state.replace(InhibitorState::WaitingForResume), None);
    assert_eq!(state, InhibitorState::WaitingForResume);
    assert_eq!(state.replace(InhibitorState::Holding(Handle(5))), None);
    assert_eq!(state, InhibitorState::Holding(Handle(5)));
}
