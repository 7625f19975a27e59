//! Fixtures of a house, and the fused open-or-locked machine that simple
//! doors and windows use.
pub mod chairs;
pub mod doors;
pub mod windows;

use vstd::prelude::*;

verus! {

/// One value for both position and lock: a fixture is closed and unlocked,
/// open, or locked (and then closed).
#[derive(PartialEq, Eq, Structural, Debug, Clone, Copy)]
pub enum LockableState {
    ClosedAndUnlocked,
    Open,
    Locked,
}

/// Why a request on the fused machine was refused.
#[derive(PartialEq, Eq, Structural, Debug, Clone, Copy)]
pub enum LockableError {
    /// Opening was asked of a locked fixture.
    Locked,
    /// Locking was asked of an open fixture.
    Open,
    AlreadyClosed,
    AlreadyLocked,
    AlreadyOpen,
}

impl LockableState {
    pub open spec fn opened(self) -> bool {
        self == LockableState::Open
    }

    pub open spec fn locked(self) -> bool {
        self == LockableState::Locked
    }

    /// The state after `open` is fired from `self`, and what the call returns.
    pub open spec fn after_open(self) -> (LockableState, Result<(), LockableError>) {
        match self {
            LockableState::ClosedAndUnlocked => (LockableState::Open, Ok(())),
            LockableState::Open => (self, Err(LockableError::AlreadyOpen)),
            LockableState::Locked => (self, Err(LockableError::Locked)),
        }
    }

    /// The state after `close` is fired from `self`, and what the call returns.
    pub open spec fn after_close(self) -> (LockableState, Result<(), LockableError>) {
        match self {
            LockableState::Open => (LockableState::ClosedAndUnlocked, Ok(())),
            _ => (self, Err(LockableError::AlreadyClosed)),
        }
    }

    /// The state after `lock` is fired from `self`, and what the call returns.
    pub open spec fn after_lock(self) -> (LockableState, Result<(), LockableError>) {
        match self {
            LockableState::ClosedAndUnlocked => (LockableState::Locked, Ok(())),
            LockableState::Open => (self, Err(LockableError::Open)),
            LockableState::Locked => (self, Err(LockableError::AlreadyLocked)),
        }
    }

    /// The state after `close_and_lock` is fired from `self`, and what the call
    /// returns: whatever is not yet locked ends up locked.
    pub open spec fn after_close_and_lock(self) -> (LockableState, Result<(), LockableError>) {
        match self {
            LockableState::Locked => (self, Err(LockableError::AlreadyLocked)),
            _ => (LockableState::Locked, Ok(())),
        }
    }
}

impl Default for LockableState {
    fn default() -> (s: Self)
        ensures
            s == LockableState::ClosedAndUnlocked,
    {
        LockableState::ClosedAndUnlocked
    }
}

/// A fixture whose position and lock are one fused state.
pub trait Lockable: Sized {
    /// The fused state.
    spec fn status(&self) -> LockableState;

    fn can_close(&self) -> (r: bool)
        ensures
            r == self.status().opened(),
    ;

    fn can_open(&self) -> (r: bool)
        ensures
            r == (self.status() == LockableState::ClosedAndUnlocked),
    ;

    /// Closes unless already closed, then locks; only the lock step can fail.
    fn close_and_lock(&mut self) -> (r: Result<(), LockableError>)
        ensures
            (final(self).status(), r) == old(self).status().after_close_and_lock(),
    ;

    fn close(&mut self) -> (r: Result<(), LockableError>)
        ensures
            (final(self).status(), r) == old(self).status().after_close(),
    ;

    fn is_closed(&self) -> (r: bool)
        ensures
            r == !self.status().opened(),
    ;

    fn is_locked(&self) -> (r: bool)
        ensures
            r == self.status().locked(),
    ;

    fn is_open(&self) -> (r: bool)
        ensures
            r == self.status().opened(),
    ;

    fn lock(&mut self) -> (r: Result<(), LockableError>)
        ensures
            (final(self).status(), r) == old(self).status().after_lock(),
    ;

    fn open(&mut self) -> (r: Result<(), LockableError>)
        ensures
            (final(self).status(), r) == old(self).status().after_open(),
    ;
}

/// A door with the fused machine for its position and lock.
#[derive(PartialEq, Eq, Debug)]
pub struct Door {
    state: LockableState,
}

impl Door {
    pub fn new(state: LockableState) -> (d: Door)
        ensures
            d.status() == state,
    {
        Door { state }
    }

    /// The fused state of the door.
    pub fn state(&self) -> (s: LockableState)
        ensures
            s == self.status(),
    {
        self.state
    }
}

impl Default for Door {
    fn default() -> (d: Self)
        ensures
            d.status() == LockableState::ClosedAndUnlocked,
    {
        Door { state: LockableState::ClosedAndUnlocked }
    }
}

impl Lockable for Door {
    closed spec fn status(&self) -> LockableState {
        self.state
    }

    fn can_open(&self) -> (r: bool) {
        matches!(self.state, LockableState::ClosedAndUnlocked)
    }

    fn can_close(&self) -> (r: bool) {
        self.is_open()
    }

    fn is_open(&self) -> (r: bool) {
        matches!(self.state, LockableState::Open)
    }

    fn is_closed(&self) -> (r: bool) {
        !self.is_open()
    }

    fn is_locked(&self) -> (r: bool) {
        matches!(self.state, LockableState::Locked)
    }

    fn close(&mut self) -> (r: Result<(), LockableError>) {
        match self.state {
            LockableState::Open => {
                self.state = LockableState::ClosedAndUnlocked;
                Ok(())
            },
            _ => Err(LockableError::AlreadyClosed),
        }
    }

    fn close_and_lock(&mut self) -> (r: Result<(), LockableError>) {
        match self.close() {
            Ok(()) => self.lock(),
            Err(LockableError::AlreadyClosed) => self.lock(),
            Err(e) => Err(e),
        }
    }

    fn lock(&mut self) -> (r: Result<(), LockableError>) {
        match self.state {
            LockableState::Open => Err(LockableError::Open),
            LockableState::Locked => Err(LockableError::AlreadyLocked),
            LockableState::ClosedAndUnlocked => {
                self.state = LockableState::Locked;
                Ok(())
            },
        }
    }

    fn open(&mut self) -> (r: Result<(), LockableError>) {
        match self.state {
            LockableState::Open => Err(LockableError::AlreadyOpen),
            LockableState::Locked => Err(LockableError::Locked),
            LockableState::ClosedAndUnlocked => {
                self.state = LockableState::Open;
                Ok(())
            },
        }
    }
}

/// No state of the fused machine is both open and locked.
pub proof fn lemma_never_open_and_locked(s: LockableState)
    ensures
        !(s.opened() && s.locked()),
{
}

/// `Open` and `Locked` never lead into each other: a single `open` or `lock`
/// that changes the state starts from `ClosedAndUnlocked`.
pub proof fn lemma_open_and_locked_reached_from_rest(s: LockableState)
    ensures
        s.after_open().0 != s ==> s == LockableState::ClosedAndUnlocked,
        s.after_lock().0 != s ==> s == LockableState::ClosedAndUnlocked,
{
}

/// `close_and_lock` tolerates a fixture that is already closed but never one
/// that is already locked: from `ClosedAndUnlocked` a first call succeeds and
/// locks, a second fails with `AlreadyLocked`, and the state stays `Locked`.
pub proof fn lemma_close_and_lock_twice(s: LockableState)
    requires
        s == LockableState::ClosedAndUnlocked,
    ensures
        s.after_close_and_lock() == (LockableState::Locked, Ok::<(), LockableError>(())),
        s.after_close_and_lock().0.after_close_and_lock() == (
            LockableState::Locked,
            Err::<(), LockableError>(LockableError::AlreadyLocked),
        ),
{
}

} // verus!
