use crate::utils::lockable::{Lockable, LockableError, LockableState};
use crate::utils::openable::{Openable, OpenableError, OpenableState};
use vstd::prelude::*;

verus! {

/// A door whose latch and lock are two machines of their own. It is never open
/// while locked: locking closes it first, and opening clears the lock first.
#[derive(PartialEq, Eq, Debug)]
pub struct Door {
    open_state: OpenableState,
    lock_state: LockableState,
}

impl Door {
    #[verifier::type_invariant]
    spec fn never_open_and_locked(&self) -> bool {
        !(self.open_state == OpenableState::Open && self.lock_state == LockableState::Locked)
    }

    /// A door in the given position; an open door cannot also be locked.
    pub fn new(open_state: OpenableState, lock_state: LockableState) -> (d: Door)
        requires
            !(open_state == OpenableState::Open && lock_state == LockableState::Locked),
        ensures
            d@ == (open_state, lock_state),
    {
        Door { open_state, lock_state }
    }

    /// A builder for doors.
    pub fn builder() -> (b: DoorBuilder) {
        DoorBuilder::new()
    }
}

impl Default for Door {
    fn default() -> (d: Self)
        ensures
            d@ == (OpenableState::Closed, LockableState::Unlocked),
    {
        Door { open_state: OpenableState::Closed, lock_state: LockableState::Unlocked }
    }
}

impl View for Door {
    /// The position of the door and the state of its lock.
    type V = (OpenableState, LockableState);

    closed spec fn view(&self) -> (OpenableState, LockableState) {
        (self.open_state, self.lock_state)
    }
}

impl Openable for Door {
    open spec fn opened(&self) -> bool {
        self@.0 == OpenableState::Open
    }

    fn can_open(&self) -> (r: bool) {
        self.open_state.can_open()
    }

    fn can_close(&self) -> (r: bool) {
        self.open_state.can_close()
    }

    fn is_open(&self) -> (r: bool)
        ensures
            r ==> self@.1 == LockableState::Unlocked,
    {
        proof {
            use_type_invariant(self);
        }
        self.open_state.is_open()
    }

    fn is_closed(&self) -> (r: bool) {
        self.open_state.is_closed()
    }

    /// Clears the lock, tolerating one that is already clear, then opens. A lock
    /// that could not be cleared would be reported as `CannotOpen`; the binary
    /// lock always clears, so opening fails only on a door already open.
    fn open(&mut self) -> (r: Result<(), OpenableError>)
        ensures
            (final(self)@.0, r) == old(self)@.0.after_open(),
            final(self)@.1 == LockableState::Unlocked,
    {
        proof {
            use_type_invariant(&*self);
        }
        let mut lock_state = self.lock_state;
        let mut open_state = self.open_state;
        let _ = lock_state.unlock();
        let r = if lock_state.is_unlocked() {
            open_state.open()
        } else {
            Err(OpenableError::CannotOpen)
        };
        *self = Door { open_state, lock_state };
        r
    }

    /// Closes; the lock is left as it is.
    fn close(&mut self) -> (r: Result<(), OpenableError>)
        ensures
            (final(self)@.0, r) == old(self)@.0.after_close(),
            final(self)@.1 == old(self)@.1,
    {
        let mut open_state = self.open_state;
        let r = open_state.close();
        *self = Door { open_state, lock_state: self.lock_state };
        r
    }
}

impl Lockable for Door {
    open spec fn locked(&self) -> bool {
        self@.1 == LockableState::Locked
    }

    fn is_locked(&self) -> (r: bool)
        ensures
            r ==> self@.0 == OpenableState::Closed,
    {
        proof {
            use_type_invariant(self);
        }
        self.lock_state.is_locked()
    }

    fn is_unlocked(&self) -> (r: bool) {
        self.lock_state.is_unlocked()
    }

    fn can_lock(&self) -> (r: bool) {
        self.lock_state.can_lock()
    }

    fn can_unlock(&self) -> (r: bool) {
        self.lock_state.can_unlock()
    }

    /// Closes the door, whatever its position, then locks.
    fn lock(&mut self) -> (r: Result<(), LockableError>)
        ensures
            final(self)@.0 == OpenableState::Closed,
            (final(self)@.1, r) == old(self)@.1.after_lock(),
    {
        proof {
            use_type_invariant(&*self);
        }
        let mut open_state = self.open_state;
        let mut lock_state = self.lock_state;
        let _ = open_state.close();
        let r = lock_state.lock();
        *self = Door { open_state, lock_state };
        r
    }

    /// Unlocks; the position is left as it is.
    fn unlock(&mut self) -> (r: Result<(), LockableError>)
        ensures
            final(self)@.0 == old(self)@.0,
            (final(self)@.1, r) == old(self)@.1.after_unlock(),
    {
        let mut lock_state = self.lock_state;
        let r = lock_state.unlock();
        *self = Door { open_state: self.open_state, lock_state };
        r
    }
}

/// Starting point for putting a door together.
#[derive(Default)]
pub struct DoorBuilder {}

impl DoorBuilder {
    pub fn new() -> (b: DoorBuilder) {
        DoorBuilder {  }
    }
}

} // verus!
