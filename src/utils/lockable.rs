use vstd::prelude::*;

verus! {

/// Why a lock or unlock request was refused.
#[derive(PartialEq, Eq, Structural, Debug, Clone, Copy)]
pub enum LockableError {
    AlreadyLocked,
    AlreadyUnlocked,
}

/// Whether something that locks is locked.
#[derive(PartialEq, Eq, Structural, Debug, Clone, Copy)]
pub enum LockableState {
    Unlocked,
    Locked,
}

impl LockableState {
    /// The state after `lock` is fired from `self`, and what the call returns.
    pub open spec fn after_lock(self) -> (LockableState, Result<(), LockableError>) {
        match self {
            LockableState::Unlocked => (LockableState::Locked, Ok(())),
            LockableState::Locked => (LockableState::Locked, Err(LockableError::AlreadyLocked)),
        }
    }

    /// The state after `unlock` is fired from `self`, and what the call returns.
    pub open spec fn after_unlock(self) -> (LockableState, Result<(), LockableError>) {
        match self {
            LockableState::Locked => (LockableState::Unlocked, Ok(())),
            LockableState::Unlocked => (
                LockableState::Unlocked,
                Err(LockableError::AlreadyUnlocked),
            ),
        }
    }
}

impl Default for LockableState {
    fn default() -> (s: Self)
        ensures
            s == LockableState::Unlocked,
    {
        LockableState::Unlocked
    }
}

/// Something that can be locked and unlocked.
pub trait Lockable: Sized {
    /// Whether it is locked.
    spec fn locked(&self) -> bool;

    fn is_locked(&self) -> (r: bool)
        ensures
            r == self.locked(),
    ;

    fn is_unlocked(&self) -> (r: bool)
        ensures
            r == !self.locked(),
    ;

    fn can_lock(&self) -> (r: bool)
        ensures
            r == !self.locked(),
    ;

    fn can_unlock(&self) -> (r: bool)
        ensures
            r == self.locked(),
    ;

    /// Locks what is unlocked; refuses, changing nothing, what is already locked.
    fn lock(&mut self) -> (r: Result<(), LockableError>)
        ensures
            old(self).locked() ==> r == Err::<(), LockableError>(LockableError::AlreadyLocked)
                && *final(self) == *old(self),
            !old(self).locked() ==> r is Ok && final(self).locked(),
    ;

    /// Unlocks what is locked; refuses, changing nothing, what is already unlocked.
    fn unlock(&mut self) -> (r: Result<(), LockableError>)
        ensures
            !old(self).locked() ==> r == Err::<(), LockableError>(LockableError::AlreadyUnlocked)
                && *final(self) == *old(self),
            old(self).locked() ==> r is Ok && !final(self).locked(),
    ;
}

impl Lockable for LockableState {
    open spec fn locked(&self) -> bool {
        *self == LockableState::Locked
    }

    fn is_locked(&self) -> (r: bool) {
        matches!(self, LockableState::Locked)
    }

    fn is_unlocked(&self) -> (r: bool) {
        !self.is_locked()
    }

    fn can_lock(&self) -> (r: bool) {
        matches!(self, LockableState::Unlocked)
    }

    fn can_unlock(&self) -> (r: bool) {
        !self.can_lock()
    }

    fn lock(&mut self) -> (r: Result<(), LockableError>)
        ensures
            (*final(self), r) == old(self).after_lock(),
    {
        match *self {
            LockableState::Unlocked => {
                *self = LockableState::Locked;
                Ok(())
            },
            LockableState::Locked => Err(LockableError::AlreadyLocked),
        }
    }

    fn unlock(&mut self) -> (r: Result<(), LockableError>)
        ensures
            (*final(self), r) == old(self).after_unlock(),
    {
        match *self {
            LockableState::Locked => {
                *self = LockableState::Unlocked;
                Ok(())
            },
            LockableState::Unlocked => Err(LockableError::AlreadyUnlocked),
        }
    }
}

/// The lock machine has two states and two edges: `lock` leads from `Unlocked`
/// to `Locked` and `unlock` leads back. Fired from the other state, each fails
/// with its own error and leaves the state as it was.
pub proof fn lemma_lockable_two_edges(s: LockableState)
    ensures
        s.after_lock().1 is Ok <==> s == LockableState::Unlocked,
        s.after_unlock().1 is Ok <==> s == LockableState::Locked,
        s.after_lock().1 is Ok ==> s.after_lock().0 == LockableState::Locked,
        s.after_unlock().1 is Ok ==> s.after_unlock().0 == LockableState::Unlocked,
        s.after_lock().1 is Err ==> s.after_lock() == (
            s,
            Err::<(), LockableError>(LockableError::AlreadyLocked),
        ),
        s.after_unlock().1 is Err ==> s.after_unlock() == (
            s,
            Err::<(), LockableError>(LockableError::AlreadyUnlocked),
        ),
{
}

/// Locking an unlocked machine and then unlocking it both succeed and bring it
/// back to `Unlocked`.
pub proof fn lemma_lock_unlock_round_trip(s: LockableState)
    requires
        s == LockableState::Unlocked,
    ensures
        s.after_lock().1 is Ok,
        s.after_lock().0.after_unlock().1 is Ok,
        s.after_lock().0.after_unlock().0 == s,
{
}

} // verus!
