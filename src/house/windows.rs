use crate::house::LockableState;
use vstd::prelude::*;

verus! {

/// A window with the fused machine for its position and lock.
#[derive(PartialEq, Eq, Debug)]
pub struct Window {
    pub state: LockableState,
}

impl Window {
    pub fn new(state: LockableState) -> (w: Window)
        ensures
            w.state == state,
    {
        Window { state }
    }
}

impl Default for Window {
    fn default() -> (w: Self)
        ensures
            w.state == LockableState::ClosedAndUnlocked,
    {
        Window { state: LockableState::ClosedAndUnlocked }
    }
}

} // verus!
