use crate::utils::occupiable::OccupiableState;
use vstd::prelude::*;

verus! {

/// A chair: a seat that is vacant or occupied.
#[derive(PartialEq, Eq, Debug)]
pub struct Chair {
    pub occupation_state: OccupiableState,
}

impl Chair {
    /// A vacant chair.
    pub fn new() -> (c: Chair)
        ensures
            c.occupation_state == OccupiableState::Vacant,
    {
        Chair { occupation_state: OccupiableState::Vacant }
    }
}

impl Default for Chair {
    fn default() -> (c: Self)
        ensures
            c.occupation_state == OccupiableState::Vacant,
    {
        Chair::new()
    }
}

} // verus!
