use vstd::prelude::*;

verus! {

/// Why an occupy or vacate request was refused.
#[derive(PartialEq, Eq, Structural, Debug, Clone, Copy)]
pub enum OccupiableError {
    AlreadyOccupied,
    AlreadyVacant,
}

/// Whether a seat, or anything else that can be taken, is taken.
#[derive(PartialEq, Eq, Structural, Debug, Clone, Copy)]
pub enum OccupiableState {
    Vacant,
    Occupied,
}

impl OccupiableState {
    /// The state after `occupy` is fired from `self`, and what the call returns.
    pub open spec fn after_occupy(self) -> (OccupiableState, Result<(), OccupiableError>) {
        match self {
            OccupiableState::Vacant => (OccupiableState::Occupied, Ok(())),
            OccupiableState::Occupied => (
                OccupiableState::Occupied,
                Err(OccupiableError::AlreadyOccupied),
            ),
        }
    }

    /// The state after `vacate` is fired from `self`, and what the call returns.
    pub open spec fn after_vacate(self) -> (OccupiableState, Result<(), OccupiableError>) {
        match self {
            OccupiableState::Occupied => (OccupiableState::Vacant, Ok(())),
            OccupiableState::Vacant => (OccupiableState::Vacant, Err(OccupiableError::AlreadyVacant)),
        }
    }
}

impl Default for OccupiableState {
    fn default() -> (s: Self)
        ensures
            s == OccupiableState::Vacant,
    {
        OccupiableState::Vacant
    }
}

/// Something that can be occupied and vacated.
pub trait Occupiable: Sized {
    /// Whether it is occupied.
    spec fn occupied(&self) -> bool;

    fn can_occupy(&self) -> (r: bool)
        ensures
            r == !self.occupied(),
    ;

    fn can_vacate(&self) -> (r: bool)
        ensures
            r == self.occupied(),
    ;

    fn is_occupied(&self) -> (r: bool)
        ensures
            r == self.occupied(),
    ;

    fn is_vacant(&self) -> (r: bool)
        ensures
            r == !self.occupied(),
    ;

    /// Occupies what is vacant; refuses, changing nothing, what is already occupied.
    fn occupy(&mut self) -> (r: Result<(), OccupiableError>)
        ensures
            old(self).occupied() ==> r == Err::<(), OccupiableError>(
                OccupiableError::AlreadyOccupied,
            ) && *final(self) == *old(self),
            !old(self).occupied() ==> r is Ok && final(self).occupied(),
    ;

    /// Vacates what is occupied; refuses, changing nothing, what is already vacant.
    fn vacate(&mut self) -> (r: Result<(), OccupiableError>)
        ensures
            !old(self).occupied() ==> r == Err::<(), OccupiableError>(
                OccupiableError::AlreadyVacant,
            ) && *final(self) == *old(self),
            old(self).occupied() ==> r is Ok && !final(self).occupied(),
    ;
}

impl Occupiable for OccupiableState {
    open spec fn occupied(&self) -> bool {
        *self == OccupiableState::Occupied
    }

    fn can_occupy(&self) -> (r: bool) {
        matches!(self, OccupiableState::Vacant)
    }

    fn can_vacate(&self) -> (r: bool) {
        !self.can_occupy()
    }

    fn is_occupied(&self) -> (r: bool) {
        matches!(self, OccupiableState::Occupied)
    }

    fn is_vacant(&self) -> (r: bool) {
        !self.is_occupied()
    }

    fn occupy(&mut self) -> (r: Result<(), OccupiableError>)
        ensures
            (*final(self), r) == old(self).after_occupy(),
    {
        match *self {
            OccupiableState::Occupied => Err(OccupiableError::AlreadyOccupied),
            OccupiableState::Vacant => {
                *self = OccupiableState::Occupied;
                Ok(())
            },
        }
    }

    fn vacate(&mut self) -> (r: Result<(), OccupiableError>)
        ensures
            (*final(self), r) == old(self).after_vacate(),
    {
        match *self {
            OccupiableState::Vacant => Err(OccupiableError::AlreadyVacant),
            OccupiableState::Occupied => {
                *self = OccupiableState::Vacant;
                Ok(())
            },
        }
    }
}

/// The occupancy machine has two states and two edges: `occupy` leads from
/// `Vacant` to `Occupied` and `vacate` leads back. Fired from the other state,
/// each fails with its own error and leaves the state as it was.
pub proof fn lemma_occupiable_two_edges(s: OccupiableState)
    ensures
        s.after_occupy().1 is Ok <==> s == OccupiableState::Vacant,
        s.after_vacate().1 is Ok <==> s == OccupiableState::Occupied,
        s.after_occupy().1 is Ok ==> s.after_occupy().0 == OccupiableState::Occupied,
        s.after_vacate().1 is Ok ==> s.after_vacate().0 == OccupiableState::Vacant,
        s.after_occupy().1 is Err ==> s.after_occupy() == (
            s,
            Err::<(), OccupiableError>(OccupiableError::AlreadyOccupied),
        ),
        s.after_vacate().1 is Err ==> s.after_vacate() == (
            s,
            Err::<(), OccupiableError>(OccupiableError::AlreadyVacant),
        ),
{
}

} // verus!
