use fixtures::house::chairs::Chair;
use fixtures::utils::occupiable::{Occupiable, OccupiableError, OccupiableState};

#[test]
fn chairs_vacant_by_default() {
    let c1 = Chair::default();
    assert_eq!(c1.occupation_state.is_vacant(), true);
    assert_eq!(c1.occupation_state.is_occupied(), false);
}

#[test]
fn chair_new_is_vacant_and_can_be_taken() {
    let mut c = Chair::new();
    assert_eq!(c, Chair::default());
    assert_eq!(c.occupation_state.occupy(), Ok(()));
    assert_eq!(c.occupation_state, OccupiableState::Occupied);
    assert_eq!(
        c.occupation_state.occupy(),
        Err(OccupiableError::AlreadyOccupied)
    );
}
