use fixtures::utils::occupiable::{Occupiable, OccupiableError, OccupiableState};

#[test]
fn occupiable_vacant_by_default() {
    let d = OccupiableState::default();
    assert_eq!(d.is_vacant(), true);
}

#[test]
fn is_occupied() {
    let o1 = OccupiableState::Occupied;
    let o2 = OccupiableState::Vacant;
    assert_eq!(o1.is_occupied(), true);
    assert_eq!(o2.is_occupied(), false);
}

#[test]
fn is_vacant() {
    let o1 = OccupiableState::Occupied;
    let o2 = OccupiableState::Vacant;
    assert_eq!(o1.is_vacant(), false);
    assert_eq!(o2.is_vacant(), true);
}

#[test]
fn can_occupy() {
    let o1 = OccupiableState::Occupied;
    let o2 = OccupiableState::Vacant;
    assert_eq!(o1.can_occupy(), false);
    assert_eq!(o2.can_occupy(), true);
}

#[test]
fn can_vacate() {
    let o1 = OccupiableState::Occupied;
    let o2 = OccupiableState::Vacant;
    assert_eq!(o1.can_vacate(), true);
    assert_eq!(o2.can_vacate(), false);
}

#[test]
fn try_to_occupy() {
    let mut o1 = OccupiableState::Occupied;
    let mut o2 = OccupiableState::Vacant;

    assert_eq!(o1.occupy().unwrap_err(), OccupiableError::AlreadyOccupied);
    assert_eq!(o2.occupy().is_ok(), true);

    assert_eq!(o1, OccupiableState::Occupied);
    assert_eq!(o2, OccupiableState::Occupied);
}

#[test]
fn try_to_vacate() {
    let mut o1 = OccupiableState::Occupied;
    let mut o2 = OccupiableState::Vacant;

    assert_eq!(o1.vacate().is_ok(), true);
    assert_eq!(o2.vacate().unwrap_err(), OccupiableError::AlreadyVacant);

    assert_eq!(o1, OccupiableState::Vacant);
    assert_eq!(o2, OccupiableState::Vacant);
}

#[test]
fn occupiable_predicates_exclusive() {
    for s in [OccupiableState::Occupied, OccupiableState::Vacant] {
        assert_ne!(s.is_occupied(), s.is_vacant());
        assert_ne!(s.can_occupy(), s.can_vacate());
    }
}

#[test]
fn occupiable_vacate_then_occupy() {
    let mut s = OccupiableState::Vacant;
    assert_eq!(s.vacate(), Err(OccupiableError::AlreadyVacant));
    assert_eq!(s, OccupiableState::Vacant);
    assert_eq!(s.occupy(), Ok(()));
    assert_eq!(s, OccupiableState::Occupied);
}
