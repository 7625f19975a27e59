use fixtures::utils::openable::{Openable, OpenableError, OpenableState};

#[test]
fn openable_closed_by_default() {
    let d = OpenableState::default();
    assert_eq!(d.is_closed(), true);
}

#[test]
fn openable_is_open() {
    let w1 = OpenableState::Open;
    let w2 = OpenableState::Closed;

    assert_eq!(w1.is_open(), true);
    assert_eq!(w2.is_open(), false);
}

#[test]
fn openable_is_closed() {
    let w1 = OpenableState::Open;
    let w2 = OpenableState::Closed;

    assert_eq!(w1.is_closed(), false);
    assert_eq!(w2.is_closed(), true);
}

#[test]
fn openable_can_open() {
    let w1 = OpenableState::Open;
    let w2 = OpenableState::Closed;

    assert_eq!(w1.can_open(), false);
    assert_eq!(w2.can_open(), true);
}

#[test]
fn openable_can_close() {
    let w1 = OpenableState::Open;
    let w2 = OpenableState::Closed;

    assert_eq!(w1.can_close(), true);
    assert_eq!(w2.can_close(), false);
}

#[test]
fn openable_try_to_close() {
    let mut w1 = OpenableState::Open;
    let mut w2 = OpenableState::Closed;

    assert_eq!(w1.close().is_ok(), true);
    assert_eq!(w2.close().unwrap_err(), OpenableError::AlreadyClosed);

    assert_eq!(w1, OpenableState::Closed);
    assert_eq!(w2, OpenableState::Closed);
}

#[test]
fn openable_try_to_open() {
    let mut w1 = OpenableState::Open;
    let mut w2 = OpenableState::Closed;

    assert_eq!(w1.open().unwrap_err(), OpenableError::AlreadyOpen);
    assert_eq!(w2.open().is_ok(), true);

    assert_eq!(w1, OpenableState::Open);
    assert_eq!(w2, OpenableState::Open);
}

#[test]
fn openable_predicates_exclusive() {
    for s in [OpenableState::Open, OpenableState::Closed] {
        assert_ne!(s.is_open(), s.is_closed());
        assert_ne!(s.can_open(), s.can_close());
    }
}

#[test]
fn openable_open_then_close_round_trip() {
    let mut s = OpenableState::default();
    assert_eq!(s.open(), Ok(()));
    assert_eq!(s, OpenableState::Open);
    assert_eq!(s.close(), Ok(()));
    assert_eq!(s, OpenableState::Closed);
}
