use fixtures::house::windows::Window;
use fixtures::house::LockableState;

#[test]
fn windows_can_be_created() {
    let w1 = Window::new(LockableState::Open);
    let w2 = Window::new(LockableState::ClosedAndUnlocked);
    let w3 = Window::new(LockableState::Locked);
    assert_eq!(
        w1,
        Window {
            state: LockableState::Open
        }
    );
    assert_eq!(
        w2,
        Window {
            state: LockableState::ClosedAndUnlocked
        }
    );
    assert_eq!(
        w3,
        Window {
            state: LockableState::Locked
        }
    );
}

#[test]
fn window_default_is_closed_and_unlocked() {
    assert_eq!(Window::default().state, LockableState::ClosedAndUnlocked);
}
