use button_counter::{poll, Action, Button, ButtonState, FlashWrite};

fn pair() -> (Button, Button) {
    (Button::new(0, 0x9004), Button::new(35, 0x9008))
}

#[test]
fn both_pressed_counts_both_and_saves() {
    let (mut l, mut r) = pair();
    let a = poll(&mut l, &mut r, false, false);
    assert_eq!(l.state(), ButtonState::JustPressed);
    assert_eq!(r.state(), ButtonState::JustPressed);
    assert_eq!(l.count(), 1);
    assert_eq!(r.count(), 1);
    assert_eq!(
        a,
        Action::Save {
            left: FlashWrite { offset: 0x9004, bytes: vec![1, 0, 0, 0] },
            right: FlashWrite { offset: 0x9008, bytes: vec![1, 0, 0, 0] },
        }
    );
}

#[test]
fn only_left_pressed_counts_left_and_writes_nothing() {
    let (mut l, mut r) = pair();
    let a = poll(&mut l, &mut r, false, true);
    assert_eq!(a, Action::LeftPressed);
    assert_eq!(l.count(), 1);
    assert_eq!(r.count(), 0);
    assert_eq!(r.state(), ButtonState::Released);
}

#[test]
fn only_right_pressed_counts_right() {
    let (mut l, mut r) = pair();
    assert_eq!(poll(&mut l, &mut r, true, false), Action::RightPressed);
    assert_eq!(l.count(), 0);
    assert_eq!(r.count(), 1);
}

#[test]
fn holding_counts_once() {
    let (mut l, mut r) = pair();
    assert_eq!(poll(&mut l, &mut r, false, true), Action::LeftPressed);
    for _ in 0..10 {
        assert_eq!(poll(&mut l, &mut r, false, true), Action::Nothing);
    }
    assert_eq!(l.count(), 1);
    assert_eq!(poll(&mut l, &mut r, true, true), Action::LeftReleased);
    assert_eq!(poll(&mut l, &mut r, true, true), Action::Nothing);
}

#[test]
fn counter_follows_runs_of_low_levels() {
    let (mut l, mut r) = pair();
    let levels = [
        true, false, false, false, true, false, true, true, false, false, true,
    ];
    for &lv in &levels {
        poll(&mut l, &mut r, lv, true);
    }
    assert_eq!(l.count(), 3);
    assert_eq!(r.count(), 0);
}

#[test]
fn release_actions() {
    let (mut l, mut r) = pair();
    poll(&mut l, &mut r, false, false);
    assert_eq!(poll(&mut l, &mut r, true, true), Action::BothReleased);

    let (mut l, mut r) = pair();
    poll(&mut l, &mut r, false, false);
    assert_eq!(poll(&mut l, &mut r, false, true), Action::RightReleased);
    assert_eq!(poll(&mut l, &mut r, true, true), Action::LeftReleased);
}

#[test]
fn press_wins_over_release_on_the_same_tick() {
    let (mut l, mut r) = pair();
    poll(&mut l, &mut r, true, false);
    // right released while left pressed
    assert_eq!(poll(&mut l, &mut r, false, true), Action::LeftPressed);
    assert_eq!(r.state(), ButtonState::JustReleased);
    // left released while right pressed
    assert_eq!(poll(&mut l, &mut r, true, false), Action::RightPressed);
    assert_eq!(l.state(), ButtonState::JustReleased);
    assert_eq!(l.count(), 1);
    assert_eq!(r.count(), 2);
}

#[test]
fn save_carries_the_counts_after_the_press() {
    let (mut l, mut r) = pair();
    l.read([41, 0, 0, 0]);
    r.read([0, 2, 0, 0]);
    let a = poll(&mut l, &mut r, false, false);
    assert_eq!(
        a,
        Action::Save {
            left: FlashWrite { offset: 0x9004, bytes: vec![42, 0, 0, 0] },
            right: FlashWrite { offset: 0x9008, bytes: vec![1, 2, 0, 0] },
        }
    );
}
