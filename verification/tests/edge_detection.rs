use gamepads::{BackendEvent, Button, Deadzones, Gamepads};

// Native button codes of the event-stream backend.
const NATIVE_SOUTH: u16 = 1;
const NATIVE_EAST: u16 = 2;

fn connect(handle: u64) -> BackendEvent {
    BackendEvent::Connected {
        handle,
        deadzones: Deadzones::none(),
    }
}

fn down(handle: u64, native_button: u16) -> BackendEvent {
    BackendEvent::ButtonPressed {
        handle,
        native_button,
    }
}

fn up(handle: u64, native_button: u16) -> BackendEvent {
    BackendEvent::ButtonReleased {
        handle,
        native_button,
    }
}

#[test]
fn press_and_release_within_one_tick_is_just_pressed() {
    let mut pads = Gamepads::new();
    pads.poll(&vec![connect(1)]);
    pads.poll(&vec![down(1, NATIVE_SOUTH), up(1, NATIVE_SOUTH)]);
    let pad = pads.all()[0];
    assert!(pad.is_just_pressed(Button::ActionDown));
    assert!(!pad.is_currently_pressed(Button::ActionDown));
    // The edge is visible only during the tick in which it happened.
    pads.poll(&vec![]);
    let pad = pads.all()[0];
    assert!(!pad.is_just_pressed(Button::ActionDown));
    assert!(!pad.is_currently_pressed(Button::ActionDown));
}

#[test]
fn end_to_end_connect_press_hold_release() {
    let mut pads = Gamepads::new();

    pads.poll(&vec![connect(42)]);
    let all = pads.all();
    assert_eq!(all.len(), 1);
    let pad = all[0];
    assert_eq!(pad.id().value(), 0);
    assert_eq!(pad.left_stick(), (0, 0));
    assert_eq!(pad.right_stick(), (0, 0));
    assert_eq!(pad.all_currently_pressed(), vec![]);

    pads.poll(&vec![down(42, NATIVE_SOUTH)]);
    let pad = pads.get(pad.id()).unwrap();
    assert!(pad.is_just_pressed(Button::ActionDown));
    assert!(pad.is_currently_pressed(Button::ActionDown));

    pads.poll(&vec![]);
    let pad = pads.get(pad.id()).unwrap();
    assert!(!pad.is_just_pressed(Button::ActionDown));
    assert!(pad.is_currently_pressed(Button::ActionDown));

    pads.poll(&vec![up(42, NATIVE_SOUTH)]);
    let pad = pads.get(pad.id()).unwrap();
    assert!(!pad.is_just_pressed(Button::ActionDown));
    assert!(!pad.is_currently_pressed(Button::ActionDown));
}

#[test]
fn held_button_survives_ticks_and_releases_cleanly() {
    let mut pads = Gamepads::new();
    pads.poll(&vec![connect(5), down(5, NATIVE_EAST)]);
    let pad = pads.all()[0];
    assert!(pad.is_just_pressed(Button::ActionRight));
    for _ in 0..3 {
        pads.poll(&vec![]);
        let pad = pads.all()[0];
        assert!(!pad.is_just_pressed(Button::ActionRight));
        assert!(pad.is_currently_pressed(Button::ActionRight));
    }
}

#[test]
fn edge_clears_even_under_unrelated_traffic() {
    let mut pads = Gamepads::new();
    pads.poll(&vec![connect(1), down(1, NATIVE_SOUTH)]);
    assert!(pads.all()[0].is_just_pressed(Button::ActionDown));
    // The next tick carries traffic, none of it pressing the button
    // again: another button's press, this button's release, an axis
    // move, a reconnect cycle.
    pads.poll(&vec![
        down(1, NATIVE_EAST),
        up(1, NATIVE_SOUTH),
        BackendEvent::AxisChanged {
            handle: 1,
            native_axis: 1,
            value: 500_000,
        },
        BackendEvent::Disconnected { handle: 1 },
        connect(1),
    ]);
    let pad = pads.all()[0];
    assert!(!pad.is_just_pressed(Button::ActionDown));
    assert!(pad.is_just_pressed(Button::ActionRight));
}

#[test]
fn pressed_listing_is_in_enumeration_order() {
    let mut pads = Gamepads::new();
    // East is ActionRight (bit 1), South is ActionDown (bit 0): the
    // listing orders by enumeration, not by event arrival.
    pads.poll(&vec![connect(1), down(1, NATIVE_EAST), down(1, NATIVE_SOUTH)]);
    let pad = pads.all()[0];
    assert_eq!(
        pad.all_currently_pressed(),
        vec![Button::ActionDown, Button::ActionRight]
    );
    assert_eq!(
        pad.all_just_pressed(),
        vec![Button::ActionDown, Button::ActionRight]
    );
}

#[test]
fn unmapped_native_button_is_ignored() {
    let mut pads = Gamepads::new();
    // Codes 3 and 6 (the C and Z action-pad buttons) have no logical
    // mapping; 0 is the backend's explicit unknown.
    pads.poll(&vec![connect(1), down(1, 3), down(1, 6), down(1, 0)]);
    let pad = pads.all()[0];
    assert_eq!(pad.all_currently_pressed(), vec![]);
}

#[test]
fn button_mapping_follows_the_native_vocabulary() {
    assert_eq!(Button::from_gilrs(1), Some(Button::ActionDown));
    assert_eq!(Button::from_gilrs(2), Some(Button::ActionRight));
    assert_eq!(Button::from_gilrs(5), Some(Button::ActionLeft));
    assert_eq!(Button::from_gilrs(4), Some(Button::ActionUp));
    assert_eq!(Button::from_gilrs(7), Some(Button::FrontLeftUpper));
    assert_eq!(Button::from_gilrs(8), Some(Button::FrontRightUpper));
    assert_eq!(Button::from_gilrs(9), Some(Button::FrontLeftLower));
    assert_eq!(Button::from_gilrs(10), Some(Button::FrontRightLower));
    assert_eq!(Button::from_gilrs(11), Some(Button::LeftCenterCluster));
    assert_eq!(Button::from_gilrs(12), Some(Button::RightCenterCluster));
    assert_eq!(Button::from_gilrs(13), Some(Button::Mode));
    assert_eq!(Button::from_gilrs(14), Some(Button::LeftStick));
    assert_eq!(Button::from_gilrs(15), Some(Button::RightStick));
    assert_eq!(Button::from_gilrs(16), Some(Button::DPadUp));
    assert_eq!(Button::from_gilrs(17), Some(Button::DPadDown));
    assert_eq!(Button::from_gilrs(18), Some(Button::DPadLeft));
    assert_eq!(Button::from_gilrs(19), Some(Button::DPadRight));
    assert_eq!(Button::from_gilrs(0), None);
    assert_eq!(Button::from_gilrs(3), None);
    assert_eq!(Button::from_gilrs(6), None);
    assert_eq!(Button::from_gilrs(20), None);
}

#[test]
fn button_all_lists_seventeen_in_order() {
    let all = Button::all();
    assert_eq!(all.len(), 17);
    assert_eq!(all[0], Button::ActionDown);
    assert_eq!(all[3], Button::ActionUp);
    assert_eq!(all[8], Button::LeftCenterCluster);
    assert_eq!(all[12], Button::DPadUp);
    assert_eq!(all[16], Button::Mode);
}
