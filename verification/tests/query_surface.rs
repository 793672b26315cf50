use gamepads::{BackendEvent, Button, Deadzones, Gamepads};

fn connect(handle: u64) -> BackendEvent {
    BackendEvent::Connected {
        handle,
        deadzones: Deadzones::none(),
    }
}

#[test]
fn queries_between_ticks_are_idempotent() {
    let mut pads = Gamepads::new();
    pads.poll(&vec![
        connect(1),
        BackendEvent::ButtonPressed {
            handle: 1,
            native_button: 1,
        },
        BackendEvent::AxisChanged {
            handle: 1,
            native_axis: 1,
            value: 300_000,
        },
    ]);
    let first = pads.all();
    let second = pads.all();
    assert_eq!(first, second);
    let id = first[0].id();
    assert_eq!(pads.get(id), pads.get(id));
    let pad = pads.get(id).unwrap();
    assert_eq!(
        pad.is_just_pressed(Button::ActionDown),
        pad.is_just_pressed(Button::ActionDown)
    );
    assert_eq!(pad.all_currently_pressed(), pad.all_currently_pressed());
    assert_eq!(pad.left_stick_x(), pad.left_stick_x());
    // And the queries agree with one another.
    assert_eq!(first[0], pad);
    assert!(pad.is_currently_pressed(Button::ActionDown));
    assert_eq!(pad.left_stick_x(), 300_000);
}

#[test]
fn get_returns_nothing_for_disconnected_devices() {
    let mut pads = Gamepads::new();
    pads.poll(&vec![connect(1)]);
    let id = pads.all()[0].id();
    assert!(pads.get(id).is_some());
    pads.poll(&vec![BackendEvent::Disconnected { handle: 1 }]);
    assert!(pads.get(id).is_none());
    assert_eq!(pads.all().len(), 0);
    pads.poll(&vec![connect(1)]);
    assert!(pads.get(id).is_some());
}

#[test]
fn listing_surfaces_only_connected_slots_in_order() {
    let mut pads = Gamepads::new();
    pads.poll(&vec![connect(1), connect(2), connect(3)]);
    pads.poll(&vec![BackendEvent::Disconnected { handle: 2 }]);
    let all = pads.all();
    assert_eq!(all.len(), 2);
    assert_eq!(all[0].id().value(), 0);
    assert_eq!(all[1].id().value(), 2);
}

#[test]
fn gamepad_id_value_names_the_slot() {
    let mut pads = Gamepads::new();
    pads.poll(&vec![connect(500), connect(600)]);
    let all = pads.all();
    assert_eq!(all[0].id().value(), 0);
    assert_eq!(all[1].id().value(), 1);
    assert_eq!(pads.get(all[1].id()).unwrap().id(), all[1].id());
}

#[test]
fn fresh_state_is_empty_and_neutral() {
    let mut pads = Gamepads::new();
    assert_eq!(pads.all().len(), 0);
    assert!(pads.live_effect_tokens().is_empty());
    pads.poll(&vec![connect(9)]);
    let pad = pads.all()[0];
    assert_eq!(pad.all_currently_pressed(), vec![]);
    assert_eq!(pad.all_just_pressed(), vec![]);
    assert_eq!(pad.left_stick(), (0, 0));
    assert_eq!(pad.right_stick(), (0, 0));
}
