use gamepads::{
    clamp_axis, clamp_deadzone, normalize, BackendEvent, Deadzones, Gamepads, AXIS_SCALE,
    DEADZONE_MAX,
};

// Native axis codes of the event-stream backend.
const NATIVE_LEFT_X: u16 = 1;
const NATIVE_LEFT_Y: u16 = 2;
const NATIVE_RIGHT_X: u16 = 4;
const NATIVE_RIGHT_Y: u16 = 5;

#[test]
fn zero_deadzone_is_identity() {
    assert_eq!(normalize(0, 0), 0);
    assert_eq!(normalize(123_456, 0), 123_456);
    assert_eq!(normalize(-123_456, 0), -123_456);
    assert_eq!(normalize(AXIS_SCALE, 0), AXIS_SCALE);
    assert_eq!(normalize(-AXIS_SCALE, 0), -AXIS_SCALE);
}

#[test]
fn inside_the_deadzone_is_neutral() {
    assert_eq!(normalize(499_999, 500_000), 0);
    assert_eq!(normalize(-499_999, 500_000), 0);
    assert_eq!(normalize(1, 2), 0);
    // At the deadzone itself the rescaled magnitude is exactly zero.
    assert_eq!(normalize(500_000, 500_000), 0);
    assert_eq!(normalize(-500_000, 500_000), 0);
}

#[test]
fn surviving_magnitude_is_rescaled_linearly() {
    // Halfway between a 0.5 deadzone and full deflection maps to 0.5.
    assert_eq!(normalize(750_000, 500_000), 500_000);
    assert_eq!(normalize(-750_000, 500_000), -500_000);
    // A quarter past a 0.2 deadzone: (0.45 - 0.2) / 0.8 = 0.3125.
    assert_eq!(normalize(450_000, 200_000), 312_500);
}

#[test]
fn full_deflection_stays_full() {
    assert_eq!(normalize(AXIS_SCALE, 500_000), AXIS_SCALE);
    assert_eq!(normalize(-AXIS_SCALE, 500_000), -AXIS_SCALE);
    assert_eq!(normalize(AXIS_SCALE, DEADZONE_MAX), AXIS_SCALE);
    assert_eq!(normalize(-AXIS_SCALE, DEADZONE_MAX), -AXIS_SCALE);
}

#[test]
fn clamping_forces_raw_values_into_range() {
    assert_eq!(clamp_axis(2 * AXIS_SCALE), AXIS_SCALE);
    assert_eq!(clamp_axis(-2 * AXIS_SCALE), -AXIS_SCALE);
    assert_eq!(clamp_axis(7), 7);
    // A configured deadzone at or above 1.0 is clamped below it.
    assert_eq!(clamp_deadzone(AXIS_SCALE as u32), DEADZONE_MAX);
    assert_eq!(clamp_deadzone(u32::MAX), DEADZONE_MAX);
    assert_eq!(clamp_deadzone(250_000), 250_000);
}

#[test]
fn axis_events_use_the_deadzone_stored_at_connect() {
    let mut pads = Gamepads::new();
    pads.poll(&vec![BackendEvent::Connected {
        handle: 3,
        deadzones: Deadzones {
            left_x: 500_000,
            left_y: 0,
            right_x: 200_000,
            right_y: 0,
        },
    }]);
    pads.poll(&vec![
        BackendEvent::AxisChanged {
            handle: 3,
            native_axis: NATIVE_LEFT_X,
            value: 750_000,
        },
        BackendEvent::AxisChanged {
            handle: 3,
            native_axis: NATIVE_LEFT_Y,
            value: 750_000,
        },
        BackendEvent::AxisChanged {
            handle: 3,
            native_axis: NATIVE_RIGHT_X,
            value: 450_000,
        },
        BackendEvent::AxisChanged {
            handle: 3,
            native_axis: NATIVE_RIGHT_Y,
            value: -250_000,
        },
    ]);
    let pad = pads.all()[0];
    assert_eq!(pad.left_stick_x(), 500_000);
    assert_eq!(pad.left_stick_y(), 750_000);
    assert_eq!(pad.right_stick_x(), 312_500);
    assert_eq!(pad.right_stick_y(), -250_000);
    assert_eq!(pad.left_stick(), (500_000, 750_000));
    assert_eq!(pad.right_stick(), (312_500, -250_000));
}

#[test]
fn repeated_axis_events_take_the_last_value() {
    let mut pads = Gamepads::new();
    pads.poll(&vec![BackendEvent::Connected {
        handle: 1,
        deadzones: Deadzones::none(),
    }]);
    pads.poll(&vec![
        BackendEvent::AxisChanged {
            handle: 1,
            native_axis: NATIVE_LEFT_X,
            value: 100_000,
        },
        BackendEvent::AxisChanged {
            handle: 1,
            native_axis: NATIVE_LEFT_X,
            value: -300_000,
        },
    ]);
    assert_eq!(pads.all()[0].left_stick_x(), -300_000);
}

#[test]
fn unmapped_native_axis_is_ignored() {
    let mut pads = Gamepads::new();
    pads.poll(&vec![BackendEvent::Connected {
        handle: 1,
        deadzones: Deadzones::none(),
    }]);
    // Codes 3 and 6 are the Z axes, 7 and 8 the hat axes: none of
    // them has a slot in the four-axis store.
    for code in [0u16, 3, 6, 7, 8] {
        pads.poll(&vec![BackendEvent::AxisChanged {
            handle: 1,
            native_axis: code,
            value: 900_000,
        }]);
    }
    let pad = pads.all()[0];
    assert_eq!(pad.left_stick(), (0, 0));
    assert_eq!(pad.right_stick(), (0, 0));
}

#[test]
fn out_of_range_event_values_are_clamped() {
    let mut pads = Gamepads::new();
    pads.poll(&vec![BackendEvent::Connected {
        handle: 1,
        deadzones: Deadzones::none(),
    }]);
    pads.poll(&vec![BackendEvent::AxisChanged {
        handle: 1,
        native_axis: NATIVE_LEFT_X,
        value: i32::MAX,
    }]);
    assert_eq!(pads.all()[0].left_stick_x(), AXIS_SCALE);
}
