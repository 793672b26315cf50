use gamepads::{Button, Gamepads, AXIS_SCALE, SNAPSHOT_BUFFER_LEN, SNAPSHOT_STRIDE};

/// An all-zero snapshot buffer: every slot disconnected and neutral.
fn empty_buffer() -> Vec<u8> {
    vec![0u8; SNAPSHOT_BUFFER_LEN]
}

fn write_u32(buffer: &mut [u8], offset: usize, value: u32) {
    buffer[offset..offset + 4].copy_from_slice(&value.to_le_bytes());
}

fn write_i32(buffer: &mut [u8], offset: usize, value: i32) {
    buffer[offset..offset + 4].copy_from_slice(&value.to_le_bytes());
}

/// Fill slot `i`'s record: connectivity, four axes, pressed bitmask.
fn write_slot(buffer: &mut [u8], i: usize, connected: bool, axes: [i32; 4], pressed: u32) {
    let base = i * SNAPSHOT_STRIDE;
    buffer[base] = connected as u8;
    for (k, axis) in axes.iter().enumerate() {
        write_i32(buffer, base + 1 + 4 * k, *axis);
    }
    write_u32(buffer, base + 17, pressed);
}

#[test]
fn just_pressed_is_derived_from_consecutive_bitmasks() {
    let mut pads = Gamepads::new();
    let mut buffer = empty_buffer();
    write_slot(&mut buffer, 0, true, [0; 4], 0b0000);
    assert!(pads.poll_snapshot(&buffer));
    write_slot(&mut buffer, 0, true, [0; 4], 0b0011);
    assert!(pads.poll_snapshot(&buffer));
    let pad = pads.all()[0];
    assert!(pad.is_just_pressed(Button::ActionDown));
    assert!(pad.is_just_pressed(Button::ActionRight));
    assert!(pad.is_currently_pressed(Button::ActionDown));
    assert_eq!(
        pad.all_just_pressed(),
        vec![Button::ActionDown, Button::ActionRight]
    );
    // The same bitmask again: held, but no fresh edge.
    assert!(pads.poll_snapshot(&buffer));
    let pad = pads.all()[0];
    assert_eq!(pad.all_just_pressed(), vec![]);
    assert!(pad.is_currently_pressed(Button::ActionDown));
    assert!(pad.is_currently_pressed(Button::ActionRight));
}

#[test]
fn snapshot_overwrites_connectivity_and_axes() {
    let mut pads = Gamepads::new();
    let mut buffer = empty_buffer();
    write_slot(
        &mut buffer,
        2,
        true,
        [250_000, -250_000, AXIS_SCALE, -AXIS_SCALE],
        0,
    );
    assert!(pads.poll_snapshot(&buffer));
    let all = pads.all();
    assert_eq!(all.len(), 1);
    let pad = all[0];
    assert_eq!(pad.id().value(), 2);
    assert_eq!(pad.left_stick(), (250_000, -250_000));
    assert_eq!(pad.right_stick(), (AXIS_SCALE, -AXIS_SCALE));
    // The next snapshot reports it gone again.
    let buffer = empty_buffer();
    assert!(pads.poll_snapshot(&buffer));
    assert_eq!(pads.all().len(), 0);
}

#[test]
fn snapshot_axes_beyond_full_deflection_are_clamped() {
    let mut pads = Gamepads::new();
    let mut buffer = empty_buffer();
    write_slot(&mut buffer, 0, true, [2_000_000, -2_000_000, 0, 0], 0);
    assert!(pads.poll_snapshot(&buffer));
    let pad = pads.all()[0];
    assert_eq!(pad.left_stick(), (AXIS_SCALE, -AXIS_SCALE));
}

#[test]
fn wrong_buffer_length_is_refused_whole() {
    let mut pads = Gamepads::new();
    let mut buffer = empty_buffer();
    write_slot(&mut buffer, 0, true, [0; 4], 0b1);
    assert!(pads.poll_snapshot(&buffer));
    assert_eq!(pads.all().len(), 1);
    // A buffer with any other size is a layout mismatch: nothing is
    // ingested and the caller sees the failure.
    let short = vec![0u8; SNAPSHOT_BUFFER_LEN - 1];
    assert!(!pads.poll_snapshot(&short));
    let long = vec![0u8; SNAPSHOT_BUFFER_LEN + 1];
    assert!(!pads.poll_snapshot(&long));
    // The earlier state is untouched.
    let all = pads.all();
    assert_eq!(all.len(), 1);
    assert!(all[0].is_currently_pressed(Button::ActionDown));
}

#[test]
fn snapshot_layout_constants_are_fixed() {
    // One connectivity byte, four 4-byte axes, one 4-byte bitmask,
    // times eight slots: the cross-boundary layout contract.
    assert_eq!(SNAPSHOT_STRIDE, 21);
    assert_eq!(SNAPSHOT_BUFFER_LEN, 8 * SNAPSHOT_STRIDE);
}

#[test]
fn press_between_snapshots_leaves_no_edge() {
    // The host reports current state only: a press and release that
    // both fall between two reads is invisible to this backend.
    let mut pads = Gamepads::new();
    let mut buffer = empty_buffer();
    write_slot(&mut buffer, 0, true, [0; 4], 0);
    assert!(pads.poll_snapshot(&buffer));
    assert!(pads.poll_snapshot(&buffer));
    let pad = pads.all()[0];
    assert!(!pad.is_just_pressed(Button::ActionDown));
    assert!(!pad.is_currently_pressed(Button::ActionDown));
}
