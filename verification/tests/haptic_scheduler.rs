use gamepads::{
    magnitude_to_android, magnitude_to_u16, BackendEvent, Deadzones, GamepadId, Gamepads,
};

fn pads_with_one_device() -> (Gamepads, GamepadId) {
    let mut pads = Gamepads::new();
    pads.poll(&vec![BackendEvent::Connected {
        handle: 77,
        deadzones: Deadzones::none(),
    }]);
    let id = pads.all()[0].id();
    (pads, id)
}

#[test]
fn rumble_plans_a_command_against_the_native_handle() {
    let (mut pads, id) = pads_with_one_device();
    let out = pads.rumble(1_000, id, 500, 250, 400_000, 600_000);
    let cmd = out.command.expect("slot is backed by a device");
    assert_eq!(cmd.handle, 77);
    assert_eq!(cmd.duration_ms, 500);
    assert_eq!(cmd.start_delay_ms, 250);
    assert_eq!(cmd.expiry_ms, 1_750);
    assert_eq!(cmd.strong_magnitude, magnitude_to_u16(400_000));
    assert_eq!(cmd.weak_magnitude, magnitude_to_u16(600_000));
    assert!(out.purged.is_empty());
}

#[test]
fn effect_lives_until_expiry_and_is_purged_at_it() {
    let (mut pads, id) = pads_with_one_device();
    // Request at T = 1000 with duration 500 and no delay.
    let out = pads.rumble(1_000, id, 500, 0, 1_000_000, 1_000_000);
    let cmd = out.command.unwrap();
    assert_eq!(cmd.expiry_ms, 1_500);
    pads.retain_effect(cmd.token, cmd.expiry_ms);
    assert_eq!(pads.live_effect_tokens(), vec![cmd.token]);

    // Any request strictly before T + 500 leaves it in the ledger.
    let out = pads.rumble(1_499, id, 100, 0, 0, 0);
    assert!(out.purged.is_empty());
    assert!(pads.live_effect_tokens().contains(&cmd.token));

    // The first request at or after T + 500 purges it.
    let out = pads.rumble(1_500, id, 100, 0, 0, 0);
    assert_eq!(out.purged, vec![cmd.token]);
    assert!(pads.live_effect_tokens().is_empty());
}

#[test]
fn purge_drops_exactly_the_expired_effects() {
    let (mut pads, id) = pads_with_one_device();
    let a = pads.rumble(0, id, 100, 0, 0, 0).command.unwrap();
    pads.retain_effect(a.token, a.expiry_ms);
    let b = pads.rumble(0, id, 900, 0, 0, 0).command.unwrap();
    pads.retain_effect(b.token, b.expiry_ms);
    assert_ne!(a.token, b.token);
    let out = pads.rumble(500, id, 10, 0, 0, 0);
    assert_eq!(out.purged, vec![a.token]);
    assert_eq!(pads.live_effect_tokens(), vec![b.token]);
}

#[test]
fn rumble_for_an_unclaimed_slot_is_dropped() {
    let (mut pads, id) = pads_with_one_device();
    drop(pads);
    // The same id against a fresh instance names a slot no device has
    // claimed: the request is dropped, haptics being best-effort.
    let mut fresh = Gamepads::new();
    let out = fresh.rumble(1_000, id, 500, 0, 1_000_000, 1_000_000);
    assert!(out.command.is_none());
    assert!(out.purged.is_empty());
}

#[test]
fn disconnected_device_keeps_its_handle_for_rumble() {
    let (mut pads, id) = pads_with_one_device();
    pads.poll(&vec![BackendEvent::Disconnected { handle: 77 }]);
    // The slot stays claimed, so a command is still planned; the
    // backend decides whether the hardware is there to take it.
    let out = pads.rumble(0, id, 100, 0, 0, 0);
    assert_eq!(out.command.unwrap().handle, 77);
}

#[test]
fn magnitude_scaling_rounds_to_nearest() {
    assert_eq!(magnitude_to_u16(0), 0);
    assert_eq!(magnitude_to_u16(1_000_000), 0xFFFF);
    // 0.5 of 65535 is 32767.5: rounds up, not truncates.
    assert_eq!(magnitude_to_u16(500_000), 32_768);
    // 8 millionths of 65535 is 0.524: nearest is 1.
    assert_eq!(magnitude_to_u16(8), 1);
    // 1 millionth of 65535 is 0.0655: nearest is 0.
    assert_eq!(magnitude_to_u16(1), 0);
    // Magnitudes beyond full strength are clamped.
    assert_eq!(magnitude_to_u16(3_000_000), 0xFFFF);

    assert_eq!(magnitude_to_android(0), 0);
    assert_eq!(magnitude_to_android(1_000_000), 255);
    assert_eq!(magnitude_to_android(500_000), 128);
    assert_eq!(magnitude_to_android(2_000_000), 255);
}

#[test]
fn tokens_increase_per_planned_command() {
    let (mut pads, id) = pads_with_one_device();
    let a = pads.rumble(0, id, 1, 0, 0, 0).command.unwrap();
    let b = pads.rumble(0, id, 1, 0, 0, 0).command.unwrap();
    let c = pads.rumble(0, id, 1, 0, 0, 0).command.unwrap();
    assert_eq!(b.token, a.token + 1);
    assert_eq!(c.token, b.token + 1);
}
