use gamepads::{BackendEvent, Deadzones, Gamepads};

fn connect(handle: u64) -> BackendEvent {
    BackendEvent::Connected {
        handle,
        deadzones: Deadzones::none(),
    }
}

#[test]
fn first_sighting_claims_slots_in_order() {
    let mut pads = Gamepads::new();
    for h in 0..8u64 {
        pads.poll(&vec![connect(100 + h)]);
    }
    for h in 0..8u64 {
        assert_eq!(pads.find(100 + h), Some(h as usize));
    }
    let all = pads.all();
    assert_eq!(all.len(), 8);
    for (i, pad) in all.iter().enumerate() {
        assert_eq!(pad.id().value(), i as u8);
    }
}

#[test]
fn reconnect_keeps_the_same_slot() {
    let mut pads = Gamepads::new();
    pads.poll(&vec![connect(100), connect(200)]);
    assert_eq!(pads.find(200), Some(1));
    pads.poll(&vec![BackendEvent::Disconnected { handle: 200 }]);
    assert_eq!(pads.all().len(), 1);
    // The slot stays reserved while disconnected.
    assert_eq!(pads.find(200), Some(1));
    pads.poll(&vec![connect(200)]);
    assert_eq!(pads.find(200), Some(1));
    assert_eq!(pads.all().len(), 2);
}

#[test]
fn ninth_distinct_handle_is_ignored() {
    let mut pads = Gamepads::new();
    let events: Vec<BackendEvent> = (0..8u64).map(|h| connect(100 + h)).collect();
    pads.poll(&events);
    assert_eq!(pads.all().len(), 8);
    // A ninth distinct handle gets no slot and displaces nobody.
    pads.poll(&vec![connect(999)]);
    assert_eq!(pads.find(999), None);
    assert_eq!(pads.find_or_insert(999), None);
    assert_eq!(pads.all().len(), 8);
    for h in 0..8u64 {
        assert_eq!(pads.find(100 + h), Some(h as usize));
    }
}

#[test]
fn disconnect_of_unknown_handle_claims_a_slot() {
    // The event-stream adapter resolves every event's handle through
    // find-or-insert, so even a stray disconnect reserves the slot.
    let mut pads = Gamepads::new();
    pads.poll(&vec![BackendEvent::Disconnected { handle: 77 }]);
    assert_eq!(pads.find(77), Some(0));
    assert_eq!(pads.all().len(), 0);
}

#[test]
fn setup_initially_connected_primes_the_table() {
    let mut pads = Gamepads::new();
    pads.setup_initially_connected_gilrs(&vec![(7, true), (9, false)]);
    assert_eq!(pads.find(7), Some(0));
    assert_eq!(pads.find(9), Some(1));
    let all = pads.all();
    assert_eq!(all.len(), 1);
    assert_eq!(all[0].id().value(), 0);
}
