use crate::axis::{lemma_normalize_bounds, AXIS_SCALE, DEADZONE_MAX};
use crate::button::Button;
use crate::events::{
    button_from_gilrs_spec, lemma_ingest_snoc, spec_axis_changed, spec_connect, spec_ingest,
    step_event, BackendEvent,
};
use crate::gamepad::{lemma_down_up_same_tick, Gamepad};
use crate::snapshot::{le32_spec, spec_snapshot, SNAPSHOT_BUFFER_LEN, SNAPSHOT_STRIDE};
use crate::store::{
    clear_just_spec, find_slot, lemma_alloc_preserves_slots, lemma_alloc_wf, lemma_find_slot_same,
    lemma_find_slot_some, spec_alloc, spec_button_down, spec_button_up, spec_set_axis,
    spec_set_connected, spec_set_deadzone, GamepadsView, MAX_GAMEPADS,
};
use vstd::prelude::*;

verus! {

/// Clearing the just-pressed masks is a tick boundary, not a table
/// change: it keeps the state well-formed and touches neither slot
/// table nor calibration.
pub proof fn lemma_clear_just_wf(v: GamepadsView)
    requires
        v.wf(),
    ensures
        clear_just_spec(v).wf(),
        clear_just_spec(v).handles == v.handles,
        clear_just_spec(v).num_pads == v.num_pads,
{
}

/// The slot-local mutations preserve well-formedness and leave the
/// slot table alone.
proof fn lemma_setters_wf(v: GamepadsView, i: int, k: int, value: i32, dz: u32, b: Button)
    requires
        v.wf(),
        0 <= i < MAX_GAMEPADS,
        0 <= k < 4,
        -(AXIS_SCALE as int) <= value <= AXIS_SCALE,
    ensures
        spec_set_connected(v, i, true).wf(),
        spec_set_connected(v, i, false).wf(),
        spec_set_axis(v, i, k, value).wf(),
        spec_set_deadzone(v, i, k, dz).wf(),
        spec_button_down(v, i, b).wf(),
        spec_button_up(v, i, b).wf(),
{
}

/// One event-stream step keeps the state well-formed.
pub proof fn lemma_step_event_wf(v: GamepadsView, ev: BackendEvent)
    requires
        v.wf(),
    ensures
        step_event(v, ev).wf(),
        step_event(v, ev).handles == spec_alloc(v, event_handle(ev)).0.handles,
        step_event(v, ev).num_pads == spec_alloc(v, event_handle(ev)).0.num_pads,
{
    let h = event_handle(ev);
    lemma_alloc_wf(v, h);
    let v1 = spec_alloc(v, h).0;
    match ev {
        BackendEvent::Connected { handle, deadzones } => {
            if let Some(i) = spec_alloc(v, h).1 {
                lemma_setters_wf(v1, i, 0, 0, 0, Button::Mode);
                let c1 = spec_set_connected(v1, i, true);
                lemma_setters_wf(c1, i, 0, 0, deadzones.left_x, Button::Mode);
                let c2 = spec_set_deadzone(c1, i, 0, deadzones.left_x);
                lemma_setters_wf(c2, i, 1, 0, deadzones.left_y, Button::Mode);
                let c3 = spec_set_deadzone(c2, i, 1, deadzones.left_y);
                lemma_setters_wf(c3, i, 2, 0, deadzones.right_x, Button::Mode);
                let c4 = spec_set_deadzone(c3, i, 2, deadzones.right_x);
                lemma_setters_wf(c4, i, 3, 0, deadzones.right_y, Button::Mode);
            }
        },
        BackendEvent::Disconnected { handle } => {
            if let Some(i) = spec_alloc(v, h).1 {
                lemma_setters_wf(v1, i, 0, 0, 0, Button::Mode);
            }
        },
        BackendEvent::ButtonPressed { handle, native_button } => {
            if let Some(i) = spec_alloc(v, h).1 {
                if let Some(b) = button_from_gilrs_spec(native_button) {
                    lemma_setters_wf(v1, i, 0, 0, 0, b);
                }
            }
        },
        BackendEvent::ButtonReleased { handle, native_button } => {
            if let Some(i) = spec_alloc(v, h).1 {
                if let Some(b) = button_from_gilrs_spec(native_button) {
                    lemma_setters_wf(v1, i, 0, 0, 0, b);
                }
            }
        },
        BackendEvent::AxisChanged { handle, native_axis, value } => {
            if let Some(i) = spec_alloc(v, h).1 {
                if let Some(k) = crate::events::axis_from_gilrs_spec(native_axis) {
                    let d = v1.deadzones[4 * i + k];
                    lemma_normalize_bounds(
                        crate::axis::clamp_axis_spec(value as int),
                        d as int,
                    );
                    lemma_setters_wf(
                        v1,
                        i,
                        k,
                        crate::axis::normalize_spec(
                            crate::axis::clamp_axis_spec(value as int),
                            d as int,
                        ) as i32,
                        0,
                        Button::Mode,
                    );
                }
            }
        },
    }
}

/// The handle a backend event speaks of.
pub open spec fn event_handle(ev: BackendEvent) -> u64 {
    match ev {
        BackendEvent::Connected { handle, .. } => handle,
        BackendEvent::Disconnected { handle } => handle,
        BackendEvent::ButtonPressed { handle, .. } => handle,
        BackendEvent::ButtonReleased { handle, .. } => handle,
        BackendEvent::AxisChanged { handle, .. } => handle,
    }
}

/// One event-stream step never moves an assigned handle: a handle
/// with a slot keeps exactly that slot.
pub proof fn lemma_step_slot_stable(v: GamepadsView, ev: BackendEvent, h: u64, i: int)
    requires
        v.wf(),
        find_slot(v, h) == Some(i),
    ensures
        find_slot(step_event(v, ev), h) == Some(i),
{
    let eh = event_handle(ev);
    lemma_alloc_preserves_slots(v, eh, h, i);
    lemma_step_event_wf(v, ev);
    lemma_find_slot_same(spec_alloc(v, eh).0, step_event(v, ev), h);
}

/// Slot identity is stable for the process lifetime: once a handle
/// has a slot, any further sequence of polled events (connects,
/// disconnects, buttons, axes, on any handles) leaves it exactly that
/// slot, and the state stays well-formed.
pub proof fn lemma_ingest_slot_stable(
    v: GamepadsView,
    events: Seq<BackendEvent>,
    h: u64,
    i: int,
)
    requires
        v.wf(),
        find_slot(v, h) == Some(i),
    ensures
        spec_ingest(v, events).wf(),
        find_slot(spec_ingest(v, events), h) == Some(i),
    decreases events.len(),
{
    if events.len() > 0 {
        lemma_step_event_wf(v, events[0]);
        lemma_step_slot_stable(v, events[0], h, i);
        lemma_ingest_slot_stable(step_event(v, events[0]), events.drop_first(), h, i);
    }
}

/// A tick keeps every assigned slot: the contract of the per-tick
/// poll, composed over the tick boundary and this tick's events.
pub proof fn lemma_poll_slot_stable(v: GamepadsView, events: Seq<BackendEvent>, h: u64, i: int)
    requires
        v.wf(),
        find_slot(v, h) == Some(i),
    ensures
        spec_ingest(clear_just_spec(v), events).wf(),
        find_slot(spec_ingest(clear_just_spec(v), events), h) == Some(i),
{
    lemma_clear_just_wf(v);
    lemma_find_slot_same(v, clear_just_spec(v), h);
    lemma_ingest_slot_stable(clear_just_spec(v), events, h, i);
}

/// A slot belongs to exactly one handle: two handles that resolve to
/// the same slot are the same handle.
pub proof fn lemma_slot_exclusive(v: GamepadsView, h1: u64, h2: u64, i: int)
    requires
        v.wf(),
        find_slot(v, h1) == Some(i),
        find_slot(v, h2) == Some(i),
    ensures
        h1 == h2,
{
    lemma_find_slot_some(v, h1, i);
    lemma_find_slot_some(v, h2, i);
}

/// A ninth distinct handle while all eight slots are claimed is
/// ignored: any event it sends leaves the state exactly as it was.
pub proof fn lemma_ninth_handle_ignored(v: GamepadsView, ev: BackendEvent)
    requires
        v.wf(),
        v.num_pads == MAX_GAMEPADS,
        find_slot(v, event_handle(ev)) is None,
    ensures
        step_event(v, ev) == v,
{
}

/// A button pressed and released within one tick window is reported
/// by that tick as just-pressed but not currently pressed; the next
/// tick's clearing of the just-pressed masks retracts the report.
/// Stated over the per-tick poll contract, for any prior state, any
/// assigned handle and any mapped native button code.
pub proof fn lemma_press_release_one_tick(
    v: GamepadsView,
    h: u64,
    code: u16,
    i: int,
    b: Button,
)
    requires
        v.wf(),
        find_slot(v, h) == Some(i),
        button_from_gilrs_spec(code) == Some(b),
    ensures
        ({
            let w = spec_ingest(
                clear_just_spec(v),
                seq![
                    BackendEvent::ButtonPressed { handle: h, native_button: code },
                    BackendEvent::ButtonReleased { handle: h, native_button: code },
                ],
            );
            &&& w.gamepads[i].just_pressed_spec(b)
            &&& !w.gamepads[i].pressed_spec(b)
            &&& !clear_just_spec(w).gamepads[i].just_pressed_spec(b)
        }),
{
    let v0 = clear_just_spec(v);
    lemma_clear_just_wf(v);
    lemma_find_slot_same(v, v0, h);
    lemma_find_slot_some(v0, h, i);
    let down = BackendEvent::ButtonPressed { handle: h, native_button: code };
    let up = BackendEvent::ButtonReleased { handle: h, native_button: code };
    let s = seq![down, up];
    assert(s.drop_first() =~= seq![up]);
    assert(seq![up].drop_first() =~= Seq::<BackendEvent>::empty());
    let v1 = step_event(v0, down);
    assert(spec_ingest(v0, s) == spec_ingest(v1, s.drop_first()));
    let v2 = step_event(v1, up);
    assert(spec_ingest(v1, seq![up]) == spec_ingest(v2, Seq::<BackendEvent>::empty()));
    assert(spec_ingest(v0, s) == v2);
    assert(v1 == spec_button_down(v0, i, b));
    lemma_step_event_wf(v0, down);
    lemma_step_slot_stable(v0, down, h, i);
    lemma_find_slot_some(v1, h, i);
    assert(v2 == spec_button_up(v1, i, b));
    let g0 = v0.gamepads[i];
    assert(v2.gamepads[i] == crate::gamepad::with_release(
        crate::gamepad::with_press(g0, b),
        b,
    ));
    lemma_down_up_same_tick(g0, b);
    assert(clear_just_spec(v2).gamepads[i] == (Gamepad {
        just_pressed_bits: 0,
        ..v2.gamepads[i]
    }));
}

/// Whether this event, fired at state `v`, presses `b` on slot `i`:
/// it is a button-down whose handle resolves to that slot and whose
/// native code maps to that button.
pub open spec fn is_press_on(v: GamepadsView, ev: BackendEvent, i: int, b: Button) -> bool {
    match ev {
        BackendEvent::ButtonPressed { handle, native_button } => spec_alloc(v, handle).1 == Some(i)
            && button_from_gilrs_spec(native_button) == Some(b),
        _ => false,
    }
}

/// Whether, in the course of ingesting `events` from state `v`, some
/// event presses `b` on slot `i`.
pub open spec fn presses_on_slot(
    v: GamepadsView,
    events: Seq<BackendEvent>,
    i: int,
    b: Button,
) -> bool
    decreases events.len(),
{
    if events.len() == 0 {
        false
    } else {
        is_press_on(v, events[0], i, b) || presses_on_slot(
            step_event(v, events[0]),
            events.drop_first(),
            i,
            b,
        )
    }
}

/// An event that does not press `b` on slot `i` leaves a clear edge
/// clear there.
proof fn lemma_step_keeps_edge_clear(v: GamepadsView, ev: BackendEvent, i: int, b: Button)
    requires
        v.wf(),
        0 <= i < MAX_GAMEPADS,
        !v.gamepads[i].just_pressed_spec(b),
        !is_press_on(v, ev, i, b),
    ensures
        !step_event(v, ev).gamepads[i].just_pressed_spec(b),
{
    let h = event_handle(ev);
    lemma_alloc_wf(v, h);
    let v1 = spec_alloc(v, h).0;
    assert(v1.gamepads[i] == v.gamepads[i]);
    match ev {
        BackendEvent::Connected { handle, deadzones } => {
            if let Some(j) = spec_alloc(v, h).1 {
                assert(step_event(v, ev).gamepads[i].just_pressed_bits
                    == v.gamepads[i].just_pressed_bits);
            }
        },
        BackendEvent::Disconnected { handle } => {
            if let Some(j) = spec_alloc(v, h).1 {
                assert(step_event(v, ev).gamepads[i].just_pressed_bits
                    == v.gamepads[i].just_pressed_bits);
            }
        },
        BackendEvent::ButtonPressed { handle, native_button } => {
            if let Some(j) = spec_alloc(v, h).1 {
                if let Some(b2) = button_from_gilrs_spec(native_button) {
                    if j == i {
                        assert(b2 != b);
                        crate::gamepad::lemma_press_effect(v1.gamepads[i], b2, b);
                    }
                }
            }
        },
        BackendEvent::ButtonReleased { handle, native_button } => {
            if let Some(j) = spec_alloc(v, h).1 {
                if let Some(b2) = button_from_gilrs_spec(native_button) {
                    if j == i {
                        crate::gamepad::lemma_release_effect(v1.gamepads[i], b2, b);
                    }
                }
            }
        },
        BackendEvent::AxisChanged { handle, native_axis, value } => {
            if let Some(j) = spec_alloc(v, h).1 {
                if let Some(k) = crate::events::axis_from_gilrs_spec(native_axis) {
                    assert(step_event(v, ev).gamepads[i].just_pressed_bits
                        == v.gamepads[i].just_pressed_bits);
                }
            }
        },
    }
}

proof fn lemma_edge_clear_ingest(v: GamepadsView, events: Seq<BackendEvent>, i: int, b: Button)
    requires
        v.wf(),
        0 <= i < MAX_GAMEPADS,
        !v.gamepads[i].just_pressed_spec(b),
        !presses_on_slot(v, events, i, b),
    ensures
        spec_ingest(v, events).wf(),
        !spec_ingest(v, events).gamepads[i].just_pressed_spec(b),
    decreases events.len(),
{
    if events.len() > 0 {
        lemma_step_event_wf(v, events[0]);
        lemma_step_keeps_edge_clear(v, events[0], i, b);
        lemma_edge_clear_ingest(step_event(v, events[0]), events.drop_first(), i, b);
    }
}

/// A just-pressed edge needs a press in the same tick window: a tick
/// none of whose events presses `b` on slot `i` ends with `b`'s edge
/// clear there. In particular an edge from an earlier tick is cleared
/// at the tick boundary and never resurrected by unrelated traffic —
/// connects, disconnects, axis moves, releases, or presses of other
/// buttons or on other slots.
pub proof fn lemma_edge_requires_press(
    v: GamepadsView,
    events: Seq<BackendEvent>,
    i: int,
    b: Button,
)
    requires
        v.wf(),
        0 <= i < MAX_GAMEPADS,
        !presses_on_slot(clear_just_spec(v), events, i, b),
    ensures
        spec_ingest(clear_just_spec(v), events).wf(),
        !spec_ingest(clear_just_spec(v), events).gamepads[i].just_pressed_spec(b),
{
    lemma_clear_just_wf(v);
    crate::button::lemma_button_index(b);
    crate::gamepad::lemma_zero_bit(b.index_spec());
    lemma_edge_clear_ingest(clear_just_spec(v), events, i, b);
}

/// The just-pressed derivation of a snapshot tick compares the fresh
/// bitmask against the pressed mask the slot had when the tick began:
/// the previous tick's mask is captured before the overwrite, so the
/// derivation always relates two consecutive ticks.
pub proof fn lemma_snapshot_previous_mask(v: GamepadsView, b: Seq<u8>, i: int)
    requires
        v.wf(),
        b.len() == SNAPSHOT_BUFFER_LEN,
        0 <= i < MAX_GAMEPADS,
    ensures
        ({
            let w = spec_snapshot(v, b);
            let off = i * (SNAPSHOT_STRIDE as int) + 17;
            &&& w.gamepads[i].pressed_bits == le32_spec(b, off)
            &&& w.gamepads[i].just_pressed_bits == le32_spec(b, off) & !v.gamepads[i].pressed_bits
        }),
{
}

/// The snapshot adapter derives the just-pressed mask from two
/// consecutive snapshots: after ticks reading buffers `b1` then `b2`,
/// a slot's just-pressed mask is exactly the fresh pressed mask with
/// the previous tick's pressed bits removed.
pub proof fn lemma_snapshot_edge(v: GamepadsView, b1: Seq<u8>, b2: Seq<u8>, i: int)
    requires
        v.wf(),
        b1.len() == SNAPSHOT_BUFFER_LEN,
        b2.len() == SNAPSHOT_BUFFER_LEN,
        0 <= i < MAX_GAMEPADS,
    ensures
        ({
            let w = spec_snapshot(spec_snapshot(v, b1), b2);
            let off = i * (SNAPSHOT_STRIDE as int) + 17;
            &&& w.gamepads[i].pressed_bits == le32_spec(b2, off)
            &&& w.gamepads[i].just_pressed_bits == le32_spec(b2, off) & !le32_spec(b1, off)
        }),
{
}

/// The same derivation read per button: after two snapshot ticks a
/// button is just-pressed exactly when it is pressed now and was not
/// pressed in the previous snapshot.
pub proof fn lemma_snapshot_edge_per_button(
    v: GamepadsView,
    b1: Seq<u8>,
    b2: Seq<u8>,
    i: int,
    btn: Button,
)
    requires
        v.wf(),
        b1.len() == SNAPSHOT_BUFFER_LEN,
        b2.len() == SNAPSHOT_BUFFER_LEN,
        0 <= i < MAX_GAMEPADS,
    ensures
        ({
            let prev = spec_snapshot(v, b1);
            let w = spec_snapshot(prev, b2);
            w.gamepads[i].just_pressed_spec(btn) == (w.gamepads[i].pressed_spec(btn)
                && !prev.gamepads[i].pressed_spec(btn))
        }),
{
    let off = i * (SNAPSHOT_STRIDE as int) + 17;
    crate::button::lemma_button_index(btn);
    crate::gamepad::lemma_edge_bit(le32_spec(b2, off), le32_spec(b1, off), btn.index_spec());
}

} // verus!
