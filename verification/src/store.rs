use crate::axis::{AXIS_SCALE, DEADZONE_MAX};
use crate::button::Button;
use crate::gamepad::{with_press, with_release, Gamepad, GamepadId};
use crate::haptics::LiveEffect;
use vstd::prelude::*;

verus! {

/// Number of device slots: at most this many devices are tracked at
/// once; further distinct devices are silently ignored.
pub const MAX_GAMEPADS: usize = 8;

/// Context owning the device slot table, the per-slot button/axis
/// state, the per-slot axis deadzones and the live haptic-effect
/// ledger.
///
/// A host glue layer drives it once per tick with whatever its backend
/// delivers: discrete events ([`Gamepads::poll`]), a whole-state
/// snapshot buffer ([`Gamepads::poll_snapshot`]) or raw window events
/// ([`Gamepads::on_event`]); afterwards the queries reflect exactly the
/// ingested state until the next tick.
pub struct Gamepads {
    pub(crate) gamepads: Vec<Gamepad>,
    pub(crate) native_handles: Vec<u64>,
    pub(crate) num_connected_pads: u8,
    pub(crate) deadzones: Vec<u32>,
    pub(crate) playing_effects: Vec<LiveEffect>,
    pub(crate) next_effect_token: u64,
}

/// The mathematical state of a [`Gamepads`] value.
#[verifier::ext_equal]
pub ghost struct GamepadsView {
    /// Per-slot button/axis state.
    pub gamepads: Seq<Gamepad>,
    /// Backend-native handle stored in each slot; meaningful for the
    /// first `num_pads` slots only.
    pub handles: Seq<u64>,
    /// Number of slots ever claimed by a device.
    pub num_pads: u8,
    /// Per-slot, per-axis deadzones, flattened: slot `i`, axis `k` is
    /// at `4 * i + k`.
    pub deadzones: Seq<u32>,
    /// Live haptic-effect ledger.
    pub effects: Seq<LiveEffect>,
    /// Token for the next planned haptic effect.
    pub next_token: u64,
}

impl View for Gamepads {
    type V = GamepadsView;

    closed spec fn view(&self) -> GamepadsView {
        GamepadsView {
            gamepads: self.gamepads@,
            handles: self.native_handles@,
            num_pads: self.num_connected_pads,
            deadzones: self.deadzones@,
            effects: self.playing_effects@,
            next_token: self.next_effect_token,
        }
    }
}

/// The view is exactly the fields: crate-internal bridge for modules
/// that implement further operations on [`Gamepads`].
pub(crate) proof fn reveal_view(g: Gamepads)
    ensures
        g@ == (GamepadsView {
            gamepads: g.gamepads@,
            handles: g.native_handles@,
            num_pads: g.num_connected_pads,
            deadzones: g.deadzones@,
            effects: g.playing_effects@,
            next_token: g.next_effect_token,
        }),
{
}

/// The axes of a pad lie in the representable range.
pub open spec fn pad_axes_wf(g: Gamepad) -> bool {
    &&& -(AXIS_SCALE as int) <= g.left_x <= AXIS_SCALE
    &&& -(AXIS_SCALE as int) <= g.left_y <= AXIS_SCALE
    &&& -(AXIS_SCALE as int) <= g.right_x <= AXIS_SCALE
    &&& -(AXIS_SCALE as int) <= g.right_y <= AXIS_SCALE
}

impl GamepadsView {
    /// Well-formedness: fixed table sizes, slot ids equal to slot
    /// indices, axes and deadzones in range, and distinct handles in
    /// the claimed slots.
    pub open spec fn wf(self) -> bool {
        &&& self.gamepads.len() == MAX_GAMEPADS
        &&& self.handles.len() == MAX_GAMEPADS
        &&& self.deadzones.len() == 4 * MAX_GAMEPADS
        &&& self.num_pads <= MAX_GAMEPADS
        &&& forall|i: int|
            0 <= i < MAX_GAMEPADS ==> (#[trigger] self.gamepads[i]).id.spec_value() == i
        &&& forall|i: int| 0 <= i < MAX_GAMEPADS ==> pad_axes_wf(#[trigger] self.gamepads[i])
        &&& forall|k: int|
            0 <= k < 4 * MAX_GAMEPADS ==> (#[trigger] self.deadzones[k]) <= DEADZONE_MAX
        &&& forall|i: int, j: int|
            0 <= i < j < self.num_pads ==> self.handles[i] != self.handles[j]
    }
}

/// A freshly constructed pad state: disconnected, nothing pressed,
/// sticks neutral, id equal to the slot index.
pub open spec fn initial_pad_spec(g: Gamepad, i: int) -> bool {
    &&& g.id.spec_value() == i
    &&& !g.connected
    &&& g.pressed_bits == 0
    &&& g.just_pressed_bits == 0
    &&& g.left_x == 0
    &&& g.left_y == 0
    &&& g.right_x == 0
    &&& g.right_y == 0
}

/// `Some(i)` exactly when one of the first `num_pads` slots, scanned
/// from `k` upward, holds `handle`; the first such slot.
pub open spec fn find_slot_from(v: GamepadsView, handle: u64, k: int) -> Option<int>
    decreases v.num_pads - k,
{
    if k < 0 || k >= v.num_pads {
        None
    } else if v.handles[k] == handle {
        Some(k)
    } else {
        find_slot_from(v, handle, k + 1)
    }
}

/// The slot holding `handle`, if a device with that handle has ever
/// been seen.
pub open spec fn find_slot(v: GamepadsView, handle: u64) -> Option<int> {
    find_slot_from(v, handle, 0)
}

/// Find-or-insert on the slot table: an already-known handle resolves
/// to its slot and changes nothing; an unknown handle claims the next
/// free slot if one is left, and is refused otherwise.
pub open spec fn spec_alloc(v: GamepadsView, handle: u64) -> (GamepadsView, Option<int>) {
    match find_slot(v, handle) {
        Some(i) => (v, Some(i)),
        None => {
            if (v.num_pads as int) < (MAX_GAMEPADS as int) {
                (
                    GamepadsView {
                        handles: v.handles.update(v.num_pads as int, handle),
                        num_pads: (v.num_pads + 1) as u8,
                        ..v
                    },
                    Some(v.num_pads as int),
                )
            } else {
                (v, None)
            }
        },
    }
}

/// The state with every just-pressed mask cleared: what the start of a
/// tick does, so that edges stay visible until the next tick begins.
pub open spec fn clear_just_spec(v: GamepadsView) -> GamepadsView {
    GamepadsView {
        gamepads: Seq::new(
            v.gamepads.len(),
            |i: int| Gamepad { just_pressed_bits: 0, ..v.gamepads[i] },
        ),
        ..v
    }
}

/// The state after a button-down on a slot.
pub open spec fn spec_button_down(v: GamepadsView, i: int, b: Button) -> GamepadsView {
    GamepadsView { gamepads: v.gamepads.update(i, with_press(v.gamepads[i], b)), ..v }
}

/// The state after a button-up on a slot.
pub open spec fn spec_button_up(v: GamepadsView, i: int, b: Button) -> GamepadsView {
    GamepadsView { gamepads: v.gamepads.update(i, with_release(v.gamepads[i], b)), ..v }
}

/// The usize option as a mathematical option.
pub open spec fn opt_index(r: Option<usize>) -> Option<int> {
    match r {
        Some(u) => Some(u as int),
        None => None,
    }
}

/// Scanning from `k` finds nothing if the whole scan finds nothing
/// before `k`.
proof fn lemma_find_slot_prefix(v: GamepadsView, handle: u64, k: int)
    requires
        0 <= k <= v.num_pads,
        forall|j: int| 0 <= j < k ==> v.handles[j] != handle,
    ensures
        find_slot(v, handle) == find_slot_from(v, handle, k),
    decreases k,
{
    if k > 0 {
        lemma_find_slot_prefix(v, handle, k - 1);
    }
}

/// A failed scan from `k` means no slot from `k` on holds the handle.
proof fn lemma_find_slot_none(v: GamepadsView, handle: u64, k: int)
    requires
        0 <= k,
        find_slot_from(v, handle, k) == None::<int>,
    ensures
        forall|j: int| k <= j < v.num_pads ==> v.handles[j] != handle,
    decreases v.num_pads - k,
{
    if k < v.num_pads {
        lemma_find_slot_none(v, handle, k + 1);
    }
}

/// What a successful slot lookup means: the handle is in that slot,
/// and in no earlier one.
pub proof fn lemma_find_slot_some(v: GamepadsView, handle: u64, i: int)
    requires
        find_slot(v, handle) == Some(i),
    ensures
        0 <= i < v.num_pads,
        v.handles[i] == handle,
        forall|j: int| 0 <= j < i ==> v.handles[j] != handle,
    decreases v.num_pads,
{
    lemma_find_slot_some_from(v, handle, 0, i);
}

proof fn lemma_find_slot_some_from(v: GamepadsView, handle: u64, k: int, i: int)
    requires
        0 <= k,
        find_slot_from(v, handle, k) == Some(i),
    ensures
        k <= i < v.num_pads,
        v.handles[i] == handle,
        forall|j: int| k <= j < i ==> v.handles[j] != handle,
    decreases v.num_pads - k,
{
    if k < v.num_pads && v.handles[k] != handle {
        lemma_find_slot_some_from(v, handle, k + 1, i);
    }
}

impl Gamepads {
    /// Construct a new gamepads instance: all slots free, all pads
    /// disconnected and neutral, no live haptic effects.
    pub fn new() -> (r: Gamepads)
        ensures
            r@.wf(),
            r@.num_pads == 0,
            r@.effects =~= Seq::<LiveEffect>::empty(),
            r@.next_token == 0,
            forall|i: int| 0 <= i < MAX_GAMEPADS ==> initial_pad_spec(#[trigger] r@.gamepads[i], i),
            forall|k: int| 0 <= k < 4 * MAX_GAMEPADS ==> (#[trigger] r@.deadzones[k]) == 0,
    {
        let mut pads: Vec<Gamepad> = Vec::new();
        let mut handles: Vec<u64> = Vec::new();
        let mut i: usize = 0;
        while i < MAX_GAMEPADS
            invariant
                i <= MAX_GAMEPADS,
                pads@.len() == i,
                handles@.len() == i,
                forall|j: int| 0 <= j < i ==> initial_pad_spec(#[trigger] pads@[j], j),
                forall|j: int| 0 <= j < i ==> (#[trigger] handles@[j]) == 0,
            decreases MAX_GAMEPADS - i,
        {
            pads.push(
                Gamepad {
                    id: GamepadId::new_id(i as u8),
                    connected: false,
                    pressed_bits: 0,
                    just_pressed_bits: 0,
                    left_x: 0,
                    left_y: 0,
                    right_x: 0,
                    right_y: 0,
                },
            );
            handles.push(0);
            i = i + 1;
        }
        let mut deadzones: Vec<u32> = Vec::new();
        let mut k: usize = 0;
        while k < 4 * MAX_GAMEPADS
            invariant
                k <= 4 * MAX_GAMEPADS,
                deadzones@.len() == k,
                forall|j: int| 0 <= j < k ==> (#[trigger] deadzones@[j]) == 0,
            decreases 4 * MAX_GAMEPADS - k,
        {
            deadzones.push(0);
            k = k + 1;
        }
        Gamepads {
            gamepads: pads,
            native_handles: handles,
            num_connected_pads: 0,
            deadzones,
            playing_effects: Vec::new(),
            next_effect_token: 0,
        }
    }

    /// Look up the slot of a backend-native handle without claiming
    /// one: used for metadata lookups that must not create slots for
    /// noise events.
    pub fn find(&self, handle: u64) -> (r: Option<usize>)
        requires
            self@.wf(),
        ensures
            opt_index(r) == find_slot(self@, handle),
    {
        let n = self.num_connected_pads as usize;
        let mut k: usize = 0;
        while k < n
            invariant
                self@.wf(),
                n == self@.num_pads,
                k <= n,
                forall|j: int| 0 <= j < k ==> self@.handles[j] != handle,
            decreases n - k,
        {
            if self.native_handles[k] == handle {
                proof {
                    lemma_find_slot_prefix(self@, handle, k as int);
                }
                return Some(k);
            }
            k = k + 1;
        }
        proof {
            lemma_find_slot_prefix(self@, handle, n as int);
        }
        None
    }

    /// Resolve a backend-native handle to its slot, claiming the next
    /// free slot for a handle seen for the first time. Returns nothing
    /// when the handle is unknown and all slots are taken: the caller
    /// silently drops the event, a capacity limit rather than an
    /// error.
    pub fn find_or_insert(&mut self, handle: u64) -> (r: Option<usize>)
        requires
            old(self)@.wf(),
        ensures
            final(self)@.wf(),
            final(self)@ == spec_alloc(old(self)@, handle).0,
            opt_index(r) == spec_alloc(old(self)@, handle).1,
            r matches Some(i) ==> i < MAX_GAMEPADS,
    {
        let found = self.find(handle);
        match found {
            Some(i) => {
                proof {
                    lemma_find_slot_some(self@, handle, i as int);
                }
                Some(i)
            },
            None => {
                if self.num_connected_pads as usize == MAX_GAMEPADS {
                    None
                } else {
                    let idx = self.num_connected_pads as usize;
                    let ghost pre = self@;
                    self.native_handles.set(idx, handle);
                    self.num_connected_pads = self.num_connected_pads + 1;
                    proof {
                        reveal_view(*old(self));
                        reveal_view(*self);
                        assert(self@ =~= spec_alloc(pre, handle).0);
                        lemma_find_slot_none(pre, handle, 0);
                        assert(self@.wf());
                    }
                    Some(idx)
                }
            },
        }
    }

    /// Clear every slot's just-pressed mask: run once at the start of
    /// each tick, before the tick's input is applied, so edges seen
    /// during the tick stay visible until the next tick begins.
    pub fn begin_tick(&mut self)
        requires
            old(self)@.wf(),
        ensures
            final(self)@.wf(),
            final(self)@ == clear_just_spec(old(self)@),
    {
        let mut i: usize = 0;
        while i < MAX_GAMEPADS
            invariant
                old(self)@.wf(),
                self@.gamepads.len() == MAX_GAMEPADS,
                i <= MAX_GAMEPADS,
                self@.handles == old(self)@.handles,
                self@.num_pads == old(self)@.num_pads,
                self@.deadzones == old(self)@.deadzones,
                self@.effects == old(self)@.effects,
                self@.next_token == old(self)@.next_token,
                forall|j: int|
                    0 <= j < i ==> (#[trigger] self@.gamepads[j]) == (Gamepad {
                        just_pressed_bits: 0,
                        ..old(self)@.gamepads[j]
                    }),
                forall|j: int|
                    i <= j < MAX_GAMEPADS ==> (#[trigger] self@.gamepads[j]) == old(
                        self,
                    )@.gamepads[j],
            decreases MAX_GAMEPADS - i,
        {
            let mut g = self.gamepads[i];
            g.just_pressed_bits = 0;
            self.gamepads.set(i, g);
            proof {
                reveal_view(*self);
            }
            i = i + 1;
        }
        proof {
            assert(self@ =~= clear_just_spec(old(self)@));
        }
    }

    /// Record a button-down on a slot: the button becomes both
    /// currently pressed and just pressed.
    pub fn apply_button_down(&mut self, slot: usize, button: Button)
        requires
            old(self)@.wf(),
            slot < MAX_GAMEPADS,
        ensures
            final(self)@.wf(),
            final(self)@ == spec_button_down(old(self)@, slot as int, button),
    {
        let g = self.gamepads[slot];
        let g2 = g.press(button);
        self.gamepads.set(slot, g2);
        proof {
            reveal_view(*old(self));
            reveal_view(*self);
            assert(self@ =~= spec_button_down(old(self)@, slot as int, button));
        }
    }

    /// Record a button-up on a slot: the button is no longer currently
    /// pressed, but a just-press recorded earlier in the same tick
    /// stands.
    pub fn apply_button_up(&mut self, slot: usize, button: Button)
        requires
            old(self)@.wf(),
            slot < MAX_GAMEPADS,
        ensures
            final(self)@.wf(),
            final(self)@ == spec_button_up(old(self)@, slot as int, button),
    {
        let g = self.gamepads[slot];
        let g2 = g.release(button);
        self.gamepads.set(slot, g2);
        proof {
            reveal_view(*old(self));
            reveal_view(*self);
            assert(self@ =~= spec_button_up(old(self)@, slot as int, button));
        }
    }

    /// Get a gamepad by id, returning nothing if it is not currently
    /// connected. The state reflects the most recent tick.
    pub fn get(&self, gamepad_id: GamepadId) -> (r: Option<Gamepad>)
        requires
            self@.wf(),
        ensures
            r == spec_get(self@, gamepad_id),
    {
        let idx = gamepad_id.value() as usize;
        if idx < MAX_GAMEPADS {
            let pad = self.gamepads[idx];
            if pad.connected {
                Some(pad)
            } else {
                None
            }
        } else {
            None
        }
    }

    /// All connected gamepads, in slot order. The state reflects the
    /// most recent tick.
    pub fn all(&self) -> (r: Vec<Gamepad>)
        requires
            self@.wf(),
        ensures
            r@ == connected_pads(self@),
    {
        let mut r: Vec<Gamepad> = Vec::new();
        let mut i: usize = 0;
        while i < MAX_GAMEPADS
            invariant
                self@.wf(),
                i <= MAX_GAMEPADS,
                r@ == connected_prefix(self@, i as int),
            decreases MAX_GAMEPADS - i,
        {
            let pad = self.gamepads[i];
            if pad.connected {
                r.push(pad);
            }
            proof {
                assert(r@ =~= connected_prefix(self@, i + 1));
            }
            i = i + 1;
        }
        r
    }
}

/// The gamepad returned for an id: the slot's state if the id names a
/// slot whose device is connected, nothing otherwise.
pub open spec fn spec_get(v: GamepadsView, gamepad_id: GamepadId) -> Option<Gamepad> {
    let i = gamepad_id.spec_value() as int;
    if i < MAX_GAMEPADS && v.gamepads[i].connected {
        Some(v.gamepads[i])
    } else {
        None
    }
}

/// The connected pads among the first `n` slots, in slot order.
pub open spec fn connected_prefix(v: GamepadsView, n: int) -> Seq<Gamepad>
    decreases n,
{
    if n <= 0 {
        Seq::empty()
    } else {
        connected_prefix(v, n - 1) + if v.gamepads[n - 1].connected {
            seq![v.gamepads[n - 1]]
        } else {
            Seq::empty()
        }
    }
}

/// The connected pads, in slot order: what the listing query yields.
pub open spec fn connected_pads(v: GamepadsView) -> Seq<Gamepad> {
    connected_prefix(v, MAX_GAMEPADS as int)
}

/// The listing holds a slot's state exactly when that slot is
/// connected.
pub proof fn lemma_connected_pads_contains(v: GamepadsView, i: int)
    requires
        v.wf(),
        0 <= i < MAX_GAMEPADS,
    ensures
        connected_pads(v).contains(v.gamepads[i]) == v.gamepads[i].connected,
{
    lemma_connected_prefix_contains(v, MAX_GAMEPADS as int, i);
}

proof fn lemma_connected_prefix_contains(v: GamepadsView, n: int, i: int)
    requires
        v.wf(),
        0 <= i < MAX_GAMEPADS,
        0 <= n <= MAX_GAMEPADS,
    ensures
        connected_prefix(v, n).contains(v.gamepads[i]) == (i < n && v.gamepads[i].connected),
    decreases n,
{
    if n > 0 {
        lemma_connected_prefix_contains(v, n - 1, i);
        let prev = connected_prefix(v, n - 1);
        let g = v.gamepads[n - 1];
        if g.connected {
            assert(connected_prefix(v, n) == prev + seq![g]);
            if i == n - 1 {
                assert(connected_prefix(v, n)[prev.len() as int] == g);
                assert(connected_prefix(v, n).contains(v.gamepads[i]));
            } else {
                assert(v.gamepads[i] != g) by {
                    assert(v.gamepads[i].id.spec_value() == i);
                    assert(g.id.spec_value() == n - 1);
                }
                assert(connected_prefix(v, n).contains(v.gamepads[i]) == prev.contains(
                    v.gamepads[i],
                )) by {
                    if prev.contains(v.gamepads[i]) {
                        let k = choose|k: int| 0 <= k < prev.len() && prev[k] == v.gamepads[i];
                        assert(connected_prefix(v, n)[k] == v.gamepads[i]);
                    }
                    if connected_prefix(v, n).contains(v.gamepads[i]) {
                        let k = choose|k: int|
                            0 <= k < connected_prefix(v, n).len() && connected_prefix(v, n)[k]
                                == v.gamepads[i];
                        assert(k < prev.len());
                        assert(prev[k] == v.gamepads[i]);
                    }
                }
            }
        } else {
            assert(connected_prefix(v, n) =~= prev);
        }
    }
}

/// Find-or-insert keeps the state well-formed, and a yielded slot is
/// in range.
pub proof fn lemma_alloc_wf(v: GamepadsView, handle: u64)
    requires
        v.wf(),
    ensures
        spec_alloc(v, handle).0.wf(),
        spec_alloc(v, handle).1 matches Some(i) ==> 0 <= i < MAX_GAMEPADS,
        spec_alloc(v, handle).0.gamepads == v.gamepads,
        spec_alloc(v, handle).0.deadzones == v.deadzones,
        spec_alloc(v, handle).0.effects == v.effects,
        spec_alloc(v, handle).0.next_token == v.next_token,
{
    match find_slot(v, handle) {
        Some(i) => {
            lemma_find_slot_some(v, handle, i);
        },
        None => {
            lemma_find_slot_none(v, handle, 0);
        },
    }
}

/// The slot scan depends only on the handle table and the claim
/// count.
pub proof fn lemma_find_slot_same(v1: GamepadsView, v2: GamepadsView, handle: u64)
    requires
        v1.handles == v2.handles,
        v1.num_pads == v2.num_pads,
    ensures
        find_slot(v1, handle) == find_slot(v2, handle),
{
    lemma_find_slot_same_from(v1, v2, handle, 0);
}

proof fn lemma_find_slot_same_from(v1: GamepadsView, v2: GamepadsView, handle: u64, k: int)
    requires
        v1.handles == v2.handles,
        v1.num_pads == v2.num_pads,
    ensures
        find_slot_from(v1, handle, k) == find_slot_from(v2, handle, k),
    decreases v1.num_pads - k,
{
    if 0 <= k < v1.num_pads && v1.handles[k] != handle {
        lemma_find_slot_same_from(v1, v2, handle, k + 1);
    }
}

/// Slot assignments are stable: whatever find-or-insert is later asked
/// for, a handle that has a slot keeps exactly that slot.
pub proof fn lemma_alloc_preserves_slots(v: GamepadsView, handle: u64, h2: u64, i: int)
    requires
        v.wf(),
        find_slot(v, h2) == Some(i),
    ensures
        find_slot(spec_alloc(v, handle).0, h2) == Some(i),
{
    let v2 = spec_alloc(v, handle).0;
    lemma_find_slot_some(v, h2, i);
    if find_slot(v, handle) is None && (v.num_pads as int) < (MAX_GAMEPADS as int) {
        lemma_find_slot_none(v, handle, 0);
        assert(v2.handles[i] == h2);
        lemma_find_slot_prefix(v2, h2, i);
        assert(find_slot_from(v2, h2, i) == Some(i));
    }
}

/// The state with a slot's connection flag set to `connected`.
pub open spec fn spec_set_connected(v: GamepadsView, i: int, connected: bool) -> GamepadsView {
    GamepadsView { gamepads: v.gamepads.update(i, Gamepad { connected, ..v.gamepads[i] }), ..v }
}

/// The pad with axis `k` set to `value`.
pub open spec fn pad_with_axis(g: Gamepad, k: int, value: i32) -> Gamepad {
    if k == 0 {
        Gamepad { left_x: value, ..g }
    } else if k == 1 {
        Gamepad { left_y: value, ..g }
    } else if k == 2 {
        Gamepad { right_x: value, ..g }
    } else {
        Gamepad { right_y: value, ..g }
    }
}

/// The state with axis `k` of slot `i` set to `value`.
pub open spec fn spec_set_axis(v: GamepadsView, i: int, k: int, value: i32) -> GamepadsView {
    GamepadsView { gamepads: v.gamepads.update(i, pad_with_axis(v.gamepads[i], k, value)), ..v }
}

/// The state with the deadzone of slot `i`, axis `k` set to the
/// clamped `deadzone`.
pub open spec fn spec_set_deadzone(v: GamepadsView, i: int, k: int, deadzone: u32) -> GamepadsView {
    GamepadsView {
        deadzones: v.deadzones.update(
            4 * i + k,
            crate::axis::clamp_deadzone_spec(deadzone as int) as u32,
        ),
        ..v
    }
}

impl Gamepads {
    /// Set a slot's connection flag.
    pub fn set_connected(&mut self, slot: usize, connected: bool)
        requires
            old(self)@.wf(),
            slot < MAX_GAMEPADS,
        ensures
            final(self)@.wf(),
            final(self)@ == spec_set_connected(old(self)@, slot as int, connected),
    {
        let mut g = self.gamepads[slot];
        g.connected = connected;
        self.gamepads.set(slot, g);
        proof {
            reveal_view(*old(self));
            reveal_view(*self);
            assert(self@ =~= spec_set_connected(old(self)@, slot as int, connected));
        }
    }

    /// Store an axis value, already normalized and in range.
    pub(crate) fn set_axis_value(&mut self, slot: usize, k: usize, value: i32)
        requires
            old(self)@.wf(),
            slot < MAX_GAMEPADS,
            k < 4,
            -(AXIS_SCALE as int) <= value <= AXIS_SCALE,
        ensures
            final(self)@.wf(),
            final(self)@ == spec_set_axis(old(self)@, slot as int, k as int, value),
    {
        let mut g = self.gamepads[slot];
        if k == 0 {
            g.left_x = value;
        } else if k == 1 {
            g.left_y = value;
        } else if k == 2 {
            g.right_x = value;
        } else {
            g.right_y = value;
        }
        self.gamepads.set(slot, g);
        proof {
            reveal_view(*old(self));
            reveal_view(*self);
            assert(self@ =~= spec_set_axis(old(self)@, slot as int, k as int, value));
        }
    }

    /// Store a discovered deadzone for one axis of a slot, clamped to
    /// the admissible range.
    pub(crate) fn set_deadzone(&mut self, slot: usize, k: usize, deadzone: u32)
        requires
            old(self)@.wf(),
            slot < MAX_GAMEPADS,
            k < 4,
        ensures
            final(self)@.wf(),
            final(self)@ == spec_set_deadzone(old(self)@, slot as int, k as int, deadzone),
    {
        let clamped = crate::axis::clamp_deadzone(deadzone);
        self.deadzones.set(4 * slot + k, clamped);
        proof {
            reveal_view(*old(self));
            reveal_view(*self);
            assert(self@ =~= spec_set_deadzone(old(self)@, slot as int, k as int, deadzone));
        }
    }
}

/// With all eight slots claimed by other handles, a new distinct
/// handle is ignored: find-or-insert changes nothing and yields no
/// slot.
pub proof fn lemma_full_table_ignores(v: GamepadsView, handle: u64)
    requires
        v.wf(),
        v.num_pads == MAX_GAMEPADS,
        find_slot(v, handle) is None,
    ensures
        spec_alloc(v, handle) == (v, None::<int>),
{
}

} // verus!
