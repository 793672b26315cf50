use crate::axis::clamp_axis_spec;
use crate::gamepad::Gamepad;
use crate::store::{reveal_view, Gamepads, GamepadsView, MAX_GAMEPADS};
use vstd::prelude::*;

verus! {

/// Byte stride of one per-slot record in the snapshot buffer: one
/// connectivity byte, four little-endian 32-bit fixed-point axes, one
/// little-endian 32-bit pressed bitmask.
pub const SNAPSHOT_STRIDE: usize = 21;

/// Total size of a snapshot buffer: one record per slot. A buffer of
/// any other length is a layout mismatch and is refused whole.
pub const SNAPSHOT_BUFFER_LEN: usize = 168;

/// The little-endian 32-bit unsigned value at offset `o`.
pub open spec fn le32_spec(b: Seq<u8>, o: int) -> u32 {
    (b[o] + b[o + 1] * 0x100 + b[o + 2] * 0x1_0000 + b[o + 3] * 0x100_0000) as u32
}

/// The little-endian 32-bit two's-complement value at offset `o`.
pub open spec fn le_i32_spec(b: Seq<u8>, o: int) -> int {
    let u = le32_spec(b, o) as int;
    if u < 0x8000_0000 {
        u
    } else {
        u - 0x1_0000_0000
    }
}

/// One slot's state after a snapshot: connectivity byte, axes and
/// pressed bitmask come from the slot's record; the just-pressed mask
/// is derived by comparing the fresh bitmask against the slot's
/// previous one, `fresh & !previous`. A press released again between
/// two snapshots leaves no edge for this derivation to see: this
/// backend reports current state only, so just-pressed is coarser
/// here than under the event-stream backend.
pub open spec fn snap_pad_spec(g: Gamepad, b: Seq<u8>, i: int) -> Gamepad {
    let base = i * (SNAPSHOT_STRIDE as int);
    let fresh = le32_spec(b, base + 17);
    Gamepad {
        id: g.id,
        connected: b[base] != 0,
        pressed_bits: fresh,
        just_pressed_bits: fresh & !g.pressed_bits,
        left_x: clamp_axis_spec(le_i32_spec(b, base + 1)) as i32,
        left_y: clamp_axis_spec(le_i32_spec(b, base + 5)) as i32,
        right_x: clamp_axis_spec(le_i32_spec(b, base + 9)) as i32,
        right_y: clamp_axis_spec(le_i32_spec(b, base + 13)) as i32,
    }
}

/// The state after one snapshot tick: every slot is overwritten from
/// its record; slot table, deadzones and haptics are untouched.
pub open spec fn spec_snapshot(v: GamepadsView, b: Seq<u8>) -> GamepadsView {
    GamepadsView {
        gamepads: Seq::new(v.gamepads.len(), |i: int| snap_pad_spec(v.gamepads[i], b, i)),
        ..v
    }
}

/// Read the little-endian 32-bit unsigned value at offset `o`.
fn read_le_u32(buffer: &Vec<u8>, o: usize) -> (r: u32)
    requires
        o + 4 <= buffer@.len(),
    ensures
        r == le32_spec(buffer@, o as int),
{
    let n = buffer.len();
    assert(o + 4 <= n);
    let b0 = buffer[o] as u32;
    let b1 = buffer[o + 1] as u32;
    let b2 = buffer[o + 2] as u32;
    let b3 = buffer[o + 3] as u32;
    b0 + b1 * 0x100 + b2 * 0x1_0000 + b3 * 0x100_0000
}

/// Read the little-endian 32-bit two's-complement value at offset
/// `o`.
fn read_le_i32(buffer: &Vec<u8>, o: usize) -> (r: i32)
    requires
        o + 4 <= buffer@.len(),
    ensures
        r as int == le_i32_spec(buffer@, o as int),
{
    let u = read_le_u32(buffer, o);
    if u <= 0x7FFF_FFFF {
        u as i32
    } else {
        let below: i64 = (0x1_0000_0000u64 - u as u64) as i64;
        (-below) as i32
    }
}

impl Gamepads {
    /// One tick of the snapshot backend: overwrite every slot's
    /// connectivity, axes and pressed bitmask from the host-written
    /// buffer, deriving each slot's just-pressed mask against the
    /// bitmask the slot had before this call. A buffer that does not
    /// have exactly the fixed layout size is a configuration defect:
    /// nothing is ingested and `false` comes back, which the caller
    /// must treat as fatal at startup.
    pub fn poll_snapshot(&mut self, buffer: &Vec<u8>) -> (ok: bool)
        requires
            old(self)@.wf(),
        ensures
            final(self)@.wf(),
            ok == (buffer@.len() == SNAPSHOT_BUFFER_LEN),
            ok ==> final(self)@ == spec_snapshot(old(self)@, buffer@),
            !ok ==> final(self)@ == old(self)@,
    {
        if buffer.len() != SNAPSHOT_BUFFER_LEN {
            return false;
        }
        let mut i: usize = 0;
        while i < MAX_GAMEPADS
            invariant
                old(self)@.wf(),
                buffer@.len() == SNAPSHOT_BUFFER_LEN,
                i <= MAX_GAMEPADS,
                self@.gamepads.len() == MAX_GAMEPADS,
                self@.handles == old(self)@.handles,
                self@.num_pads == old(self)@.num_pads,
                self@.deadzones == old(self)@.deadzones,
                self@.effects == old(self)@.effects,
                self@.next_token == old(self)@.next_token,
                forall|j: int|
                    0 <= j < i ==> (#[trigger] self@.gamepads[j]) == snap_pad_spec(
                        old(self)@.gamepads[j],
                        buffer@,
                        j,
                    ),
                forall|j: int|
                    i <= j < MAX_GAMEPADS ==> (#[trigger] self@.gamepads[j]) == old(
                        self,
                    )@.gamepads[j],
            decreases MAX_GAMEPADS - i,
        {
            proof {
                reveal_view(*self);
            }
            let base = i * SNAPSHOT_STRIDE;
            let g = self.gamepads[i];
            let fresh = read_le_u32(buffer, base + 17);
            let next = Gamepad {
                id: g.id,
                connected: buffer[base] != 0,
                pressed_bits: fresh,
                just_pressed_bits: fresh & !g.pressed_bits,
                left_x: crate::axis::clamp_axis(read_le_i32(buffer, base + 1)),
                left_y: crate::axis::clamp_axis(read_le_i32(buffer, base + 5)),
                right_x: crate::axis::clamp_axis(read_le_i32(buffer, base + 9)),
                right_y: crate::axis::clamp_axis(read_le_i32(buffer, base + 13)),
            };
            self.gamepads.set(i, next);
            proof {
                reveal_view(*self);
                assert(self@.gamepads[i as int] == snap_pad_spec(
                    old(self)@.gamepads[i as int],
                    buffer@,
                    i as int,
                ));
            }
            i = i + 1;
        }
        proof {
            assert(self@ =~= spec_snapshot(old(self)@, buffer@));
            assert(self@.wf());
        }
        true
    }
}

} // verus!
