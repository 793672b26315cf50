use crate::button::{button_of_index, Button, BUTTON_COUNT};
use vstd::prelude::*;

verus! {

/// An opaque identifier for a gamepad slot, stable for the process
/// lifetime: a device that disconnects and reconnects keeps its id.
///
/// Values are handed out by the library; they always name one of the
/// eight slots.
#[derive(Clone, Copy, Debug, PartialEq, Eq, Hash, Structural)]
pub struct GamepadId(pub(crate) u8);

impl GamepadId {
    /// The byte this id consists of.
    pub closed spec fn spec_value(self) -> u8 {
        self.0
    }

    /// The byte value that represents this gamepad id.
    pub fn value(self) -> (r: u8)
        ensures
            r == self.spec_value(),
    {
        self.0
    }

    /// Crate-internal constructor: ids are only handed out by the
    /// library, one per slot.
    pub(crate) fn new_id(v: u8) -> (r: GamepadId)
        ensures
            r.spec_value() == v,
    {
        GamepadId(v)
    }
}

/// The state of one device slot, as of the most recent tick: connection
/// flag, pressed and just-pressed button bitmasks, and the four stick
/// axes in fixed-point millionths (`1_000_000` is a full deflection).
#[derive(Clone, Copy, Debug, PartialEq, Eq, Structural)]
pub struct Gamepad {
    /// Stable identifier, equal to the slot index.
    pub id: GamepadId,
    /// Whether the device is currently connected.
    pub connected: bool,
    /// One bit per logical button, set while the button is held.
    pub pressed_bits: u32,
    /// One bit per logical button, set if the button went down since the
    /// start of the current tick.
    pub just_pressed_bits: u32,
    /// Left stick x position in millionths, negative is left.
    pub left_x: i32,
    /// Left stick y position in millionths, negative is down.
    pub left_y: i32,
    /// Right stick x position in millionths, negative is left.
    pub right_x: i32,
    /// Right stick y position in millionths, negative is down.
    pub right_y: i32,
}

impl Gamepad {
    /// Whether `b`'s bit is set in the pressed bitmask.
    pub open spec fn pressed_spec(self, b: Button) -> bool {
        self.pressed_bits & b.mask_spec() != 0
    }

    /// Whether `b`'s bit is set in the just-pressed bitmask.
    pub open spec fn just_pressed_spec(self, b: Button) -> bool {
        self.just_pressed_bits & b.mask_spec() != 0
    }

    /// The axis with index `k`: 0 left x, 1 left y, 2 right x, 3 right y.
    pub open spec fn axis_spec(self, k: int) -> i32 {
        if k == 0 {
            self.left_x
        } else if k == 1 {
            self.left_y
        } else if k == 2 {
            self.right_x
        } else {
            self.right_y
        }
    }

    /// An id unique for each gamepad currently connected to the system.
    pub fn id(&self) -> (r: GamepadId)
        ensures
            r == self.id,
    {
        self.id
    }

    /// The `(x, y)` position of the left thumbstick, in millionths of a
    /// full deflection; negative values are down or to the left.
    pub fn left_stick(&self) -> (r: (i32, i32))
        ensures
            r.0 == self.left_x,
            r.1 == self.left_y,
    {
        (self.left_x, self.left_y)
    }

    /// The `x` position of the left thumbstick in millionths.
    pub fn left_stick_x(&self) -> (r: i32)
        ensures
            r == self.left_x,
    {
        self.left_x
    }

    /// The `y` position of the left thumbstick in millionths.
    pub fn left_stick_y(&self) -> (r: i32)
        ensures
            r == self.left_y,
    {
        self.left_y
    }

    /// The `(x, y)` position of the right thumbstick, in millionths of a
    /// full deflection; negative values are down or to the left.
    pub fn right_stick(&self) -> (r: (i32, i32))
        ensures
            r.0 == self.right_x,
            r.1 == self.right_y,
    {
        (self.right_x, self.right_y)
    }

    /// The `x` position of the right thumbstick in millionths.
    pub fn right_stick_x(&self) -> (r: i32)
        ensures
            r == self.right_x,
    {
        self.right_x
    }

    /// The `y` position of the right thumbstick in millionths.
    pub fn right_stick_y(&self) -> (r: i32)
        ensures
            r == self.right_y,
    {
        self.right_y
    }

    /// Check if a button is currently pressed.
    pub fn is_currently_pressed(&self, button: Button) -> (r: bool)
        ensures
            r == self.pressed_spec(button),
    {
        let bit = 1u32 << button.bit_index();
        proof {
            crate::button::lemma_button_index(button);
        }
        (self.pressed_bits & bit) != 0
    }

    /// Check if a button has just been pressed, that is, went down since
    /// the start of the current tick.
    pub fn is_just_pressed(&self, button: Button) -> (r: bool)
        ensures
            r == self.just_pressed_spec(button),
    {
        let bit = 1u32 << button.bit_index();
        proof {
            crate::button::lemma_button_index(button);
        }
        (self.just_pressed_bits & bit) != 0
    }

    /// All currently pressed buttons, in enumeration order.
    pub fn all_currently_pressed(&self) -> (r: Vec<Button>)
        ensures
            r@ == bits_buttons(self.pressed_bits),
    {
        buttons_of_bits(self.pressed_bits)
    }

    /// All just-pressed buttons, in enumeration order.
    pub fn all_just_pressed(&self) -> (r: Vec<Button>)
        ensures
            r@ == bits_buttons(self.just_pressed_bits),
    {
        buttons_of_bits(self.just_pressed_bits)
    }
}

/// `bits` with `b`'s bit set in both masks: what a button-down does.
pub open spec fn with_press(g: Gamepad, b: Button) -> Gamepad {
    Gamepad {
        pressed_bits: g.pressed_bits | b.mask_spec(),
        just_pressed_bits: g.just_pressed_bits | b.mask_spec(),
        ..g
    }
}

/// `bits` with `b`'s bit cleared from the pressed mask only: a
/// button-up never retracts a just-press from the same tick.
pub open spec fn with_release(g: Gamepad, b: Button) -> Gamepad {
    Gamepad { pressed_bits: g.pressed_bits & !b.mask_spec(), ..g }
}

impl Gamepad {
    /// This state after a button-down on `b`.
    pub fn press(self, b: Button) -> (r: Gamepad)
        ensures
            r == with_press(self, b),
    {
        proof {
            crate::button::lemma_button_index(b);
        }
        let bit = 1u32 << b.bit_index();
        Gamepad {
            pressed_bits: self.pressed_bits | bit,
            just_pressed_bits: self.just_pressed_bits | bit,
            ..self
        }
    }

    /// This state after a button-up on `b`.
    pub fn release(self, b: Button) -> (r: Gamepad)
        ensures
            r == with_release(self, b),
    {
        proof {
            crate::button::lemma_button_index(b);
        }
        let bit = 1u32 << b.bit_index();
        Gamepad { pressed_bits: self.pressed_bits & !bit, ..self }
    }
}

/// Setting bit `i` leaves exactly the bits `i` and those already set.
proof fn lemma_or_bit(bits: u32, i: u32, j: u32)
    requires
        i < 32,
        j < 32,
    ensures
        ((bits | (1u32 << i)) & (1u32 << j) != 0) == ((bits & (1u32 << j) != 0) || i == j),
{
    assert(((bits | (1u32 << i)) & (1u32 << j) != 0) == ((bits & (1u32 << j) != 0) || i == j))
        by (bit_vector)
        requires
            i < 32,
            j < 32,
    ;
}

/// Clearing bit `i` leaves exactly the other bits already set.
proof fn lemma_clear_bit(bits: u32, i: u32, j: u32)
    requires
        i < 32,
        j < 32,
    ensures
        ((bits & !(1u32 << i)) & (1u32 << j) != 0) == ((bits & (1u32 << j) != 0) && i != j),
{
    assert(((bits & !(1u32 << i)) & (1u32 << j) != 0) == ((bits & (1u32 << j) != 0) && i != j))
        by (bit_vector)
        requires
            i < 32,
            j < 32,
    ;
}

/// A bit of `new & !old` is set exactly when it is set in `new` and
/// clear in `old`: the just-pressed derivation from two bitmasks.
pub proof fn lemma_edge_bit(new_bits: u32, old_bits: u32, j: u32)
    requires
        j < 32,
    ensures
        ((new_bits & !old_bits) & (1u32 << j) != 0) == ((new_bits & (1u32 << j) != 0) && (old_bits
            & (1u32 << j) == 0)),
{
    assert(((new_bits & !old_bits) & (1u32 << j) != 0) == ((new_bits & (1u32 << j) != 0) && (
    old_bits & (1u32 << j) == 0))) by (bit_vector)
        requires
            j < 32,
    ;
}

/// No bit is set in an all-zero mask.
pub proof fn lemma_zero_bit(j: u32)
    ensures
        0u32 & (1u32 << j) == 0,
{
    assert(0u32 & (1u32 << j) == 0) by (bit_vector);
}

/// What a button-down changes, button by button: `b` is now pressed and
/// just-pressed, every other button is as it was.
pub proof fn lemma_press_effect(g: Gamepad, b: Button, q: Button)
    ensures
        with_press(g, b).pressed_spec(q) == (g.pressed_spec(q) || q == b),
        with_press(g, b).just_pressed_spec(q) == (g.just_pressed_spec(q) || q == b),
{
    crate::button::lemma_button_index(b);
    crate::button::lemma_button_index(q);
    lemma_or_bit(g.pressed_bits, b.index_spec(), q.index_spec());
    lemma_or_bit(g.just_pressed_bits, b.index_spec(), q.index_spec());
}

/// What a button-up changes, button by button: `b` is no longer
/// pressed, its just-pressed bit and every other button are untouched.
pub proof fn lemma_release_effect(g: Gamepad, b: Button, q: Button)
    ensures
        with_release(g, b).pressed_spec(q) == (g.pressed_spec(q) && q != b),
        with_release(g, b).just_pressed_spec(q) == g.just_pressed_spec(q),
{
    crate::button::lemma_button_index(b);
    crate::button::lemma_button_index(q);
    lemma_clear_bit(g.pressed_bits, b.index_spec(), q.index_spec());
}

/// The buttons whose bit is set in `bits`, in enumeration order:
/// the first `n` bit positions of the mask.
pub open spec fn bits_buttons_prefix(bits: u32, n: int) -> Seq<Button>
    decreases n,
{
    if n <= 0 {
        Seq::empty()
    } else {
        bits_buttons_prefix(bits, n - 1) + if bits & button_of_index(n - 1).mask_spec() != 0 {
            seq![button_of_index(n - 1)]
        } else {
            Seq::empty()
        }
    }
}

/// The buttons whose bit is set in `bits`, in enumeration order.
pub open spec fn bits_buttons(bits: u32) -> Seq<Button> {
    bits_buttons_prefix(bits, BUTTON_COUNT as int)
}

/// Produce the buttons whose bit is set, in enumeration order.
fn buttons_of_bits(bits: u32) -> (r: Vec<Button>)
    ensures
        r@ == bits_buttons(bits),
{
    let all = Button::all();
    let mut r: Vec<Button> = Vec::new();
    let mut i: usize = 0;
    while i < all.len()
        invariant
            all@.len() == BUTTON_COUNT,
            forall|k: int| 0 <= k < BUTTON_COUNT ==> all@[k] == button_of_index(k),
            i <= BUTTON_COUNT,
            r@ == bits_buttons_prefix(bits, i as int),
        decreases BUTTON_COUNT - i,
    {
        let b = all[i];
        proof {
            crate::button::lemma_button_index(b);
        }
        let bit = 1u32 << b.bit_index();
        if (bits & bit) != 0 {
            r.push(b);
        }
        proof {
            assert(r@ =~= bits_buttons_prefix(bits, i + 1));
        }
        i = i + 1;
    }
    r
}

/// Membership in the listed buttons is exactly a set bit: the sequence
/// produced for a mask holds a button if and only if its bit is set.
pub proof fn lemma_bits_buttons_contains(bits: u32, b: Button)
    ensures
        bits_buttons(bits).contains(b) == (bits & b.mask_spec() != 0),
{
    crate::button::lemma_button_index(b);
    lemma_bits_buttons_prefix_contains(bits, BUTTON_COUNT as int, b);
}

proof fn lemma_bits_buttons_prefix_contains(bits: u32, n: int, b: Button)
    requires
        0 <= n <= BUTTON_COUNT,
    ensures
        bits_buttons_prefix(bits, n).contains(b) == (b.index_spec() < n && bits & b.mask_spec()
            != 0),
    decreases n,
{
    crate::button::lemma_button_index(b);
    if n > 0 {
        lemma_bits_buttons_prefix_contains(bits, n - 1, b);
        let prev = bits_buttons_prefix(bits, n - 1);
        let last = button_of_index(n - 1);
        crate::button::lemma_button_index(last);
        if bits & last.mask_spec() != 0 {
            assert(bits_buttons_prefix(bits, n) == prev + seq![last]);
            if b == last {
                assert(bits_buttons_prefix(bits, n)[prev.len() as int] == b);
                assert(bits_buttons_prefix(bits, n).contains(b));
            } else {
                assert(bits_buttons_prefix(bits, n).contains(b) == prev.contains(b)) by {
                    if prev.contains(b) {
                        let k = choose|k: int| 0 <= k < prev.len() && prev[k] == b;
                        assert(bits_buttons_prefix(bits, n)[k] == b);
                    }
                    if bits_buttons_prefix(bits, n).contains(b) {
                        let k = choose|k: int|
                            0 <= k < bits_buttons_prefix(bits, n).len()
                                && bits_buttons_prefix(bits, n)[k] == b;
                        assert(k < prev.len());
                        assert(prev[k] == b);
                    }
                }
            }
        } else {
            assert(bits_buttons_prefix(bits, n) =~= prev);
        }
    }
}

/// A button pressed and released within one tick window is still
/// reported as just-pressed at the end of that window, while no longer
/// currently pressed; clearing the just-pressed mask, as the next tick
/// does first, retracts the report.
pub proof fn lemma_down_up_same_tick(g: Gamepad, b: Button)
    ensures
        with_release(with_press(g, b), b).just_pressed_spec(b),
        !with_release(with_press(g, b), b).pressed_spec(b),
        !(Gamepad { just_pressed_bits: 0, ..with_release(with_press(g, b), b) }).just_pressed_spec(
            b,
        ),
{
    crate::button::lemma_button_index(b);
    lemma_press_effect(g, b, b);
    lemma_release_effect(with_press(g, b), b, b);
    lemma_zero_bit(b.index_spec());
}

} // verus!
