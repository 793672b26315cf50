use vstd::arithmetic::div_mod::{
    lemma_div_by_self, lemma_div_is_ordered, lemma_div_multiples_vanish,
    lemma_fundamental_div_mod, lemma_mod_division_less_than_divisor,
};
use vstd::arithmetic::mul::lemma_mul_inequality;
use vstd::prelude::*;

verus! {

/// Fixed-point scale of axis values: this many millionths stand for a
/// full deflection of `1.0`.
pub const AXIS_SCALE: i32 = 1_000_000;

/// Largest admissible deadzone, just below a full deflection; a larger
/// configured deadzone is clamped here so rescaling never divides by
/// zero.
pub const DEADZONE_MAX: u32 = 999_999;

/// The magnitude of `v`.
pub open spec fn abs_spec(v: int) -> int {
    if v < 0 {
        -v
    } else {
        v
    }
}

/// `v` forced into the representable axis range.
pub open spec fn clamp_axis_spec(v: int) -> int {
    if v > AXIS_SCALE {
        AXIS_SCALE as int
    } else if v < -(AXIS_SCALE as int) {
        -(AXIS_SCALE as int)
    } else {
        v
    }
}

/// `d` forced into the admissible deadzone range.
pub open spec fn clamp_deadzone_spec(d: int) -> int {
    if d > DEADZONE_MAX {
        DEADZONE_MAX as int
    } else {
        d
    }
}

/// Deadzone rescaling of a raw axis value `v` by a deadzone `d`, both
/// in millionths: a magnitude under the deadzone is neutral, and the
/// surviving range of magnitudes `[d, 1.0]` is rescaled linearly onto
/// `[0.0, 1.0]`, keeping the sign.
pub open spec fn normalize_spec(v: int, d: int) -> int
    recommends
        -(AXIS_SCALE as int) <= v <= AXIS_SCALE,
        0 <= d < AXIS_SCALE,
{
    let mag = abs_spec(v);
    if mag < d {
        0
    } else {
        let scaled = (mag - d) * (AXIS_SCALE as int) / (AXIS_SCALE - d);
        if v < 0 {
            -scaled
        } else {
            scaled
        }
    }
}

/// Force a raw axis value into the representable range.
pub fn clamp_axis(value: i32) -> (r: i32)
    ensures
        r == clamp_axis_spec(value as int),
{
    if value > AXIS_SCALE {
        AXIS_SCALE
    } else if value < -AXIS_SCALE {
        -AXIS_SCALE
    } else {
        value
    }
}

/// Force a configured deadzone into the admissible range.
pub fn clamp_deadzone(deadzone: u32) -> (r: u32)
    ensures
        r == clamp_deadzone_spec(deadzone as int),
        r <= DEADZONE_MAX,
{
    if deadzone > DEADZONE_MAX {
        DEADZONE_MAX
    } else {
        deadzone
    }
}

/// Apply the deadzone to a raw axis value: the result is `0` for
/// magnitudes up to the deadzone, and otherwise the surviving magnitude
/// rescaled so the usable range maps onto a full deflection.
pub fn normalize(value: i32, deadzone: u32) -> (r: i32)
    requires
        -AXIS_SCALE <= value <= AXIS_SCALE,
        deadzone <= DEADZONE_MAX,
    ensures
        r == normalize_spec(value as int, deadzone as int),
        -AXIS_SCALE <= r <= AXIS_SCALE,
{
    let mag: u64 = if value < 0 {
        (-(value as i64)) as u64
    } else {
        value as u64
    };
    let dz: u64 = deadzone as u64;
    assert(mag == abs_spec(value as int));
    assert(mag <= AXIS_SCALE as u64);
    if mag < dz {
        0
    } else {
        let num: u64 = (mag - dz) * (AXIS_SCALE as u64);
        let den: u64 = (AXIS_SCALE as u64) - dz;
        let q: u64 = num / den;
        proof {
            lemma_mul_inequality(mag - dz, AXIS_SCALE - dz, AXIS_SCALE as int);
            lemma_div_is_ordered(num as int, (AXIS_SCALE - dz) * (AXIS_SCALE as int), den as int);
            lemma_div_multiples_vanish(AXIS_SCALE as int, den as int);
            assert(den * (AXIS_SCALE as int) == (AXIS_SCALE - dz) * (AXIS_SCALE as int));
            assert(q <= AXIS_SCALE);
        }
        let scaled: i32 = q as i32;
        if value < 0 {
            -scaled
        } else {
            scaled
        }
    }
}

/// The output is neutral exactly for magnitudes up to the deadzone: at
/// the deadzone itself the rescaled magnitude is zero, and any
/// magnitude beyond it yields a nonzero output.
pub proof fn lemma_normalize_zero(v: int, d: int)
    requires
        -(AXIS_SCALE as int) <= v <= AXIS_SCALE,
        0 <= d < AXIS_SCALE,
    ensures
        (normalize_spec(v, d) == 0) <==> abs_spec(v) <= d,
{
    let mag = abs_spec(v);
    if mag >= d {
        let num = (mag - d) * (AXIS_SCALE as int);
        let den = AXIS_SCALE - d;
        if mag == d {
            assert(num == 0);
            assert(num / den == 0) by {
                lemma_div_is_ordered(0, 0, den);
            }
        } else {
            assert(num >= den) by {
                lemma_mul_inequality(1, mag - d, AXIS_SCALE as int);
            }
            assert(num / den >= 1) by {
                lemma_div_by_self(den);
                lemma_div_is_ordered(den, num, den);
            }
        }
    }
}

/// Rescaling with a zero deadzone is the identity.
pub proof fn lemma_normalize_identity(v: int)
    requires
        -(AXIS_SCALE as int) <= v <= AXIS_SCALE,
    ensures
        normalize_spec(v, 0) == v,
{
    let mag = abs_spec(v);
    assert(mag * (AXIS_SCALE as int) == (AXIS_SCALE as int) * mag)
        by (nonlinear_arith);
    lemma_div_multiples_vanish(mag, AXIS_SCALE as int);
}

/// A full deflection stays a full deflection, whatever the deadzone.
pub proof fn lemma_normalize_full(d: int)
    requires
        0 <= d < AXIS_SCALE,
    ensures
        normalize_spec(AXIS_SCALE as int, d) == AXIS_SCALE,
        normalize_spec(-(AXIS_SCALE as int), d) == -(AXIS_SCALE as int),
{
    let den = AXIS_SCALE - d;
    assert(den * (AXIS_SCALE as int) == (AXIS_SCALE - d) * (AXIS_SCALE as int));
    lemma_div_multiples_vanish(AXIS_SCALE as int, den);
}

/// Rescaling is odd: mirroring the input mirrors the output.
pub proof fn lemma_normalize_odd(v: int, d: int)
    requires
        -(AXIS_SCALE as int) <= v <= AXIS_SCALE,
        0 <= d < AXIS_SCALE,
    ensures
        normalize_spec(-v, d) == -normalize_spec(v, d),
{
}

/// The rescaled magnitude is nonnegative and ordered with the raw
/// magnitude.
proof fn lemma_scaled_ordered(m1: int, m2: int, d: int)
    requires
        0 <= d < AXIS_SCALE,
        d <= m1 <= m2 <= AXIS_SCALE,
    ensures
        0 <= (m1 - d) * (AXIS_SCALE as int) / (AXIS_SCALE - d),
        (m1 - d) * (AXIS_SCALE as int) / (AXIS_SCALE - d) <= (m2 - d) * (AXIS_SCALE as int) / (
        AXIS_SCALE - d),
{
    let den = AXIS_SCALE - d;
    lemma_mul_inequality(m1 - d, m2 - d, AXIS_SCALE as int);
    lemma_div_is_ordered((m1 - d) * (AXIS_SCALE as int), (m2 - d) * (AXIS_SCALE as int), den);
    lemma_mul_inequality(0, m1 - d, AXIS_SCALE as int);
    lemma_div_is_ordered(0, (m1 - d) * (AXIS_SCALE as int), den);
    lemma_div_is_ordered(0, 0, den);
}

/// Rescaling is monotone in the raw value.
pub proof fn lemma_normalize_monotonic(v1: int, v2: int, d: int)
    requires
        0 <= d < AXIS_SCALE,
        -(AXIS_SCALE as int) <= v1 <= v2 <= AXIS_SCALE,
    ensures
        normalize_spec(v1, d) <= normalize_spec(v2, d),
{
    let m1 = abs_spec(v1);
    let m2 = abs_spec(v2);
    if v1 < 0 && v2 < 0 {
        if m2 >= d && m1 >= d {
            lemma_scaled_ordered(m2, m1, d);
        } else if m1 >= d {
            lemma_scaled_ordered(m1, m1, d);
        }
    } else if v1 < 0 {
        if m1 >= d {
            lemma_scaled_ordered(m1, m1, d);
        }
        if m2 >= d {
            lemma_scaled_ordered(m2, m2, d);
        }
    } else {
        if m1 >= d && m2 >= d {
            lemma_scaled_ordered(m1, m2, d);
        } else if m2 >= d {
            lemma_scaled_ordered(m2, m2, d);
        }
    }
}

/// The rescaled value stays within the representable axis range.
pub proof fn lemma_normalize_bounds(v: int, d: int)
    requires
        -(AXIS_SCALE as int) <= v <= AXIS_SCALE,
        0 <= d < AXIS_SCALE,
    ensures
        -(AXIS_SCALE as int) <= normalize_spec(v, d) <= AXIS_SCALE,
{
    let mag = abs_spec(v);
    if mag >= d {
        lemma_scaled_ordered(mag, AXIS_SCALE as int, d);
        let den = AXIS_SCALE - d;
        assert(den * (AXIS_SCALE as int) == (AXIS_SCALE - d) * (AXIS_SCALE as int));
        lemma_div_multiples_vanish(AXIS_SCALE as int, den);
    }
}

/// The output is continuous at the deadzone boundary: just past the
/// deadzone, the output magnitude is bounded by the overshoot scaled
/// by the rescaling factor, so it tends to zero as the raw magnitude
/// tends to the deadzone.
pub proof fn lemma_normalize_near_deadzone(v: int, d: int)
    requires
        0 <= d < AXIS_SCALE,
        -(AXIS_SCALE as int) <= v <= AXIS_SCALE,
        d <= abs_spec(v),
    ensures
        abs_spec(normalize_spec(v, d)) * (AXIS_SCALE - d) <= (abs_spec(v) - d) * (
        AXIS_SCALE as int),
{
    let mag = abs_spec(v);
    let num = (mag - d) * (AXIS_SCALE as int);
    let den = AXIS_SCALE - d;
    lemma_fundamental_div_mod(num, den);
    lemma_mod_division_less_than_divisor(num, den);
    assert(den * (num / den) == num - num % den);
    assert(num % den >= 0);
    assert(num / den >= 0) by {
        lemma_mul_inequality(0, mag - d, AXIS_SCALE as int);
        lemma_div_is_ordered(0, num, den);
        lemma_div_is_ordered(0, 0, den);
    }
    assert((num / den) * den == den * (num / den)) by (nonlinear_arith);
}

} // verus!
