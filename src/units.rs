//! Fixed-point world units and the game's constants.
//!
//! A position or a velocity is a signed count of sub-pixel units, with
//! [`UNITS_PER_PIXEL`] units to a pixel. At that scale every constant of the
//! motion model is a whole number: the horizontal acceleration of 0.02 pixel
//! per tick, the speed limit of 1 pixel per tick, the jump speed of 3.4 pixels
//! per tick, the friction of 0.2 pixel per tick, and gravity, which adds
//! 9.80665 / 2 / 60 pixel per tick to the vertical speed at every tick.
use vstd::prelude::*;
use vstd::arithmetic::div_mod::{lemma_div_is_ordered, lemma_div_multiples_vanish, lemma_fundamental_div_mod};

verus! {

/// Sub-pixel units in one pixel.
pub const UNITS_PER_PIXEL: i64 = 2_400_000;

/// Width of the window, in pixels.
pub const WIN_X: i32 = 254;

/// Height of the window, in pixels.
pub const WIN_Y: i32 = 224;

/// Side of a square tile, and of an actor, in pixels.
pub const TILE_SIZE: i32 = 16;

/// Height of the ground strip below the lowest row of tiles, in pixels.
pub const GROUND_OFFSET: i32 = 24;

/// Width of the whole level background, in pixels.
pub const WORLD_WIDTH: i32 = 3392;

/// Screen column, in pixels, past which the camera follows the player.
pub const DEAD_ZONE_X: i32 = 80;

/// Change of horizontal speed for each unit of direction, per tick (0.02 pixel).
pub const WALK_ACCEL: i64 = 48_000;

/// Largest horizontal speed, either way (1 pixel per tick).
pub const MAX_SPEED: i64 = 2_400_000;

/// Vertical speed given by a jump (3.4 pixels per tick, upwards).
pub const JUMP_SPEED: i64 = 8_160_000;

/// Slow-down of a grounded player with no horizontal key held (0.2 pixel per tick).
pub const FRICTION: i64 = 480_000;

/// Vertical speed gained at each tick in the air (9.80665 / 120 pixel per tick).
pub const GRAVITY_PER_TICK: i64 = 196_133;

/// Largest camera offset, in units: the background ends there.
pub const MAX_SCROLL: i64 = (3392 - 254) * UNITS_PER_PIXEL;

/// The camera's dead-zone column, in units.
pub const DEAD_ZONE: i64 = 80 * UNITS_PER_PIXEL;

/// `v` held into `[lo, hi]`.
pub open spec fn clamp(v: int, lo: int, hi: int) -> int {
    if v < lo {
        lo
    } else if v > hi {
        hi
    } else {
        v
    }
}

/// `a + b`, held into the range of `i64`.
pub open spec fn sat_sum(a: int, b: int) -> int {
    clamp(a + b, i64::MIN as int, i64::MAX as int)
}

/// `a / d` rounded toward zero, as Rust's integer division rounds.
pub open spec fn div_toward_zero(a: int, d: int) -> int {
    if a >= 0 {
        a / d
    } else {
        -((-a) / d)
    }
}

/// The pixel of a position: the position in pixels rounded toward zero and held
/// into the range of `i32`, as a float converted with `as i32` would be.
pub open spec fn pixel_of(v: int) -> int {
    clamp(div_toward_zero(v, UNITS_PER_PIXEL as int), i32::MIN as int, i32::MAX as int)
}

/// The position in units of a pixel coordinate.
pub open spec fn units_of(p: int) -> int {
    p * UNITS_PER_PIXEL
}

/// Saturating sum of two positions or speeds.
pub fn sat_add(a: i64, b: i64) -> (r: i64)
    ensures
        r == sat_sum(a as int, b as int),
{
    if b > 0 {
        if a > i64::MAX - b {
            i64::MAX
        } else {
            a + b
        }
    } else {
        if a < i64::MIN - b {
            i64::MIN
        } else {
            a + b
        }
    }
}

/// The pixel that a position falls on.
pub fn to_pixel(v: i64) -> (r: i32)
    ensures
        r as int == pixel_of(v as int),
{
    let q: i64 = if v >= 0 {
        v / UNITS_PER_PIXEL
    } else if v == i64::MIN {
        -3_843_071_682_022
    } else {
        -((-v) / UNITS_PER_PIXEL)
    };
    if q < i32::MIN as i64 {
        i32::MIN
    } else if q > i32::MAX as i64 {
        i32::MAX
    } else {
        q as i32
    }
}

/// The position, in units, of a pixel coordinate.
pub fn from_pixel(p: i32) -> (r: i64)
    ensures
        r as int == units_of(p as int),
{
    p as i64 * UNITS_PER_PIXEL
}

/// A pixel coordinate converted to units falls back on the same pixel.
pub proof fn lemma_pixel_of_units(p: int)
    requires
        i32::MIN <= p <= i32::MAX,
    ensures
        pixel_of(units_of(p)) == p,
{
    lemma_div_multiples_vanish(p, UNITS_PER_PIXEL as int);
    lemma_div_multiples_vanish(-p, UNITS_PER_PIXEL as int);
}

/// A position further right (or down) never falls on an earlier pixel.
pub proof fn lemma_pixel_monotone(a: int, b: int)
    requires
        a <= b,
    ensures
        pixel_of(a) <= pixel_of(b),
{
    let d = UNITS_PER_PIXEL as int;
    if a >= 0 {
        lemma_div_is_ordered(a, b, d);
    } else if b >= 0 {
        lemma_div_is_ordered(0, -a, d);
        lemma_div_is_ordered(0, b, d);
    } else {
        lemma_div_is_ordered(-b, -a, d);
    }
}

/// A position within the pixels that `i32` holds lies less than one pixel
/// away from the start of its pixel, either way.
pub proof fn lemma_pixel_bracket(a: int)
    requires
        -0x4000_0000 * UNITS_PER_PIXEL <= a <= 0x4000_0000 * UNITS_PER_PIXEL,
    ensures
        (pixel_of(a) - 1) * UNITS_PER_PIXEL < a < (pixel_of(a) + 1) * UNITS_PER_PIXEL,
        -0x4000_0000 <= pixel_of(a) <= 0x4000_0000,
{
    let d = UNITS_PER_PIXEL as int;
    if a >= 0 {
        lemma_fundamental_div_mod(a, d);
        lemma_div_is_ordered(a, 0x4000_0000 * d, d);
        lemma_div_multiples_vanish(0x4000_0000, d);
    } else {
        lemma_fundamental_div_mod(-a, d);
        lemma_div_is_ordered(-a, 0x4000_0000 * d, d);
        lemma_div_multiples_vanish(0x4000_0000, d);
    }
}

} // verus!
