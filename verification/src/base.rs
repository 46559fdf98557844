//! The ground strips: two looping horizontal bands at the bottom of the
//! playfield. They scroll leftward at a shared speed that swaps between an
//! idle value and a playing value, and each wraps a full strip width to the
//! right once it has scrolled a full width off to the left. They are the
//! collision surface of the ground; exactly two exist for the whole process.

use vstd::prelude::*;

verus! {

/// Width of one ground strip, in milli-units (336 units).
pub const BASE_WIDTH: i64 = 336_000;

/// Half the collision-box width of a strip.
pub const BASE_HALF_WIDTH: i64 = 168_000;

/// Half the collision-box height of a strip (the strip is 336 by 112 units).
pub const BASE_HALF_HEIGHT: i64 = 56_000;

/// The fixed vertical position of both strips' centres, in milli-units.
pub const BASE_Y: i64 = -200_000;

/// Horizontal start position of the first strip.
pub const BASE_A_START_X: i64 = 0;

/// Horizontal start position of the second strip, one width to the right.
pub const BASE_B_START_X: i64 = 336_000;

/// Scroll speed while the run has not started, in milli-units per
/// millisecond (150 units per second).
pub const BASE_SPEED_STARTING: i64 = 150;

/// Scroll speed while playing, in milli-units per millisecond (100 units per
/// second).
pub const BASE_SPEED_PLAYING: i64 = 100;

/// One ground strip. Only the horizontal position moves; the vertical
/// position is the constant [`BASE_Y`].
#[derive(Clone, Copy, Debug, PartialEq, Eq, Structural)]
pub struct Base {
    /// Horizontal position of the centre, in milli-units.
    pub x: i64,
}

/// Where one frame's scroll puts a strip: `speed * dt` milli-units to the
/// left, then one wrap of two strip widths to the right if the strip has
/// scrolled a full width past the playfield's centre line.
pub open spec fn base_scrolled(b: Base, speed: int, dt: int) -> Base {
    let x: int = b.x - speed * dt;
    if x < -BASE_WIDTH {
        Base { x: (x + 2 * BASE_WIDTH) as i64 }
    } else {
        Base { x: x as i64 }
    }
}

/// The machine-limit condition under which one frame's scroll stays within
/// 64-bit range, for any speed up to the idle speed and any frame duration
/// expressible in 32 bits.
pub open spec fn base_scroll_fits(b: Base) -> bool {
    i64::MIN + BASE_SPEED_STARTING * (u32::MAX as int) <= b.x
}

impl Base {
    /// Scrolls the strip for one frame of `dt` milliseconds at `speed`
    /// milli-units per millisecond, wrapping it a full loop to the right once
    /// it has gone a full width off to the left.
    pub fn scroll(&mut self, speed: i64, dt: u32)
        requires
            0 <= speed <= BASE_SPEED_STARTING,
            base_scroll_fits(*old(self)),
        ensures
            *final(self) == base_scrolled(*old(self), speed as int, dt as int),
    {
        proof {
            assert(speed * (dt as int) <= BASE_SPEED_STARTING * (u32::MAX as int)) by (nonlinear_arith)
                requires
                    0 <= speed <= BASE_SPEED_STARTING,
                    0 <= dt <= u32::MAX,
            ;
            assert(speed * (dt as int) >= 0) by (nonlinear_arith)
                requires
                    0 <= speed,
                    0 <= dt,
            ;
        }
        let x: i64 = self.x - speed * (dt as i64);
        if x < -BASE_WIDTH {
            self.x = x + 2 * BASE_WIDTH;
        } else {
            self.x = x;
        }
    }
}

} // verus!
