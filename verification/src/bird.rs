//! The bird: a singleton entity with a fixed horizontal position, a vertical
//! position, a vertical velocity, and a cosmetic rotation angle.

use vstd::prelude::*;

verus! {

/// The bird's fixed horizontal position, in milli-units. The bird never moves
/// horizontally; the world scrolls past it.
pub const BIRD_X: i64 = -60_000;

/// Half the bird's collision-box width (the box is 32 by 24 units).
pub const BIRD_HALF_WIDTH: i64 = 16_000;

/// Half the bird's collision-box height.
pub const BIRD_HALF_HEIGHT: i64 = 12_000;

/// Per-tick decrease of the vertical velocity (0.098 units per tick). The
/// decay is applied once per simulation tick and is deliberately not scaled
/// by elapsed time: one call of [`Bird::step`] is one tick.
pub const GRAVITY_PER_TICK: i64 = 98;

/// Per-tick decrease of the rotation angle, in milli-degrees.
pub const ROTATION_DECAY_PER_TICK: i64 = 1_500;

/// The vertical velocity a jump resets to (2.5 units per tick). A jump is an
/// absolute assignment, not an added impulse, so repeated jumps do not stack.
pub const JUMP_VELOCITY: i64 = 2_500;

/// The rotation angle a jump resets to, in milli-degrees.
pub const JUMP_ROTATION: i64 = 50_000;

/// Lower clamp of the displayed rotation angle, in milli-degrees.
pub const ROTATION_MIN: i64 = -90_000;

/// Upper clamp of the displayed rotation angle, in milli-degrees.
pub const ROTATION_MAX: i64 = 25_000;

/// Number of ticks of one full period of the idle bob. While the run has not
/// started the bird bobs on a sine of amplitude 20 units whose phase advances
/// one two-hundredth of a turn per tick; the phase counter below is kept
/// modulo this period, and the host turns it into a displayed offset.
pub const BOB_PERIOD_TICKS: u64 = 200;

/// The bird's simulated state. Its horizontal position is the constant
/// [`BIRD_X`] and is not a field. `rotation` is cosmetic: collision uses an
/// unrotated box. `bob_ticks` is the phase of the idle bob, advanced only
/// while the run has not started.
#[derive(Clone, Copy, Debug, PartialEq, Eq, Structural)]
pub struct Bird {
    /// Vertical position of the centre, in milli-units.
    pub y: i64,
    /// Vertical velocity, in milli-units per tick.
    pub velocity: i64,
    /// Rotation angle, in milli-degrees, before clamping.
    pub rotation: i64,
    /// Phase of the idle bob, in ticks, kept below [`BOB_PERIOD_TICKS`].
    pub bob_ticks: u64,
}

/// The state a freshly spawned bird has: at the start height, at rest and
/// level, with the bob phase at zero.
pub open spec fn spawned_bird() -> Bird {
    Bird { y: 0, velocity: 0, rotation: 0, bob_ticks: 0 }
}

/// What one physics tick does to the bird. With a jump requested, velocity
/// and rotation are reset to the fixed jump constants whatever they were;
/// without one, gravity and the rotation decay are applied. Either way the
/// new velocity then moves the vertical position. The bob phase is untouched:
/// the bob belongs to the idle screen, not to the run.
pub open spec fn bird_stepped(b: Bird, jump: bool) -> Bird {
    let v: int = if jump {
        JUMP_VELOCITY as int
    } else {
        b.velocity - GRAVITY_PER_TICK
    };
    let r: int = if jump {
        JUMP_ROTATION as int
    } else {
        b.rotation - ROTATION_DECAY_PER_TICK
    };
    Bird { y: (b.y + v) as i64, velocity: v as i64, rotation: r as i64, bob_ticks: b.bob_ticks }
}

/// The machine-limit condition under which one tick stays within 64-bit
/// range. Every quantity of an actual run sits a comfortable distance inside
/// it.
pub open spec fn bird_step_fits(b: Bird, jump: bool) -> bool {
    if jump {
        b.y + JUMP_VELOCITY <= i64::MAX
    } else {
        &&& i64::MIN <= b.velocity - GRAVITY_PER_TICK
        &&& i64::MIN <= b.y + b.velocity - GRAVITY_PER_TICK <= i64::MAX
        &&& i64::MIN <= b.rotation - ROTATION_DECAY_PER_TICK
    }
}

/// The rotation angle as it is displayed, clamped to the fixed window.
pub open spec fn clamped_rotation_of(rotation: int) -> int {
    if rotation < ROTATION_MIN {
        ROTATION_MIN as int
    } else if rotation > ROTATION_MAX {
        ROTATION_MAX as int
    } else {
        rotation
    }
}

impl Bird {
    /// Runs one physics tick on the bird: gravity or a jump reset on the
    /// velocity and rotation, then the velocity applied to the position.
    /// Runs only while the game is playing; the idle bob is separate.
    pub fn step(&mut self, jump_requested: bool)
        requires
            bird_step_fits(*old(self), jump_requested),
        ensures
            *final(self) == bird_stepped(*old(self), jump_requested),
            jump_requested ==> final(self).velocity == JUMP_VELOCITY
                && final(self).rotation == JUMP_ROTATION,
    {
        if jump_requested {
            self.velocity = JUMP_VELOCITY;
            self.rotation = JUMP_ROTATION;
        } else {
            self.velocity = self.velocity - GRAVITY_PER_TICK;
            self.rotation = self.rotation - ROTATION_DECAY_PER_TICK;
        }
        self.y = self.y + self.velocity;
    }

    /// Advances the idle bob by one tick, keeping the phase inside one
    /// period. The displayed bob offset is a sine of this phase and is
    /// computed by the presentation layer; position, velocity and rotation
    /// are untouched.
    pub fn bob_tick(&mut self)
        requires
            old(self).bob_ticks < BOB_PERIOD_TICKS,
        ensures
            *final(self) == (Bird {
                bob_ticks: ((old(self).bob_ticks + 1) % (BOB_PERIOD_TICKS as int)) as u64,
                ..*old(self)
            }),
    {
        self.bob_ticks = (self.bob_ticks + 1) % BOB_PERIOD_TICKS;
    }

    /// The rotation angle to display, clamped to the fixed window. The
    /// unclamped angle keeps accumulating underneath, exactly as the decay
    /// leaves it.
    pub fn clamped_rotation(&self) -> (r: i64)
        ensures
            r == clamped_rotation_of(self.rotation as int),
    {
        if self.rotation < ROTATION_MIN {
            ROTATION_MIN
        } else if self.rotation > ROTATION_MAX {
            ROTATION_MAX
        } else {
            self.rotation
        }
    }
}

/// A jump resets velocity and rotation to the fixed jump constants no matter
/// what they were before: any two birds end one jump tick with the same
/// velocity and the same rotation, and jumping again changes neither.
pub proof fn lemma_jump_resets(b1: Bird, b2: Bird)
    ensures
        bird_stepped(b1, true).velocity == JUMP_VELOCITY,
        bird_stepped(b1, true).rotation == JUMP_ROTATION,
        bird_stepped(b1, true).velocity == bird_stepped(b2, true).velocity,
        bird_stepped(b1, true).rotation == bird_stepped(b2, true).rotation,
        bird_stepped(bird_stepped(b1, true), true).velocity == JUMP_VELOCITY,
        bird_stepped(bird_stepped(b1, true), true).rotation == JUMP_ROTATION,
{
}

} // verus!
