//! The collision detector: a pure function over the current frame's
//! transforms. It reports game-ending contact between the bird and any
//! obstacle or ground strip.

use vstd::prelude::*;
use crate::base::{Base, BASE_HALF_HEIGHT, BASE_HALF_WIDTH, BASE_Y};
use crate::bird::{Bird, BIRD_HALF_HEIGHT, BIRD_HALF_WIDTH, BIRD_X};
use crate::geom::{boxes_overlap, overlaps, Aabb};
use crate::pipe::{Pipe, PIPE_HALF_HEIGHT, PIPE_HALF_WIDTH};

verus! {

/// The bird's collision box: centred on its fixed column at its current
/// height, with the bird's fixed half-extents. Rotation plays no part.
pub open spec fn bird_box(b: Bird) -> Aabb {
    Aabb { cx: BIRD_X, cy: b.y, hx: BIRD_HALF_WIDTH, hy: BIRD_HALF_HEIGHT }
}

/// An obstacle's collision box.
pub open spec fn pipe_box(p: Pipe) -> Aabb {
    Aabb { cx: p.x, cy: p.y, hx: PIPE_HALF_WIDTH, hy: PIPE_HALF_HEIGHT }
}

/// A ground strip's collision box, at the strips' fixed height.
pub open spec fn base_box(b: Base) -> Aabb {
    Aabb { cx: b.x, cy: BASE_Y, hx: BASE_HALF_WIDTH, hy: BASE_HALF_HEIGHT }
}

/// The frame's collision signal: true iff a bird exists and its box overlaps
/// the box of at least one obstacle or one ground strip, with the
/// boundary-inclusive convention of [`overlaps`]. The checks are independent
/// and their disjunction does not depend on any order. A missing bird is a
/// legitimate transient and yields false rather than a fault.
pub open spec fn collision_spec(
    bird: Option<Bird>,
    pipes: Seq<Pipe>,
    base_a: Base,
    base_b: Base,
) -> bool {
    bird matches Some(b) && {
        ||| overlaps(bird_box(b), base_box(base_a))
        ||| overlaps(bird_box(b), base_box(base_b))
        ||| exists|i: int| 0 <= i < pipes.len() && overlaps(bird_box(b), pipe_box(#[trigger] pipes[i]))
    }
}

/// Decides [`collision_spec`] for the current frame: every obstacle and both
/// ground strips are checked against the bird and the results are combined by
/// disjunction.
pub fn collision_signal(
    bird: &Option<Bird>,
    pipes: &Vec<Pipe>,
    base_a: &Base,
    base_b: &Base,
) -> (r: bool)
    ensures
        r == collision_spec(*bird, pipes@, *base_a, *base_b),
{
    match bird {
        None => false,
        Some(b) => {
            let bb = Aabb { cx: BIRD_X, cy: b.y, hx: BIRD_HALF_WIDTH, hy: BIRD_HALF_HEIGHT };
            let mut hit: bool = boxes_overlap(
                bb,
                Aabb { cx: base_a.x, cy: BASE_Y, hx: BASE_HALF_WIDTH, hy: BASE_HALF_HEIGHT },
            );
            let hit_b: bool = boxes_overlap(
                bb,
                Aabb { cx: base_b.x, cy: BASE_Y, hx: BASE_HALF_WIDTH, hy: BASE_HALF_HEIGHT },
            );
            hit = hit || hit_b;
            let mut i: usize = 0;
            while i < pipes.len()
                invariant
                    i <= pipes@.len(),
                    bb == bird_box(*b),
                    hit == ({
                        ||| overlaps(bird_box(*b), base_box(*base_a))
                        ||| overlaps(bird_box(*b), base_box(*base_b))
                        ||| exists|j: int|
                            0 <= j < i && overlaps(bird_box(*b), pipe_box(#[trigger] pipes@[j]))
                    }),
                decreases pipes@.len() - i,
            {
                let p: Pipe = pipes[i];
                let hit_p: bool = boxes_overlap(
                    bb,
                    Aabb { cx: p.x, cy: p.y, hx: PIPE_HALF_WIDTH, hy: PIPE_HALF_HEIGHT },
                );
                proof {
                    if hit_p {
                        assert(overlaps(bird_box(*b), pipe_box(pipes@[i as int])));
                    }
                }
                hit = hit || hit_p;
                i = i + 1;
            }
            hit
        },
    }
}

} // verus!
