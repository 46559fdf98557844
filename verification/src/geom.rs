//! Axis-aligned boxes and the boundary-inclusive overlap test that all
//! contact detection uses.

use vstd::prelude::*;

verus! {

/// An axis-aligned box given by its centre and its half-extents, in
/// milli-units. Every entity of the simulation (bird, obstacle, ground strip)
/// collides as such a box; rotation is cosmetic and never enters the test.
#[derive(Clone, Copy, Debug, PartialEq, Eq, Structural)]
pub struct Aabb {
    pub cx: i64,
    pub cy: i64,
    pub hx: i64,
    pub hy: i64,
}

/// Two axis-aligned boxes overlap iff their intervals overlap on both axes.
/// The test is boundary-inclusive: boxes in grazing contact, where the
/// distance of the centres equals the sum of the half-extents on an axis,
/// count as overlapping. One inclusive convention is used everywhere so that
/// grazing contact cannot flicker between frames.
pub open spec fn overlaps(a: Aabb, b: Aabb) -> bool {
    &&& a.cx - b.cx <= a.hx + b.hx
    &&& b.cx - a.cx <= a.hx + b.hx
    &&& a.cy - b.cy <= a.hy + b.hy
    &&& b.cy - a.cy <= a.hy + b.hy
}

/// Decides [`overlaps`]. The differences and sums are taken in 128-bit
/// arithmetic, where no pair of 64-bit coordinates can overflow.
pub fn boxes_overlap(a: Aabb, b: Aabb) -> (r: bool)
    ensures
        r == overlaps(a, b),
{
    let dx: i128 = a.cx as i128 - b.cx as i128;
    let sx: i128 = a.hx as i128 + b.hx as i128;
    let dy: i128 = a.cy as i128 - b.cy as i128;
    let sy: i128 = a.hy as i128 + b.hy as i128;
    dx <= sx && -dx <= sx && dy <= sy && -dy <= sy
}

/// A box separated from another by more than the sum of the half-extents on
/// at least one axis does not overlap it.
pub proof fn lemma_separated_no_overlap(a: Aabb, b: Aabb)
    requires
        ({
            ||| a.cx - b.cx > a.hx + b.hx
            ||| b.cx - a.cx > a.hx + b.hx
            ||| a.cy - b.cy > a.hy + b.hy
            ||| b.cy - a.cy > a.hy + b.hy
        }),
    ensures
        !overlaps(a, b),
{
}

} // verus!
