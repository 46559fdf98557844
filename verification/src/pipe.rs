//! Obstacles and their spawn timer. A repeating timer creates obstacle pairs
//! at a fixed horizontal offset; every obstacle scrolls leftward at a fixed
//! speed, awards a pass when its centre crosses the bird's column, and is
//! retired once it has left the playfield.

use vstd::prelude::*;
use crate::bird::BIRD_X;

verus! {

/// Magnitude of every obstacle's leftward speed, in milli-units per
/// millisecond (100 units per second).
pub const PIPE_SPEED: i64 = 100;

/// Half the collision-box width of an obstacle (the box is 52 by 320 units).
pub const PIPE_HALF_WIDTH: i64 = 26_000;

/// Half the collision-box height of an obstacle.
pub const PIPE_HALF_HEIGHT: i64 = 160_000;

/// The horizontal position every obstacle spawns at, in milli-units.
pub const PIPE_SPAWN_X: i64 = 300_000;

/// Half the vertical opening between the two obstacles of a pair, measured
/// from the opening's centre to the nearer edge of each obstacle.
pub const PIPE_GAP: i64 = 60_000;

/// Vertical offset of the opening's centre. It is a hook for moving the
/// opening per pair, but it is always zero: the opening is at the same
/// height for every pair, and nothing varies it.
pub const OPENING_OFFSET: i64 = 0;

/// Vertical centre of the upper obstacle of a pair.
pub const UPPER_PIPE_Y: i64 = PIPE_HALF_HEIGHT + PIPE_GAP + OPENING_OFFSET;

/// Vertical centre of the lower obstacle of a pair.
pub const LOWER_PIPE_Y: i64 = -PIPE_HALF_HEIGHT - PIPE_GAP + OPENING_OFFSET;

/// The playfield's left edge (the playfield is 288 units wide and centred on
/// zero). An obstacle whose right edge passes this line is retired.
pub const PLAYFIELD_LEFT: i64 = -144_000;

/// The period of the spawn timer, in milliseconds: one obstacle pair every
/// two seconds of play.
pub const SPAWN_PERIOD_MS: u32 = 2_000;

/// One obstacle. The two obstacles of a pair are created together but live
/// and die independently: each is retired on its own once off-screen, so a
/// pair whose halves disappear in different frames is ordinary.
#[derive(Clone, Copy, Debug, PartialEq, Eq, Structural)]
pub struct Pipe {
    /// Horizontal position of the centre, in milli-units.
    pub x: i64,
    /// Vertical position of the centre, in milli-units.
    pub y: i64,
    /// Horizontal velocity, in milli-units per millisecond; always
    /// `-PIPE_SPEED`.
    pub vx: i64,
}

/// The repeating countdown that spawns obstacle pairs. It exists from the
/// moment a run is set up and is torn down when the run is cleared, and it
/// ticks only while playing.
#[derive(Clone, Copy, Debug, PartialEq, Eq, Structural)]
pub struct SpawnTimer {
    /// Time accumulated toward the next firing, in milliseconds; always
    /// below [`SPAWN_PERIOD_MS`].
    pub elapsed_ms: u32,
}

/// A well-formed live obstacle: moving leftward at the fixed speed, at one of
/// the two pair heights, no further right than the spawn column, and with its
/// right edge still at or right of the playfield's left edge.
pub open spec fn pipe_wf(p: Pipe) -> bool {
    &&& p.vx == -PIPE_SPEED
    &&& p.x <= PIPE_SPAWN_X
    &&& p.x + PIPE_HALF_WIDTH >= PLAYFIELD_LEFT
    &&& (p.y == UPPER_PIPE_Y || p.y == LOWER_PIPE_Y)
}

/// Where an obstacle's centre sits after `dt` milliseconds of travel.
pub open spec fn moved_x(p: Pipe, dt: int) -> int {
    p.x + p.vx * dt
}

/// An obstacle awards a pass on the frame in which its centre moves from
/// at-or-right-of the bird's column to strictly left of it. With a strictly
/// leftward velocity this holds on exactly one frame of an obstacle's life,
/// and never on rightward motion.
pub open spec fn pipe_scores(p: Pipe, dt: int) -> bool {
    p.x >= BIRD_X && moved_x(p, dt) < BIRD_X
}

/// An obstacle is retired on the frame in which its right edge ends up
/// strictly left of the playfield's left edge.
pub open spec fn pipe_retired(p: Pipe, dt: int) -> bool {
    moved_x(p, dt) + PIPE_HALF_WIDTH < PLAYFIELD_LEFT
}

/// The obstacle as one frame of travel leaves it.
pub open spec fn pipe_moved(p: Pipe, dt: int) -> Pipe {
    Pipe { x: moved_x(p, dt) as i64, y: p.y, vx: p.vx }
}

/// The obstacles that survive one frame: each moved, in order, with the
/// retired ones dropped.
pub open spec fn survivors(s: Seq<Pipe>, dt: int) -> Seq<Pipe>
    decreases s.len(),
{
    if s.len() == 0 {
        Seq::empty()
    } else if pipe_retired(s.last(), dt) {
        survivors(s.drop_last(), dt)
    } else {
        survivors(s.drop_last(), dt).push(pipe_moved(s.last(), dt))
    }
}

/// How many obstacles award a pass during one frame. Each obstacle counts
/// for itself: a pair whose halves cross together awards two.
pub open spec fn crossings(s: Seq<Pipe>, dt: int) -> nat
    decreases s.len(),
{
    if s.len() == 0 {
        0
    } else {
        crossings(s.drop_last(), dt) + (if pipe_scores(s.last(), dt) {
            1nat
        } else {
            0nat
        })
    }
}

/// The upper obstacle of a fresh pair.
pub open spec fn spawned_upper() -> Pipe {
    Pipe { x: PIPE_SPAWN_X, y: UPPER_PIPE_Y, vx: (-PIPE_SPEED) as i64 }
}

/// The lower obstacle of a fresh pair.
pub open spec fn spawned_lower() -> Pipe {
    Pipe { x: PIPE_SPAWN_X, y: LOWER_PIPE_Y, vx: (-PIPE_SPEED) as i64 }
}

/// The obstacles as one playing frame leaves them: every obstacle moved and
/// the retired ones dropped, then, if the spawn timer fires this frame, one
/// fresh pair appended. An obstacle spawned this frame starts moving on the
/// next one.
pub open spec fn pipes_after_playing(s: Seq<Pipe>, t: SpawnTimer, dt: int) -> Seq<Pipe> {
    if timer_fires(t, dt) {
        survivors(s, dt).push(spawned_upper()).push(spawned_lower())
    } else {
        survivors(s, dt)
    }
}

/// Whether ticking the timer by `dt` makes it fire this frame.
pub open spec fn timer_fires(t: SpawnTimer, dt: int) -> bool {
    t.elapsed_ms + dt >= SPAWN_PERIOD_MS
}

/// The timer as one tick leaves it: the elapsed time grown by `dt` and
/// wrapped back below the period. A frame long enough to cover several
/// periods still fires only once: the timer reports firing, not a count.
pub open spec fn timer_ticked(t: SpawnTimer, dt: int) -> SpawnTimer {
    SpawnTimer { elapsed_ms: ((t.elapsed_ms + dt) % (SPAWN_PERIOD_MS as int)) as u32 }
}

impl SpawnTimer {
    /// A fresh timer, a full period away from firing.
    pub fn new() -> (t: SpawnTimer)
        ensures
            t.elapsed_ms == 0,
    {
        SpawnTimer { elapsed_ms: 0 }
    }

    /// Advances the timer by `dt` milliseconds and reports whether it fired.
    pub fn tick(&mut self, dt: u32) -> (fired: bool)
        requires
            old(self).elapsed_ms < SPAWN_PERIOD_MS,
        ensures
            *final(self) == timer_ticked(*old(self), dt as int),
            fired == timer_fires(*old(self), dt as int),
            final(self).elapsed_ms < SPAWN_PERIOD_MS,
    {
        let total: u64 = self.elapsed_ms as u64 + dt as u64;
        if total >= SPAWN_PERIOD_MS as u64 {
            self.elapsed_ms = (total % SPAWN_PERIOD_MS as u64) as u32;
            true
        } else {
            self.elapsed_ms = total as u32;
            false
        }
    }
}

/// Appends a fresh obstacle pair at the spawn column: the upper obstacle a
/// gap above the opening's centre, the lower one a gap below, both moving
/// leftward at the fixed speed.
pub fn spawn_pair(pipes: &mut Vec<Pipe>)
    ensures
        final(pipes)@ == old(pipes)@.push(spawned_upper()).push(spawned_lower()),
{
    pipes.push(Pipe { x: PIPE_SPAWN_X, y: UPPER_PIPE_Y, vx: -PIPE_SPEED });
    pipes.push(Pipe { x: PIPE_SPAWN_X, y: LOWER_PIPE_Y, vx: -PIPE_SPEED });
}

/// Moves every obstacle one frame of `dt` milliseconds leftward, counts the
/// obstacles whose centres cross the bird's column on this frame, and drops
/// the obstacles that have left the playfield. The count is returned so the
/// caller can feed it to the scorer, one pass event per obstacle.
pub fn advance_pipes(pipes: &mut Vec<Pipe>, dt: u32) -> (passes: usize)
    requires
        forall|i: int| 0 <= i < old(pipes)@.len() ==> pipe_wf(#[trigger] old(pipes)@[i]),
    ensures
        final(pipes)@ == survivors(old(pipes)@, dt as int),
        passes == crossings(old(pipes)@, dt as int),
        passes <= old(pipes)@.len(),
        forall|i: int| 0 <= i < final(pipes)@.len() ==> pipe_wf(#[trigger] final(pipes)@[i]),
{
    let ghost s: Seq<Pipe> = pipes@;
    let mut out: Vec<Pipe> = Vec::new();
    let mut passes: usize = 0;
    let mut i: usize = 0;
    while i < pipes.len()
        invariant
            i <= pipes@.len(),
            pipes@ == s,
            forall|j: int| 0 <= j < s.len() ==> pipe_wf(#[trigger] s[j]),
            out@ == survivors(s.take(i as int), dt as int),
            passes == crossings(s.take(i as int), dt as int),
            passes <= i,
            forall|j: int| 0 <= j < out@.len() ==> pipe_wf(#[trigger] out@[j]),
        decreases pipes@.len() - i,
    {
        let p: Pipe = pipes[i];
        proof {
            assert(s.take(i + 1).drop_last() =~= s.take(i as int));
            assert(s.take(i + 1).last() == s[i as int]);
        }
        let new_x: i64 = p.x + p.vx * (dt as i64);
        if p.x >= BIRD_X && new_x < BIRD_X {
            passes = passes + 1;
        }
        if new_x + PIPE_HALF_WIDTH >= PLAYFIELD_LEFT {
            out.push(Pipe { x: new_x, y: p.y, vx: p.vx });
        }
        i = i + 1;
    }
    proof {
        assert(s.take(s.len() as int) =~= s);
    }
    *pipes = out;
    passes
}

/// A pass is never awarded for rightward or stationary motion: if a frame
/// does not move an obstacle's centre leftward, that obstacle does not score
/// on that frame.
pub proof fn lemma_no_rightward_crossing(p: Pipe, dt: int)
    requires
        moved_x(p, dt) >= p.x,
    ensures
        !pipe_scores(p, dt),
{
}

/// An obstacle scores at most once in its life: after the frame on which it
/// crossed the bird's column, no later frame can make it score again.
pub proof fn lemma_scores_at_most_once(p: Pipe, dt1: int, dt2: int)
    requires
        pipe_scores(p, dt1),
        i64::MIN <= moved_x(p, dt1),
    ensures
        !pipe_scores(pipe_moved(p, dt1), dt2),
{
}

/// Each obstacle scores for itself, its pair partner separately: two
/// obstacles sharing a column and a velocity cross the bird's column on the
/// same frame, and together they award exactly two passes. A pair is
/// deliberately worth two points, one per half.
pub proof fn lemma_pair_awards_two(upper: Pipe, lower: Pipe, dt: int)
    requires
        upper.x == lower.x,
        upper.vx == lower.vx,
        pipe_scores(upper, dt),
    ensures
        crossings(seq![upper, lower], dt) == 2,
{
    let s = seq![upper, lower];
    assert(pipe_scores(lower, dt));
    assert(s.drop_last() =~= seq![upper]);
    assert(seq![upper].drop_last() =~= Seq::<Pipe>::empty());
    assert(crossings(Seq::<Pipe>::empty(), dt) == 0);
    assert(crossings(seq![upper], dt) == 1);
}

/// The score owed for a frame never goes down, and each obstacle contributes
/// exactly its own crossing: the count over a sequence of obstacles is the
/// sum of one per obstacle whose centre crosses the bird's column.
pub proof fn lemma_crossings_bounds(s: Seq<Pipe>, dt: int)
    ensures
        crossings(s, dt) <= s.len(),
    decreases s.len(),
{
    if s.len() > 0 {
        lemma_crossings_bounds(s.drop_last(), dt);
    }
}

} // verus!
