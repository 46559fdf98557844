//! The simulation context: one value owning the whole game state, stepped
//! once per frame by the host loop. Within a frame the phases run in a fixed
//! order — input capture, physics and obstacle advance, collision check,
//! state-machine reaction — and which phases run is gated by the state the
//! frame began in, so a transition takes hold on the next frame, never
//! retroactively.

use vstd::prelude::*;
use crate::base::{
    base_scroll_fits, base_scrolled, Base, BASE_A_START_X, BASE_B_START_X, BASE_SPEED_PLAYING,
    BASE_SPEED_STARTING,
};
use crate::bird::{
    bird_step_fits, bird_stepped, spawned_bird, Bird, BOB_PERIOD_TICKS, JUMP_ROTATION,
    JUMP_VELOCITY,
};
use crate::collision::{collision_signal, collision_spec};
use crate::pipe::{
    advance_pipes, crossings, pipe_wf, pipes_after_playing, spawn_pair, timer_ticked, Pipe,
    SpawnTimer, SPAWN_PERIOD_MS,
};
use crate::score::Score;
use crate::{valid_edge, GameState};

verus! {

/// The one-shot signals a frame hands back to the host: a flap applied this
/// frame (owed a wing sound), the number of pass events awarded this frame
/// (each owed a score sound), and whether game-ending contact was detected.
/// Each signal is delivered once and never carries over to a later frame.
#[derive(Clone, Copy, Debug, PartialEq, Eq, Structural)]
pub struct FrameEvents {
    /// A jump was applied to the bird this frame.
    pub flap: bool,
    /// How many obstacles awarded a pass this frame.
    pub passes: usize,
    /// The collision signal of this frame's transforms.
    pub collided: bool,
}

/// The events of a frame on which nothing fired.
pub open spec fn no_events() -> FrameEvents {
    FrameEvents { flap: false, passes: 0, collided: false }
}

/// The whole simulation state. All process-wide resources of the game — the
/// state machine's current value, the score, the ground scroll speed, the
/// spawn timer — are explicit fields here; there are no ambient globals.
pub struct World {
    /// The state machine's current value.
    pub state: GameState,
    /// The bird, a singleton while a run is being set up or played. Its
    /// absence is a legitimate transient only outside those states.
    pub bird: Option<Bird>,
    /// The live obstacles, in spawn order.
    pub pipes: Vec<Pipe>,
    /// The spawn timer, a singleton while a run is being set up or played.
    pub timer: Option<SpawnTimer>,
    /// The run's score.
    pub score: Score,
    /// The first ground strip.
    pub base_a: Base,
    /// The second ground strip.
    pub base_b: Base,
    /// The ground scroll speed, in milli-units per millisecond: the idle
    /// value while starting, the playing value otherwise.
    pub base_speed: i64,
    /// The jump-intent event queue: at most one pending jump, consumed by the
    /// next playing frame. It models the one-shot, cleared-after-read queue
    /// that carries the jump that starts a run into the run's first frame.
    pub jump_queue: bool,
}

impl World {
    /// The well-formedness invariant, established by [`World::new`] and
    /// preserved by every operation: exactly one bird and one spawn timer
    /// exist while a run is being set up or played; the bob phase sits inside
    /// its period; velocity and rotation never exceed their jump reset
    /// values; the timer sits inside its period; every live obstacle is
    /// well formed; the ground speed is the one its state prescribes; and a
    /// jump can be pending only while playing.
    pub open spec fn inv(self) -> bool {
        &&& (self.state == GameState::Starting || self.state == GameState::Playing)
            ==> self.bird is Some && self.timer is Some
        &&& (self.bird matches Some(b)
            ==> b.bob_ticks < BOB_PERIOD_TICKS && b.velocity <= JUMP_VELOCITY
                && b.rotation <= JUMP_ROTATION)
        &&& (self.timer matches Some(t) ==> t.elapsed_ms < SPAWN_PERIOD_MS)
        &&& forall|i: int| 0 <= i < self.pipes@.len() ==> pipe_wf(#[trigger] self.pipes@[i])
        &&& self.base_speed == if self.state == GameState::Starting {
            BASE_SPEED_STARTING as int
        } else {
            BASE_SPEED_PLAYING as int
        }
        &&& self.state != GameState::Playing ==> !self.jump_queue
    }

    /// Sets up a fresh simulation at the idle screen: one bird at the start
    /// position at rest, one fresh spawn timer, no obstacles, score zero, the
    /// ground strips side by side at their start positions scrolling at the
    /// idle speed.
    pub fn new() -> (w: World)
        ensures
            w.inv(),
            w.state == GameState::Starting,
            w.bird == Some(spawned_bird()),
            w.pipes@ == Seq::<Pipe>::empty(),
            w.timer == Some(SpawnTimer { elapsed_ms: 0u32 }),
            w.score.value == 0,
            w.base_a == (Base { x: BASE_A_START_X }),
            w.base_b == (Base { x: BASE_B_START_X }),
            w.base_speed == BASE_SPEED_STARTING,
            !w.jump_queue,
    {
        World {
            state: GameState::Starting,
            bird: Some(Bird { y: 0, velocity: 0, rotation: 0, bob_ticks: 0 }),
            pipes: Vec::new(),
            timer: Some(SpawnTimer { elapsed_ms: 0 }),
            score: Score { value: 0 },
            base_a: Base { x: BASE_A_START_X },
            base_b: Base { x: BASE_B_START_X },
            base_speed: BASE_SPEED_STARTING,
            jump_queue: false,
        }
    }

    /// The state machine's read-only query.
    pub fn current(&self) -> (s: GameState)
        ensures
            s == self.state,
    {
        self.state
    }

    /// Requests a state transition. Only the three hard-coded edges fire —
    /// starting to playing, playing to game over, game over to starting — and
    /// each runs its side effects synchronously and exactly once; any other
    /// request, re-entering the current state included, is a no-op.
    ///
    /// Entering the playing state swaps the ground scroll to the playing
    /// speed. Leaving the game-over state clears the ended run — every
    /// obstacle and the old timer and bird are discarded before anything is
    /// spawned — and entering the starting state then respawns exactly one
    /// bird in a clean physical state, creates one fresh timer, resets the
    /// score and swaps the ground scroll to the idle speed.
    pub fn request_transition(&mut self, target: GameState)
        requires
            old(self).inv(),
        ensures
            final(self).inv(),
            !valid_edge(old(self).state, target) ==> *final(self) == *old(self),
            old(self).state == GameState::Starting && target == GameState::Playing ==> ({
                &&& final(self).state == GameState::Playing
                &&& final(self).base_speed == BASE_SPEED_PLAYING
                &&& final(self).bird == old(self).bird
                &&& final(self).pipes@ == old(self).pipes@
                &&& final(self).timer == old(self).timer
                &&& final(self).score == old(self).score
                &&& final(self).base_a == old(self).base_a
                &&& final(self).base_b == old(self).base_b
                &&& final(self).jump_queue == old(self).jump_queue
            }),
            old(self).state == GameState::Playing && target == GameState::GameOver ==> ({
                &&& final(self).state == GameState::GameOver
                &&& final(self).base_speed == old(self).base_speed
                &&& final(self).bird == old(self).bird
                &&& final(self).pipes@ == old(self).pipes@
                &&& final(self).timer == old(self).timer
                &&& final(self).score == old(self).score
                &&& final(self).base_a == old(self).base_a
                &&& final(self).base_b == old(self).base_b
                &&& !final(self).jump_queue
            }),
            old(self).state == GameState::GameOver && target == GameState::Starting ==> ({
                &&& final(self).state == GameState::Starting
                &&& final(self).bird == Some(spawned_bird())
                &&& final(self).pipes@ == Seq::<Pipe>::empty()
                &&& final(self).timer == Some(SpawnTimer { elapsed_ms: 0u32 })
                &&& final(self).score.value == 0
                &&& final(self).base_speed == BASE_SPEED_STARTING
                &&& !final(self).jump_queue
                &&& final(self).base_a == old(self).base_a
                &&& final(self).base_b == old(self).base_b
            }),
    {
        match (self.state, target) {
            (GameState::Starting, GameState::Playing) => {
                self.state = GameState::Playing;
                self.base_speed = BASE_SPEED_PLAYING;
            },
            (GameState::Playing, GameState::GameOver) => {
                self.state = GameState::GameOver;
                self.jump_queue = false;
            },
            (GameState::GameOver, GameState::Starting) => {
                // The ended run is cleared before anything new is spawned:
                // obstacles and timer first, then the bird is replaced, so no
                // leftover entity survives into the fresh run.
                self.pipes = Vec::new();
                self.timer = Some(SpawnTimer { elapsed_ms: 0 });
                self.bird = Some(Bird { y: 0, velocity: 0, rotation: 0, bob_ticks: 0 });
                self.score.reset();
                self.base_speed = BASE_SPEED_STARTING;
                self.jump_queue = false;
                self.state = GameState::Starting;
            },
            _ => {},
        }
    }

    /// Places the bird at the idle bob's current height. While the idle
    /// screen shows, the bird's height is driven by a sine of the bob phase,
    /// an offset the presentation layer computes from
    /// [`Bird::bob_ticks`]; the host writes it back here so the run starts
    /// from the height the player saw. Nothing else changes.
    pub fn set_start_bob(&mut self, y: i64)
        requires
            old(self).inv(),
            old(self).state == GameState::Starting,
        ensures
            final(self).inv(),
            final(self).bird == Some(Bird { y, ..old(self).bird.unwrap() }),
            final(self).state == old(self).state,
            final(self).pipes@ == old(self).pipes@,
            final(self).timer == old(self).timer,
            final(self).score == old(self).score,
            final(self).base_a == old(self).base_a,
            final(self).base_b == old(self).base_b,
            final(self).base_speed == old(self).base_speed,
            final(self).jump_queue == old(self).jump_queue,
    {
        if let Some(b) = self.bird {
            self.bird = Some(
                Bird { y, velocity: b.velocity, rotation: b.rotation, bob_ticks: b.bob_ticks },
            );
        }
    }

    /// Runs one frame of `dt_ms` milliseconds with the frame's captured
    /// intents. Which phases run is gated by the state the frame began in.
    ///
    /// While starting, the bird bobs, the ground scrolls at the idle speed,
    /// and a jump intent starts the run: the state machine moves to playing
    /// and the jump is queued for the run's first frame.
    ///
    /// While playing, the pending or fresh jump is consumed and one physics
    /// tick runs on the bird; every obstacle advances, awarding one pass
    /// event per obstacle whose centre crosses the bird's column and retiring
    /// the obstacles that left the playfield; the score consumes the pass
    /// events; the spawn timer ticks and on firing appends one fresh obstacle
    /// pair; the ground scrolls at the playing speed; and the collision
    /// signal of the new transforms, when raised, ends the run.
    ///
    /// While game over, nothing moves; a restart intent tears the run down
    /// and returns to the idle screen.
    pub fn frame(&mut self, dt_ms: u32, jump: bool, restart: bool) -> (ev: FrameEvents)
        requires
            old(self).inv(),
            old(self).state == GameState::Playing ==> bird_step_fits(
                old(self).bird.unwrap(),
                jump || old(self).jump_queue,
            ),
            old(self).state == GameState::Playing ==> old(self).score.value
                + old(self).pipes@.len() <= u32::MAX,
            old(self).state != GameState::GameOver ==> base_scroll_fits(old(self).base_a)
                && base_scroll_fits(old(self).base_b),
        ensures
            final(self).inv(),
            old(self).state == GameState::Starting ==> ({
                let b0 = old(self).bird.unwrap();
                &&& final(self).bird == Some(
                    Bird {
                        bob_ticks: ((b0.bob_ticks + 1) % (BOB_PERIOD_TICKS as int)) as u64,
                        ..b0
                    },
                )
                &&& final(self).base_a == base_scrolled(
                    old(self).base_a,
                    BASE_SPEED_STARTING as int,
                    dt_ms as int,
                )
                &&& final(self).base_b == base_scrolled(
                    old(self).base_b,
                    BASE_SPEED_STARTING as int,
                    dt_ms as int,
                )
                &&& final(self).pipes@ == old(self).pipes@
                &&& final(self).timer == old(self).timer
                &&& final(self).score == old(self).score
                &&& jump ==> final(self).state == GameState::Playing && final(self).base_speed
                    == BASE_SPEED_PLAYING && final(self).jump_queue
                &&& !jump ==> final(self).state == GameState::Starting && final(self).base_speed
                    == BASE_SPEED_STARTING && !final(self).jump_queue
                &&& ev == no_events()
            }),
            old(self).state == GameState::Playing ==> ({
                let jn = jump || old(self).jump_queue;
                let b1 = bird_stepped(old(self).bird.unwrap(), jn);
                let pipes1 = pipes_after_playing(
                    old(self).pipes@,
                    old(self).timer.unwrap(),
                    dt_ms as int,
                );
                let ba1 = base_scrolled(old(self).base_a, BASE_SPEED_PLAYING as int, dt_ms as int);
                let bb1 = base_scrolled(old(self).base_b, BASE_SPEED_PLAYING as int, dt_ms as int);
                let hit = collision_spec(Some(b1), pipes1, ba1, bb1);
                &&& final(self).bird == Some(b1)
                &&& final(self).pipes@ == pipes1
                &&& final(self).timer == Some(timer_ticked(old(self).timer.unwrap(), dt_ms as int))
                &&& final(self).score.value == old(self).score.value + crossings(
                    old(self).pipes@,
                    dt_ms as int,
                )
                &&& final(self).score.value >= old(self).score.value
                &&& final(self).base_a == ba1
                &&& final(self).base_b == bb1
                &&& final(self).base_speed == BASE_SPEED_PLAYING
                &&& !final(self).jump_queue
                &&& final(self).state == if hit {
                    GameState::GameOver
                } else {
                    GameState::Playing
                }
                &&& ev.flap == jn
                &&& ev.passes == crossings(old(self).pipes@, dt_ms as int)
                &&& ev.collided == hit
            }),
            old(self).state == GameState::GameOver ==> ({
                &&& restart ==> ({
                    &&& final(self).state == GameState::Starting
                    &&& final(self).bird == Some(spawned_bird())
                    &&& final(self).pipes@ == Seq::<Pipe>::empty()
                    &&& final(self).timer == Some(SpawnTimer { elapsed_ms: 0u32 })
                    &&& final(self).score.value == 0
                    &&& final(self).base_speed == BASE_SPEED_STARTING
                    &&& !final(self).jump_queue
                    &&& final(self).base_a == old(self).base_a
                    &&& final(self).base_b == old(self).base_b
                })
                &&& !restart ==> *final(self) == *old(self)
                &&& ev == no_events()
            }),
    {
        let mut ev = FrameEvents { flap: false, passes: 0, collided: false };
        match self.state {
            GameState::Starting => {
                if let Some(b) = self.bird {
                    let mut b2 = b;
                    b2.bob_tick();
                    self.bird = Some(b2);
                }
                let sp: i64 = self.base_speed;
                self.base_a.scroll(sp, dt_ms);
                self.base_b.scroll(sp, dt_ms);
                if jump {
                    self.request_transition(GameState::Playing);
                    self.jump_queue = true;
                }
            },
            GameState::Playing => {
                let jn: bool = jump || self.jump_queue;
                self.jump_queue = false;
                ev.flap = jn;
                if let Some(b) = self.bird {
                    let mut b2 = b;
                    b2.step(jn);
                    self.bird = Some(b2);
                }
                let passes: usize = advance_pipes(&mut self.pipes, dt_ms);
                ev.passes = passes;
                let mut sc: Score = self.score;
                let ghost sc0: u32 = sc.value;
                let mut k: usize = 0;
                while k < passes
                    invariant
                        k <= passes,
                        sc.value == sc0 + k,
                        sc0 + passes <= u32::MAX,
                    decreases passes - k,
                {
                    sc.on_pass_event();
                    k = k + 1;
                }
                self.score = sc;
                if let Some(t) = self.timer {
                    let mut t2 = t;
                    let fired: bool = t2.tick(dt_ms);
                    self.timer = Some(t2);
                    if fired {
                        spawn_pair(&mut self.pipes);
                    }
                }
                let sp: i64 = self.base_speed;
                self.base_a.scroll(sp, dt_ms);
                self.base_b.scroll(sp, dt_ms);
                let hit: bool = collision_signal(&self.bird, &self.pipes, &self.base_a, &self.base_b);
                ev.collided = hit;
                if hit {
                    self.request_transition(GameState::GameOver);
                }
            },
            GameState::GameOver => {
                if restart {
                    self.request_transition(GameState::Starting);
                }
            },
        }
        ev
    }
}

/// While a run is being set up or played, exactly one bird and exactly one
/// spawn timer exist: their absence is possible only outside those states,
/// and every operation of the simulation preserves this.
pub proof fn lemma_active_singletons(w: World)
    requires
        w.inv(),
        w.state == GameState::Starting || w.state == GameState::Playing,
    ensures
        w.bird is Some,
        w.timer is Some,
{
}

} // verus!
