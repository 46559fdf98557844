use flappy_core::base::Base;
use flappy_core::bird::Bird;
use flappy_core::collision::collision_signal;
use flappy_core::geom::{boxes_overlap, Aabb};
use flappy_core::pipe::{advance_pipes, spawn_pair, Pipe, SpawnTimer};
use flappy_core::score::Score;

fn pipe_at(x: i64, y: i64) -> Pipe {
    Pipe { x, y, vx: -100 }
}

fn bird_at(y: i64) -> Bird {
    Bird { y, velocity: 0, rotation: 0, bob_ticks: 0 }
}

#[test]
fn bird_gravity_step() {
    let mut b = bird_at(0);
    b.step(false);
    assert_eq!(b.velocity, -98);
    assert_eq!(b.y, -98);
    assert_eq!(b.rotation, -1_500);
    b.step(false);
    assert_eq!(b.velocity, -196);
    assert_eq!(b.y, -294);
    assert_eq!(b.rotation, -3_000);
}

#[test]
fn bird_jump_resets_state() {
    let mut b = Bird { y: 12_345, velocity: -999_999, rotation: -777_777, bob_ticks: 0 };
    b.step(true);
    assert_eq!(b.velocity, 2_500);
    assert_eq!(b.rotation, 50_000);
    assert_eq!(b.y, 12_345 + 2_500);
    // a second jump does not stack: the same absolute values again
    b.step(true);
    assert_eq!(b.velocity, 2_500);
    assert_eq!(b.rotation, 50_000);
    assert_eq!(b.y, 12_345 + 5_000);
}

#[test]
fn bird_rotation_clamps_for_display_only() {
    let mut b = Bird { y: 0, velocity: 0, rotation: -95_000, bob_ticks: 0 };
    assert_eq!(b.clamped_rotation(), -90_000);
    b.rotation = 30_000;
    assert_eq!(b.clamped_rotation(), 25_000);
    b.rotation = 10_000;
    assert_eq!(b.clamped_rotation(), 10_000);
}

#[test]
fn bird_bob_phase_wraps() {
    let mut b = Bird { y: 0, velocity: 0, rotation: 0, bob_ticks: 199 };
    b.bob_tick();
    assert_eq!(b.bob_ticks, 0);
    b.bob_tick();
    assert_eq!(b.bob_ticks, 1);
}

#[test]
fn timer_fires_every_period() {
    let mut t = SpawnTimer::new();
    assert!(!t.tick(500));
    assert!(!t.tick(500));
    assert!(!t.tick(500));
    assert!(t.tick(500));
    assert_eq!(t.elapsed_ms, 0);
    assert!(!t.tick(1_999));
    assert!(t.tick(1));
}

#[test]
fn timer_long_frame_fires_once() {
    let mut t = SpawnTimer::new();
    assert!(t.tick(5_000));
    assert_eq!(t.elapsed_ms, 1_000);
}

#[test]
fn spawn_pair_positions() {
    let mut pipes: Vec<Pipe> = Vec::new();
    spawn_pair(&mut pipes);
    assert_eq!(pipes.len(), 2);
    assert_eq!((pipes[0].x, pipes[0].y, pipes[0].vx), (300_000, 220_000, -100));
    assert_eq!((pipes[1].x, pipes[1].y, pipes[1].vx), (300_000, -220_000, -100));
}

#[test]
fn pipes_move_left_without_scoring_from_afar() {
    // obstacle at (300, 220) with half-extents (26, 160), one 1 s frame at
    // 100 units/s: centre ends at 200, right of the bird's column, no pass
    let mut pipes = vec![pipe_at(300_000, 220_000)];
    let passes = advance_pipes(&mut pipes, 1_000);
    assert_eq!(passes, 0);
    assert_eq!(pipes.len(), 1);
    assert_eq!(pipes[0].x, 200_000);
}

#[test]
fn pipe_crossing_scores_exactly_once() {
    // one frame takes the centre from right of the bird's column to left of
    // it: one pass; the next frame, starting already left, awards none
    let mut pipes = vec![pipe_at(39_500, 220_000)];
    let passes = advance_pipes(&mut pipes, 1_000);
    assert_eq!(passes, 1);
    assert_eq!(pipes[0].x, -60_500);
    let passes2 = advance_pipes(&mut pipes, 1_000);
    assert_eq!(passes2, 0);
    assert_eq!(pipes[0].x, -160_500);
}

#[test]
fn pair_crossing_scores_two() {
    // the two halves of a pair share their column, so they cross together
    // and the pair awards two passes
    let mut pipes = vec![pipe_at(0, 220_000), pipe_at(0, -220_000)];
    let passes = advance_pipes(&mut pipes, 1_000);
    assert_eq!(passes, 2);
}

#[test]
fn pipe_lands_exactly_on_column_scores_next_frame() {
    // centre ends exactly on the bird's column: not yet strictly left, so no
    // pass this frame, and exactly one on the next
    let mut pipes = vec![pipe_at(40_000, 220_000)];
    assert_eq!(advance_pipes(&mut pipes, 1_000), 0);
    assert_eq!(pipes[0].x, -60_000);
    assert_eq!(advance_pipes(&mut pipes, 1_000), 1);
}

#[test]
fn pipe_retired_once_offscreen() {
    // right edge exactly on the playfield's left edge: kept
    let mut kept = vec![pipe_at(-70_000, 220_000)];
    assert_eq!(advance_pipes(&mut kept, 1_000), 0);
    assert_eq!(kept.len(), 1);
    assert_eq!(kept[0].x, -170_000);
    // one milli-unit further: retired, independently of any pair partner
    let mut gone = vec![pipe_at(-70_001, 220_000), pipe_at(100_000, -220_000)];
    assert_eq!(advance_pipes(&mut gone, 1_000), 0);
    assert_eq!(gone.len(), 1);
    assert_eq!(gone[0].y, -220_000);
}

#[test]
fn boxes_overlap_is_boundary_inclusive() {
    let a = Aabb { cx: 0, cy: 0, hx: 10, hy: 10 };
    let touching = Aabb { cx: 30, cy: 0, hx: 20, hy: 5 };
    assert!(boxes_overlap(a, touching));
    let apart = Aabb { cx: 31, cy: 0, hx: 20, hy: 5 };
    assert!(!boxes_overlap(a, apart));
    let touching_y = Aabb { cx: 0, cy: -15, hx: 10, hy: 5 };
    assert!(boxes_overlap(a, touching_y));
    let apart_y = Aabb { cx: 0, cy: -16, hx: 10, hy: 5 };
    assert!(!boxes_overlap(a, apart_y));
}

#[test]
fn collision_signal_requires_a_bird() {
    let pipes = vec![pipe_at(-60_000, 220_000)];
    let a = Base { x: 0 };
    let b = Base { x: 336_000 };
    assert!(!collision_signal(&None, &pipes, &a, &b));
    // the same transforms with a bird present collide
    let bird = Some(bird_at(60_000));
    assert!(collision_signal(&bird, &pipes, &a, &b));
}

#[test]
fn collision_signal_against_obstacles_and_ground() {
    let a = Base { x: 0 };
    let b = Base { x: 336_000 };
    let no_pipes: Vec<Pipe> = Vec::new();
    // free fall in open air: no contact
    assert!(!collision_signal(&Some(bird_at(0)), &no_pipes, &a, &b));
    // grazing the ground from above: boundary-inclusive contact
    assert!(collision_signal(&Some(bird_at(-132_000)), &no_pipes, &a, &b));
    assert!(!collision_signal(&Some(bird_at(-131_999)), &no_pipes, &a, &b));
    // grazing an obstacle's lower-left corner
    let touch = vec![pipe_at(-18_000, 220_000)];
    assert!(collision_signal(&Some(bird_at(48_000)), &touch, &a, &b));
    let apart = vec![pipe_at(-17_999, 220_000)];
    assert!(!collision_signal(&Some(bird_at(47_999)), &apart, &a, &b));
}

#[test]
fn score_counts_passes_and_resets() {
    let mut s = Score::new();
    assert_eq!(s.current(), 0);
    s.on_pass_event();
    s.on_pass_event();
    assert_eq!(s.current(), 2);
    s.reset();
    assert_eq!(s.current(), 0);
}

#[test]
fn base_scrolls_and_wraps() {
    let mut a = Base { x: 0 };
    a.scroll(150, 1_000);
    assert_eq!(a.x, -150_000);
    let mut b = Base { x: -300_000 };
    b.scroll(100, 1_000);
    // past a full strip width to the left: wrapped two widths to the right
    assert_eq!(b.x, 272_000);
}
