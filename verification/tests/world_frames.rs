use flappy_core::base::Base;
use flappy_core::bird::Bird;
use flappy_core::pipe::{Pipe, SpawnTimer};
use flappy_core::score::Score;
use flappy_core::world::World;
use flappy_core::GameState;

fn playing_world(bird_y: i64, pipes: Vec<Pipe>, timer_elapsed: u32) -> World {
    World {
        state: GameState::Playing,
        bird: Some(Bird { y: bird_y, velocity: 0, rotation: 0, bob_ticks: 0 }),
        pipes,
        timer: Some(SpawnTimer { elapsed_ms: timer_elapsed }),
        score: Score { value: 0 },
        base_a: Base { x: 0 },
        base_b: Base { x: 336_000 },
        base_speed: 100,
        jump_queue: false,
    }
}

#[test]
fn fresh_world_is_ready_to_start() {
    let w = World::new();
    assert_eq!(w.current(), GameState::Starting);
    let b = w.bird.unwrap();
    assert_eq!((b.y, b.velocity, b.rotation, b.bob_ticks), (0, 0, 0, 0));
    assert!(w.pipes.is_empty());
    assert_eq!(w.timer.unwrap().elapsed_ms, 0);
    assert_eq!(w.score.value, 0);
    assert_eq!((w.base_a.x, w.base_b.x), (0, 336_000));
    assert_eq!(w.base_speed, 150);
    assert!(!w.jump_queue);
}

#[test]
fn starting_frame_bobs_and_scrolls() {
    let mut w = World::new();
    let ev = w.frame(16, false, false);
    assert_eq!(w.current(), GameState::Starting);
    assert_eq!(w.bird.unwrap().bob_ticks, 1);
    // idle scroll: 150 milli-units per millisecond
    assert_eq!(w.base_a.x, -2_400);
    assert_eq!(w.base_b.x, 336_000 - 2_400);
    assert!(!ev.flap && ev.passes == 0 && !ev.collided);
    // physics does not run on the idle screen
    let b = w.bird.unwrap();
    assert_eq!((b.y, b.velocity, b.rotation), (0, 0, 0));
}

#[test]
fn jump_intent_starts_the_run() {
    let mut w = World::new();
    let ev = w.frame(16, true, false);
    assert_eq!(w.current(), GameState::Playing);
    assert_eq!(w.base_speed, 100);
    assert!(w.jump_queue);
    assert!(!ev.flap);
    // the queued jump is consumed by the run's first frame
    let ev2 = w.frame(16, false, false);
    assert!(ev2.flap);
    assert!(!w.jump_queue);
    let b = w.bird.unwrap();
    assert_eq!(b.velocity, 2_500);
    assert_eq!(b.rotation, 50_000);
    assert_eq!(b.y, 2_500);
}

#[test]
fn distant_obstacle_frame_is_uneventful() {
    // obstacle upper half at (300, 220), bird at the fixed column at height
    // 0, one 1 s frame: the centre ends at 200, no contact, no pass
    let mut w = playing_world(0, vec![Pipe { x: 300_000, y: 220_000, vx: -100 }], 0);
    let ev = w.frame(1_000, false, false);
    assert_eq!(w.pipes[0].x, 200_000);
    assert!(!ev.collided);
    assert_eq!(ev.passes, 0);
    assert_eq!(w.score.value, 0);
    assert_eq!(w.current(), GameState::Playing);
}

#[test]
fn crossing_frame_awards_one_pass() {
    // the frame that takes the obstacle's centre past the bird's column
    // awards exactly one pass; the following frame awards none
    let mut w = playing_world(0, vec![Pipe { x: 39_500, y: 220_000, vx: -100 }], 0);
    let ev = w.frame(1_000, false, false);
    assert_eq!(ev.passes, 1);
    assert_eq!(w.score.value, 1);
    assert_eq!(w.pipes[0].x, -60_500);
    let ev2 = w.frame(1_000, false, false);
    assert_eq!(ev2.passes, 0);
    assert_eq!(w.score.value, 1);
    assert_eq!(w.pipes[0].x, -160_500);
}

#[test]
fn spawn_timer_fires_during_play() {
    let mut w = playing_world(0, Vec::new(), 1_990);
    let ev = w.frame(16, false, false);
    assert_eq!(ev.passes, 0);
    // a fresh pair appears at the spawn column and moves from the next frame
    assert_eq!(w.pipes.len(), 2);
    assert_eq!((w.pipes[0].x, w.pipes[0].y), (300_000, 220_000));
    assert_eq!((w.pipes[1].x, w.pipes[1].y), (300_000, -220_000));
    assert_eq!(w.timer.unwrap().elapsed_ms, 6);
    let _ = w.frame(10, false, false);
    assert_eq!(w.pipes[0].x, 299_000);
}

#[test]
fn ground_contact_ends_the_run() {
    // a bird grazing the ground strip: the frame's collision signal ends the
    // run on that same frame boundary
    let mut w = playing_world(-131_950, Vec::new(), 0);
    let ev = w.frame(16, false, false);
    assert!(ev.collided);
    assert_eq!(w.current(), GameState::GameOver);
    // the frozen scene keeps the bird and the score
    assert!(w.bird.is_some());
}

#[test]
fn obstacle_contact_ends_the_run() {
    let mut w = playing_world(60_000, vec![Pipe { x: -59_000, y: 220_000, vx: -100 }], 0);
    let ev = w.frame(10, false, false);
    assert!(ev.collided);
    assert_eq!(w.current(), GameState::GameOver);
}

#[test]
fn game_over_frame_freezes_the_scene() {
    let mut w = playing_world(-131_950, Vec::new(), 0);
    let _ = w.frame(16, false, false);
    assert_eq!(w.current(), GameState::GameOver);
    let bird_before = w.bird.unwrap();
    let bases_before = (w.base_a.x, w.base_b.x);
    // jumps no longer move anything; only a restart does
    let ev = w.frame(1_000, true, false);
    assert!(!ev.flap && ev.passes == 0 && !ev.collided);
    assert_eq!(w.current(), GameState::GameOver);
    assert_eq!(w.bird.unwrap(), bird_before);
    assert_eq!((w.base_a.x, w.base_b.x), bases_before);
}

#[test]
fn restart_resets_the_run() {
    let mut w = playing_world(
        77_000,
        vec![Pipe { x: 10_000, y: 220_000, vx: -100 }, Pipe { x: 10_000, y: -220_000, vx: -100 }],
        1_500,
    );
    w.score = Score { value: 7 };
    w.state = GameState::GameOver;
    let ev = w.frame(16, false, true);
    assert!(!ev.flap && ev.passes == 0 && !ev.collided);
    assert_eq!(w.current(), GameState::Starting);
    assert_eq!(w.score.value, 0);
    assert!(w.pipes.is_empty());
    let b = w.bird.unwrap();
    assert_eq!((b.y, b.velocity, b.rotation, b.bob_ticks), (0, 0, 0, 0));
    assert_eq!(w.timer.unwrap().elapsed_ms, 0);
    assert_eq!(w.base_speed, 150);
}

#[test]
fn only_the_three_edges_transition() {
    let mut w = World::new();
    w.request_transition(GameState::GameOver);
    assert_eq!(w.current(), GameState::Starting);
    w.request_transition(GameState::Starting);
    assert_eq!(w.current(), GameState::Starting);
    w.request_transition(GameState::Playing);
    assert_eq!(w.current(), GameState::Playing);
    assert_eq!(w.base_speed, 100);
    w.request_transition(GameState::Starting);
    assert_eq!(w.current(), GameState::Playing);
    w.request_transition(GameState::GameOver);
    assert_eq!(w.current(), GameState::GameOver);
    w.request_transition(GameState::Playing);
    assert_eq!(w.current(), GameState::GameOver);
    w.request_transition(GameState::Starting);
    assert_eq!(w.current(), GameState::Starting);
    assert_eq!(w.base_speed, 150);
}

#[test]
fn start_bob_height_carries_into_the_run() {
    let mut w = World::new();
    let _ = w.frame(16, false, false);
    w.set_start_bob(777);
    assert_eq!(w.bird.unwrap().y, 777);
    assert_eq!(w.bird.unwrap().bob_ticks, 1);
    let _ = w.frame(16, true, false);
    let _ = w.frame(16, false, false);
    // first playing frame: jump reset, then one velocity unit of travel
    assert_eq!(w.bird.unwrap().y, 777 + 2_500);
}
