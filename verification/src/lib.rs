//! Core simulation of a single-screen tap-to-flap arcade game.
//!
//! A bird falls under gravity, the player issues upward impulses, and
//! vertically gapped obstacle pairs scroll leftward toward the bird; the run
//! ends on contact with an obstacle or the ground. This crate holds the
//! gameplay simulation only: the game-state machine, bird physics, obstacle
//! spawning and scrolling, axis-aligned collision detection, and scoring.
//! Rendering, audio playback, and input-device polling are left to a host
//! loop, which feeds the simulation plain intent signals and reads back
//! snapshots each frame.
//!
//! All lengths are integers counted in milli-units (one thousandth of a world
//! unit) and all durations are integers counted in milliseconds, so that every
//! quantity of the game's rules is exact.

use vstd::prelude::*;

pub mod base;
pub mod bird;
pub mod collision;
pub mod geom;
pub mod pipe;
pub mod score;
pub mod world;

verus! {

/// The three phases of a run. `Starting` shows the idle screen with the bird
/// bobbing, `Playing` runs the physics, `GameOver` freezes the scene until a
/// restart.
#[derive(Clone, Copy, Debug, PartialEq, Eq, Structural)]
pub enum GameState {
    Starting,
    Playing,
    GameOver,
}

/// The hard-coded transition rules of the state machine: a run starts on a
/// jump intent, ends on a collision, and is torn down again on a restart
/// intent. No other pair of states is ever connected, and re-entering the
/// current state is not a transition.
pub open spec fn valid_edge(from: GameState, to: GameState) -> bool {
    ||| (from == GameState::Starting && to == GameState::Playing)
    ||| (from == GameState::Playing && to == GameState::GameOver)
    ||| (from == GameState::GameOver && to == GameState::Starting)
}

} // verus!
