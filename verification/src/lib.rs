//! Motion-game rules for BrainBreak: the action vocabulary, game modes and
//! beat scoring, the runner and freeze-dance state machines, config-driven
//! games and the prompts shown to players. Timing that the games measure in
//! floating-point seconds is kept by the host; the library decides from the
//! facts the host reports.
use vstd::prelude::*;

pub mod action;
pub mod config;
pub mod config_game;
pub mod config_lanes;
pub mod game_state;
pub mod runner;
pub mod supernova;
pub mod runtime;
pub mod presentation;
pub mod mode_art;
pub mod bridge;
pub mod session;

verus! {

/// Number of player slots (two local, two remote).
pub const PLAYER_CAPACITY: usize = 4;

/// Number of body keypoints in a tracked pose.
pub const KEYPOINT_COUNT: usize = 17;

} // verus!
