//! Core logic of a fixed-frame-rate two-paddle ball game: ball physics and
//! collision resolution, paddle motion, a reactive opponent heuristic, a modal
//! menu state machine, and per-frame scheduling decisions. Rendering, button
//! polling and the tick counter are left to the surrounding program; this
//! crate works on plain coordinates and button snapshots.
pub mod ball;
pub mod menu;
pub mod opponent;
pub mod paddle;
pub mod pong_controller;
pub mod rng;

use vstd::prelude::*;

verus! {

/// Width of the fixed-resolution screen, in pixels.
pub const SCREEN_WIDTH: u32 = 480;

/// Height of the fixed-resolution screen, in pixels.
pub const SCREEN_HEIGHT: u32 = 272;

} // verus!
