//! Simulation core of a side-scrolling reflex game.
//!
//! The library owns the game state, advances the fixed-timestep physics,
//! generates obstacles, detects collisions, and drives the menu / playing /
//! end state machine.  It never draws or polls a keyboard itself: each call
//! takes one sampled input event and an elapsed-time value, and returns the
//! draw instructions for that frame.  A handful of small self-contained
//! utility modules accompany the game core.

pub mod basics;
pub mod blog;
pub mod collections;
pub mod draw;
pub mod error_basics;
pub mod frame;
pub mod generics;
pub mod obstacle;
pub mod outer_module;
pub mod ownership;
pub mod packages;
pub mod parsing;
pub mod player;
pub mod rng;
pub mod state;
pub mod structures;
pub mod visibility;
pub mod web_errors;

use vstd::prelude::*;

verus! {

/// Horizontal screen size, in character cells, of the reference configuration.
pub const DEFAULT_SCREEN_WIDTH: i32 = 80;

/// Vertical screen size, in character cells, of the reference configuration.
pub const DEFAULT_SCREEN_HEIGHT: i32 = 50;

} // verus!
