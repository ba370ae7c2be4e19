//! A scrolling-corridor reflex game engine.
//!
//! A player glyph navigates a corridor whose walls drift left and right as
//! the screen scrolls; touching a wall ends the game. This crate holds the
//! verified core: the world state and its invariant, input mapping, the
//! per-tick physics step (collision, scroll, terrain drift), and the
//! renderer that lays the world out as a glyph grid. Terminal I/O lives
//! outside the library.

use vstd::prelude::*;

pub mod input;
pub mod physics;
pub mod render;
pub mod terrain;
pub mod world;

verus! {

} // verus!
