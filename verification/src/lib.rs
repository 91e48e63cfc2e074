//! Core of a tick-driven snake simulation whose per-tick movement decision is
//! delegated to an untrusted, dynamically loaded Lua script.
//!
//! The simulation itself (grid, body, food, collision, growth, win/loss,
//! reset) is verified; the embedded interpreter is reached only through a
//! narrow trusted boundary, and every way a script can misbehave degrades to
//! "ignore this tick's input".

pub mod agent;
pub mod catalog;
pub mod command_queue;
pub mod direction;
pub mod game;
pub mod lua_engine;
pub mod sprites;
pub mod systems;

use vstd::prelude::*;

verus! {

} // verus!
