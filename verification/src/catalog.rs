//! The catalog entry for a playable game.

use vstd::prelude::*;

verus! {

/// Represents a game in the system.
#[derive(Debug)]
pub struct Game {
    pub id: i64,
    /// URL-friendly unique identifier.
    pub name: String,
    /// Human-friendly display name.
    pub display_name: String,
}

} // verus!
