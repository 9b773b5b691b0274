//! Logic-aware randomizer for a racing game's adventure progression graph.
//!
//! The crate models the game's fixed world of five hubs and 27 track
//! locations, simulates a player's inventory against gating requirements,
//! and produces randomized-but-completable configurations: which warp pad
//! leads to which track, which requirement gates each race, and which
//! reward each race grants.

pub mod data;
pub mod settings;
pub mod inventory;
pub mod world;
pub mod prng;
pub mod locations;
pub mod placement;
pub mod shuffle;
pub mod requirements;
pub mod randomize;
pub mod encode;
pub mod laws;
pub mod patching;

use vstd::prelude::*;

verus! {

} // verus!
