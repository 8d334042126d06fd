//! Round resolution engine for a turn-based multiplayer strategy game.
//!
//! Players own robots on a graph of planets; each round they submit a batch
//! of commands (sell, buy, move, battle, mine, regenerate).  Once every
//! player is ready, the round is resolved in a fixed phase order and the
//! game advances, keeping an append-only history of round snapshots.

pub mod command;
pub mod direction;
pub mod engine;
pub mod game_state;
pub mod handler;
pub mod item;
pub mod laws;
pub mod planet;
pub mod player;
pub mod resource;
pub mod robot;
pub mod robot_level;
pub mod robot_levels;
pub mod robot_stats;
pub mod text;
pub mod util;
pub mod view;

use vstd::prelude::*;

verus! {

} // verus!
