//! The six command handlers of the resolution pipeline, one per phase.

pub mod battle;
pub mod buy;
pub mod mining;
pub mod movement;
pub mod regenerate;
pub mod sell;
