//! What holds of every turn, proved of the rules of the engine.

pub mod bombs;
pub mod bounds;
pub mod idle;
