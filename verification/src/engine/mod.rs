//! The engine: wheels, heroes, players and the turn pipeline.

pub mod dice;
pub mod game;
pub mod hero;
pub mod input;
pub mod laws;
pub mod player;
pub mod rules;
pub mod text;
pub mod wheel;
