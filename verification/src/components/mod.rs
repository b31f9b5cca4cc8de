//! Marker components attached to game entities.

pub mod player;
