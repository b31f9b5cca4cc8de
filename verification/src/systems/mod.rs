//! The rules that run once per tick or once at start-up.

pub mod camera_system;
pub mod hex_map;
pub mod player_system;
