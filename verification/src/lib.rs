//! Verified rules of a hex-map exploration game: grid layout, input intents,
//! traveler routing and camera follow decisions.

pub mod bounds;
pub mod camera;
pub mod characters;
pub mod components;
pub mod follow;
pub mod hex;
pub mod systems;
