//! The characters that move over the map by themselves.

pub mod traveler;
