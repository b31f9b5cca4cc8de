//! The player.

use vstd::prelude::*;

verus! {

/// Marks the entity that the player controls and that the camera follows.
#[derive(Copy, Clone, Eq, PartialEq, Debug, Default)]
pub struct Player;

} // verus!
