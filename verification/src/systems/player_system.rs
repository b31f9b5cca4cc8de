//! Steering the player from the keyboard.

use vstd::prelude::*;

verus! {

/// How far one tick of the forward key pushes, in steps.
pub const FORWARD_STEP: i8 = 1;

/// The keys that steer the player, as they are held down in a tick.
#[derive(Copy, Clone, Debug, Default, PartialEq, Eq)]
pub struct MovementKeys {
    /// The forward key, `Z`.
    pub forward: bool,
    /// The key that turns clockwise, `D`.
    pub clockwise: bool,
    /// The key that turns counterclockwise, `Q`.
    pub counterclockwise: bool,
}

/// What the player does in a tick: `forward` steps along its own up axis, and
/// `rotation` rotation steps counterclockwise.
#[derive(Copy, Clone, Debug, PartialEq, Eq, Structural)]
pub struct Steering {
    pub forward: i8,
    pub rotation: i8,
}

/// The steering that the held keys ask for. The player moves while the
/// forward key is held, and turns only while it moves; the two turning keys
/// cancel each other.
pub open spec fn steering(keys: MovementKeys) -> Steering {
    if keys.forward {
        Steering {
            forward: (-FORWARD_STEP) as i8,
            rotation: ((if keys.counterclockwise { 1int } else { 0int })
                - (if keys.clockwise { 1int } else { 0int })) as i8,
        }
    } else {
        Steering { forward: 0, rotation: 0 }
    }
}

/// Turns the keys held in a tick into the player's steering.
pub fn movement(keys: MovementKeys) -> (s: Steering)
    ensures
        s == steering(keys),
{
    let mut rotation: i8 = 0;
    let mut forward: i8 = 0;
    if keys.forward {
        forward = -FORWARD_STEP;
        if keys.clockwise {
            rotation = rotation - 1;
        }
        if keys.counterclockwise {
            rotation = rotation + 1;
        }
    }
    Steering { forward, rotation }
}

} // verus!
