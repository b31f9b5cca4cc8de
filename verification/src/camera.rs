//! Steering the free camera from the keyboard.

use vstd::prelude::*;

verus! {

/// How far one tick of a sideways key pushes, in steps.
pub const HORIZONTAL_STEP: i8 = 1;

/// How far one tick of the forward or the backward key pushes, in steps.
pub const VERTICAL_STEP: i8 = 1;

/// The keys that move the free camera, as they are held down in a tick.
#[derive(Copy, Clone, Debug, Default, PartialEq, Eq)]
pub struct CameraKeys {
    /// The forward key, `Z`.
    pub forward: bool,
    /// The backward key, `S`.
    pub backward: bool,
    /// The key to the right, `D`.
    pub right: bool,
    /// The key to the left, `Q`.
    pub left: bool,
}

/// The direction in which the camera is pushed in a tick, in the camera's own
/// frame: `horizontal` steps to its right and `vertical` steps backward.
#[derive(Copy, Clone, Debug, PartialEq, Eq, Structural)]
pub struct CameraPush {
    pub horizontal: i8,
    pub vertical: i8,
}

/// The push that the held keys ask for. Backward overrides forward, and left
/// overrides right.
pub open spec fn camera_push(keys: CameraKeys) -> CameraPush {
    CameraPush {
        horizontal: if keys.left {
            (-HORIZONTAL_STEP) as i8
        } else if keys.right {
            HORIZONTAL_STEP
        } else {
            0
        },
        vertical: if keys.backward {
            VERTICAL_STEP
        } else if keys.forward {
            (-VERTICAL_STEP) as i8
        } else {
            0
        },
    }
}

/// Turns the keys held in a tick into the push on the free camera.
pub fn move_free_camera(keys: CameraKeys) -> (push: CameraPush)
    ensures
        push == camera_push(keys),
{
    let mut horizontal: i8 = 0;
    let mut vertical: i8 = 0;
    if keys.forward {
        vertical = -VERTICAL_STEP;
    }
    if keys.backward {
        vertical = VERTICAL_STEP;
    }
    if keys.right {
        horizontal = HORIZONTAL_STEP;
    }
    if keys.left {
        horizontal = -HORIZONTAL_STEP;
    }
    CameraPush { horizontal, vertical }
}

} // verus!
