//! Poses as OpenXR reports them, and the transforms Bevy places things with.

use vstd::prelude::*;

use crate::scalar::{Scalar, ONE_BITS};

verus! {

use crate::scalar::{one_scalar, zero_scalar};

/// A position or a scale.
#[derive(Clone, Copy, Debug, PartialEq, Eq, Structural)]
pub struct Vector3f {
    pub x: Scalar,
    pub y: Scalar,
    pub z: Scalar,
}

/// A rotation, stored with the real part last.
#[derive(Clone, Copy, Debug, PartialEq, Eq, Structural)]
pub struct Quaternionf {
    pub x: Scalar,
    pub y: Scalar,
    pub z: Scalar,
    pub w: Scalar,
}

/// A pose as the runtime reports it.
#[derive(Clone, Copy, Debug, PartialEq, Eq, Structural)]
pub struct Posef {
    pub orientation: Quaternionf,
    pub position: Vector3f,
}

/// Where a thing stands in a scene.
#[derive(Clone, Copy, Debug, PartialEq, Eq, Structural)]
pub struct Transform {
    pub translation: Vector3f,
    pub rotation: Quaternionf,
    pub scale: Vector3f,
}

/// No rotation, no translation.
pub open spec fn identity_pose() -> Posef {
    Posef {
        orientation: Quaternionf {
            x: zero_scalar(),
            y: zero_scalar(),
            z: zero_scalar(),
            w: one_scalar(),
        },
        position: Vector3f { x: zero_scalar(), y: zero_scalar(), z: zero_scalar() },
    }
}

/// A scale of one along every axis.
pub open spec fn unit_scale() -> Vector3f {
    Vector3f { x: one_scalar(), y: one_scalar(), z: one_scalar() }
}

/// The transform of a pose.
pub open spec fn transform_of_pose(pose: Posef) -> Transform {
    Transform { translation: pose.position, rotation: pose.orientation, scale: unit_scale() }
}

impl Posef {
    /// The pose that neither turns nor moves anything.
    pub fn identity() -> (pose: Posef)
        ensures
            pose == identity_pose(),
    {
        let zero = Scalar { bits: 0 };
        Posef {
            orientation: Quaternionf { x: zero, y: zero, z: zero, w: Scalar { bits: ONE_BITS } },
            position: Vector3f { x: zero, y: zero, z: zero },
        }
    }
}

/// Converts an OpenXR pose into a transform.
///
/// No axis juggling required: OpenXR and Bevy are both right-handed, Y-up,
/// -Z-forward, and both store quaternions xyzw. This is a rename, not a
/// conversion.
pub fn transform_from_pose(pose: Posef) -> (transform: Transform)
    ensures
        transform == transform_of_pose(pose),
{
    let one = Scalar { bits: ONE_BITS };
    Transform {
        translation: Vector3f { x: pose.position.x, y: pose.position.y, z: pose.position.z },
        rotation: Quaternionf {
            x: pose.orientation.x,
            y: pose.orientation.y,
            z: pose.orientation.z,
            w: pose.orientation.w,
        },
        scale: Vector3f { x: one, y: one, z: one },
    }
}

/// Converting a pose loses nothing: two poses with the same transform are the
/// same pose.
pub proof fn transform_determines_pose(a: Posef, b: Posef)
    requires
        transform_of_pose(a) == transform_of_pose(b),
    ensures
        a == b,
{
}

} // verus!
