//! Where the eyes of the scene's camera sit.

use vstd::prelude::*;

use crate::pose::{transform_from_pose, Posef, Transform, Vector3f};
use crate::scalar::Scalar;

verus! {

use crate::pose::{identity_pose, transform_of_pose};
use crate::scalar::zero_scalar;

/// The bit pattern of half of a 64mm interpupillary distance, in metres. A
/// placeholder until the runtime is asked where the eyes are.
pub const HALF_IPD: u32 = 0x3d03_126f;

/// How far to the right of the camera an eye sits: the left eye comes first, as
/// in the layers of the stereo view configuration.
pub open spec fn eye_offset(index: int) -> Scalar {
    if index == 0 {
        (Scalar { bits: HALF_IPD }).opposite()
    } else {
        Scalar { bits: HALF_IPD }
    }
}

/// Where an eye sits, relative to the camera: to the side, and facing ahead.
pub open spec fn eye_transform(index: int) -> Transform {
    transform_of_pose(
        Posef {
            position: Vector3f { x: eye_offset(index), y: zero_scalar(), z: zero_scalar() },
            ..identity_pose()
        },
    )
}

/// Places the eyes, one per view.
pub fn eye_transforms(view_count: u32) -> (eyes: Vec<Transform>)
    ensures
        eyes@ == Seq::new(view_count as nat, |i: int| eye_transform(i)),
{
    let mut eyes: Vec<Transform> = Vec::new();
    let half = Scalar { bits: HALF_IPD };
    let zero = Scalar { bits: 0 };
    let mut index: u32 = 0;
    while index < view_count
        invariant
            index <= view_count,
            half == (Scalar { bits: HALF_IPD }),
            zero == zero_scalar(),
            eyes@ == Seq::new(index as nat, |i: int| eye_transform(i)),
        decreases view_count - index,
    {
        let offset = if index == 0 {
            half.negated()
        } else {
            half
        };
        let mut pose = Posef::identity();
        pose.position = Vector3f { x: offset, y: zero, z: zero };
        eyes.push(transform_from_pose(pose));
        index += 1;
        assert(eyes@ =~= Seq::new(index as nat, |i: int| eye_transform(i)));
    }
    eyes
}

/// The two eyes of a stereo pair sit equally far to either side of the camera,
/// the first to the left of it and the second to the right.
pub proof fn eyes_are_a_stereo_pair()
    ensures
        eye_offset(0) == eye_offset(1).opposite(),
        eye_offset(0).rank() < 0,
        eye_offset(1).rank() > 0,
{
}

} // verus!
