//! Rotations as quaternions of 16.16 fixed-point components.
//!
//! The components are stored as `[x, y, z, w]`, with `w` the scalar part.
//! Building a quaternion from Euler angles takes trigonometry and is left to
//! the host; the identity rotation is exact in fixed point.

use vstd::prelude::*;
use super::fx::FX_ONE;

verus! {

/// A rotation: four 16.16 fixed-point components, `[x, y, z, w]`.
#[derive(Debug, Clone, Copy)]
pub struct Quaternion {
    pub data: [i32; 4],
}

impl View for Quaternion {
    type V = Seq<int>;

    open spec fn view(&self) -> Seq<int> {
        self.data@.map_values(|v: i32| v as int)
    }
}

/// The identity rotation: zero vector part, unit scalar part.
pub open spec fn quat_identity_spec() -> Seq<int> {
    seq![0int, 0int, 0int, 65536int]
}

impl Quaternion {
    /// A quaternion from its four components.
    pub fn new(x: i32, y: i32, z: i32, w: i32) -> (r: Self)
        ensures
            r@ == seq![x as int, y as int, z as int, w as int],
    {
        let r = Quaternion { data: [x, y, z, w] };
        proof {
            assert(r@ =~= seq![x as int, y as int, z as int, w as int]);
        }
        r
    }

    /// The identity rotation.
    pub fn identity() -> (r: Self)
        ensures
            r@ == quat_identity_spec(),
    {
        let r = Quaternion::new(0, 0, 0, FX_ONE);
        proof {
            assert(r@ =~= quat_identity_spec());
        }
        r
    }
}

impl Default for Quaternion {
    /// The default rotation is the identity.
    fn default() -> (r: Self)
        ensures
            r@ == quat_identity_spec(),
    {
        Quaternion::identity()
    }
}

} // verus!
