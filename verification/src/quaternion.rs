//! The quaternion that a rotation matrix converts into.

use vstd::prelude::*;
use crate::scalar::Scalar;
use crate::vector::Vec3;

verus! {

/// A quaternion `s + v.x i + v.y j + v.z k`.
#[derive(Clone, Copy, PartialEq, Debug)]
pub struct Quat<S> {
    /// The scalar part, often written `w`.
    pub s: S,
    /// The vector part.
    pub v: Vec3<S>,
}

impl<S: Scalar> Quat<S> {
    /// The quaternion `w + xi i + yj j + zk k`.
    pub fn new(w: S, xi: S, yj: S, zk: S) -> (q: Self)
        ensures
            q == (Quat { s: w, v: Vec3 { x: xi, y: yj, z: zk } }),
    {
        Quat { s: w, v: Vec3::new(xi, yj, zk) }
    }
}

} // verus!
