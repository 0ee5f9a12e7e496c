//! Linear algebra and camera transforms for a first-person 3D scene:
//! vectors of two to four components, 4x4 matrices, a camera that turns
//! Euler angles into a view matrix and a facing ray, the player that steers
//! it, the input of a frame, and the cube that the scene shows.
//!
//! Everything is generic in the scalar type. The arithmetic comes from the
//! scalar's own operators; square root, trigonometry and the conversion of
//! degrees to radians are handed in by the caller as functions, so that the
//! same verified code serves every number type that has them.
//!
//! What a contract can say of a result depends on the scalar. Where the
//! operators of a scalar type are functions of their operands
//! ([`math::scalar::exact`]), every result is pinned down to the last entry:
//! which sum, which product, in which order. Where they are not known to
//! be, the contracts still say what does not rest on arithmetic: which
//! entry of a matrix a read or a write reaches, what an event does to the
//! held keys, what stays as it was, and that the camera follows the player.
//! The laws that need more, such as that opposite rotations cancel or that
//! the facing ray has length one, are proved for scalars whose arithmetic is
//! that of a ring or a field ([`math::algebra`]).

pub mod cam;
pub mod frame;
pub mod input;
pub mod math;
pub mod model;
pub mod player;

use crate::math::mat4::Mat4;
use crate::math::scalar::{exact, num, total, Scalar};
use vstd::prelude::*;
use vstd::std_specs::ops::DivSpec;

verus! {

/// The lens of the scene: a field of view in degrees, the aspect ratio of
/// the window (width over height), and the distances of the near and far
/// planes.
pub struct Projection<T: Scalar> {
    pub fov: T,
    pub aspect: T,
    pub near: T,
    pub far: T,
}

impl<T: Scalar> Projection<T> {
    /// The usual lens for a window of the given aspect ratio: 70 degrees,
    /// from one hundredth of a unit to a thousand units.
    pub fn default(aspect: T) -> (p: Self)
        requires
            total::<T>(),
        ensures
            p.aspect == aspect,
            exact::<T>() ==> {
                &&& p.fov == num::<T>(70)
                &&& p.near == num::<T>(1).div_spec(num::<T>(100))
                &&& p.far == num::<T>(1000)
            },
    {
        Self {
            fov: T::from(70i16),
            aspect,
            near: T::from(1i16) / T::from(100i16),
            far: T::from(1000i16),
        }
    }

    /// The projection matrix of this lens. `to_radians` turns the field of
    /// view into radians and `tan` gives the tangent of an angle.
    pub fn matrix<R: Fn(T) -> T, F: Fn(T) -> T>(&self, to_radians: R, tan: F) -> (m: Mat4<T>)
        requires
            total::<T>(),
            forall|v: T| to_radians.requires((v,)),
            forall|v: T| tan.requires((v,)),
        ensures
            exact::<T>() ==> exists|fov: T, t: T|
                {
                    &&& to_radians.ensures((self.fov,), fov)
                    &&& tan.ensures((fov.div_spec(num::<T>(2)),), t)
                    &&& m == Mat4::projection_spec(t, self.aspect, self.near, self.far)
                },
    {
        let fov = to_radians(self.fov);
        let m = Mat4::projection(fov, self.aspect, self.near, self.far, tan);
        proof {
            if exact::<T>() {
                let t = choose|t: T|
                    tan.ensures((fov.div_spec(num::<T>(2)),), t) && m == Mat4::projection_spec(
                        t,
                        self.aspect,
                        self.near,
                        self.far,
                    );
                assert(to_radians.ensures((self.fov,), fov) && tan.ensures(
                    (fov.div_spec(num::<T>(2)),),
                    t,
                ) && m == Mat4::projection_spec(t, self.aspect, self.near, self.far));
            }
        }
        m
    }
}

} // verus!
