//! The camera: a position, a rotation in degrees about each axis, and the
//! two things derived from them, the view matrix and the facing ray.
//!
//! The rotation is kept in degrees. Matrices and rays are built from
//! radians, and the two methods of [`Cam`] are where degrees become radians.

use crate::math::algebra::{
    lemma_add_assoc, lemma_add_comm, lemma_add_neg, lemma_distributes, lemma_mul_assoc,
    lemma_mul_comm, lemma_mul_interchange, lemma_mul_neg, lemma_mul_one, lemma_neg_add,
    lemma_neg_mul_neg, lemma_square_of_product, lemma_units, on_unit_circle, ring,
};
use crate::math::mat4::Mat4;
use crate::math::scalar::{exact, num, total, Scalar};
use crate::math::vec3::Vec3;
use crate::math::vec4::Vec4;
use core::ops::Neg;
use vstd::prelude::*;
use vstd::std_specs::ops::{AddSpec, MulSpec, NegSpec};

verus! {

/// The facing ray for a pitch with sine and cosine `x` and a yaw with sine
/// and cosine `y`. The cosine of the pitch is the radius of the horizontal
/// circle that the yaw runs around; the sine of the pitch, negated, is the
/// height.
pub open spec fn ray_spec<T: Scalar>(x: (T, T), y: (T, T)) -> Vec3<T> {
    Vec3 { x: x.1.mul_spec(y.0.neg_spec()), y: x.0.neg_spec(), z: x.1.mul_spec(y.1.neg_spec()) }
}

/// `sc` is the sine and cosine, as `sin_cos` computes them, of the angle
/// that `to_radians` makes of `degrees`.
pub open spec fn is_sin_cos_of_degrees<T: Scalar, R: Fn(T) -> T, F: Fn(T) -> (T, T)>(
    degrees: T,
    sc: (T, T),
    to_radians: R,
    sin_cos: F,
) -> bool {
    exists|radians: T|
        to_radians.ensures((degrees,), radians) && sin_cos.ensures((radians,), sc)
}

/// The direction that a rotation faces: a ray of length one, as far as the
/// sine and cosine handed in are those of one angle. `rot` holds the angles
/// about the X, Y and Z axes in radians. The angle about Z, a roll, does not
/// move the ray. With no rotation the ray points along negative Z.
pub fn axis_rot_to_ray<T: Scalar, F: Fn(T) -> (T, T) + Copy>(rot: Vec3<T>, sin_cos: F) -> (ray:
    Vec3<T>)
    requires
        total::<T>(),
        forall|v: T| sin_cos.requires((v,)),
    ensures
        exact::<T>() ==> exists|x: (T, T), y: (T, T)|
            {
                &&& sin_cos.ensures((rot.x,), x)
                &&& sin_cos.ensures((rot.y,), y)
                &&& ray == ray_spec(x, y)
            },
{
    let (sin_x, cos_x) = sin_cos(rot.x);
    let (sin_y, cos_y) = sin_cos(rot.y);
    // the radius of the horizontal circle at this pitch
    let r = cos_x;
    let x = r * sin_y.neg();
    let z = r * cos_y.neg();
    let y = sin_x.neg();
    let ray = Vec3 { x, y, z };
    assert(exact::<T>() ==> sin_cos.ensures((rot.x,), (sin_x, cos_x)) && sin_cos.ensures(
        (rot.y,),
        (sin_y, cos_y),
    ) && ray == ray_spec((sin_x, cos_x), (sin_y, cos_y)));
    ray
}

/// A camera in the world.
#[derive(Clone)]
pub struct Cam<T: Scalar> {
    /// Where the camera stands, in world units.
    pub pos: Vec3<T>,
    /// The rotation about the X, Y and Z axes, in degrees.
    pub rot: Vec3<T>,
}

impl<T: Scalar> Cam<T> {
    /// A camera at `pos`, turned by `rot` degrees about each axis.
    pub fn new(pos: Vec3<T>, rot: Vec3<T>) -> (cam: Self)
        ensures
            cam.pos == pos,
            cam.rot == rot,
    {
        Self { pos, rot }
    }

    /// The view matrix: the rotation, each angle turned into radians by
    /// `to_radians`, and the position.
    pub fn matrix<R: Fn(T) -> T + Copy, F: Fn(T) -> (T, T) + Copy>(
        &self,
        to_radians: R,
        sin_cos: F,
    ) -> (m: Mat4<T>)
        requires
            total::<T>(),
            forall|v: T| to_radians.requires((v,)),
            forall|v: T| sin_cos.requires((v,)),
        ensures
            exact::<T>() ==> exists|x: (T, T), y: (T, T), z: (T, T)|
                {
                    &&& is_sin_cos_of_degrees(self.rot.x, x, to_radians, sin_cos)
                    &&& is_sin_cos_of_degrees(self.rot.y, y, to_radians, sin_cos)
                    &&& is_sin_cos_of_degrees(self.rot.z, z, to_radians, sin_cos)
                    &&& m == Mat4::view_spec(self.pos, x, y, z)
                },
    {
        let radians = self.rot.map(to_radians);
        let m = Mat4::view(self.pos, radians, sin_cos);
        proof {
            if exact::<T>() {
                let (x, y, z) = choose|x: (T, T), y: (T, T), z: (T, T)|
                    {
                        &&& sin_cos.ensures((radians.x,), x)
                        &&& sin_cos.ensures((radians.y,), y)
                        &&& sin_cos.ensures((radians.z,), z)
                        &&& m == Mat4::view_spec(self.pos, x, y, z)
                    };
                assert(is_sin_cos_of_degrees(self.rot.x, x, to_radians, sin_cos));
                assert(is_sin_cos_of_degrees(self.rot.y, y, to_radians, sin_cos));
                assert(is_sin_cos_of_degrees(self.rot.z, z, to_radians, sin_cos));
            }
        }
        m
    }

    /// The facing ray: the rotation, each angle turned into radians by
    /// `to_radians`, as a direction.
    pub fn dir<R: Fn(T) -> T + Copy, F: Fn(T) -> (T, T) + Copy>(
        &self,
        to_radians: R,
        sin_cos: F,
    ) -> (ray: Vec3<T>)
        requires
            total::<T>(),
            forall|v: T| to_radians.requires((v,)),
            forall|v: T| sin_cos.requires((v,)),
        ensures
            exact::<T>() ==> exists|x: (T, T), y: (T, T)|
                {
                    &&& is_sin_cos_of_degrees(self.rot.x, x, to_radians, sin_cos)
                    &&& is_sin_cos_of_degrees(self.rot.y, y, to_radians, sin_cos)
                    &&& ray == ray_spec(x, y)
                },
    {
        let radians = self.rot.map(to_radians);
        let ray = axis_rot_to_ray(radians, sin_cos);
        proof {
            if exact::<T>() {
                let (x, y) = choose|x: (T, T), y: (T, T)|
                    {
                        &&& sin_cos.ensures((radians.x,), x)
                        &&& sin_cos.ensures((radians.y,), y)
                        &&& ray == ray_spec(x, y)
                    };
                assert(is_sin_cos_of_degrees(self.rot.x, x, to_radians, sin_cos));
                assert(is_sin_cos_of_degrees(self.rot.y, y, to_radians, sin_cos));
            }
        }
        ray
    }
}

/// The facing ray has the squared length one, by the way it is built and
/// without being normalized, wherever the scalars form a ring and each
/// pair of sine and cosine lies on the unit circle.
pub proof fn lemma_ray_is_unit<T: Scalar>(x: (T, T), y: (T, T))
    requires
        ring::<T>(),
        on_unit_circle(x),
        on_unit_circle(y),
    ensures
        ray_spec(x, y).len_sq_spec() == num::<T>(1),
{
    let (sx, cx) = x;
    let (sy, cy) = y;
    let ray = ray_spec(x, y);
    let pitch_sq = sx.mul_spec(sx);
    let radius_sq = cx.mul_spec(cx);
    let yaw_sin_sq = sy.mul_spec(sy);
    let yaw_cos_sq = cy.mul_spec(cy);
    let along_x = radius_sq.mul_spec(yaw_sin_sq);
    let along_z = radius_sq.mul_spec(yaw_cos_sq);

    assert(ray.x.mul_spec(ray.x) == along_x) by {
        lemma_square_of_product(cx, sy.neg_spec());
        lemma_neg_mul_neg(sy, sy);
    }
    assert(ray.y.mul_spec(ray.y) == pitch_sq) by {
        lemma_neg_mul_neg(sx, sx);
    }
    assert(ray.z.mul_spec(ray.z) == along_z) by {
        lemma_square_of_product(cx, cy.neg_spec());
        lemma_neg_mul_neg(cy, cy);
    }
    // the two horizontal squares sum to the squared radius
    assert(along_x.add_spec(along_z) == radius_sq) by {
        lemma_distributes(radius_sq, yaw_sin_sq, yaw_cos_sq);
        lemma_mul_one(radius_sq);
    }
    // and the height brings the sum to one
    assert(along_x.add_spec(pitch_sq).add_spec(along_z) == pitch_sq.add_spec(radius_sq)) by {
        lemma_add_comm(along_x, pitch_sq);
        lemma_add_assoc(pitch_sq, along_x, along_z);
    }
}

/// The rotation of a camera that does not roll: about X by the pitch, then
/// about Y by the yaw.
pub open spec fn turn_spec<T: Scalar>(x: (T, T), y: (T, T)) -> Mat4<T> {
    Mat4::x_rotation_spec(x).product_spec(Mat4::y_rotation_spec(y))
}

/// A direction as a vector of four components: the fourth is zero, so that
/// a translation leaves it alone.
pub open spec fn direction<T: Scalar>(v: Vec3<T>) -> Vec4<T> {
    Vec4 { x: v.x, y: v.y, z: v.z, w: num::<T>(0) }
}

/// The axis along which a view looks: negative Z.
pub open spec fn forward<T: Scalar>() -> Vec3<T> {
    Vec3 { x: num::<T>(0), y: num::<T>(0), z: num::<T>(1).neg_spec() }
}

/// The entries of the rotation of a camera that does not roll, in its
/// first three rows.
proof fn lemma_turn_entries<T: Scalar>(x: (T, T), y: (T, T))
    requires
        ring::<T>(),
    ensures
        turn_spec(x, y).at(0, 0) == y.1,
        turn_spec(x, y).at(0, 1) == num::<T>(0),
        turn_spec(x, y).at(0, 2) == y.0.neg_spec(),
        turn_spec(x, y).at(1, 0) == x.0.neg_spec().mul_spec(y.0),
        turn_spec(x, y).at(1, 1) == x.1,
        turn_spec(x, y).at(1, 2) == x.0.neg_spec().mul_spec(y.1),
        turn_spec(x, y).at(2, 0) == x.1.mul_spec(y.0),
        turn_spec(x, y).at(2, 1) == x.0,
        turn_spec(x, y).at(2, 2) == x.1.mul_spec(y.1),
        turn_spec(x, y).at(3, 0) == num::<T>(0),
        turn_spec(x, y).at(3, 1) == num::<T>(0),
        turn_spec(x, y).at(3, 2) == num::<T>(0),
{
    let (sx, cx) = x;
    let (sy, cy) = y;
    lemma_units(num::<T>(0));
    lemma_units(num::<T>(1));
    lemma_units(sx);
    lemma_units(cx);
    lemma_units(sx.neg_spec());
    lemma_units(sy);
    lemma_units(cy);
    lemma_units(sy.neg_spec());
    lemma_units(sx.neg_spec().mul_spec(sy));
    lemma_units(sx.neg_spec().mul_spec(cy));
    lemma_units(cx.mul_spec(sy));
    lemma_units(cx.mul_spec(cy));
}

/// The rotation of a camera that does not roll turns the camera's own
/// facing ray into the forward axis, wherever the scalars form a ring and
/// each pair of sine and cosine lies on the unit circle.
pub proof fn lemma_turn_faces_ray<T: Scalar>(x: (T, T), y: (T, T))
    requires
        ring::<T>(),
        on_unit_circle(x),
        on_unit_circle(y),
    ensures
        turn_spec(x, y).apply_spec(direction(ray_spec(x, y))) == direction(forward::<T>()),
{
    let (sx, cx) = x;
    let (sy, cy) = y;
    let zero = num::<T>(0);
    let turn = turn_spec(x, y);
    let ray = direction(ray_spec(x, y));
    let nsx = sx.neg_spec();
    let nsy = sy.neg_spec();
    let ncy = cy.neg_spec();
    lemma_turn_entries(x, y);
    lemma_units(zero);
    lemma_units(turn.at(0, 3));
    lemma_units(turn.at(1, 3));
    lemma_units(turn.at(2, 3));
    lemma_units(nsx);

    // sideways: the two horizontal parts cancel
    let side = sy.mul_spec(cx.mul_spec(cy));
    assert(cy.mul_spec(ray.x) == side.neg_spec()) by {
        lemma_mul_neg(cx, sy);
        lemma_mul_neg(cy, cx.mul_spec(sy));
        lemma_mul_comm(cx, sy);
        lemma_mul_assoc(sy, cx, cy);
        lemma_mul_comm(cy, sy.mul_spec(cx));
        lemma_mul_comm(sy.mul_spec(cx), cy);
        lemma_mul_assoc(cy, sy, cx);
        lemma_mul_comm(cy, sy);
        lemma_mul_assoc(sy, cy, cx);
        lemma_mul_comm(cy, cx);
    }
    assert(nsy.mul_spec(ray.z) == side) by {
        lemma_mul_neg(cx, cy);
        lemma_neg_mul_neg(sy, cx.mul_spec(cy));
    }
    assert(turn.apply_spec(ray).x == zero) by {
        lemma_add_neg(side);
        lemma_units(side.neg_spec());
    }

    // upwards: the pitch's sine times cosine comes once with each sign
    let tilt = sx.mul_spec(cx);
    let yaw_sin_sq = sy.mul_spec(sy);
    let yaw_cos_sq = cy.mul_spec(cy);
    assert(nsx.mul_spec(sy).mul_spec(ray.x) == tilt.mul_spec(yaw_sin_sq)) by {
        lemma_mul_neg(sx, sy);
        lemma_mul_neg(cx, sy);
        lemma_neg_mul_neg(sx.mul_spec(sy), cx.mul_spec(sy));
        lemma_mul_interchange(sx, sy, cx, sy);
    }
    assert(nsx.mul_spec(cy).mul_spec(ray.z) == tilt.mul_spec(yaw_cos_sq)) by {
        lemma_mul_neg(sx, cy);
        lemma_mul_neg(cx, cy);
        lemma_neg_mul_neg(sx.mul_spec(cy), cx.mul_spec(cy));
        lemma_mul_interchange(sx, cy, cx, cy);
    }
    assert(cx.mul_spec(ray.y) == tilt.neg_spec()) by {
        lemma_mul_neg(cx, sx);
        lemma_mul_comm(cx, sx);
    }
    assert(turn.apply_spec(ray).y == zero) by {
        let a = tilt.mul_spec(yaw_sin_sq);
        let b = tilt.mul_spec(yaw_cos_sq);
        let n = tilt.neg_spec();
        // (a + n) + b = (a + b) + n = tilt + n = 0
        lemma_add_assoc(a, n, b);
        lemma_add_comm(n, b);
        lemma_add_assoc(a, b, n);
        lemma_distributes(tilt, yaw_sin_sq, yaw_cos_sq);
        lemma_mul_one(tilt);
        lemma_add_neg(tilt);
        lemma_units(zero);
    }

    // forwards: minus the squared length of the ray
    let pitch_sq = sx.mul_spec(sx);
    let radius_sq = cx.mul_spec(cx);
    let along_x = radius_sq.mul_spec(yaw_sin_sq);
    let along_z = radius_sq.mul_spec(yaw_cos_sq);
    assert(cx.mul_spec(sy).mul_spec(ray.x) == along_x.neg_spec()) by {
        lemma_mul_neg(cx, sy);
        lemma_mul_neg(cx.mul_spec(sy), cx.mul_spec(sy));
        lemma_square_of_product(cx, sy);
    }
    assert(sx.mul_spec(ray.y) == pitch_sq.neg_spec()) by {
        lemma_mul_neg(sx, sx);
    }
    assert(cx.mul_spec(cy).mul_spec(ray.z) == along_z.neg_spec()) by {
        lemma_mul_neg(cx, cy);
        lemma_mul_neg(cx.mul_spec(cy), cx.mul_spec(cy));
        lemma_square_of_product(cx, cy);
    }
    assert(turn.apply_spec(ray).z == num::<T>(1).neg_spec()) by {
        lemma_neg_add(along_x, pitch_sq);
        lemma_neg_add(along_x.add_spec(pitch_sq), along_z);
        lemma_ray_is_unit(x, y);
        assert(ray_spec(x, y).len_sq_spec() == along_x.add_spec(pitch_sq).add_spec(along_z)) by {
            lemma_square_of_product(cx, sy.neg_spec());
            lemma_neg_mul_neg(sy, sy);
            lemma_neg_mul_neg(sx, sx);
            lemma_square_of_product(cx, cy.neg_spec());
            lemma_neg_mul_neg(cy, cy);
        }
        lemma_units(num::<T>(1).neg_spec());
    }
    assert(turn.apply_spec(ray).w == zero) by {
        lemma_units(ray.x);
        lemma_units(ray.y);
        lemma_units(ray.z);
        lemma_units(turn.at(3, 3));
    }
}

/// The view of a camera that does not roll turns the camera's own facing
/// ray into the forward axis: what the camera faces is what lies straight
/// ahead in its view, wherever the camera stands. `x` and `y` are the sine
/// and cosine pairs of the pitch and the yaw; the roll has the sine zero and
/// the cosine one. This holds wherever the scalars form a ring and each pair
/// lies on the unit circle.
pub proof fn lemma_view_faces_ray<T: Scalar>(pos: Vec3<T>, x: (T, T), y: (T, T))
    requires
        ring::<T>(),
        on_unit_circle(x),
        on_unit_circle(y),
    ensures
        Mat4::view_spec(pos, x, y, (num::<T>(0), num::<T>(1))).apply_spec(
            direction(ray_spec(x, y)),
        ) == direction(forward::<T>()),
{
    let turn = turn_spec(x, y);
    Mat4::<T>::lemma_no_roll();
    Mat4::lemma_times_identity(turn);
    Mat4::lemma_translation_keeps_directions(
        turn,
        pos.mul_scalar_spec(num::<T>(-1i16)),
        direction(ray_spec(x, y)),
    );
    lemma_turn_faces_ray(x, y);
}

} // verus!
