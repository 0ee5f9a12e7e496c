//! 4x4 matrices: storage, addressing, the product, and the constructors
//! for rotation, translation, scaling, projection and the camera's view.
//!
//! A matrix keeps its sixteen scalars in four stored rows of four. It is
//! addressed column first: `get(col, row)` reads the scalar that is stored at
//! `self.0[row][col]`. Every constructor and the product are written against
//! that addressing, and their contracts name entries the same way, through
//! [`Mat4::at`].

use crate::math::algebra::{
    lemma_neg_zero, lemma_rotation_block, lemma_units, on_unit_circle, ring,
};
use crate::math::scalar::{exact, num, total, units_behave, Scalar};
use crate::math::vec3::Vec3;
use crate::math::vec4::Vec4;
use core::ops::{Mul, Neg};
use vstd::prelude::*;
use vstd::std_specs::ops::{AddSpec, DivSpec, MulSpec, NegSpec, SubSpec};

verus! {

/// A 4x4 matrix of scalars, stored as four rows of four.
#[derive(Debug, Clone, Copy)]
pub struct Mat4<T: Scalar>(pub [[T; 4]; 4]);

impl<T: Scalar> Mat4<T> {
    /// The entry at column `col` and row `row`.
    pub open spec fn at(self, col: int, row: int) -> T {
        self.0[row][col]
    }

    /// Row `row` as a vector: the entries of columns 0 to 3.
    pub open spec fn row_spec(self, row: int) -> Vec4<T> {
        Vec4 { x: self.at(0, row), y: self.at(1, row), z: self.at(2, row), w: self.at(3, row) }
    }

    /// Column `col` as a vector: the entries of rows 0 to 3.
    pub open spec fn col_spec(self, col: int) -> Vec4<T> {
        Vec4 { x: self.at(col, 0), y: self.at(col, 1), z: self.at(col, 2), w: self.at(col, 3) }
    }

    /// The matrix of zeros.
    pub open spec fn empty_spec() -> Self {
        let z = num::<T>(0);
        Mat4([[z, z, z, z], [z, z, z, z], [z, z, z, z], [z, z, z, z]])
    }

    /// One on the diagonal, zero elsewhere.
    pub open spec fn identity_spec() -> Self {
        let z = num::<T>(0);
        let o = num::<T>(1);
        Mat4([[o, z, z, z], [z, o, z, z], [z, z, o, z], [z, z, z, o]])
    }

    /// The rotation about the X axis for an angle whose sine and cosine are
    /// `sc.0` and `sc.1`: the identity with the cosine at (1, 1) and (2, 2),
    /// the sine at (2, 1) and its negation at (1, 2), column first.
    pub open spec fn x_rotation_spec(sc: (T, T)) -> Self {
        let z = num::<T>(0);
        let o = num::<T>(1);
        let (s, c) = sc;
        Mat4([[o, z, z, z], [z, c, s, z], [z, s.neg_spec(), c, z], [z, z, z, o]])
    }

    /// The rotation about the Y axis: the identity with the cosine at
    /// (0, 0) and (2, 2), the sine at (2, 0) and its negation at (0, 2).
    pub open spec fn y_rotation_spec(sc: (T, T)) -> Self {
        let z = num::<T>(0);
        let o = num::<T>(1);
        let (s, c) = sc;
        Mat4([[c, z, s, z], [z, o, z, z], [s.neg_spec(), z, c, z], [z, z, z, o]])
    }

    /// The rotation about the Z axis: the identity with the cosine at
    /// (0, 0) and (1, 1), the sine at (1, 0) and its negation at (0, 1).
    pub open spec fn z_rotation_spec(sc: (T, T)) -> Self {
        let z = num::<T>(0);
        let o = num::<T>(1);
        let (s, c) = sc;
        Mat4([[c, s, z, z], [s.neg_spec(), c, z, z], [z, z, o, z], [z, z, z, o]])
    }

    /// This matrix is the rotation about X for the sine and cosine `sc`:
    /// it holds them where the rotation has them, and is the rotation
    /// entry for entry where the scalar's arithmetic is exact.
    pub open spec fn is_x_rotation(self, sc: (T, T)) -> bool {
        &&& self.at(1, 1) == sc.1
        &&& self.at(2, 2) == sc.1
        &&& self.at(2, 1) == sc.0
        &&& exact::<T>() ==> self == Self::x_rotation_spec(sc)
    }

    /// This matrix is the rotation about Y for the sine and cosine `sc`:
    /// it holds them where the rotation has them, and is the rotation
    /// entry for entry where the scalar's arithmetic is exact.
    pub open spec fn is_y_rotation(self, sc: (T, T)) -> bool {
        &&& self.at(0, 0) == sc.1
        &&& self.at(2, 2) == sc.1
        &&& self.at(2, 0) == sc.0
        &&& exact::<T>() ==> self == Self::y_rotation_spec(sc)
    }

    /// This matrix is the rotation about Z for the sine and cosine `sc`:
    /// it holds them where the rotation has them, and is the rotation
    /// entry for entry where the scalar's arithmetic is exact.
    pub open spec fn is_z_rotation(self, sc: (T, T)) -> bool {
        &&& self.at(0, 0) == sc.1
        &&& self.at(1, 1) == sc.1
        &&& self.at(1, 0) == sc.0
        &&& exact::<T>() ==> self == Self::z_rotation_spec(sc)
    }

    /// The translation by `t`: the identity with `t.x`, `t.y` and `t.z` at
    /// (0, 3), (1, 3) and (2, 3).
    pub open spec fn translation_spec(t: Vec3<T>) -> Self {
        let z = num::<T>(0);
        let o = num::<T>(1);
        Mat4([[o, z, z, z], [z, o, z, z], [z, z, o, z], [t.x, t.y, t.z, o]])
    }

    /// The scaling by `s`: the diagonal `s.x`, `s.y`, `s.z`, one.
    pub open spec fn scaling_spec(s: Vec3<T>) -> Self {
        let z = num::<T>(0);
        let o = num::<T>(1);
        Mat4([[s.x, z, z, z], [z, s.y, z, z], [z, z, s.z, z], [z, z, z, o]])
    }

    /// The horizontal scale of a projection whose half field of view has
    /// the tangent `t`: one over `t`.
    pub open spec fn x_scale_spec(t: T) -> T {
        num::<T>(1).div_spec(t)
    }

    /// The perspective projection for a half field of view with tangent
    /// `t`. The vertical scale is the horizontal scale times `aspect`.
    pub open spec fn projection_spec(t: T, aspect: T, near: T, far: T) -> Self {
        let z = num::<T>(0);
        let x_scale = Self::x_scale_spec(t);
        let y_scale = x_scale.mul_spec(aspect);
        let range = far.sub_spec(near);
        let depth = far.add_spec(near).div_spec(range).neg_spec();
        let shift = num::<T>(2).mul_spec(near).mul_spec(far).div_spec(range).neg_spec();
        Mat4(
            [
                [x_scale, z, z, z],
                [z, y_scale, z, z],
                [z, z, depth, num::<T>(-1i16)],
                [z, z, shift, z],
            ],
        )
    }

    /// One entry of a product: column `col` of `self` dotted with row `row`
    /// of `rhs`.
    pub open spec fn product_entry(self, rhs: Self, col: int, row: int) -> T {
        self.col_spec(col).dot_spec(rhs.row_spec(row))
    }

    /// The product of two matrices, entry by entry.
    pub open spec fn product_spec(self, rhs: Self) -> Self {
        Mat4(
            [
                [
                    self.product_entry(rhs, 0, 0),
                    self.product_entry(rhs, 1, 0),
                    self.product_entry(rhs, 2, 0),
                    self.product_entry(rhs, 3, 0),
                ],
                [
                    self.product_entry(rhs, 0, 1),
                    self.product_entry(rhs, 1, 1),
                    self.product_entry(rhs, 2, 1),
                    self.product_entry(rhs, 3, 1),
                ],
                [
                    self.product_entry(rhs, 0, 2),
                    self.product_entry(rhs, 1, 2),
                    self.product_entry(rhs, 2, 2),
                    self.product_entry(rhs, 3, 2),
                ],
                [
                    self.product_entry(rhs, 0, 3),
                    self.product_entry(rhs, 1, 3),
                    self.product_entry(rhs, 2, 3),
                    self.product_entry(rhs, 3, 3),
                ],
            ],
        )
    }

    /// The vector that the matrix makes of `v`: component by component,
    /// the columns 0 to 3 of the matrix dotted with `v`.
    pub open spec fn apply_spec(self, v: Vec4<T>) -> Vec4<T> {
        Vec4 {
            x: self.col_spec(0).dot_spec(v),
            y: self.col_spec(1).dot_spec(v),
            z: self.col_spec(2).dot_spec(v),
            w: self.col_spec(3).dot_spec(v),
        }
    }

    /// The model matrix for rotations with the sine and cosine pairs `x`,
    /// `y`, `z`: translation, then the rotations about X, Y and Z, then
    /// scaling, multiplied from left to right.
    pub open spec fn transformation_spec(
        trans: Vec3<T>,
        x: (T, T),
        y: (T, T),
        z: (T, T),
        scale: Vec3<T>,
    ) -> Self {
        Self::translation_spec(trans).product_spec(Self::x_rotation_spec(x)).product_spec(
            Self::y_rotation_spec(y),
        ).product_spec(Self::z_rotation_spec(z)).product_spec(Self::scaling_spec(scale))
    }

    /// The view matrix of a camera at `pos`: the rotations about X, Y and
    /// Z, then the translation by `pos` times minus one, multiplied from
    /// left to right.
    pub open spec fn view_spec(pos: Vec3<T>, x: (T, T), y: (T, T), z: (T, T)) -> Self {
        Self::x_rotation_spec(x).product_spec(Self::y_rotation_spec(y)).product_spec(
            Self::z_rotation_spec(z),
        ).product_spec(Self::translation_spec(pos.mul_scalar_spec(num::<T>(-1i16))))
    }

    /// The stored rows.
    pub fn pod(&self) -> (a: [[T; 4]; 4])
        ensures
            a == self.0,
    {
        self.0
    }

    /// The matrix of zeros.
    pub fn empty() -> (m: Self)
        ensures
            exact::<T>() ==> m == Self::empty_spec(),
    {
        let z = T::from(0i16);
        Self([[z, z, z, z], [z, z, z, z], [z, z, z, z], [z, z, z, z]])
    }

    /// The identity matrix.
    pub fn identity() -> (m: Self)
        ensures
            exact::<T>() ==> m == Self::identity_spec(),
    {
        let z = T::from(0i16);
        let o = T::from(1i16);
        Self([[o, z, z, z], [z, o, z, z], [z, z, o, z], [z, z, z, o]])
    }

    /// Reads the entry at column `col`, row `row`.
    pub fn get(&self, col: usize, row: usize) -> (v: T)
        requires
            col < 4,
            row < 4,
        ensures
            v == self.at(col as int, row as int),
    {
        self.0[row][col]
    }

    /// Writes the entry at column `col`, row `row`, and no other.
    pub fn set(&mut self, col: usize, row: usize, value: T)
        requires
            col < 4,
            row < 4,
        ensures
            final(self).at(col as int, row as int) == value,
            forall|c: int, r: int|
                0 <= c < 4 && 0 <= r < 4 && !(c == col && r == row) ==> final(self).at(c, r) == old(
                    self,
                ).at(c, r),
    {
        self.0[row][col] = value;
    }

    /// Row `row` as a vector.
    pub fn get_row(&self, row: usize) -> (v: Vec4<T>)
        requires
            row < 4,
        ensures
            v == self.row_spec(row as int),
    {
        Vec4 { x: self.get(0, row), y: self.get(1, row), z: self.get(2, row), w: self.get(3, row) }
    }

    /// Column `col` as a vector.
    pub fn get_col(&self, col: usize) -> (v: Vec4<T>)
        requires
            col < 4,
        ensures
            v == self.col_spec(col as int),
    {
        Vec4 { x: self.get(col, 0), y: self.get(col, 1), z: self.get(col, 2), w: self.get(col, 3) }
    }

    /// The rotation about the X axis by the angle `a`, in radians.
    /// `sin_cos` gives the sine and the cosine of an angle, in that order.
    pub fn x_rotation<F: Fn(T) -> (T, T)>(a: T, sin_cos: F) -> (m: Self)
        requires
            total::<T>(),
            forall|v: T| sin_cos.requires((v,)),
        ensures
            exists|sc: (T, T)| sin_cos.ensures((a,), sc) && m.is_x_rotation(sc),
    {
        let (s, c) = sin_cos(a);
        let mut out = Self::identity();
        out.set(1, 1, c);
        out.set(2, 2, c);
        out.set(2, 1, s);
        out.set(1, 2, s.neg());
        proof {
            if exact::<T>() {
                Self::lemma_same_entries(out, Self::x_rotation_spec((s, c)));
            }
            assert(sin_cos.ensures((a,), (s, c)) && out.is_x_rotation((s, c)));
        }
        out
    }

    /// The rotation about the Y axis by the angle `a`, in radians.
    pub fn y_rotation<F: Fn(T) -> (T, T)>(a: T, sin_cos: F) -> (m: Self)
        requires
            total::<T>(),
            forall|v: T| sin_cos.requires((v,)),
        ensures
            exists|sc: (T, T)| sin_cos.ensures((a,), sc) && m.is_y_rotation(sc),
    {
        let (s, c) = sin_cos(a);
        let mut out = Self::identity();
        out.set(0, 0, c);
        out.set(2, 0, s);
        out.set(0, 2, s.neg());
        out.set(2, 2, c);
        proof {
            if exact::<T>() {
                Self::lemma_same_entries(out, Self::y_rotation_spec((s, c)));
            }
            assert(sin_cos.ensures((a,), (s, c)) && out.is_y_rotation((s, c)));
        }
        out
    }

    /// The rotation about the Z axis by the angle `a`, in radians.
    pub fn z_rotation<F: Fn(T) -> (T, T)>(a: T, sin_cos: F) -> (m: Self)
        requires
            total::<T>(),
            forall|v: T| sin_cos.requires((v,)),
        ensures
            exists|sc: (T, T)| sin_cos.ensures((a,), sc) && m.is_z_rotation(sc),
    {
        let (s, c) = sin_cos(a);
        let mut out = Self::identity();
        out.set(0, 0, c);
        out.set(1, 0, s);
        out.set(0, 1, s.neg());
        out.set(1, 1, c);
        proof {
            if exact::<T>() {
                Self::lemma_same_entries(out, Self::z_rotation_spec((s, c)));
            }
            assert(sin_cos.ensures((a,), (s, c)) && out.is_z_rotation((s, c)));
        }
        out
    }

    /// The matrix that scales by `scale`, rotates by the angles `rot`
    /// (radians, one per axis) and translates by `trans`.
    pub fn transformation<F: Fn(T) -> (T, T) + Copy>(
        trans: Vec3<T>,
        rot: Vec3<T>,
        scale: Vec3<T>,
        sin_cos: F,
    ) -> (m: Self)
        requires
            total::<T>(),
            forall|v: T| sin_cos.requires((v,)),
        ensures
            exact::<T>() ==> exists|x: (T, T), y: (T, T), z: (T, T)|
                {
                    &&& sin_cos.ensures((rot.x,), x)
                    &&& sin_cos.ensures((rot.y,), y)
                    &&& sin_cos.ensures((rot.z,), z)
                    &&& m == Self::transformation_spec(trans, x, y, z, scale)
                },
    {
        let t = Self::translation(trans);
        let rx = Self::x_rotation(rot.x, sin_cos);
        let ry = Self::y_rotation(rot.y, sin_cos);
        let rz = Self::z_rotation(rot.z, sin_cos);
        let s = Self::scaling(scale);
        let m = t * rx * ry * rz * s;
        proof {
            if exact::<T>() {
                let x = choose|x: (T, T)|
                    sin_cos.ensures((rot.x,), x) && rx.is_x_rotation(x);
                let y = choose|y: (T, T)|
                    sin_cos.ensures((rot.y,), y) && ry.is_y_rotation(y);
                let z = choose|z: (T, T)|
                    sin_cos.ensures((rot.z,), z) && rz.is_z_rotation(z);
                assert(sin_cos.ensures((rot.x,), x) && sin_cos.ensures((rot.y,), y)
                    && sin_cos.ensures((rot.z,), z) && m == Self::transformation_spec(
                    trans,
                    x,
                    y,
                    z,
                    scale,
                ));
            }
        }
        m
    }

    /// The perspective projection for the field of view `fov` (radians),
    /// the aspect ratio, and the near and far planes. `tan` gives the tangent
    /// of an angle. The planes are not compared: with `near` equal to `far`
    /// the depth entries are quotients by zero.
    pub fn projection<F: Fn(T) -> T>(fov: T, aspect: T, near: T, far: T, tan: F) -> (m: Self)
        requires
            total::<T>(),
            forall|v: T| tan.requires((v,)),
        ensures
            exact::<T>() ==> exists|t: T|
                tan.ensures((fov.div_spec(num::<T>(2)),), t) && m == Self::projection_spec(
                    t,
                    aspect,
                    near,
                    far,
                ),
    {
        let t = tan(fov / T::from(2i16));
        let x_scale = T::from(1i16) / t;
        let y_scale = x_scale * aspect;
        let range = far - near;

        let mut out = Self::empty();
        out.set(0, 0, x_scale);
        out.set(1, 1, y_scale);
        out.set(2, 2, ((far + near) / range).neg());
        out.set(3, 2, T::from(-1i16));
        out.set(2, 3, ((T::from(2i16) * near * far) / range).neg());
        proof {
            if exact::<T>() {
                Self::lemma_same_entries(out, Self::projection_spec(t, aspect, near, far));
                assert(tan.ensures((fov.div_spec(num::<T>(2)),), t));
            }
        }
        out
    }

    /// The view matrix of a camera at `pos`, turned by the angles `rot`
    /// (radians, one per axis): the world is rotated, then moved by the
    /// negated position.
    pub fn view<F: Fn(T) -> (T, T) + Copy>(pos: Vec3<T>, rot: Vec3<T>, sin_cos: F) -> (m: Self)
        requires
            total::<T>(),
            forall|v: T| sin_cos.requires((v,)),
        ensures
            exact::<T>() ==> exists|x: (T, T), y: (T, T), z: (T, T)|
                {
                    &&& sin_cos.ensures((rot.x,), x)
                    &&& sin_cos.ensures((rot.y,), y)
                    &&& sin_cos.ensures((rot.z,), z)
                    &&& m == Self::view_spec(pos, x, y, z)
                },
    {
        let rx = Self::x_rotation(rot.x, sin_cos);
        let ry = Self::y_rotation(rot.y, sin_cos);
        let rz = Self::z_rotation(rot.z, sin_cos);
        let t = Self::translation(pos * T::from(-1i16));
        let m = rx * ry * rz * t;
        proof {
            if exact::<T>() {
                let x = choose|x: (T, T)|
                    sin_cos.ensures((rot.x,), x) && rx.is_x_rotation(x);
                let y = choose|y: (T, T)|
                    sin_cos.ensures((rot.y,), y) && ry.is_y_rotation(y);
                let z = choose|z: (T, T)|
                    sin_cos.ensures((rot.z,), z) && rz.is_z_rotation(z);
                assert(sin_cos.ensures((rot.x,), x) && sin_cos.ensures((rot.y,), y)
                    && sin_cos.ensures((rot.z,), z) && m == Self::view_spec(pos, x, y, z));
            }
        }
        m
    }

    /// The matrix that translates by `t`.
    pub fn translation(t: Vec3<T>) -> (m: Self)
        ensures
            m.at(0, 3) == t.x,
            m.at(1, 3) == t.y,
            m.at(2, 3) == t.z,
            exact::<T>() ==> m == Self::translation_spec(t),
    {
        let mut out = Self::identity();
        out.set(0, 3, t.x);
        out.set(1, 3, t.y);
        out.set(2, 3, t.z);
        proof {
            if exact::<T>() {
                Self::lemma_same_entries(out, Self::translation_spec(t));
            }
        }
        out
    }

    /// The matrix that scales by `scale`.
    pub fn scaling(scale: Vec3<T>) -> (m: Self)
        ensures
            m.at(0, 0) == scale.x,
            m.at(1, 1) == scale.y,
            m.at(2, 2) == scale.z,
            exact::<T>() ==> m == Self::scaling_spec(scale),
    {
        let mut out = Self::identity();
        out.set(0, 0, scale.x);
        out.set(1, 1, scale.y);
        out.set(2, 2, scale.z);
        proof {
            if exact::<T>() {
                Self::lemma_same_entries(out, Self::scaling_spec(scale));
            }
        }
        out
    }
}

/// The product of two matrices. Its entry at column `c`, row `r` is column
/// `c` of the left matrix dotted with row `r` of the right one.
impl<T: Scalar> Mul<Self> for Mat4<T> {
    type Output = Self;

    fn mul(self, other: Self) -> (m: Self) {
        let mut out = Self::empty();
        out.set(0, 0, self.get_col(0).dot(other.get_row(0)));
        out.set(1, 0, self.get_col(1).dot(other.get_row(0)));
        out.set(2, 0, self.get_col(2).dot(other.get_row(0)));
        out.set(3, 0, self.get_col(3).dot(other.get_row(0)));

        out.set(0, 1, self.get_col(0).dot(other.get_row(1)));
        out.set(1, 1, self.get_col(1).dot(other.get_row(1)));
        out.set(2, 1, self.get_col(2).dot(other.get_row(1)));
        out.set(3, 1, self.get_col(3).dot(other.get_row(1)));

        out.set(0, 2, self.get_col(0).dot(other.get_row(2)));
        out.set(1, 2, self.get_col(1).dot(other.get_row(2)));
        out.set(2, 2, self.get_col(2).dot(other.get_row(2)));
        out.set(3, 2, self.get_col(3).dot(other.get_row(2)));

        out.set(0, 3, self.get_col(0).dot(other.get_row(3)));
        out.set(1, 3, self.get_col(1).dot(other.get_row(3)));
        out.set(2, 3, self.get_col(2).dot(other.get_row(3)));
        out.set(3, 3, self.get_col(3).dot(other.get_row(3)));
        proof {
            if exact::<T>() {
                Self::lemma_same_entries(out, self.product_spec(other));
            }
        }
        out
    }
}

impl<T: Scalar> vstd::std_specs::ops::MulSpecImpl<Self> for Mat4<T> {
    open spec fn obeys_mul_spec() -> bool {
        exact::<T>()
    }

    open spec fn mul_req(self, rhs: Self) -> bool {
        total::<T>()
    }

    open spec fn mul_spec(self, rhs: Self) -> Self {
        self.product_spec(rhs)
    }
}

impl<T: Scalar> Mat4<T> {
    /// Two matrices with the same sixteen entries are the same matrix.
    pub proof fn lemma_same_entries(a: Self, b: Self)
        requires
            forall|c: int, r: int| 0 <= c < 4 && 0 <= r < 4 ==> a.at(c, r) == b.at(c, r),
        ensures
            a == b,
    {
        assert forall|r: int| 0 <= r < 4 implies a.0[r] == b.0[r] by {
            assert forall|c: int| 0 <= c < 4 implies a.0[r][c] == b.0[r][c] by {
                assert(a.at(c, r) == b.at(c, r));
            }
            assert(a.0[r] =~= b.0[r]);
        }
        assert(a.0 =~= b.0);
    }

    /// The identity times the identity is the identity, wherever zero and
    /// one behave.
    pub proof fn lemma_identity_squared()
        requires
            units_behave::<T>(),
        ensures
            Self::identity_spec().product_spec(Self::identity_spec()) == Self::identity_spec(),
    {
        let i = Self::identity_spec();
        Self::lemma_same_entries(i.product_spec(i), i);
    }

    /// A rotation about X times the rotation about X by the opposite
    /// angle is the identity, wherever the scalars form a ring and the sine
    /// and cosine lie on the unit circle. The opposite angle has the sine
    /// negated and the same cosine.
    pub proof fn lemma_x_rotation_inverse(sc: (T, T))
        requires
            ring::<T>(),
            on_unit_circle(sc),
        ensures
            Self::x_rotation_spec(sc).product_spec(
                Self::x_rotation_spec((sc.0.neg_spec(), sc.1)),
            ) == Self::identity_spec(),
    {
        let there = Self::x_rotation_spec(sc);
        let back = Self::x_rotation_spec((sc.0.neg_spec(), sc.1));
        lemma_rotation_block(sc.0, sc.1);
        lemma_units(num::<T>(0));
        lemma_units(num::<T>(1));
        lemma_units(sc.0);
        lemma_units(sc.1);
        lemma_units(sc.0.neg_spec());
        lemma_units(sc.0.neg_spec().neg_spec());
        lemma_units(sc.1.mul_spec(sc.1));
        lemma_units(sc.0.mul_spec(sc.1));
        lemma_units(sc.0.mul_spec(sc.0.neg_spec().neg_spec()));
        lemma_units(sc.1.mul_spec(sc.0.neg_spec().neg_spec()));
        Self::lemma_same_entries(there.product_spec(back), Self::identity_spec());
    }

    /// A rotation about Y times the rotation about Y by the opposite
    /// angle is the identity, wherever the scalars form a ring and the sine
    /// and cosine lie on the unit circle. The opposite angle has the sine
    /// negated and the same cosine.
    pub proof fn lemma_y_rotation_inverse(sc: (T, T))
        requires
            ring::<T>(),
            on_unit_circle(sc),
        ensures
            Self::y_rotation_spec(sc).product_spec(
                Self::y_rotation_spec((sc.0.neg_spec(), sc.1)),
            ) == Self::identity_spec(),
    {
        let there = Self::y_rotation_spec(sc);
        let back = Self::y_rotation_spec((sc.0.neg_spec(), sc.1));
        lemma_rotation_block(sc.0, sc.1);
        lemma_units(num::<T>(0));
        lemma_units(num::<T>(1));
        lemma_units(sc.0);
        lemma_units(sc.1);
        lemma_units(sc.0.neg_spec());
        lemma_units(sc.0.neg_spec().neg_spec());
        lemma_units(sc.1.mul_spec(sc.1));
        lemma_units(sc.0.mul_spec(sc.1));
        lemma_units(sc.0.mul_spec(sc.0.neg_spec().neg_spec()));
        lemma_units(sc.1.mul_spec(sc.0.neg_spec().neg_spec()));
        Self::lemma_same_entries(there.product_spec(back), Self::identity_spec());
    }

    /// A rotation about Z times the rotation about Z by the opposite
    /// angle is the identity, wherever the scalars form a ring and the sine
    /// and cosine lie on the unit circle. The opposite angle has the sine
    /// negated and the same cosine.
    pub proof fn lemma_z_rotation_inverse(sc: (T, T))
        requires
            ring::<T>(),
            on_unit_circle(sc),
        ensures
            Self::z_rotation_spec(sc).product_spec(
                Self::z_rotation_spec((sc.0.neg_spec(), sc.1)),
            ) == Self::identity_spec(),
    {
        let there = Self::z_rotation_spec(sc);
        let back = Self::z_rotation_spec((sc.0.neg_spec(), sc.1));
        lemma_rotation_block(sc.0, sc.1);
        lemma_units(num::<T>(0));
        lemma_units(num::<T>(1));
        lemma_units(sc.0);
        lemma_units(sc.1);
        lemma_units(sc.0.neg_spec());
        lemma_units(sc.0.neg_spec().neg_spec());
        lemma_units(sc.1.mul_spec(sc.1));
        lemma_units(sc.0.mul_spec(sc.1));
        lemma_units(sc.0.mul_spec(sc.0.neg_spec().neg_spec()));
        lemma_units(sc.1.mul_spec(sc.0.neg_spec().neg_spec()));
        Self::lemma_same_entries(there.product_spec(back), Self::identity_spec());
    }

    /// Zero and one behave towards every entry of `m` as they should.
    proof fn lemma_entry_units(m: Self)
        requires
            ring::<T>(),
        ensures
            forall|c: int, r: int|
                0 <= c < 4 && 0 <= r < 4 ==> {
                    let e = #[trigger] m.at(c, r);
                    &&& e.mul_spec(num::<T>(0)) == num::<T>(0)
                    &&& e.mul_spec(num::<T>(1)) == e
                    &&& e.add_spec(num::<T>(0)) == e
                    &&& num::<T>(0).add_spec(e) == e
                },
    {
        assert forall|c: int, r: int| 0 <= c < 4 && 0 <= r < 4 implies {
            let e = #[trigger] m.at(c, r);
            &&& e.mul_spec(num::<T>(0)) == num::<T>(0)
            &&& e.mul_spec(num::<T>(1)) == e
            &&& e.add_spec(num::<T>(0)) == e
            &&& num::<T>(0).add_spec(e) == e
        } by {
            lemma_units(m.at(c, r));
        }
    }

    /// A matrix times the identity is the matrix, wherever the scalars
    /// form a ring.
    pub proof fn lemma_times_identity(m: Self)
        requires
            ring::<T>(),
        ensures
            m.product_spec(Self::identity_spec()) == m,
    {
        lemma_units(num::<T>(0));
        lemma_units(num::<T>(1));
        Self::lemma_entry_units(m);
        Self::lemma_same_entries(m.product_spec(Self::identity_spec()), m);
    }

    /// The rotation about Z for the sine zero and the cosine one, which are
    /// those of the angle zero, is the identity, wherever the scalars form a
    /// ring.
    pub proof fn lemma_no_roll()
        requires
            ring::<T>(),
        ensures
            Self::z_rotation_spec((num::<T>(0), num::<T>(1))) == Self::identity_spec(),
    {
        lemma_neg_zero::<T>();
        Self::lemma_same_entries(
            Self::z_rotation_spec((num::<T>(0), num::<T>(1))),
            Self::identity_spec(),
        );
    }

    /// A translation does not move a direction. More is true: following
    /// any matrix by a translation changes nothing in what the matrix makes
    /// of a vector whose fourth component is zero. This holds wherever the
    /// scalars form a ring.
    pub proof fn lemma_translation_keeps_directions(m: Self, t: Vec3<T>, v: Vec4<T>)
        requires
            ring::<T>(),
            v.w == num::<T>(0),
        ensures
            m.product_spec(Self::translation_spec(t)).apply_spec(v) == m.apply_spec(v),
    {
        let moved = m.product_spec(Self::translation_spec(t));
        lemma_units(num::<T>(0));
        lemma_units(num::<T>(1));
        Self::lemma_entry_units(m);
        assert forall|c: int, r: int| 0 <= c < 4 && 0 <= r < 3 implies moved.at(c, r) == m.at(
            c,
            r,
        ) by {}
        lemma_units(moved.at(0, 3));
        lemma_units(moved.at(1, 3));
        lemma_units(moved.at(2, 3));
        lemma_units(moved.at(3, 3));
    }

    /// With an aspect ratio that leaves the horizontal scale as it is when
    /// multiplied with it, as the ratio one does, a projection scales both
    /// ways alike: its entries at (0, 0) and (1, 1) are equal.
    pub proof fn lemma_square_projection(t: T, aspect: T, near: T, far: T)
        requires
            Self::x_scale_spec(t).mul_spec(aspect) == Self::x_scale_spec(t),
        ensures
            Self::projection_spec(t, aspect, near, far).at(1, 1) == Self::projection_spec(
                t,
                aspect,
                near,
                far,
            ).at(0, 0),
    {
    }
}

} // verus!
