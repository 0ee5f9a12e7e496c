//! The player: a position in the world and the camera that looks out of it.
//!
//! Each frame the cursor turns the camera and the held keys move the
//! player; the camera then stands where the player stands.

use crate::cam::{is_sin_cos_of_degrees, Cam};
use crate::input::{FrameInput, Key};
use crate::math::scalar::{clamp, clamp_spec, exact, num, ordered, total, Scalar};
use crate::math::vec2::Vec2;
use crate::math::vec3::Vec3;
use core::ops::Neg;
use vstd::prelude::*;
use vstd::std_specs::cmp::PartialOrdIs;
use vstd::std_specs::ops::{AddSpec, DivSpec, MulSpec, NegSpec, SubSpec};

verus! {

/// Degrees of rotation for each unit of cursor motion: two fifths.
pub open spec fn sensitivity<T: Scalar>() -> T {
    num::<T>(4).div_spec(num::<T>(10))
}

/// Distance covered in one frame along each direction that a held key
/// asks for: one tenth.
pub open spec fn speed<T: Scalar>() -> T {
    num::<T>(1).div_spec(num::<T>(10))
}

/// The pitch before it is held within a quarter turn up or down: the old
/// pitch less the sensitivity times the cursor's vertical motion.
pub open spec fn raw_pitch<T: Scalar>(rot: Vec3<T>, delta: Vec2<T>) -> T {
    rot.x.sub_spec(sensitivity::<T>().mul_spec(delta.y))
}

/// The rotation after the cursor has moved by `delta`. The pitch, about X,
/// is held within 90 degrees either way. The yaw, about Y, grows by the
/// sensitivity times the horizontal motion and is left to run on without
/// bound. The roll, about Z, stays.
pub open spec fn turned_spec<T: Scalar>(rot: Vec3<T>, delta: Vec2<T>) -> Vec3<T> {
    Vec3 {
        x: clamp_spec(raw_pitch(rot, delta), num::<T>(-90i16), num::<T>(90)),
        y: rot.y.add_spec(sensitivity::<T>().mul_spec(delta.x)),
        z: rot.z,
    }
}

/// The six directions that a held key can ask for.
pub struct Heading {
    pub forward: bool,
    pub back: bool,
    pub right: bool,
    pub left: bool,
    pub up: bool,
    pub down: bool,
}

impl Heading {
    /// No direction is asked for.
    pub open spec fn is_still(self) -> bool {
        !self.forward && !self.back && !self.right && !self.left && !self.up && !self.down
    }
}

/// The directions that the held keys of `input` ask for: W and S for
/// forward and back, D and A for right and left, Space and left Shift for
/// up and down.
pub open spec fn heading_of<T: Scalar>(input: &FrameInput<T>) -> Heading {
    Heading {
        forward: input.held(Key::W),
        back: input.held(Key::S),
        right: input.held(Key::D),
        left: input.held(Key::A),
        up: input.held(Key::Space),
        down: input.held(Key::LShift),
    }
}

/// The position after one frame of walking from `pos`. `dx` and `dz` are
/// the steps along X and Z for one frame of walking forward (the walk goes
/// against them), `dy` is the step of rising. Each direction held adds its
/// own step, one after another in the order forward, back, right, left, up,
/// down; opposite directions undo each other only as far as the scalar's
/// arithmetic does.
pub open spec fn walked_spec<T: Scalar>(pos: Vec3<T>, dx: T, dz: T, dy: T, h: Heading) -> Vec3<T> {
    let p = pos;
    let p = if h.forward {
        Vec3 { x: p.x.sub_spec(dx), y: p.y, z: p.z.sub_spec(dz) }
    } else {
        p
    };
    let p = if h.back {
        Vec3 { x: p.x.add_spec(dx), y: p.y, z: p.z.add_spec(dz) }
    } else {
        p
    };
    let p = if h.right {
        Vec3 { x: p.x.add_spec(dz), y: p.y, z: p.z.sub_spec(dx) }
    } else {
        p
    };
    let p = if h.left {
        Vec3 { x: p.x.sub_spec(dz), y: p.y, z: p.z.add_spec(dx) }
    } else {
        p
    };
    let p = if h.up {
        Vec3 { x: p.x, y: p.y.add_spec(dy), z: p.z }
    } else {
        p
    };
    let p = if h.down {
        Vec3 { x: p.x, y: p.y.sub_spec(dy), z: p.z }
    } else {
        p
    };
    p
}

/// The cursor motion as the camera takes it: both components negated.
pub open spec fn reversed<T: Scalar>(delta: Vec2<T>) -> Vec2<T> {
    Vec2 { x: delta.x.neg_spec(), y: delta.y.neg_spec() }
}

/// A player and its camera.
#[derive(Clone)]
pub struct Player<T: Scalar> {
    pub pos: Vec3<T>,
    pub vel: Vec3<T>,
    pub acc: Vec3<T>,
    pub cam: Cam<T>,
}

impl<T: Scalar> Player<T> {
    /// A player at rest at `pos`, looking along `rot` (degrees about each
    /// axis). The camera starts at the origin and joins the player at the
    /// first update.
    pub fn new(pos: Vec3<T>, rot: Vec3<T>) -> (player: Self)
        ensures
            player.pos == pos,
            player.cam.rot == rot,
            exact::<T>() ==> {
                let zero = Vec3 { x: num::<T>(0), y: num::<T>(0), z: num::<T>(0) };
                player.vel == zero && player.acc == zero && player.cam.pos == zero
            },
    {
        Self {
            pos,
            vel: Vec3::all(T::from(0i16)),
            acc: Vec3::all(T::from(0i16)),
            cam: Cam { pos: Vec3::all(T::from(0i16)), rot },
        }
    }

    /// Turns the camera by a cursor motion. Nothing but the camera's pitch
    /// and yaw changes.
    pub fn move_cursor(&mut self, delta: Vec2<T>)
        requires
            total::<T>(),
        ensures
            final(self).pos == old(self).pos,
            final(self).vel == old(self).vel,
            final(self).acc == old(self).acc,
            final(self).cam.pos == old(self).cam.pos,
            final(self).cam.rot.z == old(self).cam.rot.z,
            exact::<T>() && ordered::<T>() ==> final(self).cam.rot == turned_spec(
                old(self).cam.rot,
                delta,
            ),
    {
        let sensitivity = T::from(4i16) / T::from(10i16);

        // the camera looks along negative Z, so the cursor's way up and down
        // is a rotation about the X axis
        let pitch = self.cam.rot.x - sensitivity * delta.y;
        self.cam.rot.x = clamp(pitch, T::from(-90i16), T::from(90i16));

        // and its way left and right a rotation about the Y axis
        self.cam.rot.y = self.cam.rot.y + sensitivity * delta.x;
    }

    /// One frame: the camera turns by the frame's cursor motion, reversed;
    /// the player walks where the held keys ask, by steps that follow the new
    /// yaw; and the camera is put where the player now stands.
    pub fn update<R: Fn(T) -> T, F: Fn(T) -> (T, T)>(
        &mut self,
        input: &FrameInput<T>,
        to_radians: R,
        sin_cos: F,
    )
        requires
            total::<T>(),
            forall|v: T| to_radians.requires((v,)),
            forall|v: T| sin_cos.requires((v,)),
        ensures
            final(self).cam.pos == final(self).pos,
            final(self).vel == old(self).vel,
            final(self).acc == old(self).acc,
            final(self).cam.rot.z == old(self).cam.rot.z,
            heading_of(input).is_still() ==> final(self).pos == old(self).pos,
            exact::<T>() && ordered::<T>() ==> {
                let rot = turned_spec(old(self).cam.rot, reversed(input.cursor_change));
                &&& final(self).cam.rot == rot
                &&& exists|sc: (T, T)|
                    {
                        &&& is_sin_cos_of_degrees(rot.y, sc, to_radians, sin_cos)
                        &&& final(self).pos == walked_spec(
                            old(self).pos,
                            speed::<T>().mul_spec(sc.0),
                            speed::<T>().mul_spec(sc.1),
                            speed::<T>(),
                            heading_of(input),
                        )
                    }
            },
    {
        let moved = input.cursor_change();
        self.move_cursor(Vec2 { x: moved.x.neg(), y: moved.y.neg() });

        let step = T::from(1i16) / T::from(10i16);
        let (sin, cos) = sin_cos(to_radians(self.cam.rot.y));
        let dx = step * sin;
        let dz = step * cos;
        let dy = step;

        if input.key_pressed(Key::W) {
            self.pos.x = self.pos.x - dx;
            self.pos.z = self.pos.z - dz;
        }
        if input.key_pressed(Key::S) {
            self.pos.x = self.pos.x + dx;
            self.pos.z = self.pos.z + dz;
        }
        if input.key_pressed(Key::D) {
            self.pos.x = self.pos.x + dz;
            self.pos.z = self.pos.z - dx;
        }
        if input.key_pressed(Key::A) {
            self.pos.x = self.pos.x - dz;
            self.pos.z = self.pos.z + dx;
        }
        if input.key_pressed(Key::Space) {
            self.pos.y = self.pos.y + dy;
        }
        if input.key_pressed(Key::LShift) {
            self.pos.y = self.pos.y - dy;
        }

        self.cam.pos = self.pos;
        proof {
            if exact::<T>() && ordered::<T>() {
                let rot = turned_spec(old(self).cam.rot, reversed(input.cursor_change));
                let sc = (sin, cos);
                assert(is_sin_cos_of_degrees(rot.y, sc, to_radians, sin_cos) && self.pos
                    == walked_spec(
                    old(self).pos,
                    speed::<T>().mul_spec(sc.0),
                    speed::<T>().mul_spec(sc.1),
                    speed::<T>(),
                    heading_of(input),
                ));
            }
        }
    }

    /// A cursor motion that would carry the pitch below a quarter turn
    /// down leaves it at exactly minus 90 degrees, and one that would carry
    /// it above a quarter turn up (and not below) at exactly 90.
    pub proof fn lemma_pitch_saturates(rot: Vec3<T>, delta: Vec2<T>)
        ensures
            raw_pitch(rot, delta).is_lt(&num::<T>(-90i16)) ==> turned_spec(rot, delta).x
                == num::<T>(-90i16),
            !raw_pitch(rot, delta).is_lt(&num::<T>(-90i16)) && raw_pitch(rot, delta).is_gt(
                &num::<T>(90),
            ) ==> turned_spec(rot, delta).x == num::<T>(90),
    {
    }

    /// The pitch never leaves the quarter turn either way, wherever the two
    /// limits are in order: neither is less than the lower or greater than
    /// the upper.
    pub proof fn lemma_pitch_within(rot: Vec3<T>, delta: Vec2<T>)
        requires
            !num::<T>(-90i16).is_lt(&num::<T>(-90i16)),
            !num::<T>(90).is_lt(&num::<T>(-90i16)),
            !num::<T>(-90i16).is_gt(&num::<T>(90)),
            !num::<T>(90).is_gt(&num::<T>(90)),
        ensures
            !turned_spec(rot, delta).x.is_lt(&num::<T>(-90i16)),
            !turned_spec(rot, delta).x.is_gt(&num::<T>(90)),
    {
    }
}

} // verus!
