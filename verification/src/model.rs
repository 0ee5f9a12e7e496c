//! The mesh of the unit cube: six faces of four vertices each, and the
//! indices that cut every face into two triangles.

use crate::math::scalar::{exact, num, Scalar, VecType};
use crate::math::vec2::Vec2;
use crate::math::vec3::Vec3;
use vstd::prelude::*;

verus! {

/// One vertex of a mesh: a position and a texture coordinate.
#[derive(Clone, Copy, Debug)]
pub struct Vertex<T: VecType> {
    pub pos: [T; 3],
    pub tex_coords: [T; 2],
}

impl<T: VecType> Vertex<T> {
    /// The position as a vector.
    pub open spec fn place(self) -> Vec3<T> {
        Vec3 { x: self.pos[0], y: self.pos[1], z: self.pos[2] }
    }

    /// The texture coordinate as a vector.
    pub open spec fn tex(self) -> Vec2<T> {
        Vec2 { x: self.tex_coords[0], y: self.tex_coords[1] }
    }

    /// The vertex at `pos` with the texture coordinate `tex_coords`.
    pub fn new(pos: [T; 3], tex_coords: [T; 2]) -> (v: Self)
        ensures
            v.pos == pos,
            v.tex_coords == tex_coords,
    {
        Self { pos, tex_coords }
    }
}

/// The number of indices of the cube: six faces of six.
pub const NUM_INDICES: u32 = 6 * 6;

/// A corner of the box between `from` and `to`: on each axis the
/// coordinate of `to` where the flag is set, else that of `from`.
pub open spec fn corner<T: Copy>(from: Vec3<T>, to: Vec3<T>, x: bool, y: bool, z: bool) -> Vec3<T> {
    Vec3 {
        x: if x {
            to.x
        } else {
            from.x
        },
        y: if y {
            to.y
        } else {
            from.y
        },
        z: if z {
            to.z
        } else {
            from.z
        },
    }
}

/// The face of the box on the side of `to.x`.
pub open spec fn px_face_spec<T: Copy>(from: Vec3<T>, to: Vec3<T>) -> Seq<Vec3<T>> {
    seq![
        corner(from, to, true, true, false),
        corner(from, to, true, true, true),
        corner(from, to, true, false, true),
        corner(from, to, true, false, false),
    ]
}

/// The face of the box on the side of `from.x`.
pub open spec fn nx_face_spec<T: Copy>(from: Vec3<T>, to: Vec3<T>) -> Seq<Vec3<T>> {
    seq![
        corner(from, to, false, true, true),
        corner(from, to, false, true, false),
        corner(from, to, false, false, false),
        corner(from, to, false, false, true),
    ]
}

/// The face of the box on the side of `to.z`.
pub open spec fn pz_face_spec<T: Copy>(from: Vec3<T>, to: Vec3<T>) -> Seq<Vec3<T>> {
    seq![
        corner(from, to, true, true, true),
        corner(from, to, false, true, true),
        corner(from, to, false, false, true),
        corner(from, to, true, false, true),
    ]
}

/// The face of the box on the side of `from.z`.
pub open spec fn nz_face_spec<T: Copy>(from: Vec3<T>, to: Vec3<T>) -> Seq<Vec3<T>> {
    seq![
        corner(from, to, false, true, false),
        corner(from, to, true, true, false),
        corner(from, to, true, false, false),
        corner(from, to, false, false, false),
    ]
}

/// The face of the box on the side of `to.y`.
pub open spec fn py_face_spec<T: Copy>(from: Vec3<T>, to: Vec3<T>) -> Seq<Vec3<T>> {
    seq![
        corner(from, to, false, true, true),
        corner(from, to, true, true, true),
        corner(from, to, true, true, false),
        corner(from, to, false, true, false),
    ]
}

/// The face of the box on the side of `from.y`.
pub open spec fn ny_face_spec<T: Copy>(from: Vec3<T>, to: Vec3<T>) -> Seq<Vec3<T>> {
    seq![
        corner(from, to, false, false, false),
        corner(from, to, true, false, false),
        corner(from, to, true, false, true),
        corner(from, to, false, false, true),
    ]
}

/// The six faces in the order in which the cube lists them.
pub open spec fn cube_faces<T: Copy>(from: Vec3<T>, to: Vec3<T>) -> Seq<Seq<Vec3<T>>> {
    seq![
        px_face_spec(from, to),
        nx_face_spec(from, to),
        pz_face_spec(from, to),
        nz_face_spec(from, to),
        py_face_spec(from, to),
        ny_face_spec(from, to),
    ]
}

/// The texture coordinate of the `j`-th vertex of every face.
pub open spec fn corner_tex<T: Scalar>(j: int) -> Vec2<T> {
    if j == 0 {
        Vec2 { x: num::<T>(1), y: num::<T>(0) }
    } else if j == 1 {
        Vec2 { x: num::<T>(0), y: num::<T>(0) }
    } else if j == 2 {
        Vec2 { x: num::<T>(0), y: num::<T>(1) }
    } else {
        Vec2 { x: num::<T>(1), y: num::<T>(1) }
    }
}

/// The indices of the two triangles of a face whose first vertex has the
/// index `first`.
pub open spec fn quad_indices(first: int) -> Seq<int> {
    seq![first, first + 1, first + 2, first + 3, first, first + 2]
}

/// The `i`-th index of the cube.
pub open spec fn cube_index(i: int) -> int {
    quad_indices(4 * (i / 6))[i % 6]
}

/// Appends one face to a mesh: its four vertices, and the six indices of
/// its two triangles.
fn quad<T: Scalar>(
    vertices: &mut Vec<Vertex<T>>,
    indices: &mut Vec<u16>,
    next_index: u16,
    verts: [Vec3<T>; 4],
)
    requires
        next_index <= u16::MAX - 3,
    ensures
        final(vertices)@.len() == old(vertices)@.len() + 4,
        final(indices)@.len() == old(indices)@.len() + 6,
        forall|i: int| 0 <= i < old(vertices)@.len() ==> final(vertices)@[i] == old(vertices)@[i],
        forall|i: int| 0 <= i < old(indices)@.len() ==> final(indices)@[i] == old(indices)@[i],
        forall|i: int|
            old(vertices)@.len() <= i < old(vertices)@.len() + 4 ==> (#[trigger] final(
                vertices
            )@[i]).place() == verts@[i - old(vertices)@.len()],
        exact::<T>() ==> forall|i: int|
            old(vertices)@.len() <= i < old(vertices)@.len() + 4 ==> (#[trigger] final(
                vertices
            )@[i]).tex() == corner_tex::<T>(i - old(vertices)@.len()),
        forall|i: int|
            old(indices)@.len() <= i < old(indices)@.len() + 6 ==> #[trigger] final(indices)@[i]
                == quad_indices(next_index as int)[i - old(indices)@.len()],
{
    let zero = T::from(0i16);
    let one = T::from(1i16);
    vertices.push(Vertex::new(verts[0].pod(), [one, zero]));
    vertices.push(Vertex::new(verts[1].pod(), [zero, zero]));
    vertices.push(Vertex::new(verts[2].pod(), [zero, one]));
    vertices.push(Vertex::new(verts[3].pod(), [one, one]));
    indices.push(next_index);
    indices.push(next_index + 1);
    indices.push(next_index + 2);
    indices.push(next_index + 3);
    indices.push(next_index);
    indices.push(next_index + 2);
}

/// The unit cube, from the origin to (1, 1, 1): twenty-four vertices, four
/// to a face, and thirty-six indices, six to a face. The vertices of a face
/// carry the texture corners (1, 0), (0, 0), (0, 1), (1, 1) in turn.
pub fn default_model<T: Scalar>() -> (mesh: (Vec<Vertex<T>>, Vec<u16>))
    ensures
        mesh.0@.len() == 24,
        mesh.1@.len() == NUM_INDICES,
        forall|i: int| 0 <= i < 36 ==> #[trigger] mesh.1@[i] == cube_index(i),
        forall|i: int| 0 <= i < 36 ==> 0 <= #[trigger] mesh.1@[i] < 24,
        exact::<T>() ==> forall|f: int, j: int|
            0 <= f < 6 && 0 <= j < 4 ==> {
                let v = #[trigger] mesh.0@[4 * f + j];
                let from = Vec3 { x: num::<T>(0), y: num::<T>(0), z: num::<T>(0) };
                let to = Vec3 { x: num::<T>(1), y: num::<T>(1), z: num::<T>(1) };
                v.place() == cube_faces(from, to)[f][j] && v.tex() == corner_tex::<T>(j)
            },
{
    let from = Vec3::all(T::from(0i16));
    let to = Vec3::all(T::from(1i16));
    let mut vertices = Vec::new();
    let mut indices = Vec::new();

    quad(&mut vertices, &mut indices, 0, px_face_verts(from, to));
    quad(&mut vertices, &mut indices, 4, nx_face_verts(from, to));
    quad(&mut vertices, &mut indices, 8, pz_face_verts(from, to));
    quad(&mut vertices, &mut indices, 12, nz_face_verts(from, to));
    quad(&mut vertices, &mut indices, 16, py_face_verts(from, to));
    quad(&mut vertices, &mut indices, 20, ny_face_verts(from, to));

    (vertices, indices)
}

/// The four corners of the face on the side of `to.x`.
pub fn px_face_verts<T: Copy>(from: Vec3<T>, to: Vec3<T>) -> (face: [Vec3<T>; 4])
    ensures
        face@ == px_face_spec(from, to),
{
    let face = [
        Vec3::new(to.x, to.y, from.z),
        Vec3::new(to.x, to.y, to.z),
        Vec3::new(to.x, from.y, to.z),
        Vec3::new(to.x, from.y, from.z),
    ];
    assert(face@ =~= px_face_spec(from, to));
    face
}

/// The four corners of the face on the side of `from.x`.
pub fn nx_face_verts<T: Copy>(from: Vec3<T>, to: Vec3<T>) -> (face: [Vec3<T>; 4])
    ensures
        face@ == nx_face_spec(from, to),
{
    let face = [
        Vec3::new(from.x, to.y, to.z),
        Vec3::new(from.x, to.y, from.z),
        Vec3::new(from.x, from.y, from.z),
        Vec3::new(from.x, from.y, to.z),
    ];
    assert(face@ =~= nx_face_spec(from, to));
    face
}

/// The four corners of the face on the side of `to.z`.
pub fn pz_face_verts<T: Copy>(from: Vec3<T>, to: Vec3<T>) -> (face: [Vec3<T>; 4])
    ensures
        face@ == pz_face_spec(from, to),
{
    let face = [
        Vec3::new(to.x, to.y, to.z),
        Vec3::new(from.x, to.y, to.z),
        Vec3::new(from.x, from.y, to.z),
        Vec3::new(to.x, from.y, to.z),
    ];
    assert(face@ =~= pz_face_spec(from, to));
    face
}

/// The four corners of the face on the side of `from.z`.
pub fn nz_face_verts<T: Copy>(from: Vec3<T>, to: Vec3<T>) -> (face: [Vec3<T>; 4])
    ensures
        face@ == nz_face_spec(from, to),
{
    let face = [
        Vec3::new(from.x, to.y, from.z),
        Vec3::new(to.x, to.y, from.z),
        Vec3::new(to.x, from.y, from.z),
        Vec3::new(from.x, from.y, from.z),
    ];
    assert(face@ =~= nz_face_spec(from, to));
    face
}

/// The four corners of the face on the side of `to.y`.
pub fn py_face_verts<T: Copy>(from: Vec3<T>, to: Vec3<T>) -> (face: [Vec3<T>; 4])
    ensures
        face@ == py_face_spec(from, to),
{
    let face = [
        Vec3::new(from.x, to.y, to.z),
        Vec3::new(to.x, to.y, to.z),
        Vec3::new(to.x, to.y, from.z),
        Vec3::new(from.x, to.y, from.z),
    ];
    assert(face@ =~= py_face_spec(from, to));
    face
}

/// The four corners of the face on the side of `from.y`.
pub fn ny_face_verts<T: Copy>(from: Vec3<T>, to: Vec3<T>) -> (face: [Vec3<T>; 4])
    ensures
        face@ == ny_face_spec(from, to),
{
    let face = [
        Vec3::new(from.x, from.y, from.z),
        Vec3::new(to.x, from.y, from.z),
        Vec3::new(to.x, from.y, to.z),
        Vec3::new(from.x, from.y, to.z),
    ];
    assert(face@ =~= ny_face_spec(from, to));
    face
}

} // verus!
