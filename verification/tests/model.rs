use voxel_game::math::Vec3;
use voxel_game::model::{
    default_model, nx_face_verts, ny_face_verts, nz_face_verts, px_face_verts, py_face_verts,
    pz_face_verts, Vertex, NUM_INDICES,
};

fn v(x: i32, y: i32, z: i32) -> Vec3<i32> {
    Vec3::new(x, y, z)
}

#[test]
fn vertex_new_keeps_its_arguments() {
    let vertex = Vertex::new([1.0f32, 2.0, 3.0], [0.25, 0.75]);
    assert_eq!(vertex.pos, [1.0, 2.0, 3.0]);
    assert_eq!(vertex.tex_coords, [0.25, 0.75]);
}

#[test]
fn px_face_lies_on_the_far_x_side() {
    let face = px_face_verts(v(1, 2, 3), v(10, 20, 30));
    assert_eq!(face, [v(10, 20, 3), v(10, 20, 30), v(10, 2, 30), v(10, 2, 3)]);
}

#[test]
fn nx_face_lies_on_the_near_x_side() {
    let face = nx_face_verts(v(1, 2, 3), v(10, 20, 30));
    assert_eq!(face, [v(1, 20, 30), v(1, 20, 3), v(1, 2, 3), v(1, 2, 30)]);
}

#[test]
fn pz_face_lies_on_the_far_z_side() {
    let face = pz_face_verts(v(1, 2, 3), v(10, 20, 30));
    assert_eq!(face, [v(10, 20, 30), v(1, 20, 30), v(1, 2, 30), v(10, 2, 30)]);
}

#[test]
fn nz_face_lies_on_the_near_z_side() {
    let face = nz_face_verts(v(1, 2, 3), v(10, 20, 30));
    assert_eq!(face, [v(1, 20, 3), v(10, 20, 3), v(10, 2, 3), v(1, 2, 3)]);
}

#[test]
fn py_face_lies_on_the_far_y_side() {
    let face = py_face_verts(v(1, 2, 3), v(10, 20, 30));
    assert_eq!(face, [v(1, 20, 30), v(10, 20, 30), v(10, 20, 3), v(1, 20, 3)]);
}

#[test]
fn ny_face_lies_on_the_near_y_side() {
    let face = ny_face_verts(v(1, 2, 3), v(10, 20, 30));
    assert_eq!(face, [v(1, 2, 3), v(10, 2, 3), v(10, 2, 30), v(1, 2, 30)]);
}

#[test]
fn cube_has_four_vertices_and_six_indices_to_a_face() {
    let (vertices, indices) = default_model::<f32>();
    assert_eq!(vertices.len(), 24);
    assert_eq!(indices.len(), 36);
    assert_eq!(indices.len() as u32, NUM_INDICES);
}

#[test]
fn cube_indices_cut_each_face_into_two_triangles() {
    let (_, indices) = default_model::<f32>();
    let mut want = Vec::new();
    for face in 0..6u16 {
        let n = face * 4;
        want.extend([n, n + 1, n + 2, n + 3, n, n + 2]);
    }
    assert_eq!(indices, want);
    assert!(indices.iter().all(|i| *i < 24));
}

#[test]
fn cube_vertices_are_the_faces_of_the_unit_box() {
    let (vertices, _) = default_model::<f32>();
    let from = Vec3::all(0.0f32);
    let to = Vec3::all(1.0f32);
    let faces = [
        px_face_verts(from, to),
        nx_face_verts(from, to),
        pz_face_verts(from, to),
        nz_face_verts(from, to),
        py_face_verts(from, to),
        ny_face_verts(from, to),
    ];
    let tex = [[1.0f32, 0.0], [0.0, 0.0], [0.0, 1.0], [1.0, 1.0]];
    for f in 0..6 {
        for j in 0..4 {
            assert_eq!(vertices[4 * f + j].pos, faces[f][j].pod());
            assert_eq!(vertices[4 * f + j].tex_coords, tex[j]);
        }
    }
}

#[test]
fn cube_first_face_is_the_far_x_side() {
    let (vertices, _) = default_model::<f32>();
    assert_eq!(vertices[0].pos, [1.0, 1.0, 0.0]);
    assert_eq!(vertices[1].pos, [1.0, 1.0, 1.0]);
    assert_eq!(vertices[2].pos, [1.0, 0.0, 1.0]);
    assert_eq!(vertices[3].pos, [1.0, 0.0, 0.0]);
    assert_eq!(vertices[23].pos, [0.0, 0.0, 1.0]);
}
