use scene_render::camera::{
    cube_faces, face_view_rotation, face_yaw_pitch, multiply, quarter_sin_cos, rotation_x,
    rotation_y, CubeFace, IntMat3, IntVec3,
};

fn apply(m: &IntMat3, v: (i32, i32, i32)) -> (i32, i32, i32) {
    let dot = |r: &IntVec3| r.x * v.0 + r.y * v.1 + r.z * v.2;
    (dot(&m.row0), dot(&m.row1), dot(&m.row2))
}

#[test]
fn faces_come_in_the_fixed_order_with_their_angles() {
    assert_eq!(
        cube_faces(),
        vec![
            CubeFace::PositiveX,
            CubeFace::NegativeX,
            CubeFace::PositiveY,
            CubeFace::NegativeY,
            CubeFace::PositiveZ,
            CubeFace::NegativeZ,
        ]
    );
    let angles: Vec<(i32, i32)> = cube_faces().into_iter().map(face_yaw_pitch).collect();
    assert_eq!(angles, vec![(90, 0), (-90, 0), (180, 90), (180, -90), (180, 0), (0, 0)]);
}

#[test]
fn each_face_looks_along_its_axis() {
    let directions = [(1, 0, 0), (-1, 0, 0), (0, 1, 0), (0, -1, 0), (0, 0, 1), (0, 0, -1)];
    for (face, dir) in cube_faces().into_iter().zip(directions) {
        assert_eq!(apply(&face_view_rotation(face), dir), (0, 0, -1));
    }
}

#[test]
fn quarter_turns_are_exact() {
    assert_eq!(quarter_sin_cos(0), (0, 1));
    assert_eq!(quarter_sin_cos(90), (1, 0));
    assert_eq!(quarter_sin_cos(-90), (-1, 0));
    assert_eq!(quarter_sin_cos(180), (0, -1));
    assert_eq!(quarter_sin_cos(-180), (0, -1));
    assert_eq!(quarter_sin_cos(270), (-1, 0));
    assert_eq!(apply(&rotation_y(90), (0, 0, -1)), (-1, 0, 0));
    assert_eq!(apply(&rotation_x(90), (0, 1, 0)), (0, 0, 1));
    let turn = multiply(rotation_y(90), rotation_y(-90));
    assert_eq!(apply(&turn, (3, 4, 5)), (3, 4, 5));
}
