//! Cube-map cameras: the six faces in render order and their view
//! rotations, exact as integer quarter turns.
use vstd::prelude::*;

verus! {

/// A vector with integer coordinates.
#[derive(Clone, Copy, Debug, PartialEq, Eq, Structural)]
pub struct IntVec3 {
    pub x: i32,
    pub y: i32,
    pub z: i32,
}

/// A 3x3 integer matrix, stored by rows. Rotations by whole quarter turns
/// have entries in {-1, 0, 1}, so they are exact here.
#[derive(Clone, Copy, Debug, PartialEq, Eq, Structural)]
pub struct IntMat3 {
    pub row0: IntVec3,
    pub row1: IntVec3,
    pub row2: IntVec3,
}

/// The six faces of a cube map, in the order the shadow pass renders them.
#[derive(Clone, Copy, Debug, PartialEq, Eq, Structural)]
pub enum CubeFace {
    PositiveX,
    NegativeX,
    PositiveY,
    NegativeY,
    PositiveZ,
    NegativeZ,
}

/// A vector of the model: three integers.
pub type Vec3 = (int, int, int);

/// A matrix of the model: three rows.
pub type Mat3 = (Vec3, Vec3, Vec3);

impl View for IntVec3 {
    type V = Vec3;

    open spec fn view(&self) -> Vec3 {
        (self.x as int, self.y as int, self.z as int)
    }
}

impl View for IntMat3 {
    type V = Mat3;

    open spec fn view(&self) -> Mat3 {
        (self.row0@, self.row1@, self.row2@)
    }
}

pub open spec fn v3(x: int, y: int, z: int) -> Vec3 {
    (x, y, z)
}

pub open spec fn dot(a: Vec3, b: Vec3) -> int {
    a.0 * b.0 + a.1 * b.1 + a.2 * b.2
}

pub open spec fn column(m: Mat3, c: int) -> Vec3 {
    if c == 0 {
        (m.0.0, m.1.0, m.2.0)
    } else if c == 1 {
        (m.0.1, m.1.1, m.2.1)
    } else {
        (m.0.2, m.1.2, m.2.2)
    }
}

/// The matrix applied to a vector.
pub open spec fn apply(m: Mat3, v: Vec3) -> Vec3 {
    (dot(m.0, v), dot(m.1, v), dot(m.2, v))
}

pub open spec fn product_row(r: Vec3, b: Mat3) -> Vec3 {
    (dot(r, column(b, 0)), dot(r, column(b, 1)), dot(r, column(b, 2)))
}

/// The product `a * b`.
pub open spec fn product(a: Mat3, b: Mat3) -> Mat3 {
    (product_row(a.0, b), product_row(a.1, b), product_row(a.2, b))
}

pub open spec fn unit_entries_vec(v: Vec3) -> bool {
    -1 <= v.0 <= 1 && -1 <= v.1 <= 1 && -1 <= v.2 <= 1
}

/// Every entry lies in {-1, 0, 1}.
pub open spec fn unit_entries(m: Mat3) -> bool {
    unit_entries_vec(m.0) && unit_entries_vec(m.1) && unit_entries_vec(m.2)
}

/// An angle in degrees that is a whole number of quarter turns.
pub open spec fn is_quarter_turn(degrees: int) -> bool {
    -360 <= degrees <= 360 && degrees % 90 == 0
}

/// Sine of a whole number of quarter turns.
pub open spec fn quarter_sin(degrees: int) -> int {
    let d = degrees % 360;
    if d == 90 {
        1
    } else if d == 270 {
        -1
    } else {
        0
    }
}

/// Cosine of a whole number of quarter turns.
pub open spec fn quarter_cos(degrees: int) -> int {
    let d = degrees % 360;
    if d == 0 {
        1
    } else if d == 180 {
        -1
    } else {
        0
    }
}

/// Right-handed rotation about the x axis.
pub open spec fn rotation_x_spec(degrees: int) -> Mat3 {
    let (s, c) = (quarter_sin(degrees), quarter_cos(degrees));
    ((1, 0, 0), (0, c, -s), (0, s, c))
}

/// Right-handed rotation about the y axis.
pub open spec fn rotation_y_spec(degrees: int) -> Mat3 {
    let (s, c) = (quarter_sin(degrees), quarter_cos(degrees));
    ((c, 0, s), (0, 1, 0), (-s, 0, c))
}

/// The cube-map faces in render order.
pub open spec fn cube_face_order() -> Seq<CubeFace> {
    seq![
        CubeFace::PositiveX,
        CubeFace::NegativeX,
        CubeFace::PositiveY,
        CubeFace::NegativeY,
        CubeFace::PositiveZ,
        CubeFace::NegativeZ,
    ]
}

/// The camera (yaw, pitch) of each face, in degrees.
pub open spec fn face_yaw_pitch_spec(face: CubeFace) -> (int, int) {
    match face {
        CubeFace::PositiveX => (90, 0),
        CubeFace::NegativeX => (-90, 0),
        CubeFace::PositiveY => (180, 90),
        CubeFace::NegativeY => (180, -90),
        CubeFace::PositiveZ => (180, 0),
        CubeFace::NegativeZ => (0, 0),
    }
}

/// The rotation-only view matrix of a cube-face camera with the given yaw
/// and pitch: turn by the yaw about y, then undo the pitch about x. A yaw of
/// 90 degrees looks along +X, of 180 degrees along +Z.
pub open spec fn view_rotation_spec(yaw: int, pitch: int) -> Mat3 {
    product(rotation_x_spec(-pitch), rotation_y_spec(yaw))
}

/// The unit axis a face is named after.
pub open spec fn face_axis(face: CubeFace) -> Vec3 {
    match face {
        CubeFace::PositiveX => (1, 0, 0),
        CubeFace::NegativeX => (-1, 0, 0),
        CubeFace::PositiveY => (0, 1, 0),
        CubeFace::NegativeY => (0, -1, 0),
        CubeFace::PositiveZ => (0, 0, 1),
        CubeFace::NegativeZ => (0, 0, -1),
    }
}

/// The forward axis in camera space.
pub open spec fn camera_forward() -> Vec3 {
    (0, 0, -1)
}

/// Sine and cosine of a whole number of quarter turns, exactly.
pub fn quarter_sin_cos(degrees: i32) -> (r: (i32, i32))
    requires
        is_quarter_turn(degrees as int),
    ensures
        r.0 == quarter_sin(degrees as int),
        r.1 == quarter_cos(degrees as int),
{
    let d: i32 = if degrees < 0 {
        degrees + 360
    } else {
        degrees
    };
    if d == 90 {
        (1, 0)
    } else if d == 180 {
        (0, -1)
    } else if d == 270 {
        (-1, 0)
    } else {
        (0, 1)
    }
}

pub fn rotation_x(degrees: i32) -> (r: IntMat3)
    requires
        is_quarter_turn(degrees as int),
    ensures
        r@ == rotation_x_spec(degrees as int),
        unit_entries(r@),
{
    let (s, c) = quarter_sin_cos(degrees);
    IntMat3 {
        row0: IntVec3 { x: 1, y: 0, z: 0 },
        row1: IntVec3 { x: 0, y: c, z: -s },
        row2: IntVec3 { x: 0, y: s, z: c },
    }
}

pub fn rotation_y(degrees: i32) -> (r: IntMat3)
    requires
        is_quarter_turn(degrees as int),
    ensures
        r@ == rotation_y_spec(degrees as int),
        unit_entries(r@),
{
    let (s, c) = quarter_sin_cos(degrees);
    IntMat3 {
        row0: IntVec3 { x: c, y: 0, z: s },
        row1: IntVec3 { x: 0, y: 1, z: 0 },
        row2: IntVec3 { x: -s, y: 0, z: c },
    }
}

fn dot_exec(a: IntVec3, b: IntVec3) -> (r: i32)
    requires
        unit_entries_vec(a@),
        unit_entries_vec(b@),
    ensures
        r == dot(a@, b@),
        -3 <= r <= 3,
{
    proof {
        assert(-1 <= a.x * b.x <= 1) by (nonlinear_arith)
            requires -1 <= a.x <= 1, -1 <= b.x <= 1;
        assert(-1 <= a.y * b.y <= 1) by (nonlinear_arith)
            requires -1 <= a.y <= 1, -1 <= b.y <= 1;
        assert(-1 <= a.z * b.z <= 1) by (nonlinear_arith)
            requires -1 <= a.z <= 1, -1 <= b.z <= 1;
    }
    a.x * b.x + a.y * b.y + a.z * b.z
}

fn column_exec(m: IntMat3, c: usize) -> (r: IntVec3)
    requires
        c < 3,
    ensures
        r@ == column(m@, c as int),
{
    if c == 0 {
        IntVec3 { x: m.row0.x, y: m.row1.x, z: m.row2.x }
    } else if c == 1 {
        IntVec3 { x: m.row0.y, y: m.row1.y, z: m.row2.y }
    } else {
        IntVec3 { x: m.row0.z, y: m.row1.z, z: m.row2.z }
    }
}

/// The product of two matrices with entries in {-1, 0, 1}.
pub fn multiply(a: IntMat3, b: IntMat3) -> (r: IntMat3)
    requires
        unit_entries(a@),
        unit_entries(b@),
    ensures
        r@ == product(a@, b@),
{
    let c0 = column_exec(b, 0);
    let c1 = column_exec(b, 1);
    let c2 = column_exec(b, 2);
    IntMat3 {
        row0: IntVec3 { x: dot_exec(a.row0, c0), y: dot_exec(a.row0, c1), z: dot_exec(a.row0, c2) },
        row1: IntVec3 { x: dot_exec(a.row1, c0), y: dot_exec(a.row1, c1), z: dot_exec(a.row1, c2) },
        row2: IntVec3 { x: dot_exec(a.row2, c0), y: dot_exec(a.row2, c1), z: dot_exec(a.row2, c2) },
    }
}

/// The six cube-map faces in the order the shadow pass renders them.
pub fn cube_faces() -> (r: Vec<CubeFace>)
    ensures
        r@ == cube_face_order(),
{
    let r = vec![
        CubeFace::PositiveX,
        CubeFace::NegativeX,
        CubeFace::PositiveY,
        CubeFace::NegativeY,
        CubeFace::PositiveZ,
        CubeFace::NegativeZ,
    ];
    proof {
        assert(r@ =~= cube_face_order());
    }
    r
}

/// The camera's (yaw, pitch) in degrees for rendering one face.
pub fn face_yaw_pitch(face: CubeFace) -> (r: (i32, i32))
    ensures
        r.0 == face_yaw_pitch_spec(face).0,
        r.1 == face_yaw_pitch_spec(face).1,
{
    match face {
        CubeFace::PositiveX => (90, 0),
        CubeFace::NegativeX => (-90, 0),
        CubeFace::PositiveY => (180, 90),
        CubeFace::NegativeY => (180, -90),
        CubeFace::PositiveZ => (180, 0),
        CubeFace::NegativeZ => (0, 0),
    }
}

/// The rotation-only view matrix for rendering one face; the full view
/// matrix follows it with a translation by the negated light position.
pub fn face_view_rotation(face: CubeFace) -> (r: IntMat3)
    ensures
        r@ == view_rotation_spec(face_yaw_pitch_spec(face).0, face_yaw_pitch_spec(face).1),
        unit_entries(r@),
{
    let (yaw, pitch) = face_yaw_pitch(face);
    let r = multiply(rotation_x(-pitch), rotation_y(yaw));
    proof {
        lemma_face_view(face);
    }
    r
}

/// A product written out row by row, for the solver.
proof fn lemma_product_rows(a: Mat3, b: Mat3, r: Mat3)
    requires
        product_row(a.0, b) == r.0,
        product_row(a.1, b) == r.1,
        product_row(a.2, b) == r.2,
    ensures
        product(a, b) == r,
{
}

proof fn lemma_row(a: Vec3, b: Mat3, r: Vec3)
    requires
        dot(a, column(b, 0)) == r.0,
        dot(a, column(b, 1)) == r.1,
        dot(a, column(b, 2)) == r.2,
    ensures
        product_row(a, b) == r,
{
}

/// Whether `r` is the product of `a` and `b`, entry by entry.
pub open spec fn is_product(a: Mat3, b: Mat3, r: Mat3) -> bool {
    &&& dot(a.0, column(b, 0)) == r.0.0 && dot(a.0, column(b, 1)) == r.0.1 && dot(a.0, column(b, 2)) == r.0.2
    &&& dot(a.1, column(b, 0)) == r.1.0 && dot(a.1, column(b, 1)) == r.1.1 && dot(a.1, column(b, 2)) == r.1.2
    &&& dot(a.2, column(b, 0)) == r.2.0 && dot(a.2, column(b, 1)) == r.2.1 && dot(a.2, column(b, 2)) == r.2.2
}

proof fn lemma_product_of(a: Mat3, b: Mat3, r: Mat3)
    requires
        is_product(a, b, r),
    ensures
        product(a, b) == r,
{
    lemma_row(a.0, b, r.0);
    lemma_row(a.1, b, r.1);
    lemma_row(a.2, b, r.2);
    lemma_product_rows(a, b, r);
}

/// One face's view rotation has entries in {-1, 0, 1} and turns the face's
/// own axis onto the camera's forward axis.
proof fn lemma_face_view(face: CubeFace)
    ensures
        unit_entries(
            view_rotation_spec(face_yaw_pitch_spec(face).0, face_yaw_pitch_spec(face).1),
        ),
        apply(
            view_rotation_spec(face_yaw_pitch_spec(face).0, face_yaw_pitch_spec(face).1),
            face_axis(face),
        ) == camera_forward(),
{
    let (yaw, pitch) = face_yaw_pitch_spec(face);
    let identity: Mat3 = ((1, 0, 0), (0, 1, 0), (0, 0, 1));
    let half_turn: Mat3 = ((-1, 0, 0), (0, 1, 0), (0, 0, -1));
    let (rx, ry, v): (Mat3, Mat3, Mat3) = match face {
        CubeFace::PositiveX => (identity, ((0, 0, 1), (0, 1, 0), (-1, 0, 0)), ((0, 0, 1), (0, 1, 0), (-1, 0, 0))),
        CubeFace::NegativeX => (identity, ((0, 0, -1), (0, 1, 0), (1, 0, 0)), ((0, 0, -1), (0, 1, 0), (1, 0, 0))),
        CubeFace::PositiveY => (((1, 0, 0), (0, 0, 1), (0, -1, 0)), half_turn, ((-1, 0, 0), (0, 0, -1), (0, -1, 0))),
        CubeFace::NegativeY => (((1, 0, 0), (0, 0, -1), (0, 1, 0)), half_turn, ((-1, 0, 0), (0, 0, 1), (0, 1, 0))),
        CubeFace::PositiveZ => (identity, half_turn, half_turn),
        CubeFace::NegativeZ => (identity, identity, identity),
    };
    assert(rotation_x_spec(-pitch) == rx);
    assert(rotation_y_spec(yaw) == ry);
    match face {
        CubeFace::PositiveX => {
            assert(is_product(rx, ry, v));
            assert(apply(v, face_axis(face)) == camera_forward());
        },
        CubeFace::NegativeX => {
            assert(is_product(rx, ry, v));
            assert(apply(v, face_axis(face)) == camera_forward());
        },
        CubeFace::PositiveY => {
            assert(is_product(rx, ry, v));
            assert(apply(v, face_axis(face)) == camera_forward());
        },
        CubeFace::NegativeY => {
            assert(is_product(rx, ry, v));
            assert(apply(v, face_axis(face)) == camera_forward());
        },
        CubeFace::PositiveZ => {
            assert(is_product(rx, ry, v));
            assert(apply(v, face_axis(face)) == camera_forward());
        },
        CubeFace::NegativeZ => {
            assert(is_product(rx, ry, v));
            assert(apply(v, face_axis(face)) == camera_forward());
        },
    }
    lemma_product_of(rx, ry, v);
    assert(view_rotation_spec(yaw, pitch) == v);
}

/// Each face's view rotation turns the face's own world axis onto the
/// camera's forward axis; the faces come in the fixed order +X, -X, +Y, -Y,
/// +Z, -Z.
pub proof fn lemma_cube_faces_look_along_their_axes()
    ensures
        forall|i: int|
            0 <= i < 6 ==> {
                let face = #[trigger] cube_face_order()[i];
                apply(
                    view_rotation_spec(face_yaw_pitch_spec(face).0, face_yaw_pitch_spec(face).1),
                    face_axis(face),
                ) == camera_forward()
            },
        cube_face_order().len() == 6,
        face_axis(cube_face_order()[0]) == v3(1, 0, 0),
        face_axis(cube_face_order()[1]) == v3(-1, 0, 0),
        face_axis(cube_face_order()[2]) == v3(0, 1, 0),
        face_axis(cube_face_order()[3]) == v3(0, -1, 0),
        face_axis(cube_face_order()[4]) == v3(0, 0, 1),
        face_axis(cube_face_order()[5]) == v3(0, 0, -1),
{
    assert forall|i: int| 0 <= i < 6 implies {
        let face = #[trigger] cube_face_order()[i];
        apply(
            view_rotation_spec(face_yaw_pitch_spec(face).0, face_yaw_pitch_spec(face).1),
            face_axis(face),
        ) == camera_forward()
    } by {
        lemma_face_view(cube_face_order()[i]);
    }
}

} // verus!
