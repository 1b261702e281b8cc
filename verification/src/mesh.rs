use vstd::prelude::*;

verus! {

/// The two meshes that every frame draws.
#[derive(Clone, Copy, Debug, PartialEq, Eq, Structural)]
pub enum MeshKind {
    /// The floor plane under the cube: one square of two triangles.
    Grid,
    /// The unit cube: six faces of two triangles each.
    Cube,
}

/// How many vertices the vertex buffer of a mesh holds.
pub open spec fn spec_vertex_count(kind: MeshKind) -> nat {
    match kind {
        MeshKind::Grid => 4,
        MeshKind::Cube => 8,
    }
}

/// The index list of a mesh, three indices per triangle, counter-clockwise
/// seen from the front.
pub open spec fn index_seq(kind: MeshKind) -> Seq<u16> {
    match kind {
        MeshKind::Grid => seq![0u16, 1, 2, 2, 3, 0],
        MeshKind::Cube => seq![
            0u16, 1, 2, 2, 3, 0,
            1, 5, 6, 6, 2, 1,
            7, 6, 5, 5, 4, 7,
            4, 0, 3, 3, 7, 4,
            4, 5, 1, 1, 0, 4,
            3, 2, 6, 6, 7, 3,
        ],
    }
}

/// An index list that draws whole triangles over `vertex_count` vertices:
/// its length is a multiple of three, every index names an existing vertex,
/// no triangle repeats a corner, and every vertex is a corner of some
/// triangle.
pub open spec fn is_triangle_list(indices: Seq<u16>, vertex_count: nat) -> bool {
    &&& indices.len() % 3 == 0
    &&& forall|i: int| 0 <= i < indices.len() ==> (#[trigger] indices[i]) < vertex_count
    &&& forall|t: int|
        0 <= t < indices.len() / 3 ==> {
            &&& #[trigger] indices[3 * t] != indices[3 * t + 1]
            &&& indices[3 * t + 1] != indices[3 * t + 2]
            &&& indices[3 * t] != indices[3 * t + 2]
        }
    &&& forall|v: int| 0 <= v < vertex_count ==> #[trigger] indices.contains(v as u16)
}

/// Every mesh's index list is a triangle list over its own vertices.
pub proof fn lemma_meshes_are_triangle_lists(kind: MeshKind)
    ensures
        is_triangle_list(index_seq(kind), spec_vertex_count(kind)),
{
    let s = index_seq(kind);
    assert forall|v: int| 0 <= v < spec_vertex_count(kind) implies #[trigger] s.contains(v as u16) by {
        match kind {
            MeshKind::Grid => {
                if v == 3 { assert(s[4] == 3); } else { assert(s[v] == v as u16); }
            },
            MeshKind::Cube => {
                if v == 0 { assert(s[0] == 0); }
                else if v == 1 { assert(s[1] == 1); }
                else if v == 2 { assert(s[2] == 2); }
                else if v == 3 { assert(s[4] == 3); }
                else if v == 4 { assert(s[16] == 4); }
                else if v == 5 { assert(s[7] == 5); }
                else if v == 6 { assert(s[8] == 6); }
                else { assert(s[12] == 7); }
            },
        }
    }
}

/// The corner of the cube that vertex `v` of its vertex table holds, each
/// coordinate in half edge lengths: the front face (positive z) holds
/// vertices 0 to 3 and the back face vertices 4 to 7, each face going round
/// from bottom left, bottom right, top right, top left as seen from the
/// front.
pub open spec fn cube_corner(v: int) -> (int, int, int) {
    (
        if v == 1 || v == 2 || v == 5 || v == 6 { 1 } else { -1 },
        if v == 2 || v == 3 || v == 6 || v == 7 { 1 } else { -1 },
        if v < 4 { 1 } else { -1 },
    )
}

/// The cross product of `b - a` and `c - a`: the normal of the triangle
/// `a`, `b`, `c`, pointing to where it is seen counter-clockwise.
pub open spec fn triangle_normal(a: (int, int, int), b: (int, int, int), c: (int, int, int)) -> (
    int,
    int,
    int,
) {
    let (ux, uy, uz) = (b.0 - a.0, b.1 - a.1, b.2 - a.2);
    let (vx, vy, vz) = (c.0 - a.0, c.1 - a.1, c.2 - a.2);
    (uy * vz - uz * vy, uz * vx - ux * vz, ux * vy - uy * vx)
}

/// The face of the cube that the three corners lie on, numbered
/// 0 to 5 for +x, -x, +y, -y, +z, -z; or -1 if they lie on none.
pub open spec fn cube_face(a: (int, int, int), b: (int, int, int), c: (int, int, int)) -> int {
    if a.0 == b.0 && b.0 == c.0 {
        if a.0 > 0 { 0 } else { 1 }
    } else if a.1 == b.1 && b.1 == c.1 {
        if a.1 > 0 { 2 } else { 3 }
    } else if a.2 == b.2 && b.2 == c.2 {
        if a.2 > 0 { 4 } else { 5 }
    } else {
        -1
    }
}

/// Triangle `t` of the cube's index list lies on one face of the cube and
/// is counter-clockwise seen from outside, so it is kept when back faces are
/// culled and the cube is seen from outside.
pub open spec fn cube_triangle_faces_out(t: int) -> bool {
    let s = index_seq(MeshKind::Cube);
    let a = cube_corner(s[3 * t] as int);
    let b = cube_corner(s[3 * t + 1] as int);
    let c = cube_corner(s[3 * t + 2] as int);
    let n = triangle_normal(a, b, c);
    &&& 0 <= cube_face(a, b, c)
    &&& n.0 * a.0 + n.1 * a.1 + n.2 * a.2 > 0
}

/// The face of the cube that triangle `t` of its index list lies on.
pub open spec fn cube_triangle_face(t: int) -> int {
    let s = index_seq(MeshKind::Cube);
    cube_face(
        cube_corner(s[3 * t] as int),
        cube_corner(s[3 * t + 1] as int),
        cube_corner(s[3 * t + 2] as int),
    )
}

/// Two different triangles of the cube's index list lie on face `f`.
pub open spec fn cube_face_covered(f: int) -> bool {
    exists|t1: int, t2: int|
        0 <= t1 < t2 < 12 && #[trigger] cube_triangle_face(t1) == f
            && #[trigger] cube_triangle_face(t2) == f
}

/// The cube is closed and seen from outside: each of its twelve triangles
/// lies on a face and turns counter-clockwise to the outside, and each of
/// the six faces is covered by two of them.
pub proof fn lemma_cube_is_closed_and_faces_out()
    ensures
        index_seq(MeshKind::Cube).len() == 36,
        forall|t: int| 0 <= t < 12 ==> #[trigger] cube_triangle_faces_out(t),
        forall|f: int| 0 <= f < 6 ==> #[trigger] cube_face_covered(f),
{
    assert(cube_triangle_faces_out(0)) by (nonlinear_arith);
    assert(cube_triangle_faces_out(1)) by (nonlinear_arith);
    assert(cube_triangle_faces_out(2)) by (nonlinear_arith);
    assert(cube_triangle_faces_out(3)) by (nonlinear_arith);
    assert(cube_triangle_faces_out(4)) by (nonlinear_arith);
    assert(cube_triangle_faces_out(5)) by (nonlinear_arith);
    assert(cube_triangle_faces_out(6)) by (nonlinear_arith);
    assert(cube_triangle_faces_out(7)) by (nonlinear_arith);
    assert(cube_triangle_faces_out(8)) by (nonlinear_arith);
    assert(cube_triangle_faces_out(9)) by (nonlinear_arith);
    assert(cube_triangle_faces_out(10)) by (nonlinear_arith);
    assert(cube_triangle_faces_out(11)) by (nonlinear_arith);
    assert(cube_triangle_face(0) == 4 && cube_triangle_face(1) == 4);
    assert(cube_triangle_face(2) == 0 && cube_triangle_face(3) == 0);
    assert(cube_triangle_face(4) == 5 && cube_triangle_face(5) == 5);
    assert(cube_triangle_face(6) == 1 && cube_triangle_face(7) == 1);
    assert(cube_triangle_face(8) == 3 && cube_triangle_face(9) == 3);
    assert(cube_triangle_face(10) == 2 && cube_triangle_face(11) == 2);
    assert forall|f: int| 0 <= f < 6 implies #[trigger] cube_face_covered(f) by {
        if f == 0 {
            assert(cube_triangle_face(2) == f && cube_triangle_face(3) == f);
        } else if f == 1 {
            assert(cube_triangle_face(6) == f && cube_triangle_face(7) == f);
        } else if f == 2 {
            assert(cube_triangle_face(10) == f && cube_triangle_face(11) == f);
        } else if f == 3 {
            assert(cube_triangle_face(8) == f && cube_triangle_face(9) == f);
        } else if f == 4 {
            assert(cube_triangle_face(0) == f && cube_triangle_face(1) == f);
        } else {
            assert(cube_triangle_face(4) == f && cube_triangle_face(5) == f);
        }
    }
    assert forall|t: int| 0 <= t < 12 implies #[trigger] cube_triangle_faces_out(t) by {
        assert(t == 0 || t == 1 || t == 2 || t == 3 || t == 4 || t == 5 || t == 6 || t == 7
            || t == 8 || t == 9 || t == 10 || t == 11);
    }
}

/// The corner of the floor square that vertex `v` of the grid's vertex table
/// holds, as (x, z) in half side lengths, going round from (-, -).
pub open spec fn grid_corner(v: int) -> (int, int) {
    (if v == 1 || v == 2 { 1 } else { -1 }, if v == 2 || v == 3 { 1 } else { -1 })
}

/// The turn of triangle `t` of the grid's index list seen from above (the
/// height component of its normal): its sign says which way it faces.
pub open spec fn grid_triangle_turn(t: int) -> int {
    let s = index_seq(MeshKind::Grid);
    let a = grid_corner(s[3 * t] as int);
    let b = grid_corner(s[3 * t + 1] as int);
    let c = grid_corner(s[3 * t + 2] as int);
    (b.1 - a.1) * (c.0 - a.0) - (b.0 - a.0) * (c.1 - a.1)
}

/// The two triangles of the grid split the floor square along a diagonal,
/// neither is degenerate, and both face the same way.
pub proof fn lemma_grid_is_one_square()
    ensures
        index_seq(MeshKind::Grid).len() == 6,
        grid_triangle_turn(0) != 0,
        grid_triangle_turn(0) == grid_triangle_turn(1),
        index_seq(MeshKind::Grid)[0] == index_seq(MeshKind::Grid)[5],
        index_seq(MeshKind::Grid)[2] == index_seq(MeshKind::Grid)[3],
{
    assert(grid_triangle_turn(0) == -4) by (nonlinear_arith);
    assert(grid_triangle_turn(1) == -4) by (nonlinear_arith);
}

/// The number of vertices in the vertex buffer of a mesh.
pub fn vertex_count(kind: MeshKind) -> (r: usize)
    ensures
        r == spec_vertex_count(kind),
{
    match kind {
        MeshKind::Grid => 4,
        MeshKind::Cube => 8,
    }
}

/// The index list of a mesh.
pub fn mesh_indices(kind: MeshKind) -> (r: Vec<u16>)
    ensures
        r@ == index_seq(kind),
        is_triangle_list(r@, spec_vertex_count(kind)),
{
    proof {
        lemma_meshes_are_triangle_lists(kind);
    }
    match kind {
        MeshKind::Grid => vec![0u16, 1, 2, 2, 3, 0],
        MeshKind::Cube => vec![
            0u16, 1, 2, 2, 3, 0,
            1, 5, 6, 6, 2, 1,
            7, 6, 5, 5, 4, 7,
            4, 0, 3, 3, 7, 4,
            4, 5, 1, 1, 0, 4,
            3, 2, 6, 6, 7, 3,
        ],
    }
}

/// `bytes` holds `values` two bytes each, low byte first.
pub open spec fn little_endian_u16s(bytes: Seq<u8>, values: Seq<u16>) -> bool {
    &&& bytes.len() == 2 * values.len()
    &&& forall|i: int|
        0 <= i < values.len() ==> (#[trigger] values[i]) == bytes[2 * i] + 256 * bytes[2 * i + 1]
}

/// `bytes` holds `values` two bytes each, high byte first.
pub open spec fn big_endian_u16s(bytes: Seq<u8>, values: Seq<u16>) -> bool {
    &&& bytes.len() == 2 * values.len()
    &&& forall|i: int|
        0 <= i < values.len() ==> (#[trigger] values[i]) == 256 * bytes[2 * i] + bytes[2 * i + 1]
}

/// `bytes` holds `values` in the byte order of the machine, which is one of
/// the two orders for all of them.
pub open spec fn native_u16s(bytes: Seq<u8>, values: Seq<u16>) -> bool {
    little_endian_u16s(bytes, values) || big_endian_u16s(bytes, values)
}

/// Calls `bytemuck::cast_slice::<u16, u8>` and copies the bytes out. The
/// contract claims what the crate's source shows: the result views the same
/// memory, two bytes per value, so it holds each value in the machine's byte
/// order. Which of the two orders that is, is left open.
#[verifier::external_body]
fn u16s_as_bytes(values: &[u16]) -> (bytes: Vec<u8>)
    ensures
        native_u16s(bytes@, values@),
{
    bytemuck::cast_slice::<u16, u8>(values).to_vec()
}

/// The contents of the index buffer of a mesh: its index list as bytes, in
/// the byte order of the machine, as the GPU reads 16-bit indices.
pub fn index_buffer_contents(kind: MeshKind) -> (bytes: Vec<u8>)
    ensures
        native_u16s(bytes@, index_seq(kind)),
{
    let indices = mesh_indices(kind);
    u16s_as_bytes(indices.as_slice())
}

/// One indexed draw of a frame: all indices of the mesh, from the first one,
/// with no offset added to them.
#[derive(Clone, Copy, Debug, PartialEq, Eq, Structural)]
pub struct DrawCall {
    pub mesh: MeshKind,
    pub index_count: u32,
    pub instance_count: u32,
}

/// The draws of every frame, in order: the grid first, then the cube, each
/// with its whole index list and one instance.
pub open spec fn frame_draw_seq() -> Seq<DrawCall> {
    seq![
        DrawCall { mesh: MeshKind::Grid, index_count: 6, instance_count: 1 },
        DrawCall { mesh: MeshKind::Cube, index_count: 36, instance_count: 1 },
    ]
}

/// The draws that a frame issues, in order.
pub fn frame_draws() -> (r: Vec<DrawCall>)
    ensures
        r@ == frame_draw_seq(),
{
    let grid = mesh_indices(MeshKind::Grid);
    let cube = mesh_indices(MeshKind::Cube);
    let grid_count: u32 = grid.len() as u32;
    let cube_count: u32 = cube.len() as u32;
    let mut draws: Vec<DrawCall> = Vec::new();
    draws.push(DrawCall { mesh: MeshKind::Grid, index_count: grid_count, instance_count: 1 });
    draws.push(DrawCall { mesh: MeshKind::Cube, index_count: cube_count, instance_count: 1 });
    assert(draws@ =~= frame_draw_seq());
    draws
}

/// Every draw of a frame reads exactly the whole index list of its mesh, and
/// so only vertices that its mesh has; each mesh is drawn once; and the cube
/// is drawn last, so that, with no depth test, it is painted over the
/// floor.
pub proof fn lemma_frame_draws_cover_meshes()
    ensures
        forall|i: int|
            0 <= i < frame_draw_seq().len() ==> {
                let d = #[trigger] frame_draw_seq()[i];
                &&& d.index_count == index_seq(d.mesh).len()
                &&& d.instance_count == 1
                &&& is_triangle_list(index_seq(d.mesh), spec_vertex_count(d.mesh))
            },
        frame_draw_seq().len() == 2,
        frame_draw_seq()[0].mesh != frame_draw_seq()[1].mesh,
        frame_draw_seq().last().mesh == MeshKind::Cube,
{
    lemma_meshes_are_triangle_lists(MeshKind::Grid);
    lemma_meshes_are_triangle_lists(MeshKind::Cube);
}

} // verus!
