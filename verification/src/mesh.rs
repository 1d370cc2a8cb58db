//! The unit-cube mesh every box of the scene is drawn with: 24 vertices
//! (four per face, each with its face's normal) and 36 indices (two
//! triangles per face), centered on the origin.
//!
//! Coordinates are in half units: a position component of 1 stands for 0.5,
//! so the cube spans [-0.5, 0.5] on each axis.
use vstd::prelude::*;

verus! {

/// A vector of small integer components.
#[derive(Clone, Copy, Debug, PartialEq, Eq, Structural)]
pub struct Axes {
    pub x: i8,
    pub y: i8,
    pub z: i8,
}

/// A cube vertex: position in half units, and the unit normal of its face.
#[derive(Clone, Copy, Debug, PartialEq, Eq, Structural)]
pub struct CubeVertex {
    pub position: Axes,
    pub normal: Axes,
}

pub const CUBE_VERTEX_COUNT: usize = 24;

pub const CUBE_INDEX_COUNT: usize = 36;

pub open spec fn axes(x: int, y: int, z: int) -> Axes {
    Axes { x: x as i8, y: y as i8, z: z as i8 }
}

pub open spec fn vtx(p: Axes, n: Axes) -> CubeVertex {
    CubeVertex { position: p, normal: n }
}

/// Vertex `i` of the cube. Faces in order +X, -X, +Y, -Y, +Z, -Z, four
/// vertices each.
pub open spec fn cube_vertex(i: int) -> CubeVertex {
    let px = axes(1, 0, 0);
    let nx = axes(-1, 0, 0);
    let py = axes(0, 1, 0);
    let ny = axes(0, -1, 0);
    let pz = axes(0, 0, 1);
    let nz = axes(0, 0, -1);
    if i == 0 { vtx(axes(1, -1, -1), px) }
    else if i == 1 { vtx(axes(1, 1, -1), px) }
    else if i == 2 { vtx(axes(1, 1, 1), px) }
    else if i == 3 { vtx(axes(1, -1, 1), px) }
    else if i == 4 { vtx(axes(-1, -1, 1), nx) }
    else if i == 5 { vtx(axes(-1, 1, 1), nx) }
    else if i == 6 { vtx(axes(-1, 1, -1), nx) }
    else if i == 7 { vtx(axes(-1, -1, -1), nx) }
    else if i == 8 { vtx(axes(-1, 1, -1), py) }
    else if i == 9 { vtx(axes(-1, 1, 1), py) }
    else if i == 10 { vtx(axes(1, 1, 1), py) }
    else if i == 11 { vtx(axes(1, 1, -1), py) }
    else if i == 12 { vtx(axes(-1, -1, 1), ny) }
    else if i == 13 { vtx(axes(-1, -1, -1), ny) }
    else if i == 14 { vtx(axes(1, -1, -1), ny) }
    else if i == 15 { vtx(axes(1, -1, 1), ny) }
    else if i == 16 { vtx(axes(-1, -1, 1), pz) }
    else if i == 17 { vtx(axes(1, -1, 1), pz) }
    else if i == 18 { vtx(axes(1, 1, 1), pz) }
    else if i == 19 { vtx(axes(-1, 1, 1), pz) }
    else if i == 20 { vtx(axes(1, -1, -1), nz) }
    else if i == 21 { vtx(axes(-1, -1, -1), nz) }
    else if i == 22 { vtx(axes(-1, 1, -1), nz) }
    else { vtx(axes(1, 1, -1), nz) }
}

/// Corner of a face's quad that index `k` uses: each face is drawn as the
/// triangles (0, 1, 2) and (0, 2, 3) of its four vertices.
pub open spec fn quad_corner(j: int) -> int {
    if j == 0 || j == 3 {
        0
    } else if j == 1 {
        1
    } else if j == 2 || j == 4 {
        2
    } else {
        3
    }
}

/// Index `k` of the cube's index list.
pub open spec fn cube_index(k: int) -> int {
    4 * (k / 6) + quad_corner(k % 6)
}

pub open spec fn dot(a: Axes, b: Axes) -> int {
    a.x * b.x + a.y * b.y + a.z * b.z
}

pub open spec fn diff(a: Axes, b: Axes) -> (int, int, int) {
    (a.x - b.x, a.y - b.y, a.z - b.z)
}

/// The cross product of (b - a) and (c - a), dotted with `n`: positive when
/// the triangle a, b, c turns counter-clockwise seen from the side `n`
/// points to.
pub open spec fn winding(a: Axes, b: Axes, c: Axes, n: Axes) -> int {
    let (ux, uy, uz) = diff(b, a);
    let (vx, vy, vz) = diff(c, a);
    (uy * vz - uz * vy) * n.x + (uz * vx - ux * vz) * n.y + (ux * vy - uy * vx) * n.z
}

/// Returns vertex `i` of the cube.
pub fn cube_vertex_at(i: usize) -> (v: CubeVertex)
    requires
        i < CUBE_VERTEX_COUNT,
    ensures
        v == cube_vertex(i as int),
{
    let px = Axes { x: 1, y: 0, z: 0 };
    let nx = Axes { x: -1, y: 0, z: 0 };
    let py = Axes { x: 0, y: 1, z: 0 };
    let ny = Axes { x: 0, y: -1, z: 0 };
    let pz = Axes { x: 0, y: 0, z: 1 };
    let nz = Axes { x: 0, y: 0, z: -1 };
    let (p, n) = if i == 0 { (Axes { x: 1, y: -1, z: -1 }, px) }
    else if i == 1 { (Axes { x: 1, y: 1, z: -1 }, px) }
    else if i == 2 { (Axes { x: 1, y: 1, z: 1 }, px) }
    else if i == 3 { (Axes { x: 1, y: -1, z: 1 }, px) }
    else if i == 4 { (Axes { x: -1, y: -1, z: 1 }, nx) }
    else if i == 5 { (Axes { x: -1, y: 1, z: 1 }, nx) }
    else if i == 6 { (Axes { x: -1, y: 1, z: -1 }, nx) }
    else if i == 7 { (Axes { x: -1, y: -1, z: -1 }, nx) }
    else if i == 8 { (Axes { x: -1, y: 1, z: -1 }, py) }
    else if i == 9 { (Axes { x: -1, y: 1, z: 1 }, py) }
    else if i == 10 { (Axes { x: 1, y: 1, z: 1 }, py) }
    else if i == 11 { (Axes { x: 1, y: 1, z: -1 }, py) }
    else if i == 12 { (Axes { x: -1, y: -1, z: 1 }, ny) }
    else if i == 13 { (Axes { x: -1, y: -1, z: -1 }, ny) }
    else if i == 14 { (Axes { x: 1, y: -1, z: -1 }, ny) }
    else if i == 15 { (Axes { x: 1, y: -1, z: 1 }, ny) }
    else if i == 16 { (Axes { x: -1, y: -1, z: 1 }, pz) }
    else if i == 17 { (Axes { x: 1, y: -1, z: 1 }, pz) }
    else if i == 18 { (Axes { x: 1, y: 1, z: 1 }, pz) }
    else if i == 19 { (Axes { x: -1, y: 1, z: 1 }, pz) }
    else if i == 20 { (Axes { x: 1, y: -1, z: -1 }, nz) }
    else if i == 21 { (Axes { x: -1, y: -1, z: -1 }, nz) }
    else if i == 22 { (Axes { x: -1, y: 1, z: -1 }, nz) }
    else { (Axes { x: 1, y: 1, z: -1 }, nz) };
    CubeVertex { position: p, normal: n }
}

/// The cube's 24 vertices.
pub fn cube_vertices() -> (vs: Vec<CubeVertex>)
    ensures
        vs.len() == CUBE_VERTEX_COUNT,
        forall|i: int| 0 <= i < CUBE_VERTEX_COUNT ==> #[trigger] vs@[i] == cube_vertex(i),
{
    let mut vs: Vec<CubeVertex> = Vec::new();
    for i in 0..CUBE_VERTEX_COUNT
        invariant
            vs.len() == i,
            forall|j: int| 0 <= j < i ==> #[trigger] vs@[j] == cube_vertex(j),
    {
        vs.push(cube_vertex_at(i));
    }
    vs
}

/// The cube's 36 indices: per face, the triangles (0, 1, 2) and (0, 2, 3) of
/// its four vertices.
pub fn cube_indices() -> (idx: Vec<u16>)
    ensures
        idx.len() == CUBE_INDEX_COUNT,
        forall|k: int| 0 <= k < CUBE_INDEX_COUNT ==> #[trigger] idx@[k] == cube_index(k),
{
    let mut idx: Vec<u16> = Vec::new();
    for f in 0..6u16
        invariant
            idx.len() == 6 * f,
            forall|k: int| 0 <= k < 6 * f ==> #[trigger] idx@[k] == cube_index(k),
    {
        let b = 4 * f;
        idx.push(b);
        idx.push(b + 1);
        idx.push(b + 2);
        idx.push(b);
        idx.push(b + 2);
        idx.push(b + 3);
        assert forall|k: int| 6 * f <= k < 6 * f + 6 implies #[trigger] idx@[k] == cube_index(k) by {
            assert(k / 6 == f as int);
            assert(k % 6 == k - 6 * f);
        }
    }
    idx
}

/// Every index names a vertex of its own face, so each triangle lies on one
/// face of the cube.
pub proof fn lemma_cube_indices_stay_on_their_face(k: int)
    requires
        0 <= k < CUBE_INDEX_COUNT,
    ensures
        0 <= cube_index(k) < CUBE_VERTEX_COUNT,
        4 * (k / 6) <= cube_index(k) < 4 * (k / 6) + 4,
        cube_vertex(cube_index(k)).normal == cube_vertex(4 * (k / 6)).normal,
{
}

/// Every vertex lies on the face its normal points out of: the normal is a
/// unit axis and the vertex sits at half a unit along it.
#[verifier::nonlinear]
pub proof fn lemma_cube_vertices_on_their_face(i: int)
    requires
        0 <= i < CUBE_VERTEX_COUNT,
    ensures
        dot(cube_vertex(i).normal, cube_vertex(i).normal) == 1,
        dot(cube_vertex(i).position, cube_vertex(i).normal) == 1,
        cube_vertex(i).normal == cube_vertex(4 * (i / 4)).normal,
{
    if i == 0 {
    } else if i == 1 {
    } else if i == 2 {
    } else if i == 3 {
    } else if i == 4 {
    } else if i == 5 {
    } else if i == 6 {
    } else if i == 7 {
    } else if i == 8 {
    } else if i == 9 {
    } else if i == 10 {
    } else if i == 11 {
    } else if i == 12 {
    } else if i == 13 {
    } else if i == 14 {
    } else if i == 15 {
    } else if i == 16 {
    } else if i == 17 {
    } else if i == 18 {
    } else if i == 19 {
    } else if i == 20 {
    } else if i == 21 {
    } else if i == 22 {
    } else {
    }
}

/// Every triangle is wound counter-clockwise seen from outside the cube (the
/// pipeline's front face).
#[verifier::nonlinear]
pub proof fn lemma_cube_triangles_face_outward(t: int)
    requires
        0 <= t < 12,
    ensures
        winding(
            cube_vertex(cube_index(3 * t)).position,
            cube_vertex(cube_index(3 * t + 1)).position,
            cube_vertex(cube_index(3 * t + 2)).position,
            cube_vertex(cube_index(3 * t)).normal,
        ) > 0,
{
    if t == 0 {
        assert(winding(cube_vertex(0).position, cube_vertex(1).position, cube_vertex(2).position, cube_vertex(0).normal) > 0);
    } else if t == 1 {
        assert(winding(cube_vertex(0).position, cube_vertex(2).position, cube_vertex(3).position, cube_vertex(0).normal) > 0);
    } else if t == 2 {
        assert(winding(cube_vertex(4).position, cube_vertex(5).position, cube_vertex(6).position, cube_vertex(4).normal) > 0);
    } else if t == 3 {
        assert(winding(cube_vertex(4).position, cube_vertex(6).position, cube_vertex(7).position, cube_vertex(4).normal) > 0);
    } else if t == 4 {
        assert(winding(cube_vertex(8).position, cube_vertex(9).position, cube_vertex(10).position, cube_vertex(8).normal) > 0);
    } else if t == 5 {
        assert(winding(cube_vertex(8).position, cube_vertex(10).position, cube_vertex(11).position, cube_vertex(8).normal) > 0);
    } else if t == 6 {
        assert(winding(cube_vertex(12).position, cube_vertex(13).position, cube_vertex(14).position, cube_vertex(12).normal) > 0);
    } else if t == 7 {
        assert(winding(cube_vertex(12).position, cube_vertex(14).position, cube_vertex(15).position, cube_vertex(12).normal) > 0);
    } else if t == 8 {
        assert(winding(cube_vertex(16).position, cube_vertex(17).position, cube_vertex(18).position, cube_vertex(16).normal) > 0);
    } else if t == 9 {
        assert(winding(cube_vertex(16).position, cube_vertex(18).position, cube_vertex(19).position, cube_vertex(16).normal) > 0);
    } else if t == 10 {
        assert(winding(cube_vertex(20).position, cube_vertex(21).position, cube_vertex(22).position, cube_vertex(20).normal) > 0);
    } else {
        assert(winding(cube_vertex(20).position, cube_vertex(22).position, cube_vertex(23).position, cube_vertex(20).normal) > 0);
    }
}


} // verus!
