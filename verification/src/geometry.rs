//! The skybox shape: a cube of 8 corner vertices at coordinates of magnitude
//! 100, drawn as one 14-index triangle strip that covers all six faces
//! without a primitive restart.
//!
//! Vertex coordinates are exact integers here; the host layer converts them
//! to the GPU's vertex format (these magnitudes convert exactly).

use vstd::prelude::*;

verus! {

/// One cube corner.
#[derive(Clone, Copy, Debug, PartialEq, Eq, Structural)]
pub struct Vertex {
    pub x: i32,
    pub y: i32,
    pub z: i32,
}

/// Half the cube's edge length.
pub const CUBE_EXTENT: i32 = 100;

/// Number of indices in the strip.
pub const STRIP_INDEX_COUNT: usize = 14;

/// Number of triangles the strip produces.
pub const STRIP_TRIANGLE_COUNT: usize = 12;

/// One of the six cube faces.
#[derive(Clone, Copy, Debug, PartialEq, Eq, Structural)]
pub enum Face {
    XNeg,
    XPos,
    YNeg,
    YPos,
    ZNeg,
    ZPos,
}

/// The 8 cube corners, numbered so that bit 2 is the x sign, bit 1 the y
/// sign and bit 0 the z sign.
pub open spec fn spec_sky_vertices() -> Seq<Vertex> {
    seq![
        Vertex { x: -100i32, y: -100i32, z: -100i32 },
        Vertex { x: -100i32, y: -100i32, z: 100i32 },
        Vertex { x: -100i32, y: 100i32, z: -100i32 },
        Vertex { x: -100i32, y: 100i32, z: 100i32 },
        Vertex { x: 100i32, y: -100i32, z: -100i32 },
        Vertex { x: 100i32, y: -100i32, z: 100i32 },
        Vertex { x: 100i32, y: 100i32, z: -100i32 },
        Vertex { x: 100i32, y: 100i32, z: 100i32 },
    ]
}

/// The 14-entry triangle-strip index list.
pub open spec fn spec_sky_indices() -> Seq<u16> {
    seq![3u16, 7u16, 1u16, 5u16, 4u16, 7u16, 6u16, 3u16, 2u16, 1u16, 0u16, 4u16, 2u16, 6u16]
}

/// The 8 cube corners as a vector.
pub fn sky_vertices() -> (r: Vec<Vertex>)
    ensures
        r@ == spec_sky_vertices(),
{
    let vertices: Vec<Vertex> = vec![
        Vertex { x: -100, y: -100, z: -100 },
        Vertex { x: -100, y: -100, z: 100 },
        Vertex { x: -100, y: 100, z: -100 },
        Vertex { x: -100, y: 100, z: 100 },
        Vertex { x: 100, y: -100, z: -100 },
        Vertex { x: 100, y: -100, z: 100 },
        Vertex { x: 100, y: 100, z: -100 },
        Vertex { x: 100, y: 100, z: 100 },
    ];
    assert(vertices@ =~= spec_sky_vertices());
    vertices
}

/// The strip's index list as a vector.
pub fn sky_indices() -> (r: Vec<u16>)
    ensures
        r@ == spec_sky_indices(),
{
    let indices: Vec<u16> = vec![3u16, 7, 1, 5, 4, 7, 6, 3, 2, 1, 0, 4, 2, 6];
    assert(indices@ =~= spec_sky_indices());
    indices
}

/// Whether a vertex lies in the plane of the given face.
pub open spec fn on_face(v: Vertex, f: Face) -> bool {
    match f {
        Face::XNeg => v.x == -100,
        Face::XPos => v.x == 100,
        Face::YNeg => v.y == -100,
        Face::YPos => v.y == 100,
        Face::ZNeg => v.z == -100,
        Face::ZPos => v.z == 100,
    }
}

/// Corner `k` of strip triangle `t` (the strip turns consecutive index
/// triples into triangles).
pub open spec fn tri_vertex(t: int, k: int) -> Vertex {
    spec_sky_vertices()[spec_sky_indices()[t + k] as int]
}

/// The face that strip triangle `t` covers.
pub open spec fn strip_face(t: int) -> Face {
    if t == 0 || t == 1 {
        Face::ZPos
    } else if t == 2 || t == 9 {
        Face::YNeg
    } else if t == 3 || t == 4 {
        Face::XPos
    } else if t == 5 || t == 6 {
        Face::YPos
    } else if t == 7 || t == 8 {
        Face::XNeg
    } else {
        Face::ZNeg
    }
}

/// The two strip triangles that cover the given face.
pub open spec fn face_triangles(f: Face) -> (int, int) {
    match f {
        Face::XNeg => (7, 8),
        Face::XPos => (3, 4),
        Face::YNeg => (2, 9),
        Face::YPos => (5, 6),
        Face::ZNeg => (10, 11),
        Face::ZPos => (0, 1),
    }
}

/// The cross product of the two edge vectors of strip triangle `t`; the
/// triangle is degenerate exactly when this is the zero vector.
pub open spec fn tri_cross(t: int) -> (int, int, int) {
    let a = tri_vertex(t, 0);
    let b = tri_vertex(t, 1);
    let c = tri_vertex(t, 2);
    let ux = b.x - a.x;
    let uy = b.y - a.y;
    let uz = b.z - a.z;
    let vx = c.x - a.x;
    let vy = c.y - a.y;
    let vz = c.z - a.z;
    (uy * vz - uz * vy, uz * vx - ux * vz, ux * vy - uy * vx)
}

/// Ground products of the edge-vector components, which all lie in
/// {-200, 0, 200}.
proof fn lemma_edge_products()
    by (nonlinear_arith)
    ensures
        0int * 0int == 0int,
        0int * 200int == 0int,
        0int * (-200int) == 0int,
        200int * 0int == 0int,
        (-200int) * 0int == 0int,
        200int * 200int == 40000int,
        200int * (-200int) == -40000int,
        (-200int) * 200int == -40000int,
        (-200int) * (-200int) == 40000int,
{
}

/// The strip covers the cube: every triangle lies in the plane of its face,
/// every face is covered by exactly its two listed triangles, and no
/// triangle is degenerate.
pub proof fn lemma_strip_covers_cube()
    ensures
        forall|t: int, k: int|
            0 <= t < 12 && 0 <= k < 3 ==> on_face(#[trigger] tri_vertex(t, k), strip_face(t)),
        forall|f: Face, t: int|
            #![trigger strip_face(t), face_triangles(f)]
            0 <= t < 12 ==> ((strip_face(t) == f) <==> (t == face_triangles(f).0 || t
                == face_triangles(f).1)),
        forall|f: Face|
            0 <= (#[trigger] face_triangles(f)).0 < 12 && 0 <= face_triangles(f).1 < 12
                && face_triangles(f).0 != face_triangles(f).1,
        forall|t: int| 0 <= t < 12 ==> #[trigger] tri_cross(t) != (0int, 0int, 0int),
{
    assert forall|t: int, k: int| 0 <= t < 12 && 0 <= k < 3 implies on_face(
        #[trigger] tri_vertex(t, k),
        strip_face(t),
    ) by {
        assert(spec_sky_indices().len() == 14);
        assert(0 <= t + k < 14);
        assert(spec_sky_indices()[t + k] < 8);
        assert(on_face(tri_vertex(t, k), strip_face(t)));
    }
    assert forall|t: int| 0 <= t < 12 implies #[trigger] tri_cross(t) != (0int, 0int, 0int) by {
        lemma_edge_products();
        assert(tri_cross(0) != (0int, 0int, 0int));
        assert(tri_cross(1) != (0int, 0int, 0int));
        assert(tri_cross(2) != (0int, 0int, 0int));
        assert(tri_cross(3) != (0int, 0int, 0int));
        assert(tri_cross(4) != (0int, 0int, 0int));
        assert(tri_cross(5) != (0int, 0int, 0int));
        assert(tri_cross(6) != (0int, 0int, 0int));
        assert(tri_cross(7) != (0int, 0int, 0int));
        assert(tri_cross(8) != (0int, 0int, 0int));
        assert(tri_cross(9) != (0int, 0int, 0int));
        assert(tri_cross(10) != (0int, 0int, 0int));
        assert(tri_cross(11) != (0int, 0int, 0int));
    }
}

} // verus!
