//! Faces of a unit voxel: the six sides, their corners, and the vertices
//! that make up one textured face.
//!
//! Positions are kept as integers in block units. Texture coordinates are
//! carried as the bit patterns of single-precision numbers, so that copying
//! one into a vertex is exact and two meshes can be compared bit for bit.

use vstd::prelude::*;

verus! {

/// One of the six axis-aligned sides of a voxel.
#[derive(Debug, Clone, Copy, PartialEq, Eq, Structural)]
pub enum Side {
    /// Y+
    Top,
    /// Y-
    Bottom,
    /// Z+
    Right,
    /// Z-
    Left,
    /// X+
    Front,
    /// X-
    Back,
}

/// A position on the integer grid, one unit per block edge.
#[derive(Debug, Clone, Copy, PartialEq, Eq, Structural)]
pub struct GridPoint {
    pub x: isize,
    pub y: isize,
    pub z: isize,
}

/// A texture coordinate in atlas space. Each component is the bit pattern
/// of a single-precision number.
#[derive(Debug, Clone, Copy, PartialEq, Eq, Structural)]
pub struct TexCoord {
    pub u: u32,
    pub v: u32,
}

/// The rectangle of the atlas that holds one block's texture, by its two
/// opposite corners.
#[derive(Debug, Clone, Copy, PartialEq, Eq, Structural)]
pub struct UvRect {
    pub min: TexCoord,
    pub max: TexCoord,
}

/// One corner of a triangle: where it is and which texel it shows.
#[derive(Debug, Clone, Copy, PartialEq, Eq, Structural)]
pub struct Vertex {
    pub pos: GridPoint,
    pub uv: TexCoord,
}

/// A corner of the unit cube: each component is 0 or 1.
pub struct Corner {
    pub dx: int,
    pub dy: int,
    pub dz: int,
}

impl Side {
    /// The outward unit normal of this side.
    pub open spec fn normal(self) -> Corner {
        match self {
            Side::Top => Corner { dx: 0, dy: 1, dz: 0 },
            Side::Bottom => Corner { dx: 0, dy: -1, dz: 0 },
            Side::Right => Corner { dx: 0, dy: 0, dz: 1 },
            Side::Left => Corner { dx: 0, dy: 0, dz: -1 },
            Side::Front => Corner { dx: 1, dy: 0, dz: 0 },
            Side::Back => Corner { dx: -1, dy: 0, dz: 0 },
        }
    }

    /// The four corners of this side's square, counter-clockwise when seen
    /// from outside the voxel, starting at the corner where the face's first
    /// triangle starts.
    pub open spec fn quad(self) -> Seq<Corner> {
        match self {
            Side::Top => seq![
                Corner { dx: 0, dy: 1, dz: 0 },
                Corner { dx: 0, dy: 1, dz: 1 },
                Corner { dx: 1, dy: 1, dz: 1 },
                Corner { dx: 1, dy: 1, dz: 0 },
            ],
            Side::Bottom => seq![
                Corner { dx: 0, dy: 0, dz: 0 },
                Corner { dx: 1, dy: 0, dz: 0 },
                Corner { dx: 1, dy: 0, dz: 1 },
                Corner { dx: 0, dy: 0, dz: 1 },
            ],
            Side::Right => seq![
                Corner { dx: 0, dy: 0, dz: 1 },
                Corner { dx: 1, dy: 0, dz: 1 },
                Corner { dx: 1, dy: 1, dz: 1 },
                Corner { dx: 0, dy: 1, dz: 1 },
            ],
            Side::Left => seq![
                Corner { dx: 0, dy: 0, dz: 0 },
                Corner { dx: 0, dy: 1, dz: 0 },
                Corner { dx: 1, dy: 1, dz: 0 },
                Corner { dx: 1, dy: 0, dz: 0 },
            ],
            Side::Front => seq![
                Corner { dx: 1, dy: 0, dz: 0 },
                Corner { dx: 1, dy: 1, dz: 0 },
                Corner { dx: 1, dy: 1, dz: 1 },
                Corner { dx: 1, dy: 0, dz: 1 },
            ],
            Side::Back => seq![
                Corner { dx: 0, dy: 0, dz: 0 },
                Corner { dx: 0, dy: 0, dz: 1 },
                Corner { dx: 0, dy: 1, dz: 1 },
                Corner { dx: 0, dy: 1, dz: 0 },
            ],
        }
    }

    /// Whether the texture's `u` runs to the rectangle's far edge at this
    /// corner. Each side projects the cube onto its own plane: the
    /// horizontal sides read `u` from z, the others from the horizontal axis
    /// that lies in their plane, mirrored on `Left` and `Front`.
    pub open spec fn u_at_max(self, c: Corner) -> bool {
        match self {
            Side::Top | Side::Bottom | Side::Back => c.dz == 1,
            Side::Front => c.dz == 0,
            Side::Right => c.dx == 1,
            Side::Left => c.dx == 0,
        }
    }

    /// Whether the texture's `v` runs to the rectangle's far edge at this
    /// corner: `v` follows x on the horizontal sides and y on the others.
    pub open spec fn v_at_max(self, c: Corner) -> bool {
        match self {
            Side::Top | Side::Bottom => c.dx == 1,
            _ => c.dy == 1,
        }
    }
}

/// Which corner of the quad each of the six vertices of a face is: the
/// triangles are (0, 1, 2) and (2, 3, 0).
pub open spec fn quad_index(n: int) -> int {
    if n == 0 || n == 5 {
        0
    } else if n == 1 {
        1
    } else if n == 2 || n == 3 {
        2
    } else {
        3
    }
}

impl UvRect {
    /// The corner of the rectangle picked by the two flags.
    pub open spec fn corner(self, u_max: bool, v_max: bool) -> TexCoord {
        TexCoord {
            u: if u_max { self.max.u } else { self.min.u },
            v: if v_max { self.max.v } else { self.min.v },
        }
    }
}

/// The vertex at corner `c` of side `side` of the voxel at `(i, j, k)`.
pub open spec fn corner_vertex(side: Side, i: int, j: int, k: int, uv: UvRect, c: Corner) -> Vertex {
    Vertex {
        pos: GridPoint { x: (i + c.dx) as isize, y: (j + c.dy) as isize, z: (k + c.dz) as isize },
        uv: uv.corner(side.u_at_max(c), side.v_at_max(c)),
    }
}

/// The six vertices of side `side` of the voxel at `(i, j, k)`, textured
/// with the rectangle `uv`.
pub open spec fn face_vertices(side: Side, i: int, j: int, k: int, uv: UvRect) -> Seq<Vertex> {
    Seq::new(6, |n: int| corner_vertex(side, i, j, k, uv, side.quad()[quad_index(n)]))
}

/// Builds the two triangles of one side of the voxel at `(i, j, k)`.
///
/// The coordinates must leave room for the far corner at `+1`.
pub fn block_face(side: Side, i: isize, j: isize, k: isize, uv: UvRect) -> (face: [Vertex; 6])
    requires
        i < isize::MAX,
        j < isize::MAX,
        k < isize::MAX,
    ensures
        face@ == face_vertices(side, i as int, j as int, k as int, uv),
{
    let (ox, oy) = (uv.min.u, uv.min.v);
    let (sx, sy) = (uv.max.u, uv.max.v);
    let face = match side {
        Side::Top => [
            Vertex { pos: GridPoint { x: i, y: 1 + j, z: k }, uv: TexCoord { u: ox, v: oy } },
            Vertex { pos: GridPoint { x: i, y: 1 + j, z: 1 + k }, uv: TexCoord { u: sx, v: oy } },
            Vertex { pos: GridPoint { x: 1 + i, y: 1 + j, z: 1 + k }, uv: TexCoord { u: sx, v: sy } },
            Vertex { pos: GridPoint { x: 1 + i, y: 1 + j, z: 1 + k }, uv: TexCoord { u: sx, v: sy } },
            Vertex { pos: GridPoint { x: 1 + i, y: 1 + j, z: k }, uv: TexCoord { u: ox, v: sy } },
            Vertex { pos: GridPoint { x: i, y: 1 + j, z: k }, uv: TexCoord { u: ox, v: oy } },
        ],
        Side::Bottom => [
            Vertex { pos: GridPoint { x: i, y: j, z: k }, uv: TexCoord { u: ox, v: oy } },
            Vertex { pos: GridPoint { x: 1 + i, y: j, z: k }, uv: TexCoord { u: ox, v: sy } },
            Vertex { pos: GridPoint { x: 1 + i, y: j, z: 1 + k }, uv: TexCoord { u: sx, v: sy } },
            Vertex { pos: GridPoint { x: 1 + i, y: j, z: 1 + k }, uv: TexCoord { u: sx, v: sy } },
            Vertex { pos: GridPoint { x: i, y: j, z: 1 + k }, uv: TexCoord { u: sx, v: oy } },
            Vertex { pos: GridPoint { x: i, y: j, z: k }, uv: TexCoord { u: ox, v: oy } },
        ],
        Side::Right => [
            Vertex { pos: GridPoint { x: i, y: j, z: 1 + k }, uv: TexCoord { u: ox, v: oy } },
            Vertex { pos: GridPoint { x: 1 + i, y: j, z: 1 + k }, uv: TexCoord { u: sx, v: oy } },
            Vertex { pos: GridPoint { x: 1 + i, y: 1 + j, z: 1 + k }, uv: TexCoord { u: sx, v: sy } },
            Vertex { pos: GridPoint { x: 1 + i, y: 1 + j, z: 1 + k }, uv: TexCoord { u: sx, v: sy } },
            Vertex { pos: GridPoint { x: i, y: 1 + j, z: 1 + k }, uv: TexCoord { u: ox, v: sy } },
            Vertex { pos: GridPoint { x: i, y: j, z: 1 + k }, uv: TexCoord { u: ox, v: oy } },
        ],
        Side::Left => [
            Vertex { pos: GridPoint { x: i, y: j, z: k }, uv: TexCoord { u: sx, v: oy } },
            Vertex { pos: GridPoint { x: i, y: 1 + j, z: k }, uv: TexCoord { u: sx, v: sy } },
            Vertex { pos: GridPoint { x: 1 + i, y: 1 + j, z: k }, uv: TexCoord { u: ox, v: sy } },
            Vertex { pos: GridPoint { x: 1 + i, y: 1 + j, z: k }, uv: TexCoord { u: ox, v: sy } },
            Vertex { pos: GridPoint { x: 1 + i, y: j, z: k }, uv: TexCoord { u: ox, v: oy } },
            Vertex { pos: GridPoint { x: i, y: j, z: k }, uv: TexCoord { u: sx, v: oy } },
        ],
        Side::Front => [
            Vertex { pos: GridPoint { x: 1 + i, y: j, z: k }, uv: TexCoord { u: sx, v: oy } },
            Vertex { pos: GridPoint { x: 1 + i, y: 1 + j, z: k }, uv: TexCoord { u: sx, v: sy } },
            Vertex { pos: GridPoint { x: 1 + i, y: 1 + j, z: 1 + k }, uv: TexCoord { u: ox, v: sy } },
            Vertex { pos: GridPoint { x: 1 + i, y: 1 + j, z: 1 + k }, uv: TexCoord { u: ox, v: sy } },
            Vertex { pos: GridPoint { x: 1 + i, y: j, z: 1 + k }, uv: TexCoord { u: ox, v: oy } },
            Vertex { pos: GridPoint { x: 1 + i, y: j, z: k }, uv: TexCoord { u: sx, v: oy } },
        ],
        Side::Back => [
            Vertex { pos: GridPoint { x: i, y: j, z: k }, uv: TexCoord { u: ox, v: oy } },
            Vertex { pos: GridPoint { x: i, y: j, z: 1 + k }, uv: TexCoord { u: sx, v: oy } },
            Vertex { pos: GridPoint { x: i, y: 1 + j, z: 1 + k }, uv: TexCoord { u: sx, v: sy } },
            Vertex { pos: GridPoint { x: i, y: 1 + j, z: 1 + k }, uv: TexCoord { u: sx, v: sy } },
            Vertex { pos: GridPoint { x: i, y: 1 + j, z: k }, uv: TexCoord { u: ox, v: sy } },
            Vertex { pos: GridPoint { x: i, y: j, z: k }, uv: TexCoord { u: ox, v: oy } },
        ],
    };
    assert(face@ =~= face_vertices(side, i as int, j as int, k as int, uv));
    face
}

/// The vertices of all six sides of the voxel at `(i, j, k)`: top, bottom,
/// right, left, front, back.
pub open spec fn block_vertices(i: int, j: int, k: int, uv: UvRect) -> Seq<Vertex> {
    face_vertices(Side::Top, i, j, k, uv) + face_vertices(Side::Bottom, i, j, k, uv)
        + face_vertices(Side::Right, i, j, k, uv) + face_vertices(Side::Left, i, j, k, uv)
        + face_vertices(Side::Front, i, j, k, uv) + face_vertices(Side::Back, i, j, k, uv)
}

/// Appends the six vertices of a face.
pub(crate) fn push_all(vertices: &mut Vec<Vertex>, face: [Vertex; 6])
    ensures
        final(vertices)@ == old(vertices)@ + face@,
{
    let mut m: usize = 0;
    while m < 6
        invariant
            m <= 6,
            vertices@ == old(vertices)@ + face@.take(m as int),
        decreases 6 - m,
    {
        vertices.push(face[m]);
        proof {
            assert(face@.take(m + 1) == face@.take(m as int).push(face@[m as int]));
        }
        m += 1;
    }
    proof {
        assert(face@.take(6) == face@);
    }
}

/// Builds a whole voxel at `(i, j, k)`: all six sides, each textured with
/// the rectangle `uv`.
pub fn block_mesh(i: isize, j: isize, k: isize, uv: UvRect) -> (vertices: Vec<Vertex>)
    requires
        i < isize::MAX,
        j < isize::MAX,
        k < isize::MAX,
    ensures
        vertices@ == block_vertices(i as int, j as int, k as int, uv),
        vertices.len() == 36,
{
    let mut vertices: Vec<Vertex> = Vec::new();
    push_all(&mut vertices, block_face(Side::Top, i, j, k, uv));
    push_all(&mut vertices, block_face(Side::Bottom, i, j, k, uv));
    push_all(&mut vertices, block_face(Side::Right, i, j, k, uv));
    push_all(&mut vertices, block_face(Side::Left, i, j, k, uv));
    push_all(&mut vertices, block_face(Side::Front, i, j, k, uv));
    push_all(&mut vertices, block_face(Side::Back, i, j, k, uv));
    assert(vertices@ =~= block_vertices(i as int, j as int, k as int, uv));
    vertices
}

/// The texture coordinates of a face, vertex by vertex, for each side. In
/// the rows below `o` stands for the rectangle's near edge and `s` for its
/// far edge, first in `u`, then in `v`:
///
/// | side   | 0  | 1  | 2  | 3  | 4  | 5  |
/// |--------|----|----|----|----|----|----|
/// | top    | oo | so | ss | ss | os | oo |
/// | bottom | oo | os | ss | ss | so | oo |
/// | right  | oo | so | ss | ss | os | oo |
/// | left   | so | ss | os | os | oo | so |
/// | front  | so | ss | os | os | oo | so |
/// | back   | oo | so | ss | ss | os | oo |
pub proof fn lemma_face_uv_table(side: Side, i: int, j: int, k: int, uv: UvRect)
    ensures
        ({
            let face = face_vertices(side, i, j, k, uv);
            let oo = uv.min;
            let ss = uv.max;
            let so = TexCoord { u: uv.max.u, v: uv.min.v };
            let os = TexCoord { u: uv.min.u, v: uv.max.v };
            let uvs = seq![
                face[0].uv,
                face[1].uv,
                face[2].uv,
                face[3].uv,
                face[4].uv,
                face[5].uv,
            ];
            match side {
                Side::Top | Side::Right | Side::Back => uvs == seq![oo, so, ss, ss, os, oo],
                Side::Bottom => uvs == seq![oo, os, ss, ss, so, oo],
                Side::Left | Side::Front => uvs == seq![so, ss, os, os, oo, so],
            }
        }),
{
    let face = face_vertices(side, i, j, k, uv);
    let uvs = seq![face[0].uv, face[1].uv, face[2].uv, face[3].uv, face[4].uv, face[5].uv];
    let oo = uv.min;
    let ss = uv.max;
    let so = TexCoord { u: uv.max.u, v: uv.min.v };
    let os = TexCoord { u: uv.min.u, v: uv.max.v };
    match side {
        Side::Top | Side::Right | Side::Back => {
            assert(uvs =~= seq![oo, so, ss, ss, os, oo]);
        },
        Side::Bottom => {
            assert(uvs =~= seq![oo, os, ss, ss, so, oo]);
        },
        Side::Left | Side::Front => {
            assert(uvs =~= seq![so, ss, os, os, oo, so]);
        },
    }
}

/// A face shows the whole of its rectangle: every vertex carries one of the
/// rectangle's four corners, and the two triangles together carry all four,
/// at the vertices 0, 1, 2 and 4; the vertices 3 and 5 close the second
/// triangle with the corners of 2 and 0. Where the rectangle has an extent
/// in both directions, those four are four different coordinates.
pub proof fn lemma_face_uses_the_four_corners(side: Side, i: int, j: int, k: int, uv: UvRect)
    ensures
        ({
            let face = face_vertices(side, i, j, k, uv);
            let corners = set![
                uv.corner(false, false),
                uv.corner(true, false),
                uv.corner(true, true),
                uv.corner(false, true),
            ];
            &&& set![face[0].uv, face[1].uv, face[2].uv, face[4].uv] == corners
            &&& face[3].uv == face[2].uv
            &&& face[5].uv == face[0].uv
            &&& forall|m: int| 0 <= m < 6 ==> corners.contains(#[trigger] face[m].uv)
            &&& uv.min.u != uv.max.u && uv.min.v != uv.max.v ==> {
                &&& face[0].uv != face[1].uv
                &&& face[0].uv != face[2].uv
                &&& face[0].uv != face[4].uv
                &&& face[1].uv != face[2].uv
                &&& face[1].uv != face[4].uv
                &&& face[2].uv != face[4].uv
            }
        }),
{
    let face = face_vertices(side, i, j, k, uv);
    let corners = set![
        uv.corner(false, false),
        uv.corner(true, false),
        uv.corner(true, true),
        uv.corner(false, true),
    ];
    lemma_face_uv_table(side, i, j, k, uv);
    let uvs = seq![face[0].uv, face[1].uv, face[2].uv, face[3].uv, face[4].uv, face[5].uv];
    assert(uvs[0] == face[0].uv && uvs[1] == face[1].uv && uvs[2] == face[2].uv && uvs[3]
        == face[3].uv && uvs[4] == face[4].uv && uvs[5] == face[5].uv);
    assert(set![face[0].uv, face[1].uv, face[2].uv, face[4].uv] =~= corners);
    assert forall|m: int| 0 <= m < 6 implies corners.contains(#[trigger] face[m].uv) by {
        assert(face[m].uv == uvs[m]);
    }
}

/// A face lies on the boundary of its voxel's unit cube: every vertex is a
/// corner of the cube at `(i, j, k)`, and the six of them lie in the plane
/// of the face's side.
pub proof fn lemma_face_lies_on_its_side(side: Side, i: int, j: int, k: int, uv: UvRect, m: int)
    requires
        0 <= m < 6,
        isize::MIN <= i < isize::MAX,
        isize::MIN <= j < isize::MAX,
        isize::MIN <= k < isize::MAX,
    ensures
        ({
            let p = face_vertices(side, i, j, k, uv)[m].pos;
            &&& p.x == i || p.x == i + 1
            &&& p.y == j || p.y == j + 1
            &&& p.z == k || p.z == k + 1
            &&& match side {
                Side::Top => p.y == j + 1,
                Side::Bottom => p.y == j,
                Side::Right => p.z == k + 1,
                Side::Left => p.z == k,
                Side::Front => p.x == i + 1,
                Side::Back => p.x == i,
            }
        }),
{
}

/// The step from `a` to `b`.
pub open spec fn edge(a: GridPoint, b: GridPoint) -> Corner {
    Corner { dx: b.x - a.x, dy: b.y - a.y, dz: b.z - a.z }
}

/// The cross product of two steps.
pub open spec fn cross(u: Corner, v: Corner) -> Corner {
    Corner {
        dx: u.dy * v.dz - u.dz * v.dy,
        dy: u.dz * v.dx - u.dx * v.dz,
        dz: u.dx * v.dy - u.dy * v.dx,
    }
}

/// Both triangles of a face wind counter-clockwise when seen from outside
/// the voxel: the cross product of the two edges that leave a triangle's
/// first vertex is the side's outward normal.
pub proof fn lemma_face_winds_outward(side: Side, i: int, j: int, k: int, uv: UvRect)
    requires
        isize::MIN <= i < isize::MAX,
        isize::MIN <= j < isize::MAX,
        isize::MIN <= k < isize::MAX,
    ensures
        ({
            let face = face_vertices(side, i, j, k, uv);
            &&& cross(edge(face[0].pos, face[1].pos), edge(face[0].pos, face[2].pos))
                == side.normal()
            &&& cross(edge(face[3].pos, face[4].pos), edge(face[3].pos, face[5].pos))
                == side.normal()
        }),
{
    let face = face_vertices(side, i, j, k, uv);
    let q = side.quad();
    let step = |a: int, b: int|
        Corner { dx: q[b].dx - q[a].dx, dy: q[b].dy - q[a].dy, dz: q[b].dz - q[a].dz };
    assert(edge(face[0].pos, face[1].pos) == step(0, 1));
    assert(edge(face[0].pos, face[2].pos) == step(0, 2));
    assert(edge(face[3].pos, face[4].pos) == step(2, 3));
    assert(edge(face[3].pos, face[5].pos) == step(2, 0));
    match side {
        Side::Top => {
            assert(step(0, 1) == Corner { dx: 0, dy: 0, dz: 1 });
            assert(step(0, 2) == Corner { dx: 1, dy: 0, dz: 1 });
            assert(step(2, 3) == Corner { dx: 0, dy: 0, dz: -1 });
            assert(step(2, 0) == Corner { dx: -1, dy: 0, dz: -1 });
            assert(cross(Corner { dx: 0, dy: 0, dz: 1 }, Corner { dx: 1, dy: 0, dz: 1 }) == Corner { dx: 0, dy: 1, dz: 0 }) by (nonlinear_arith);
            assert(cross(Corner { dx: 0, dy: 0, dz: -1 }, Corner { dx: -1, dy: 0, dz: -1 }) == Corner { dx: 0, dy: 1, dz: 0 }) by (nonlinear_arith);
        },
        Side::Bottom => {
            assert(step(0, 1) == Corner { dx: 1, dy: 0, dz: 0 });
            assert(step(0, 2) == Corner { dx: 1, dy: 0, dz: 1 });
            assert(step(2, 3) == Corner { dx: -1, dy: 0, dz: 0 });
            assert(step(2, 0) == Corner { dx: -1, dy: 0, dz: -1 });
            assert(cross(Corner { dx: 1, dy: 0, dz: 0 }, Corner { dx: 1, dy: 0, dz: 1 }) == Corner { dx: 0, dy: -1, dz: 0 }) by (nonlinear_arith);
            assert(cross(Corner { dx: -1, dy: 0, dz: 0 }, Corner { dx: -1, dy: 0, dz: -1 }) == Corner { dx: 0, dy: -1, dz: 0 }) by (nonlinear_arith);
        },
        Side::Right => {
            assert(step(0, 1) == Corner { dx: 1, dy: 0, dz: 0 });
            assert(step(0, 2) == Corner { dx: 1, dy: 1, dz: 0 });
            assert(step(2, 3) == Corner { dx: -1, dy: 0, dz: 0 });
            assert(step(2, 0) == Corner { dx: -1, dy: -1, dz: 0 });
            assert(cross(Corner { dx: 1, dy: 0, dz: 0 }, Corner { dx: 1, dy: 1, dz: 0 }) == Corner { dx: 0, dy: 0, dz: 1 }) by (nonlinear_arith);
            assert(cross(Corner { dx: -1, dy: 0, dz: 0 }, Corner { dx: -1, dy: -1, dz: 0 }) == Corner { dx: 0, dy: 0, dz: 1 }) by (nonlinear_arith);
        },
        Side::Left => {
            assert(step(0, 1) == Corner { dx: 0, dy: 1, dz: 0 });
            assert(step(0, 2) == Corner { dx: 1, dy: 1, dz: 0 });
            assert(step(2, 3) == Corner { dx: 0, dy: -1, dz: 0 });
            assert(step(2, 0) == Corner { dx: -1, dy: -1, dz: 0 });
            assert(cross(Corner { dx: 0, dy: 1, dz: 0 }, Corner { dx: 1, dy: 1, dz: 0 }) == Corner { dx: 0, dy: 0, dz: -1 }) by (nonlinear_arith);
            assert(cross(Corner { dx: 0, dy: -1, dz: 0 }, Corner { dx: -1, dy: -1, dz: 0 }) == Corner { dx: 0, dy: 0, dz: -1 }) by (nonlinear_arith);
        },
        Side::Front => {
            assert(step(0, 1) == Corner { dx: 0, dy: 1, dz: 0 });
            assert(step(0, 2) == Corner { dx: 0, dy: 1, dz: 1 });
            assert(step(2, 3) == Corner { dx: 0, dy: -1, dz: 0 });
            assert(step(2, 0) == Corner { dx: 0, dy: -1, dz: -1 });
            assert(cross(Corner { dx: 0, dy: 1, dz: 0 }, Corner { dx: 0, dy: 1, dz: 1 }) == Corner { dx: 1, dy: 0, dz: 0 }) by (nonlinear_arith);
            assert(cross(Corner { dx: 0, dy: -1, dz: 0 }, Corner { dx: 0, dy: -1, dz: -1 }) == Corner { dx: 1, dy: 0, dz: 0 }) by (nonlinear_arith);
        },
        Side::Back => {
            assert(step(0, 1) == Corner { dx: 0, dy: 0, dz: 1 });
            assert(step(0, 2) == Corner { dx: 0, dy: 1, dz: 1 });
            assert(step(2, 3) == Corner { dx: 0, dy: 0, dz: -1 });
            assert(step(2, 0) == Corner { dx: 0, dy: -1, dz: -1 });
            assert(cross(Corner { dx: 0, dy: 0, dz: 1 }, Corner { dx: 0, dy: 1, dz: 1 }) == Corner { dx: -1, dy: 0, dz: 0 }) by (nonlinear_arith);
            assert(cross(Corner { dx: 0, dy: 0, dz: -1 }, Corner { dx: 0, dy: -1, dz: -1 }) == Corner { dx: -1, dy: 0, dz: 0 }) by (nonlinear_arith);
        },
    }
}

} // verus!
