//! What holds of every mesh: which faces it has, how many, and where.

use vstd::prelude::*;
use crate::block::BlockState;
use crate::chunk::{generated, lemma_generated_block, slab_height, WorldType};
use crate::geometry::{Side, UvRect, Vertex};
use crate::grid::{in_bounds, volume};
use crate::mesher::{
    cell_faces,
    column_faces,
    culled_mesh,
    emitted,
    expand,
    exposed,
    face_quad,
    grid_faces,
    mesh,
    mesh_faces,
    side_faces,
    slice_faces,
    solid,
    Face,
};

verus! {

/// A joined list holds what either part holds.
pub proof fn lemma_concat_contains<A>(a: Seq<A>, b: Seq<A>, e: A)
    ensures
        (a + b).contains(e) <==> a.contains(e) || b.contains(e),
{
    if a.contains(e) {
        let i = choose|i: int| 0 <= i < a.len() && a[i] == e;
        assert((a + b)[i] == e);
    }
    if b.contains(e) {
        let i = choose|i: int| 0 <= i < b.len() && b[i] == e;
        assert((a + b)[a.len() + i] == e);
    }
    if (a + b).contains(e) {
        let i = choose|i: int| 0 <= i < (a + b).len() && (a + b)[i] == e;
        if i < a.len() {
            assert(a[i] == e);
        } else {
            assert(b[i - a.len()] == e);
        }
    }
}

/// A cell's list holds exactly the emitted faces of that cell.
pub proof fn lemma_cell_faces_contains(
    data: Seq<BlockState>,
    n: int,
    cull: bool,
    x: int,
    y: int,
    z: int,
    f: Face,
)
    ensures
        cell_faces(data, n, cull, x, y, z).contains(f) <==> f.x == x && f.y == y && f.z == z
            && emitted(data, n, cull, f),
{
    let s1 = side_faces(data, n, cull, x, y, z, Side::Top);
    let s2 = side_faces(data, n, cull, x, y, z, Side::Bottom);
    let s3 = side_faces(data, n, cull, x, y, z, Side::Right);
    let s4 = side_faces(data, n, cull, x, y, z, Side::Left);
    let s5 = side_faces(data, n, cull, x, y, z, Side::Front);
    let s6 = side_faces(data, n, cull, x, y, z, Side::Back);
    lemma_concat_contains(s1, s2, f);
    lemma_concat_contains(s1 + s2, s3, f);
    lemma_concat_contains(s1 + s2 + s3, s4, f);
    lemma_concat_contains(s1 + s2 + s3 + s4, s5, f);
    lemma_concat_contains(s1 + s2 + s3 + s4 + s5, s6, f);
    lemma_side_faces_contains(data, n, cull, x, y, z, Side::Top, f);
    lemma_side_faces_contains(data, n, cull, x, y, z, Side::Bottom, f);
    lemma_side_faces_contains(data, n, cull, x, y, z, Side::Right, f);
    lemma_side_faces_contains(data, n, cull, x, y, z, Side::Left, f);
    lemma_side_faces_contains(data, n, cull, x, y, z, Side::Front, f);
    lemma_side_faces_contains(data, n, cull, x, y, z, Side::Back, f);
}

/// One side's list holds the face of that side where it is emitted.
pub proof fn lemma_side_faces_contains(
    data: Seq<BlockState>,
    n: int,
    cull: bool,
    x: int,
    y: int,
    z: int,
    side: Side,
    f: Face,
)
    ensures
        side_faces(data, n, cull, x, y, z, side).contains(f) <==> f == (Face { x, y, z, side })
            && emitted(data, n, cull, f),
{
    let g = Face { x, y, z, side };
    if emitted(data, n, cull, g) {
        assert(seq![g][0] == g);
    }
}

/// A column's list holds exactly the emitted faces of its cells.
pub proof fn lemma_column_faces_contains(
    data: Seq<BlockState>,
    n: int,
    cull: bool,
    x: int,
    y: int,
    zs: int,
    f: Face,
)
    ensures
        column_faces(data, n, cull, x, y, zs).contains(f) <==> f.x == x && f.y == y && 0 <= f.z
            < zs && emitted(data, n, cull, f),
    decreases zs,
{
    if zs > 0 {
        lemma_column_faces_contains(data, n, cull, x, y, zs - 1, f);
        lemma_cell_faces_contains(data, n, cull, x, y, zs - 1, f);
        lemma_concat_contains(
            column_faces(data, n, cull, x, y, zs - 1),
            cell_faces(data, n, cull, x, y, zs - 1),
            f,
        );
    }
}

/// A slice's list holds exactly the emitted faces of its cells.
pub proof fn lemma_slice_faces_contains(
    data: Seq<BlockState>,
    n: int,
    cull: bool,
    x: int,
    ys: int,
    f: Face,
)
    ensures
        slice_faces(data, n, cull, x, ys).contains(f) <==> f.x == x && 0 <= f.y < ys && 0 <= f.z
            < n && emitted(data, n, cull, f),
    decreases ys,
{
    if ys > 0 {
        lemma_slice_faces_contains(data, n, cull, x, ys - 1, f);
        lemma_column_faces_contains(data, n, cull, x, ys - 1, n, f);
        lemma_concat_contains(
            slice_faces(data, n, cull, x, ys - 1),
            column_faces(data, n, cull, x, ys - 1, n),
            f,
        );
    }
}

/// The grid's list holds exactly the emitted faces of its cells.
pub proof fn lemma_grid_faces_contains(data: Seq<BlockState>, n: int, cull: bool, xs: int, f: Face)
    ensures
        grid_faces(data, n, cull, xs).contains(f) <==> 0 <= f.x < xs && 0 <= f.y < n && 0 <= f.z
            < n && emitted(data, n, cull, f),
    decreases xs,
{
    if xs > 0 {
        lemma_grid_faces_contains(data, n, cull, xs - 1, f);
        lemma_slice_faces_contains(data, n, cull, xs - 1, n, f);
        lemma_concat_contains(
            grid_faces(data, n, cull, xs - 1),
            slice_faces(data, n, cull, xs - 1, n),
            f,
        );
    }
}

/// Which faces a mesh has: a face is in the mesh exactly when its cell
/// holds a block and, under culling, the cell across it is air or lies
/// outside the chunk.
pub proof fn lemma_mesh_faces_contains(data: Seq<BlockState>, n: int, cull: bool, f: Face)
    ensures
        mesh_faces(data, n, cull).contains(f) <==> in_bounds(f.x, f.y, f.z, n) && emitted(
            data,
            n,
            cull,
            f,
        ),
        mesh_faces(data, n, cull).contains(f) <==> solid(data, n, f.x, f.y, f.z) && (cull
            ==> exposed(data, n, f)),
{
    lemma_grid_faces_contains(data, n, cull, n, f);
}

/// Every face of a mesh has six vertices: the mesh is six times as long as
/// its list of faces.
pub proof fn lemma_expand_len(
    faces: Seq<Face>,
    data: Seq<BlockState>,
    n: int,
    atlas: Map<BlockState, UvRect>,
)
    ensures
        expand(faces, data, n, atlas).len() == 6 * faces.len(),
    decreases faces.len(),
{
    if faces.len() > 0 {
        lemma_expand_len(faces.drop_last(), data, n, atlas);
    }
}

/// The vertices of the `m`-th face of a list stand at `6 * m` in the
/// expanded list.
pub proof fn lemma_expand_face(
    faces: Seq<Face>,
    data: Seq<BlockState>,
    n: int,
    atlas: Map<BlockState, UvRect>,
    m: int,
)
    requires
        0 <= m < faces.len(),
    ensures
        6 * m + 6 <= expand(faces, data, n, atlas).len(),
        expand(faces, data, n, atlas).subrange(6 * m, 6 * m + 6) == face_quad(
            data,
            n,
            atlas,
            faces[m],
        ),
    decreases faces.len(),
{
    let all = expand(faces, data, n, atlas);
    let front = expand(faces.drop_last(), data, n, atlas);
    lemma_expand_len(faces, data, n, atlas);
    lemma_expand_len(faces.drop_last(), data, n, atlas);
    if m == faces.len() - 1 {
        assert(all.subrange(6 * m, 6 * m + 6) =~= face_quad(data, n, atlas, faces[m]));
    } else {
        lemma_expand_face(faces.drop_last(), data, n, atlas, m);
        assert(all.subrange(6 * m, 6 * m + 6) =~= front.subrange(6 * m, 6 * m + 6));
    }
}

/// A mesh is made of whole faces: its length is six times the number of
/// emitted faces.
pub proof fn lemma_mesh_len(
    data: Seq<BlockState>,
    n: int,
    atlas: Map<BlockState, UvRect>,
    cull: bool,
)
    ensures
        mesh(data, n, atlas, cull).len() == 6 * mesh_faces(data, n, cull).len(),
        mesh(data, n, atlas, cull).len() % 6 == 0,
{
    lemma_expand_len(mesh_faces(data, n, cull), data, n, atlas);
}

/// Meshing is a function of the blocks, the edge and the atlas: two meshes
/// of the same chunk with the same atlas have the same vertices in the same
/// order.
pub proof fn lemma_meshing_is_deterministic(
    first: Seq<Vertex>,
    second: Seq<Vertex>,
    data: Seq<BlockState>,
    n: int,
    atlas: Map<BlockState, UvRect>,
    cull: bool,
)
    requires
        first == mesh(data, n, atlas, cull),
        second == mesh(data, n, atlas, cull),
    ensures
        first.len() == second.len(),
        forall|i: int| 0 <= i < first.len() ==> first[i] == second[i],
        first == second,
{
}

/// Culling never shows a face between two blocks: where the cell across a
/// face holds a block, the culled mesh does not have that face.
pub proof fn lemma_no_face_between_blocks(data: Seq<BlockState>, n: int, f: Face)
    requires
        !exposed(data, n, f),
    ensures
        !mesh_faces(data, n, true).contains(f),
{
    lemma_mesh_faces_contains(data, n, true, f);
}

/// Of two blocks that stand one on the other, the culled mesh has neither
/// the top of the lower nor the bottom of the upper.
pub proof fn lemma_no_face_between_stacked_blocks(data: Seq<BlockState>, n: int, x: int, y: int, z: int)
    requires
        solid(data, n, x, y, z),
        solid(data, n, x, y + 1, z),
    ensures
        !mesh_faces(data, n, true).contains(Face { x, y, z, side: Side::Top }),
        !mesh_faces(data, n, true).contains(Face { x, y: y + 1, z, side: Side::Bottom }),
{
    lemma_no_face_between_blocks(data, n, Face { x, y, z, side: Side::Top });
    lemma_no_face_between_blocks(data, n, Face { x, y: y + 1, z, side: Side::Bottom });
}

/// Culling only leaves faces out: every face of the culled mesh is a face
/// of the simple mesh, and the simple mesh has all six faces of every block.
pub proof fn lemma_culled_faces_are_simple_faces(data: Seq<BlockState>, n: int, f: Face)
    ensures
        mesh_faces(data, n, true).contains(f) ==> mesh_faces(data, n, false).contains(f),
        mesh_faces(data, n, false).contains(f) <==> solid(data, n, f.x, f.y, f.z),
{
    lemma_mesh_faces_contains(data, n, true, f);
    lemma_mesh_faces_contains(data, n, false, f);
}

/// At the edge of the chunk every block shows its outward face: what lies
/// in the next chunk is not looked at.
pub proof fn lemma_border_faces_are_emitted(data: Seq<BlockState>, n: int, cull: bool, f: Face)
    requires
        solid(data, n, f.x, f.y, f.z),
        !in_bounds(
            f.x + f.side.normal().dx,
            f.y + f.side.normal().dy,
            f.z + f.side.normal().dz,
            n,
        ),
    ensures
        mesh_faces(data, n, cull).contains(f),
{
    lemma_mesh_faces_contains(data, n, cull, f);
}

/// A face of the mesh has its six vertices in the mesh, one after the
/// other.
pub proof fn lemma_face_in_mesh(
    data: Seq<BlockState>,
    n: int,
    atlas: Map<BlockState, UvRect>,
    cull: bool,
    f: Face,
) -> (m: int)
    requires
        mesh_faces(data, n, cull).contains(f),
    ensures
        0 <= m,
        6 * m + 6 <= mesh(data, n, atlas, cull).len(),
        mesh(data, n, atlas, cull).subrange(6 * m, 6 * m + 6) == face_quad(data, n, atlas, f),
{
    let faces = mesh_faces(data, n, cull);
    let m = choose|m: int| 0 <= m < faces.len() && faces[m] == f;
    lemma_expand_face(faces, data, n, atlas, m);
    m
}

/// Whether every cell but `(a, b, c)` is air.
pub open spec fn all_air_but(data: Seq<BlockState>, n: int, a: int, b: int, c: int) -> bool {
    forall|x: int, y: int, z: int|
        !(x == a && y == b && z == c) ==> !#[trigger] solid(data, n, x, y, z)
}

/// The faces of a chunk's only block, in the order of emission.
pub open spec fn six_faces(x: int, y: int, z: int) -> Seq<Face> {
    seq![
        Face { x, y, z, side: Side::Top },
        Face { x, y, z, side: Side::Bottom },
        Face { x, y, z, side: Side::Right },
        Face { x, y, z, side: Side::Left },
        Face { x, y, z, side: Side::Front },
        Face { x, y, z, side: Side::Back },
    ]
}

proof fn lemma_lone_column(
    data: Seq<BlockState>,
    n: int,
    cull: bool,
    a: int,
    b: int,
    c: int,
    x: int,
    y: int,
    zs: int,
)
    requires
        all_air_but(data, n, a, b, c),
    ensures
        column_faces(data, n, cull, x, y, zs) == if x == a && y == b && 0 <= c < zs {
            cell_faces(data, n, cull, a, b, c)
        } else {
            Seq::empty()
        },
    decreases zs,
{
    if zs > 0 {
        lemma_lone_column(data, n, cull, a, b, c, x, y, zs - 1);
        let before = column_faces(data, n, cull, x, y, zs - 1);
        let cell = cell_faces(data, n, cull, x, y, zs - 1);
        if !(x == a && y == b && zs - 1 == c) {
            assert(!solid(data, n, x, y, zs - 1));
            assert(cell == Seq::<Face>::empty());
            assert(before + cell == before);
        } else {
            assert(Seq::<Face>::empty() + cell == cell);
        }
    }
}

proof fn lemma_lone_slice(
    data: Seq<BlockState>,
    n: int,
    cull: bool,
    a: int,
    b: int,
    c: int,
    x: int,
    ys: int,
)
    requires
        all_air_but(data, n, a, b, c),
    ensures
        slice_faces(data, n, cull, x, ys) == if x == a && 0 <= b < ys && 0 <= c < n {
            cell_faces(data, n, cull, a, b, c)
        } else {
            Seq::empty()
        },
    decreases ys,
{
    if ys > 0 {
        lemma_lone_slice(data, n, cull, a, b, c, x, ys - 1);
        lemma_lone_column(data, n, cull, a, b, c, x, ys - 1, n);
        let before = slice_faces(data, n, cull, x, ys - 1);
        let column = column_faces(data, n, cull, x, ys - 1, n);
        assert(before + Seq::<Face>::empty() == before);
        assert(Seq::<Face>::empty() + column == column);
    }
}

proof fn lemma_lone_grid(
    data: Seq<BlockState>,
    n: int,
    cull: bool,
    a: int,
    b: int,
    c: int,
    xs: int,
)
    requires
        all_air_but(data, n, a, b, c),
    ensures
        grid_faces(data, n, cull, xs) == if 0 <= a < xs && 0 <= b < n && 0 <= c < n {
            cell_faces(data, n, cull, a, b, c)
        } else {
            Seq::empty()
        },
    decreases xs,
{
    if xs > 0 {
        lemma_lone_grid(data, n, cull, a, b, c, xs - 1);
        lemma_lone_slice(data, n, cull, a, b, c, xs - 1, n);
        let before = grid_faces(data, n, cull, xs - 1);
        let slice = slice_faces(data, n, cull, xs - 1, n);
        assert(before + Seq::<Face>::empty() == before);
        assert(Seq::<Face>::empty() + slice == slice);
    }
}

/// A chunk of air has an empty mesh, culled or not.
pub proof fn lemma_air_has_no_mesh(
    data: Seq<BlockState>,
    n: int,
    atlas: Map<BlockState, UvRect>,
    cull: bool,
)
    requires
        data.len() == volume(n),
        forall|i: int| 0 <= i < data.len() ==> data[i] == BlockState::AIR,
    ensures
        mesh_faces(data, n, cull) == Seq::<Face>::empty(),
        mesh(data, n, atlas, cull) == Seq::<Vertex>::empty(),
{
    assert forall|x: int, y: int, z: int| !#[trigger] solid(data, n, x, y, z) by {
        if in_bounds(x, y, z, n) {
            crate::grid::lemma_linear_index_in_range(x, y, z, n);
        }
    }
    lemma_lone_grid(data, n, cull, -1, -1, -1, n);
}

/// A chunk with a single block has that block's six faces and nothing
/// else, whether the block sits in a corner such as `(0, 0, 0)`, on an
/// edge or inside: each of its neighbours is air or outside the chunk.
pub proof fn lemma_single_block(
    data: Seq<BlockState>,
    n: int,
    atlas: Map<BlockState, UvRect>,
    cull: bool,
    a: int,
    b: int,
    c: int,
)
    requires
        in_bounds(a, b, c, n),
        solid(data, n, a, b, c),
        all_air_but(data, n, a, b, c),
    ensures
        mesh_faces(data, n, cull) == six_faces(a, b, c),
        mesh(data, n, atlas, cull).len() == 36,
{
    lemma_lone_grid(data, n, cull, a, b, c, n);
    assert(!solid(data, n, a, b + 1, c));
    assert(!solid(data, n, a, b - 1, c));
    assert(!solid(data, n, a, b, c + 1));
    assert(!solid(data, n, a, b, c - 1));
    assert(!solid(data, n, a + 1, b, c));
    assert(!solid(data, n, a - 1, b, c));
    assert(cell_faces(data, n, cull, a, b, c) =~= six_faces(a, b, c));
    lemma_mesh_len(data, n, atlas, cull);
}

/// Whether every cell of the chunk holds a block.
pub open spec fn full(data: Seq<BlockState>, n: int) -> bool {
    forall|x: int, y: int, z: int| in_bounds(x, y, z, n) ==> #[trigger] solid(data, n, x, y, z)
}

/// How many of the two ends of `0..n` the coordinate `c` is.
pub open spec fn ends(c: int, n: int) -> int {
    (if c == 0 {
        1int
    } else {
        0int
    }) + (if c == n - 1 {
        1int
    } else {
        0int
    })
}

proof fn lemma_full_cell_len(data: Seq<BlockState>, n: int, x: int, y: int, z: int)
    requires
        full(data, n),
        in_bounds(x, y, z, n),
    ensures
        cell_faces(data, n, true, x, y, z).len() == ends(x, n) + ends(y, n) + ends(z, n),
{
    assert(solid(data, n, x, y, z));
    assert(in_bounds(x, y + 1, z, n) ==> solid(data, n, x, y + 1, z));
    assert(in_bounds(x, y - 1, z, n) ==> solid(data, n, x, y - 1, z));
    assert(in_bounds(x, y, z + 1, n) ==> solid(data, n, x, y, z + 1));
    assert(in_bounds(x, y, z - 1, n) ==> solid(data, n, x, y, z - 1));
    assert(in_bounds(x + 1, y, z, n) ==> solid(data, n, x + 1, y, z));
    assert(in_bounds(x - 1, y, z, n) ==> solid(data, n, x - 1, y, z));
    assert(side_faces(data, n, true, x, y, z, Side::Top).len() == if y == n - 1 {
        1int
    } else {
        0int
    });
    assert(side_faces(data, n, true, x, y, z, Side::Bottom).len() == if y == 0 {
        1int
    } else {
        0int
    });
    assert(side_faces(data, n, true, x, y, z, Side::Right).len() == if z == n - 1 {
        1int
    } else {
        0int
    });
    assert(side_faces(data, n, true, x, y, z, Side::Left).len() == if z == 0 {
        1int
    } else {
        0int
    });
    assert(side_faces(data, n, true, x, y, z, Side::Front).len() == if x == n - 1 {
        1int
    } else {
        0int
    });
    assert(side_faces(data, n, true, x, y, z, Side::Back).len() == if x == 0 {
        1int
    } else {
        0int
    });
}

proof fn lemma_full_column_len(data: Seq<BlockState>, n: int, x: int, y: int, zs: int)
    requires
        full(data, n),
        0 <= x < n,
        0 <= y < n,
        0 <= zs <= n,
    ensures
        column_faces(data, n, true, x, y, zs).len() == zs * (ends(x, n) + ends(y, n)) + (if zs
            >= 1 {
            1int
        } else {
            0int
        }) + (if zs == n {
            1int
        } else {
            0int
        }),
    decreases zs,
{
    let s = ends(x, n) + ends(y, n);
    if zs > 0 {
        lemma_full_column_len(data, n, x, y, zs - 1);
        lemma_full_cell_len(data, n, x, y, zs - 1);
        assert((zs - 1) * s + s == zs * s) by (nonlinear_arith);
    } else {
        assert(0 * s == 0);
    }
}

proof fn lemma_full_slice_len(data: Seq<BlockState>, n: int, x: int, ys: int)
    requires
        full(data, n),
        0 <= x < n,
        0 <= ys <= n,
    ensures
        slice_faces(data, n, true, x, ys).len() == ys * (n * ends(x, n) + 2) + n * ((if ys >= 1 {
            1int
        } else {
            0int
        }) + (if ys == n {
            1int
        } else {
            0int
        })),
    decreases ys,
{
    let bx = ends(x, n);
    if ys > 0 {
        lemma_full_slice_len(data, n, x, ys - 1);
        lemma_full_column_len(data, n, x, ys - 1, n);
        let by = ends(ys - 1, n);
        assert(n * (bx + by) == n * bx + n * by) by (nonlinear_arith);
        assert((ys - 1) * (n * bx + 2) + (n * bx + 2) == ys * (n * bx + 2)) by (nonlinear_arith);
        assert(n * 0 == 0 && n * 1 == n && n * 2 == n + n);
    } else {
        assert(0 * (n * bx + 2) == 0);
        assert(n * 0 == 0 && n * 1 == n);
    }
}

proof fn lemma_full_grid_len(data: Seq<BlockState>, n: int, xs: int)
    requires
        full(data, n),
        0 <= xs <= n,
    ensures
        grid_faces(data, n, true, xs).len() == xs * (4 * n) + n * n * ((if xs >= 1 {
            1int
        } else {
            0int
        }) + (if xs == n {
            1int
        } else {
            0int
        })),
    decreases xs,
{
    if xs > 0 {
        lemma_full_grid_len(data, n, xs - 1);
        lemma_full_slice_len(data, n, xs - 1, n);
        let bx = ends(xs - 1, n);
        assert(n * (n * bx + 2) + n * 2 == n * n * bx + 4 * n) by (nonlinear_arith);
        assert((xs - 1) * (4 * n) + 4 * n == xs * (4 * n)) by (nonlinear_arith);
        assert(n * n * 0 == 0 && n * n * 1 == n * n && n * n * 2 == n * n + n * n);
    } else {
        assert(0 * (4 * n) == 0);
        assert(n * n * 0 == 0 && n * n * 1 == n * n);
    }
}

/// A chunk that is full of blocks shows its hull and nothing inside: the
/// culled mesh has a face exactly where the cell across it lies outside the
/// chunk, which makes `6 * n * n` faces and six vertices for each.
pub proof fn lemma_full_chunk_shows_its_hull(
    data: Seq<BlockState>,
    n: int,
    atlas: Map<BlockState, UvRect>,
)
    requires
        0 <= n,
        full(data, n),
    ensures
        forall|f: Face| #[trigger]
            mesh_faces(data, n, true).contains(f) <==> in_bounds(f.x, f.y, f.z, n) && !in_bounds(
                f.x + f.side.normal().dx,
                f.y + f.side.normal().dy,
                f.z + f.side.normal().dz,
                n,
            ),
        mesh_faces(data, n, true).len() == 6 * n * n,
        culled_mesh(data, n, atlas).len() == 6 * n * n * 6,
{
    assert forall|f: Face| #[trigger]
        mesh_faces(data, n, true).contains(f) <==> in_bounds(f.x, f.y, f.z, n) && !in_bounds(
            f.x + f.side.normal().dx,
            f.y + f.side.normal().dy,
            f.z + f.side.normal().dz,
            n,
        ) by {
        lemma_mesh_faces_contains(data, n, true, f);
        let d = f.side.normal();
        if in_bounds(f.x, f.y, f.z, n) {
            assert(solid(data, n, f.x, f.y, f.z));
        }
        if in_bounds(f.x + d.dx, f.y + d.dy, f.z + d.dz, n) {
            assert(solid(data, n, f.x + d.dx, f.y + d.dy, f.z + d.dz));
        }
    }
    lemma_full_grid_len(data, n, n);
    lemma_mesh_len(data, n, atlas, true);
    if n == 0 {
        assert(0 * (4 * n) == 0);
    } else {
        assert(n * (4 * n) + n * n * 2 == 6 * n * n) by (nonlinear_arith);
    }
    assert(6 * (6 * n * n) == 6 * n * n * 6) by (nonlinear_arith);
}

/// A fresh chunk shows the top of its slab everywhere: for every x and z
/// the culled mesh has the upward face of the slab's highest layer.
pub proof fn lemma_slab_top_is_shown(world: WorldType, n: int, x: int, z: int)
    requires
        0 <= x < n,
        0 <= z < n,
        slab_height(world, n) >= 1,
    ensures
        mesh_faces(generated(world, n), n, true).contains(
            Face { x, y: slab_height(world, n) - 1, z, side: Side::Top },
        ),
{
    let h = slab_height(world, n);
    let data = generated(world, n);
    let f = Face { x, y: h - 1, z, side: Side::Top };
    lemma_generated_block(world, n, x, h - 1, z);
    if h < n {
        lemma_generated_block(world, n, x, h, z);
    }
    lemma_mesh_faces_contains(data, n, true, f);
}

/// Inside the slab of a fresh chunk no face is shown between two layers:
/// the culled mesh has neither the top of a block below the highest layer
/// nor the bottom of the block above it.
pub proof fn lemma_slab_layers_are_joined(world: WorldType, n: int, x: int, y: int, z: int)
    requires
        0 <= x < n,
        0 <= z < n,
        0 <= y < slab_height(world, n) - 1,
    ensures
        !mesh_faces(generated(world, n), n, true).contains(Face { x, y, z, side: Side::Top }),
        !mesh_faces(generated(world, n), n, true).contains(
            Face { x, y: y + 1, z, side: Side::Bottom },
        ),
{
    lemma_generated_block(world, n, x, y, z);
    lemma_generated_block(world, n, x, y + 1, z);
    lemma_no_face_between_stacked_blocks(generated(world, n), n, x, y, z);
}

/// The chunk of the default world, edge 32 with blocks below y = 16: the
/// culled mesh has the upward face of every block of layer 15, and between
/// two layers of the slab it has no face.
pub proof fn lemma_default_chunk_slab(x: int, y: int, z: int)
    requires
        0 <= x < 32,
        0 <= z < 32,
        0 <= y < 15,
    ensures
        mesh_faces(generated(WorldType::Flat, 32), 32, true).contains(
            Face { x, y: 15, z, side: Side::Top },
        ),
        !mesh_faces(generated(WorldType::Flat, 32), 32, true).contains(
            Face { x, y, z, side: Side::Top },
        ),
        !mesh_faces(generated(WorldType::Flat, 32), 32, true).contains(
            Face { x, y: y + 1, z, side: Side::Bottom },
        ),
{
    lemma_slab_top_is_shown(WorldType::Flat, 32, x, z);
    lemma_slab_layers_are_joined(WorldType::Flat, 32, x, y, z);
}

} // verus!
