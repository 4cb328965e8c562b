//! Meshing: from a chunk's block array to the vertices of its faces.
//!
//! The cells are visited with x outermost and z innermost; each cell's
//! place in the array is the one the grid gives it. For a cell that is not
//! air the sides are taken in the order top, bottom, right, left, front,
//! back. The culled mesher emits a side where the neighbouring cell is air
//! or lies outside the chunk; the simple mesher emits all six.

use vstd::prelude::*;
use crate::atlas::Atlas;
use crate::block::BlockState;
use crate::geometry::{block_face, face_vertices, push_all, Side, UvRect, Vertex};
use crate::grid::{in_bounds, index, index_unchecked, lemma_edge_fits, linear_index, volume};

verus! {

/// One side of one cell.
pub struct Face {
    pub x: int,
    pub y: int,
    pub z: int,
    pub side: Side,
}

/// The block at `(x, y, z)`, with air all around the chunk.
pub open spec fn block_at(data: Seq<BlockState>, n: int, x: int, y: int, z: int) -> BlockState {
    if in_bounds(x, y, z, n) {
        data[linear_index(x, y, z, n)]
    } else {
        BlockState::AIR
    }
}

/// Whether the cell `(x, y, z)` holds a block.
pub open spec fn solid(data: Seq<BlockState>, n: int, x: int, y: int, z: int) -> bool {
    block_at(data, n, x, y, z) != BlockState::AIR
}

/// Whether the cell across the face is empty or outside the chunk.
pub open spec fn exposed(data: Seq<BlockState>, n: int, f: Face) -> bool {
    let d = f.side.normal();
    block_at(data, n, f.x + d.dx, f.y + d.dy, f.z + d.dz) == BlockState::AIR
}

/// Whether the mesher emits the face `f`: its cell holds a block and, when
/// culling, nothing solid lies across it.
pub open spec fn emitted(data: Seq<BlockState>, n: int, cull: bool, f: Face) -> bool {
    solid(data, n, f.x, f.y, f.z) && (cull ==> exposed(data, n, f))
}

/// The face of cell `(x, y, z)` on `side` where the mesher emits it, and
/// nothing where it does not.
pub open spec fn side_faces(
    data: Seq<BlockState>,
    n: int,
    cull: bool,
    x: int,
    y: int,
    z: int,
    side: Side,
) -> Seq<Face> {
    let f = Face { x, y, z, side };
    if emitted(data, n, cull, f) {
        seq![f]
    } else {
        Seq::empty()
    }
}

/// The emitted faces of cell `(x, y, z)`: top, bottom, right, left, front,
/// back.
pub open spec fn cell_faces(data: Seq<BlockState>, n: int, cull: bool, x: int, y: int, z: int) -> Seq<
    Face,
> {
    side_faces(data, n, cull, x, y, z, Side::Top) + side_faces(data, n, cull, x, y, z, Side::Bottom)
        + side_faces(data, n, cull, x, y, z, Side::Right) + side_faces(
        data,
        n,
        cull,
        x,
        y,
        z,
        Side::Left,
    ) + side_faces(data, n, cull, x, y, z, Side::Front) + side_faces(
        data,
        n,
        cull,
        x,
        y,
        z,
        Side::Back,
    )
}

/// The emitted faces of the cells `(x, y, 0..zs)`.
pub open spec fn column_faces(
    data: Seq<BlockState>,
    n: int,
    cull: bool,
    x: int,
    y: int,
    zs: int,
) -> Seq<Face>
    decreases zs,
{
    if zs <= 0 {
        Seq::empty()
    } else {
        column_faces(data, n, cull, x, y, zs - 1) + cell_faces(data, n, cull, x, y, zs - 1)
    }
}

/// The emitted faces of the columns `(x, 0..ys)`.
pub open spec fn slice_faces(data: Seq<BlockState>, n: int, cull: bool, x: int, ys: int) -> Seq<
    Face,
>
    decreases ys,
{
    if ys <= 0 {
        Seq::empty()
    } else {
        slice_faces(data, n, cull, x, ys - 1) + column_faces(data, n, cull, x, ys - 1, n)
    }
}

/// The emitted faces of the slices `0..xs`.
pub open spec fn grid_faces(data: Seq<BlockState>, n: int, cull: bool, xs: int) -> Seq<Face>
    decreases xs,
{
    if xs <= 0 {
        Seq::empty()
    } else {
        grid_faces(data, n, cull, xs - 1) + slice_faces(data, n, cull, xs - 1, n)
    }
}

/// Every face that the mesher emits for the chunk, in the order in which it
/// emits them.
pub open spec fn mesh_faces(data: Seq<BlockState>, n: int, cull: bool) -> Seq<Face> {
    grid_faces(data, n, cull, n)
}

/// The six vertices of `f`, textured with the rectangle of its cell's block.
pub open spec fn face_quad(
    data: Seq<BlockState>,
    n: int,
    atlas: Map<BlockState, UvRect>,
    f: Face,
) -> Seq<Vertex> {
    face_vertices(f.side, f.x, f.y, f.z, atlas[block_at(data, n, f.x, f.y, f.z)])
}

/// The vertices of a list of faces, face after face.
pub open spec fn expand(
    faces: Seq<Face>,
    data: Seq<BlockState>,
    n: int,
    atlas: Map<BlockState, UvRect>,
) -> Seq<Vertex>
    decreases faces.len(),
{
    if faces.len() == 0 {
        Seq::empty()
    } else {
        expand(faces.drop_last(), data, n, atlas) + face_quad(data, n, atlas, faces.last())
    }
}

/// The mesh of a chunk: the vertices of its emitted faces.
pub open spec fn mesh(data: Seq<BlockState>, n: int, atlas: Map<BlockState, UvRect>, cull: bool) -> Seq<
    Vertex,
> {
    expand(mesh_faces(data, n, cull), data, n, atlas)
}

/// The mesh with all six faces of every block.
pub open spec fn simple_mesh(data: Seq<BlockState>, n: int, atlas: Map<BlockState, UvRect>) -> Seq<
    Vertex,
> {
    mesh(data, n, atlas, false)
}

/// The mesh with only the faces that border air or the chunk's edge.
pub open spec fn culled_mesh(data: Seq<BlockState>, n: int, atlas: Map<BlockState, UvRect>) -> Seq<
    Vertex,
> {
    mesh(data, n, atlas, true)
}

/// Adding one face to a list adds its six vertices to the end.
pub proof fn lemma_expand_push(
    faces: Seq<Face>,
    f: Face,
    data: Seq<BlockState>,
    n: int,
    atlas: Map<BlockState, UvRect>,
)
    ensures
        expand(faces.push(f), data, n, atlas) == expand(faces, data, n, atlas) + face_quad(
            data,
            n,
            atlas,
            f,
        ),
{
    assert(faces.push(f).drop_last() == faces);
}

/// The block at `(x, y, z)` of a chunk of edge `edge`, and air for
/// coordinates outside it.
pub fn block_in(data: &[BlockState], edge: usize, x: isize, y: isize, z: isize) -> (block:
    BlockState)
    requires
        data.len() == volume(edge as int),
    ensures
        block == block_at(data@, edge as int, x as int, y as int, z as int),
{
    match index(x, y, z, edge) {
        Some(v) => data[v],
        None => BlockState::AIR,
    }
}

/// Appends the two triangles of one side of cell `(i, j, k)`.
fn push_face(vertices: &mut Vec<Vertex>, side: Side, i: isize, j: isize, k: isize, uv: UvRect)
    requires
        i < isize::MAX,
        j < isize::MAX,
        k < isize::MAX,
    ensures
        final(vertices)@ == old(vertices)@ + face_vertices(side, i as int, j as int, k as int, uv),
{
    push_all(vertices, block_face(side, i, j, k, uv));
}

/// The vertices of two lists of faces, one after the other, are those of
/// the joined list.
pub proof fn lemma_expand_concat(
    a: Seq<Face>,
    b: Seq<Face>,
    data: Seq<BlockState>,
    n: int,
    atlas: Map<BlockState, UvRect>,
)
    ensures
        expand(a + b, data, n, atlas) == expand(a, data, n, atlas) + expand(b, data, n, atlas),
    decreases b.len(),
{
    if b.len() == 0 {
        assert(a + b == a);
    } else {
        lemma_expand_concat(a, b.drop_last(), data, n, atlas);
        assert((a + b).drop_last() == a + b.drop_last());
        assert((a + b).last() == b.last());
    }
}

/// Emits one side of the block in cell `(i, j, k)` unless it is culled.
fn mesh_side(
    vertices: &mut Vec<Vertex>,
    data: &[BlockState],
    edge: usize,
    texture_atlas: &Atlas,
    cull: bool,
    side: Side,
    i: usize,
    j: usize,
    k: usize,
    uv: UvRect,
)
    requires
        data.len() == volume(edge as int),
        in_bounds(i as int, j as int, k as int, edge as int),
        solid(data@, edge as int, i as int, j as int, k as int),
        uv == texture_atlas@[block_at(data@, edge as int, i as int, j as int, k as int)],
    ensures
        final(vertices)@ == old(vertices)@ + expand(
            side_faces(data@, edge as int, cull, i as int, j as int, k as int, side),
            data@,
            edge as int,
            texture_atlas@,
        ),
{
    let ghost n = edge as int;
    let ghost f = Face { x: i as int, y: j as int, z: k as int, side };
    proof {
        lemma_edge_fits(n);
    }
    let (si, sj, sk) = (i as isize, j as isize, k as isize);
    let (ni, nj, nk) = match side {
        Side::Top => (si, sj + 1, sk),
        Side::Bottom => (si, sj - 1, sk),
        Side::Right => (si, sj, sk + 1),
        Side::Left => (si, sj, sk - 1),
        Side::Front => (si + 1, sj, sk),
        Side::Back => (si - 1, sj, sk),
    };
    if !cull || block_in(data, edge, ni, nj, nk) == BlockState::AIR {
        push_face(vertices, side, si, sj, sk, uv);
        proof {
            lemma_expand_push(Seq::empty(), f, data@, n, texture_atlas@);
            assert(Seq::<Face>::empty().push(f) == seq![f]);
            assert(expand(Seq::empty(), data@, n, texture_atlas@) == Seq::<Vertex>::empty());
            assert(expand(seq![f], data@, n, texture_atlas@) == face_quad(
                data@,
                n,
                texture_atlas@,
                f,
            ));
        }
    } else {
        assert(vertices@ == old(vertices)@ + Seq::<Vertex>::empty());
    }
}

/// Emits the faces of cell `(i, j, k)`.
fn mesh_cell(
    vertices: &mut Vec<Vertex>,
    data: &[BlockState],
    edge: usize,
    texture_atlas: &Atlas,
    cull: bool,
    i: usize,
    j: usize,
    k: usize,
)
    requires
        data.len() == volume(edge as int),
        in_bounds(i as int, j as int, k as int, edge as int),
    ensures
        final(vertices)@ == old(vertices)@ + expand(
            cell_faces(data@, edge as int, cull, i as int, j as int, k as int),
            data@,
            edge as int,
            texture_atlas@,
        ),
{
    let ghost n = edge as int;
    let ghost atlas = texture_atlas@;
    let ghost (x, y, z) = (i as int, j as int, k as int);
    let block_state = data[index_unchecked(i, j, k, edge)];
    if block_state == BlockState::AIR {
        assert(cell_faces(data@, n, cull, x, y, z) == Seq::<Face>::empty());
        assert(vertices@ == old(vertices)@ + Seq::<Vertex>::empty());
        return ;
    }
    let uv = texture_atlas.uv(&block_state);
    mesh_side(vertices, data, edge, texture_atlas, cull, Side::Top, i, j, k, uv);
    mesh_side(vertices, data, edge, texture_atlas, cull, Side::Bottom, i, j, k, uv);
    mesh_side(vertices, data, edge, texture_atlas, cull, Side::Right, i, j, k, uv);
    mesh_side(vertices, data, edge, texture_atlas, cull, Side::Left, i, j, k, uv);
    mesh_side(vertices, data, edge, texture_atlas, cull, Side::Front, i, j, k, uv);
    mesh_side(vertices, data, edge, texture_atlas, cull, Side::Back, i, j, k, uv);
    proof {
        let s1 = side_faces(data@, n, cull, x, y, z, Side::Top);
        let s2 = side_faces(data@, n, cull, x, y, z, Side::Bottom);
        let s3 = side_faces(data@, n, cull, x, y, z, Side::Right);
        let s4 = side_faces(data@, n, cull, x, y, z, Side::Left);
        let s5 = side_faces(data@, n, cull, x, y, z, Side::Front);
        let s6 = side_faces(data@, n, cull, x, y, z, Side::Back);
        lemma_expand_concat(s1, s2, data@, n, atlas);
        lemma_expand_concat(s1 + s2, s3, data@, n, atlas);
        lemma_expand_concat(s1 + s2 + s3, s4, data@, n, atlas);
        lemma_expand_concat(s1 + s2 + s3 + s4, s5, data@, n, atlas);
        lemma_expand_concat(s1 + s2 + s3 + s4 + s5, s6, data@, n, atlas);
        assert(vertices@ == old(vertices)@ + (expand(s1, data@, n, atlas) + expand(
            s2,
            data@,
            n,
            atlas,
        ) + expand(s3, data@, n, atlas) + expand(s4, data@, n, atlas) + expand(s5, data@, n, atlas)
            + expand(s6, data@, n, atlas)));
    }
}

/// Walks the grid and emits the faces of every cell.
fn build(data: &[BlockState], edge: usize, texture_atlas: &Atlas, cull: bool) -> (vertices: Vec<
    Vertex,
>)
    requires
        data.len() == volume(edge as int),
    ensures
        vertices@ == mesh(data@, edge as int, texture_atlas@, cull),
{
    let ghost n = edge as int;
    let ghost atlas = texture_atlas@;
    let mut vertices: Vec<Vertex> = Vec::new();
    let mut i: usize = 0;
    while i < edge
        invariant
            i <= edge,
            n == edge as int,
            atlas == texture_atlas@,
            data.len() == volume(n),
            vertices@ == expand(grid_faces(data@, n, cull, i as int), data@, n, atlas),
        decreases edge - i,
    {
        let ghost before_slice = vertices@;
        let mut j: usize = 0;
        while j < edge
            invariant
                i < edge,
                j <= edge,
                n == edge as int,
                atlas == texture_atlas@,
                data.len() == volume(n),
                vertices@ == before_slice + expand(
                    slice_faces(data@, n, cull, i as int, j as int),
                    data@,
                    n,
                    atlas,
                ),
            decreases edge - j,
        {
            let ghost before_column = vertices@;
            let mut k: usize = 0;
            while k < edge
                invariant
                    i < edge,
                    j < edge,
                    k <= edge,
                    n == edge as int,
                    atlas == texture_atlas@,
                    data.len() == volume(n),
                    vertices@ == before_column + expand(
                        column_faces(data@, n, cull, i as int, j as int, k as int),
                        data@,
                        n,
                        atlas,
                    ),
                decreases edge - k,
            {
                mesh_cell(&mut vertices, data, edge, texture_atlas, cull, i, j, k);
                proof {
                    lemma_expand_concat(
                        column_faces(data@, n, cull, i as int, j as int, k as int),
                        cell_faces(data@, n, cull, i as int, j as int, k as int),
                        data@,
                        n,
                        atlas,
                    );
                }
                k += 1;
            }
            proof {
                lemma_expand_concat(
                    slice_faces(data@, n, cull, i as int, j as int),
                    column_faces(data@, n, cull, i as int, j as int, n),
                    data@,
                    n,
                    atlas,
                );
            }
            j += 1;
        }
        proof {
            lemma_expand_concat(
                grid_faces(data@, n, cull, i as int),
                slice_faces(data@, n, cull, i as int, n),
                data@,
                n,
                atlas,
            );
        }
        i += 1;
    }
    vertices
}

/// Meshes a chunk with all six faces of every block, hidden or not.
///
/// `data` holds the blocks of a cube of edge `edge`.
pub fn simple(data: &[BlockState], edge: usize, texture_atlas: &Atlas) -> (vertices: Vec<Vertex>)
    requires
        data.len() == volume(edge as int),
    ensures
        vertices@ == simple_mesh(data@, edge as int, texture_atlas@),
{
    build(data, edge, texture_atlas, false)
}

/// Meshes a chunk with the faces that can be seen from outside a block: a
/// face is left out where the cell across it holds a block, and kept where
/// that cell is air or lies outside the chunk.
///
/// `data` holds the blocks of a cube of edge `edge`.
pub fn culled(data: &[BlockState], edge: usize, texture_atlas: &Atlas) -> (vertices: Vec<Vertex>)
    requires
        data.len() == volume(edge as int),
    ensures
        vertices@ == culled_mesh(data@, edge as int, texture_atlas@),
{
    build(data, edge, texture_atlas, true)
}

} // verus!
