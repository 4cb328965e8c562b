//! The chunk renderer: one atlas and the meshes of the chunks that were
//! added to it.

use vstd::prelude::*;
use crate::atlas::Atlas;
use crate::chunk::Chunk;
use crate::mesh::{mesh_commands, ChunkMesh, RenderCommand};
use crate::mesher::culled_mesh;

verus! {

/// The commands that draw the first `count` of the meshes, each under the
/// handle that is its place in the list.
pub open spec fn mesh_draws(meshes: Seq<ChunkMesh>, count: int) -> Seq<RenderCommand>
    decreases count,
{
    if count <= 0 {
        Seq::empty()
    } else {
        mesh_draws(meshes, count - 1) + mesh_commands((count - 1) as usize, meshes[count - 1]@.len())
    }
}

/// The commands of one frame: the atlas is bound once, at bind group 0,
/// and then every mesh is drawn, in the order in which the chunks came.
pub open spec fn frame_commands(meshes: Seq<ChunkMesh>) -> Seq<RenderCommand> {
    seq![RenderCommand::BindAtlas { index: 0 }] + mesh_draws(meshes, meshes.len() as int)
}

/// The commands that draw `count` meshes are two for each mesh: the `k`-th
/// mesh has its buffer bound at the place `2 * k` and is drawn at the next.
pub proof fn lemma_mesh_draws(meshes: Seq<ChunkMesh>, count: int, k: int)
    requires
        0 <= k < count <= usize::MAX,
    ensures
        mesh_draws(meshes, count).len() == 2 * count,
        mesh_draws(meshes, count)[2 * k] == (RenderCommand::SetVertexBuffer {
            slot: 0,
            buffer: k as usize,
        }),
        mesh_draws(meshes, count)[2 * k + 1] == (RenderCommand::Draw {
            vertices: meshes[k]@.len() as u32,
            instances: 1,
        }),
    decreases count,
{
    lemma_mesh_draws_len(meshes, count);
    lemma_mesh_draws_len(meshes, count - 1);
    if k < count - 1 {
        lemma_mesh_draws(meshes, count - 1, k);
    }
}

proof fn lemma_mesh_draws_len(meshes: Seq<ChunkMesh>, count: int)
    requires
        0 <= count,
    ensures
        mesh_draws(meshes, count).len() == 2 * count,
    decreases count,
{
    if count > 0 {
        lemma_mesh_draws_len(meshes, count - 1);
    }
}

/// In a frame the atlas is bound once, and before anything is drawn: the
/// first command binds it and no other command does. After it come the
/// draws of the meshes, each with all its vertices and one instance.
pub proof fn lemma_atlas_is_bound_once(meshes: Seq<ChunkMesh>, i: int)
    requires
        meshes.len() <= usize::MAX,
        0 <= i < 1 + 2 * meshes.len(),
    ensures
        frame_commands(meshes).len() == 1 + 2 * meshes.len(),
        frame_commands(meshes)[0] == (RenderCommand::BindAtlas { index: 0 }),
        (frame_commands(meshes)[i] is BindAtlas) <==> i == 0,
        i > 0 && i % 2 == 1 ==> frame_commands(meshes)[i] == (RenderCommand::SetVertexBuffer {
            slot: 0,
            buffer: ((i - 1) / 2) as usize,
        }),
        i > 0 && i % 2 == 0 ==> frame_commands(meshes)[i] == (RenderCommand::Draw {
            vertices: meshes[(i - 2) / 2]@.len() as u32,
            instances: 1,
        }),
{
    let count = meshes.len() as int;
    lemma_mesh_draws_len(meshes, count);
    if i > 0 {
        let k = (i - 1) / 2;
        lemma_mesh_draws(meshes, count, k);
        assert(frame_commands(meshes)[i] == mesh_draws(meshes, count)[i - 1]);
    }
}

/// Holds the atlas that all chunks share and one mesh for each chunk.
pub struct ChunkRenderer {
    pub texture_atlas: Atlas,
    pub chunk_meshes: Vec<ChunkMesh>,
    /// The edge length that every chunk of this renderer has.
    pub edge: usize,
}

impl ChunkRenderer {
    /// A renderer without chunks, for a world whose chunks have edge `edge`.
    pub fn new(texture_atlas: Atlas, edge: usize) -> (renderer: ChunkRenderer)
        ensures
            renderer.texture_atlas == texture_atlas,
            renderer.chunk_meshes@ == Seq::<ChunkMesh>::empty(),
            renderer.edge == edge,
    {
        ChunkRenderer { texture_atlas, chunk_meshes: Vec::new(), edge }
    }

    /// Meshes `chunk` as it is now and keeps the mesh after those that are
    /// there. A chunk added twice has two meshes.
    ///
    /// The chunk's edge must be the renderer's.
    pub fn add(&mut self, chunk: &Chunk)
        requires
            chunk.wf(),
            chunk.edge_spec() == old(self).edge,
        ensures
            final(self).edge == old(self).edge,
            final(self).texture_atlas == old(self).texture_atlas,
            final(self).chunk_meshes@.len() == old(self).chunk_meshes@.len() + 1,
            final(self).chunk_meshes@.drop_last() == old(self).chunk_meshes@,
            final(self).chunk_meshes@.last()@ == culled_mesh(
                chunk@,
                chunk.edge_spec() as int,
                old(self).texture_atlas@,
            ),
    {
        proof {
            chunk.lemma_len();
        }
        let mesh = ChunkMesh::new(chunk.blocks(), chunk.edge(), &self.texture_atlas);
        self.chunk_meshes.push(mesh);
        assert(self.chunk_meshes@.drop_last() == old(self).chunk_meshes@);
    }

    /// Records one frame: the atlas binding, then a draw for each mesh.
    /// The meshes themselves are left as they are.
    pub fn draw(&self, render_pass: &mut Vec<RenderCommand>)
        ensures
            final(render_pass)@ == old(render_pass)@ + frame_commands(self.chunk_meshes@),
    {
        render_pass.push(RenderCommand::BindAtlas { index: 0 });
        let ghost bound = render_pass@;
        let mut i: usize = 0;
        while i < self.chunk_meshes.len()
            invariant
                i <= self.chunk_meshes.len(),
                bound == old(render_pass)@.push(RenderCommand::BindAtlas { index: 0 }),
                render_pass@ == bound + mesh_draws(self.chunk_meshes@, i as int),
            decreases self.chunk_meshes.len() - i,
        {
            self.chunk_meshes[i].draw(i, render_pass);
            i += 1;
        }
        assert(render_pass@ == old(render_pass)@ + frame_commands(self.chunk_meshes@));
    }
}

} // verus!
