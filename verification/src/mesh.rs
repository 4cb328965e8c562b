//! Meshes: vertex lists and the draw commands that show them.
//!
//! Drawing is recorded, not performed: a draw appends commands to a list,
//! and whoever owns the graphics device replays them. A mesh is known to
//! that owner by the handle under which it keeps the mesh's vertex buffer.

use vstd::prelude::*;
use crate::atlas::Atlas;
use crate::block::BlockState;
use crate::geometry::Vertex;
use crate::grid::volume;
use crate::mesher::{culled, culled_mesh};
use crate::net::Position;

verus! {

/// One step of a render pass.
#[derive(Debug, Clone, Copy, PartialEq, Eq, Structural)]
pub enum RenderCommand {
    /// Bind the texture atlas at bind group `index`.
    BindAtlas { index: u32 },
    /// Bind the vertex buffer kept under the handle `buffer` at `slot`.
    SetVertexBuffer { slot: u32, buffer: usize },
    /// Draw the first `vertices` vertices of the bound buffer, `instances`
    /// times.
    Draw { vertices: u32, instances: u32 },
}

/// The commands that draw a mesh of `len` vertices whose buffer is kept
/// under `buffer`: bind it at slot 0, then draw all of it once. The count
/// is cut to 32 bits, as the draw call takes it.
pub open spec fn mesh_commands(buffer: usize, len: nat) -> Seq<RenderCommand> {
    seq![
        RenderCommand::SetVertexBuffer { slot: 0, buffer },
        RenderCommand::Draw { vertices: len as u32, instances: 1 },
    ]
}

/// An ordered list of vertices, three to a triangle.
pub struct Mesh {
    pub vertices: Vec<Vertex>,
}

impl View for Mesh {
    type V = Seq<Vertex>;

    open spec fn view(&self) -> Seq<Vertex> {
        self.vertices@
    }
}

impl Mesh {
    /// A mesh of the given vertices.
    pub fn new(vertices: Vec<Vertex>) -> (mesh: Mesh)
        ensures
            mesh@ == vertices@,
    {
        Mesh { vertices }
    }

    /// Records the drawing of this mesh, whose vertex buffer is kept under
    /// `buffer`.
    pub fn draw(&self, buffer: usize, render_pass: &mut Vec<RenderCommand>)
        ensures
            final(render_pass)@ == old(render_pass)@ + mesh_commands(buffer, self@.len()),
    {
        let count = #[verifier::truncate]
        (self.vertices.len() as u32);
        render_pass.push(RenderCommand::SetVertexBuffer { slot: 0, buffer });
        render_pass.push(RenderCommand::Draw { vertices: count, instances: 1 });
        assert(render_pass@ == old(render_pass)@ + mesh_commands(buffer, self@.len()));
    }
}

/// The mesh of one chunk.
pub struct ChunkMesh {
    mesh: Mesh,
}

impl View for ChunkMesh {
    type V = Seq<Vertex>;

    closed spec fn view(&self) -> Seq<Vertex> {
        self.mesh@
    }
}

impl ChunkMesh {
    /// Meshes the blocks of a chunk of edge `edge`, culling hidden faces.
    pub fn new(blocks: &[BlockState], edge: usize, texture_atlas: &Atlas) -> (mesh: ChunkMesh)
        requires
            blocks.len() == volume(edge as int),
        ensures
            mesh@ == culled_mesh(blocks@, edge as int, texture_atlas@),
    {
        let vertices = culled(blocks, edge, texture_atlas);
        ChunkMesh { mesh: Mesh::new(vertices) }
    }

    /// Replaces the mesh by that of the given blocks. Nothing of the old
    /// mesh remains.
    pub fn rebuild(&mut self, blocks: &[BlockState], edge: usize, texture_atlas: &Atlas)
        requires
            blocks.len() == volume(edge as int),
        ensures
            final(self)@ == culled_mesh(blocks@, edge as int, texture_atlas@),
    {
        self.mesh.vertices = culled(blocks, edge, texture_atlas);
    }

    /// The vertices, in the order in which they are drawn.
    pub fn vertices(&self) -> (vertices: &Vec<Vertex>)
        ensures
            vertices@ == self@,
    {
        &self.mesh.vertices
    }

    /// Records the drawing of this mesh, whose vertex buffer is kept under
    /// `buffer`.
    pub fn draw(&self, buffer: usize, render_pass: &mut Vec<RenderCommand>)
        ensures
            final(render_pass)@ == old(render_pass)@ + mesh_commands(buffer, self@.len()),
    {
        self.mesh.draw(buffer, render_pass);
    }
}

/// A rotation, by the bit patterns of the four components of a quaternion:
/// the scalar part and the vector part.
#[derive(Debug, Clone, Copy, PartialEq, Eq, Structural)]
pub struct Rotation {
    pub s: u32,
    pub x: u32,
    pub y: u32,
    pub z: u32,
}

/// One placement of an instanced mesh.
#[derive(Debug, Clone, Copy, PartialEq, Eq, Structural)]
pub struct Instance {
    pub position: Position,
    pub rotation: Rotation,
}

impl Instance {
    /// The instance at `position` whose rotation has all components zero.
    pub open spec fn at_spec(position: Position) -> Instance {
        Instance { position, rotation: Rotation { s: 0, x: 0, y: 0, z: 0 } }
    }

    /// The instance at `position` whose rotation has all components zero.
    #[verifier::when_used_as_spec(at_spec)]
    pub fn at(position: Position) -> (instance: Instance)
        ensures
            instance == Instance::at_spec(position),
    {
        Instance { position, rotation: Rotation { s: 0, x: 0, y: 0, z: 0 } }
    }
}

/// The commands that draw `instances` instances of a mesh of `len`
/// vertices: nothing where there is no instance; else the vertex buffer at
/// slot 0, the instance buffer at slot 1, and one draw of all vertices for
/// all instances. Both counts are cut to 32 bits.
pub open spec fn instanced_commands(
    buffer: usize,
    instance_buffer: usize,
    len: nat,
    instances: nat,
) -> Seq<RenderCommand> {
    if instances > 0 {
        seq![
            RenderCommand::SetVertexBuffer { slot: 0, buffer },
            RenderCommand::SetVertexBuffer { slot: 1, buffer: instance_buffer },
            RenderCommand::Draw { vertices: len as u32, instances: instances as u32 },
        ]
    } else {
        Seq::empty()
    }
}

/// A mesh that is drawn once for each of its instances.
pub struct InstancedMesh {
    pub vertices: Vec<Vertex>,
    pub instances: Vec<Instance>,
}

impl InstancedMesh {
    /// A mesh of the given vertices with the given instances.
    pub fn new(vertices: Vec<Vertex>, instances: Vec<Instance>) -> (mesh: InstancedMesh)
        ensures
            mesh.vertices@ == vertices@,
            mesh.instances@ == instances@,
    {
        InstancedMesh { vertices, instances }
    }

    /// Records the drawing of this mesh, whose vertices are kept under
    /// `buffer` and whose instances under `instance_buffer`.
    pub fn draw(&self, buffer: usize, instance_buffer: usize, render_pass: &mut Vec<RenderCommand>)
        ensures
            final(render_pass)@ == old(render_pass)@ + instanced_commands(
                buffer,
                instance_buffer,
                self.vertices@.len(),
                self.instances@.len(),
            ),
    {
        if self.instances.len() > 0 {
            let vertices = #[verifier::truncate]
            (self.vertices.len() as u32);
            let instances = #[verifier::truncate]
            (self.instances.len() as u32);
            render_pass.push(RenderCommand::SetVertexBuffer { slot: 0, buffer });
            render_pass.push(RenderCommand::SetVertexBuffer { slot: 1, buffer: instance_buffer });
            render_pass.push(RenderCommand::Draw { vertices, instances });
        }
        assert(render_pass@ =~= old(render_pass)@ + instanced_commands(
            buffer,
            instance_buffer,
            self.vertices@.len(),
            self.instances@.len(),
        ));
    }
}

/// Rebuilding forgets the old mesh: two rebuilds from the same blocks
/// with the same atlas leave the same vertices, whatever the mesh held
/// before each of them.
pub proof fn lemma_rebuild_is_idempotent(
    first: ChunkMesh,
    second: ChunkMesh,
    blocks: Seq<BlockState>,
    edge: int,
    atlas: Map<BlockState, crate::geometry::UvRect>,
)
    requires
        first@ == culled_mesh(blocks, edge, atlas),
        second@ == culled_mesh(blocks, edge, atlas),
    ensures
        first@.len() == second@.len(),
        forall|i: int| 0 <= i < first@.len() ==> first@[i] == second@[i],
        first@ == second@,
{
}

} // verus!
