//! A chunk: the blocks of one cubic region of the world.

use vstd::prelude::*;
use crate::block::BlockState;
use crate::grid::{
    checked_volume,
    in_bounds,
    index_unchecked,
    lemma_linear_index_in_range,
    lemma_linear_index_injective,
    lemma_linear_index_surjective,
    linear_index,
    volume,
};
use crate::mesher::{block_at, block_in};

verus! {

/// Edge length of the chunks of the default world.
pub const CHUNK_SIZE: usize = 32;

/// The rule by which a fresh chunk is filled.
#[derive(Debug, Clone, Copy, PartialEq, Eq, Structural)]
pub enum WorldType {
    /// The lower half of the chunk is one material.
    Flat,
    /// The lower quarter of the chunk is striped: two materials that
    /// alternate with z.
    Striped,
}

/// How many layers of a chunk of edge `n` the rule `world` fills.
pub open spec fn slab_height(world: WorldType, n: int) -> int {
    match world {
        WorldType::Flat => n / 2,
        WorldType::Striped => n / 4,
    }
}

/// The block that the rule `world` puts at `(x, y, z)` of a chunk of edge
/// `n`. Both rules fill a slab over the whole of x and z and leave air above.
pub open spec fn generated_block(world: WorldType, n: int, x: int, y: int, z: int) -> BlockState {
    if y >= slab_height(world, n) {
        BlockState::AIR
    } else {
        match world {
            WorldType::Flat => BlockState::TEST,
            WorldType::Striped => if z % 2 == 0 {
                BlockState::TEST
            } else {
                BlockState::PANEL
            },
        }
    }
}

/// The block array of a fresh chunk of edge `n` under the rule `world`.
pub open spec fn generated(world: WorldType, n: int) -> Seq<BlockState> {
    Seq::new(
        volume(n) as nat,
        |i: int| generated_block(world, n, i % n, (i / n) % n, i / (n * n)),
    )
}

/// A fresh chunk holds at each cell the block that its rule names.
pub proof fn lemma_generated_block(world: WorldType, n: int, x: int, y: int, z: int)
    requires
        in_bounds(x, y, z, n),
    ensures
        0 <= linear_index(x, y, z, n) < generated(world, n).len(),
        generated(world, n)[linear_index(x, y, z, n)] == generated_block(world, n, x, y, z),
        block_at(generated(world, n), n, x, y, z) == generated_block(world, n, x, y, z),
{
    let i = linear_index(x, y, z, n);
    lemma_linear_index_in_range(x, y, z, n);
    lemma_linear_index_surjective(i, n);
    lemma_linear_index_injective(x, y, z, i % n, (i / n) % n, i / (n * n), n);
}

/// The blocks of a cubic region, `edge` cells along each axis.
pub struct Chunk {
    blocks: Vec<BlockState>,
    edge: usize,
}

impl View for Chunk {
    type V = Seq<BlockState>;

    closed spec fn view(&self) -> Seq<BlockState> {
        self.blocks@
    }
}

impl Chunk {
    /// There is exactly one block for each cell of the cube.
    pub closed spec fn wf(&self) -> bool {
        self.blocks.len() == volume(self.edge as int)
    }

    /// A well-formed chunk has as many blocks as its cube has cells.
    pub proof fn lemma_len(&self)
        requires
            self.wf(),
        ensures
            self@.len() == volume(self.edge_spec() as int),
            volume(self.edge_spec() as int) <= usize::MAX,
    {
    }

    /// The edge length.
    pub closed spec fn edge_spec(&self) -> usize {
        self.edge
    }

    /// A chunk of the default world: edge `CHUNK_SIZE`, filled by the flat
    /// rule.
    pub fn new() -> (chunk: Chunk)
        ensures
            chunk.wf(),
            chunk.edge_spec() == CHUNK_SIZE,
            chunk@ == generated(WorldType::Flat, CHUNK_SIZE as int),
    {
        assert(volume(CHUNK_SIZE as int) == 32768);
        Chunk::generate(CHUNK_SIZE, WorldType::Flat).unwrap()
    }

    /// A fresh chunk of edge `edge`, filled by the rule `world`; `None`
    /// where a cube of that edge has more cells than can be addressed.
    pub fn generate(edge: usize, world: WorldType) -> (chunk: Option<Chunk>)
        ensures
            chunk.is_some() == (volume(edge as int) <= usize::MAX),
            chunk matches Some(c) ==> c.wf() && c.edge_spec() == edge && c@ == generated(
                world,
                edge as int,
            ),
    {
        let ghost n = edge as int;
        let cells = match checked_volume(edge) {
            Some(cells) => cells,
            None => {
                return None;
            },
        };
        let height = match world {
            WorldType::Flat => edge / 2,
            WorldType::Striped => edge / 4,
        };
        let mut data: Vec<BlockState> = Vec::new();
        let mut c: usize = 0;
        while c < cells
            invariant
                c <= cells,
                data.len() == c,
                forall|m: int| 0 <= m < c ==> data[m] == BlockState::AIR,
            decreases cells - c,
        {
            data.push(BlockState::AIR);
            c += 1;
        }
        proof {
            assert forall|x: int, y: int, z: int| in_bounds(x, y, z, n) implies (
            #[trigger] data@[linear_index(x, y, z, n)]) == BlockState::AIR by {
                lemma_linear_index_in_range(x, y, z, n);
            }
        }
        let mut i: usize = 0;
        while i < edge
            invariant
                i <= edge,
                n == edge as int,
                height <= edge,
                height == slab_height(world, n),
                data.len() == volume(n),
                forall|x: int, y: int, z: int|
                    in_bounds(x, y, z, n) ==> #[trigger] data@[linear_index(x, y, z, n)] == (if x
                        < i {
                        generated_block(world, n, x, y, z)
                    } else {
                        BlockState::AIR
                    }),
            decreases edge - i,
        {
            let mut j: usize = 0;
            while j < height
                invariant
                    i < edge,
                    j <= height,
                    n == edge as int,
                    height <= edge,
                    height == slab_height(world, n),
                    data.len() == volume(n),
                    forall|x: int, y: int, z: int|
                        in_bounds(x, y, z, n) ==> #[trigger] data@[linear_index(x, y, z, n)] == (if x
                            < i || (x == i && y < j) {
                            generated_block(world, n, x, y, z)
                        } else {
                            BlockState::AIR
                        }),
                decreases height - j,
            {
                let mut k: usize = 0;
                while k < edge
                    invariant
                        i < edge,
                        j < height,
                        k <= edge,
                        n == edge as int,
                        height <= edge,
                        height == slab_height(world, n),
                        data.len() == volume(n),
                        forall|x: int, y: int, z: int|
                            in_bounds(x, y, z, n) ==> #[trigger] data@[linear_index(x, y, z, n)]
                                == (if x < i || (x == i && y < j) || (x == i && y == j && z < k) {
                                generated_block(world, n, x, y, z)
                            } else {
                                BlockState::AIR
                            }),
                    decreases edge - k,
                {
                    let block = match world {
                        WorldType::Flat => BlockState::TEST,
                        WorldType::Striped => if k % 2 == 0 {
                            BlockState::TEST
                        } else {
                            BlockState::PANEL
                        },
                    };
                    let at = index_unchecked(i, j, k, edge);
                    let ghost before = data@;
                    data.set(at, block);
                    proof {
                        assert forall|x: int, y: int, z: int| in_bounds(x, y, z, n) implies (
                        #[trigger] data@[linear_index(x, y, z, n)]) == (if x < i || (x == i && y < j)
                            || (x == i && y == j && z < k + 1) {
                            generated_block(world, n, x, y, z)
                        } else {
                            BlockState::AIR
                        }) by {
                            lemma_linear_index_in_range(x, y, z, n);
                            if linear_index(x, y, z, n) == at {
                                lemma_linear_index_injective(
                                    x,
                                    y,
                                    z,
                                    i as int,
                                    j as int,
                                    k as int,
                                    n,
                                );
                            } else {
                                assert(data@[linear_index(x, y, z, n)] == before[linear_index(
                                    x,
                                    y,
                                    z,
                                    n,
                                )]);
                            }
                        }
                    }
                    k += 1;
                }
                j += 1;
            }
            i += 1;
        }
        proof {
            assert forall|m: int| 0 <= m < volume(n) implies data@[m] == generated(world, n)[m] by {
                lemma_linear_index_surjective(m, n);
                let (x, y, z) = (m % n, (m / n) % n, m / (n * n));
                assert(data@[linear_index(x, y, z, n)] == generated_block(world, n, x, y, z));
            }
            assert(data@ =~= generated(world, n));
        }
        Some(Chunk { blocks: data, edge })
    }

    /// A chunk of edge `edge` over the given blocks; `None` unless there is
    /// exactly one block for each cell.
    pub fn from_blocks(edge: usize, blocks: Vec<BlockState>) -> (chunk: Option<Chunk>)
        ensures
            chunk.is_some() == (blocks.len() == volume(edge as int)),
            chunk matches Some(c) ==> c.wf() && c.edge_spec() == edge && c@ == blocks@,
    {
        match checked_volume(edge) {
            Some(cells) => {
                if blocks.len() == cells {
                    Some(Chunk { blocks, edge })
                } else {
                    None
                }
            },
            None => None,
        }
    }

    /// The edge length.
    pub fn edge(&self) -> (edge: usize)
        ensures
            edge == self.edge_spec(),
    {
        self.edge
    }

    /// The blocks, cell after cell in the grid's order.
    pub fn blocks(&self) -> (blocks: &[BlockState])
        ensures
            blocks@ == self@,
    {
        self.blocks.as_slice()
    }

    /// The block at `(x, y, z)`. Outside the chunk there is air.
    pub fn block_at(&self, x: isize, y: isize, z: isize) -> (block: BlockState)
        requires
            self.wf(),
        ensures
            block == block_at(self@, self.edge_spec() as int, x as int, y as int, z as int),
    {
        block_in(self.blocks.as_slice(), self.edge, x, y, z)
    }

    /// Puts `block` at `(x, y, z)` and says whether that is a cell of the
    /// chunk; outside it nothing changes.
    pub fn set_block(&mut self, x: usize, y: usize, z: usize, block: BlockState) -> (written: bool)
        requires
            old(self).wf(),
        ensures
            final(self).wf(),
            final(self).edge_spec() == old(self).edge_spec(),
            written == in_bounds(x as int, y as int, z as int, old(self).edge_spec() as int),
            written ==> final(self)@ == old(self)@.update(
                linear_index(x as int, y as int, z as int, old(self).edge_spec() as int),
                block,
            ),
            !written ==> final(self)@ == old(self)@,
    {
        if x < self.edge && y < self.edge && z < self.edge {
            let at = index_unchecked(x, y, z, self.edge);
            self.blocks.set(at, block);
            true
        } else {
            false
        }
    }
}

} // verus!
