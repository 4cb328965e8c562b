use voxelgame::atlas::Atlas;
use voxelgame::block::BlockState;
use voxelgame::chunk::{Chunk, WorldType, CHUNK_SIZE};
use voxelgame::geometry::{block_face, Side, TexCoord, UvRect, Vertex};
use voxelgame::grid::{checked_volume, index, index_unchecked};
use voxelgame::mesher::culled;

fn rect(u0: f32, v0: f32, u1: f32, v1: f32) -> UvRect {
    UvRect {
        min: TexCoord { u: u0.to_bits(), v: v0.to_bits() },
        max: TexCoord { u: u1.to_bits(), v: v1.to_bits() },
    }
}

fn atlas() -> Atlas {
    Atlas::new(&[
        (BlockState::TEST, rect(0.0, 0.0, 0.5, 1.0)),
        (BlockState::PANEL, rect(0.5, 0.0, 1.0, 1.0)),
    ])
    .unwrap()
}

fn has_face(vertices: &[Vertex], side: Side, x: isize, y: isize, z: isize, uv: UvRect) -> bool {
    let wanted = block_face(side, x, y, z, uv);
    vertices.chunks(6).any(|f| f == wanted)
}

#[test]
fn index_follows_the_formula() {
    assert_eq!(index(0, 0, 0, 32), Some(0));
    assert_eq!(index(1, 0, 0, 32), Some(1));
    assert_eq!(index(0, 1, 0, 32), Some(32));
    assert_eq!(index(0, 0, 1, 32), Some(1024));
    assert_eq!(index(5, 6, 7, 32), Some(7 * 1024 + 6 * 32 + 5));
    assert_eq!(index(31, 31, 31, 32), Some(32767));
    assert_eq!(index(1, 2, 3, 4), Some(57));
}

#[test]
fn index_refuses_coordinates_outside_the_chunk() {
    assert_eq!(index(-1, 0, 0, 32), None);
    assert_eq!(index(0, -1, 0, 32), None);
    assert_eq!(index(0, 0, -1, 32), None);
    assert_eq!(index(32, 0, 0, 32), None);
    assert_eq!(index(0, 32, 0, 32), None);
    assert_eq!(index(0, 0, 32, 32), None);
    assert_eq!(index(isize::MAX, 0, 0, 32), None);
    assert_eq!(index(0, isize::MIN, 0, 32), None);
    assert_eq!(index(0, 0, 0, 0), None);
}

#[test]
fn index_is_a_bijection_onto_the_array() {
    let n = 5usize;
    let mut seen = vec![false; n * n * n];
    for z in 0..n {
        for y in 0..n {
            for x in 0..n {
                let i = index(x as isize, y as isize, z as isize, n).unwrap();
                assert_eq!(i, index_unchecked(x, y, z, n));
                assert!(!seen[i]);
                seen[i] = true;
            }
        }
    }
    assert!(seen.iter().all(|s| *s));
}

#[test]
fn volume_is_the_cube_of_the_edge() {
    assert_eq!(checked_volume(0), Some(0));
    assert_eq!(checked_volume(1), Some(1));
    assert_eq!(checked_volume(32), Some(32768));
    assert_eq!(checked_volume(usize::MAX), None);
    assert_eq!(checked_volume(1 << 22), None);
}

#[test]
fn default_chunk_is_a_half_slab() {
    let chunk = Chunk::new();
    assert_eq!(CHUNK_SIZE, 32);
    assert_eq!(chunk.edge(), 32);
    assert_eq!(chunk.blocks().len(), 32 * 32 * 32);
    for x in 0..32isize {
        for z in 0..32isize {
            for y in 0..32isize {
                let expected = if y < 16 { BlockState::TEST } else { BlockState::AIR };
                assert_eq!(chunk.block_at(x, y, z), expected);
            }
        }
    }
}

#[test]
fn striped_chunk_is_a_quarter_slab_that_alternates_with_z() {
    let chunk = Chunk::generate(32, WorldType::Striped).unwrap();
    assert_eq!(chunk.edge(), 32);
    for x in 0..32isize {
        for z in 0..32isize {
            for y in 0..32isize {
                let expected = if y >= 8 {
                    BlockState::AIR
                } else if z % 2 == 0 {
                    BlockState::TEST
                } else {
                    BlockState::PANEL
                };
                assert_eq!(chunk.block_at(x, y, z), expected);
            }
        }
    }
}

#[test]
fn generated_chunk_of_the_default_edge_equals_the_default_chunk() {
    let a = Chunk::new();
    let b = Chunk::generate(CHUNK_SIZE, WorldType::Flat).unwrap();
    assert_eq!(a.blocks(), b.blocks());
}

#[test]
fn small_chunks_round_the_slab_height_down() {
    let one = Chunk::generate(1, WorldType::Flat).unwrap();
    assert_eq!(one.blocks(), &[BlockState::AIR][..]);
    let three = Chunk::generate(3, WorldType::Flat).unwrap();
    assert_eq!(three.block_at(0, 0, 0), BlockState::TEST);
    assert_eq!(three.block_at(2, 0, 2), BlockState::TEST);
    assert_eq!(three.block_at(0, 1, 0), BlockState::AIR);
    let striped = Chunk::generate(3, WorldType::Striped).unwrap();
    assert!(striped.blocks().iter().all(|b| *b == BlockState::AIR));
    let none = Chunk::generate(0, WorldType::Flat).unwrap();
    assert!(none.blocks().is_empty());
}

#[test]
fn chunk_that_cannot_be_addressed_is_not_generated() {
    assert!(Chunk::generate(usize::MAX, WorldType::Flat).is_none());
    assert!(Chunk::generate(usize::MAX, WorldType::Striped).is_none());
}

#[test]
fn block_outside_the_chunk_is_air() {
    let chunk = Chunk::new();
    assert_eq!(chunk.block_at(-1, 0, 0), BlockState::AIR);
    assert_eq!(chunk.block_at(0, -1, 0), BlockState::AIR);
    assert_eq!(chunk.block_at(0, 0, -1), BlockState::AIR);
    assert_eq!(chunk.block_at(32, 0, 0), BlockState::AIR);
    assert_eq!(chunk.block_at(0, 0, 32), BlockState::AIR);
    assert_eq!(chunk.block_at(0, 0, 0), BlockState::TEST);
}

#[test]
fn chunk_from_blocks_needs_one_block_per_cell() {
    assert!(Chunk::from_blocks(2, vec![BlockState::AIR; 8]).is_some());
    assert!(Chunk::from_blocks(2, vec![BlockState::AIR; 7]).is_none());
    assert!(Chunk::from_blocks(2, vec![BlockState::AIR; 9]).is_none());
    assert!(Chunk::from_blocks(0, vec![]).is_some());
    assert!(Chunk::from_blocks(usize::MAX, vec![]).is_none());
    let blocks = vec![
        BlockState::TEST,
        BlockState::PANEL,
        BlockState::AIR,
        BlockState::AIR,
        BlockState::AIR,
        BlockState::AIR,
        BlockState::AIR,
        BlockState::PANEL,
    ];
    let chunk = Chunk::from_blocks(2, blocks.clone()).unwrap();
    assert_eq!(chunk.edge(), 2);
    assert_eq!(chunk.blocks(), &blocks[..]);
    assert_eq!(chunk.block_at(1, 0, 0), BlockState::PANEL);
    assert_eq!(chunk.block_at(1, 1, 1), BlockState::PANEL);
    assert_eq!(chunk.block_at(0, 1, 0), BlockState::AIR);
}

#[test]
fn set_block_writes_one_cell() {
    let mut chunk = Chunk::from_blocks(3, vec![BlockState::AIR; 27]).unwrap();
    assert!(chunk.set_block(1, 2, 0, BlockState::PANEL));
    let mut expected = vec![BlockState::AIR; 27];
    expected[0 * 9 + 2 * 3 + 1] = BlockState::PANEL;
    assert_eq!(chunk.blocks(), &expected[..]);
    assert_eq!(chunk.edge(), 3);
    assert!(chunk.set_block(1, 2, 0, BlockState::AIR));
    assert!(chunk.blocks().iter().all(|b| *b == BlockState::AIR));
}

#[test]
fn set_block_outside_the_chunk_changes_nothing() {
    let mut chunk = Chunk::generate(4, WorldType::Flat).unwrap();
    let before = chunk.blocks().to_vec();
    assert!(!chunk.set_block(4, 0, 0, BlockState::PANEL));
    assert!(!chunk.set_block(0, 4, 0, BlockState::PANEL));
    assert!(!chunk.set_block(0, 0, 4, BlockState::PANEL));
    assert!(!chunk.set_block(usize::MAX, usize::MAX, usize::MAX, BlockState::PANEL));
    assert_eq!(chunk.blocks(), &before[..]);
}

#[test]
fn slab_shows_its_top_everywhere_and_no_face_between_layers() {
    let chunk = Chunk::new();
    let mesh = culled(chunk.blocks(), chunk.edge(), &atlas());
    let uv = rect(0.0, 0.0, 0.5, 1.0);
    // Top and bottom of the slab, and four walls of 32 by 16.
    assert_eq!(mesh.len(), (2 * 32 * 32 + 4 * 32 * 16) * 6);
    let mut tops = 0;
    let mut bottoms = 0;
    for f in mesh.chunks(6) {
        if f.iter().all(|p| p.pos.y == f[0].pos.y) {
            // A horizontal face lies on the floor or on top of layer 15.
            assert!(f[0].pos.y == 0 || f[0].pos.y == 16);
            if f[0].pos.y == 16 {
                tops += 1;
            } else {
                bottoms += 1;
            }
        }
    }
    assert_eq!(tops, 32 * 32);
    assert_eq!(bottoms, 32 * 32);
    for x in [0isize, 1, 15, 30, 31] {
        for z in [0isize, 7, 16, 31] {
            assert!(has_face(&mesh, Side::Top, x, 15, z, uv));
            for y in [0isize, 1, 7, 14] {
                assert!(!has_face(&mesh, Side::Top, x, y, z, uv));
                assert!(!has_face(&mesh, Side::Bottom, x, y + 1, z, uv));
            }
        }
    }
}

#[test]
fn every_column_of_the_slab_has_its_top_face() {
    let chunk = Chunk::generate(8, WorldType::Flat).unwrap();
    let mesh = culled(chunk.blocks(), chunk.edge(), &atlas());
    let uv = rect(0.0, 0.0, 0.5, 1.0);
    for x in 0..8isize {
        for z in 0..8isize {
            assert!(has_face(&mesh, Side::Top, x, 3, z, uv));
            for y in 0..3isize {
                assert!(!has_face(&mesh, Side::Top, x, y, z, uv));
                assert!(!has_face(&mesh, Side::Bottom, x, y + 1, z, uv));
            }
        }
    }
}

#[test]
fn striped_slab_is_textured_by_z() {
    let chunk = Chunk::generate(8, WorldType::Striped).unwrap();
    let mesh = culled(chunk.blocks(), chunk.edge(), &atlas());
    let test = rect(0.0, 0.0, 0.5, 1.0);
    let panel = rect(0.5, 0.0, 1.0, 1.0);
    for x in 0..8isize {
        for z in 0..8isize {
            let (own, other) = if z % 2 == 0 { (test, panel) } else { (panel, test) };
            assert!(has_face(&mesh, Side::Top, x, 1, z, own));
            assert!(!has_face(&mesh, Side::Top, x, 1, z, other));
            assert!(!has_face(&mesh, Side::Top, x, 0, z, own));
        }
    }
    // Blocks of different materials still hide each other's faces.
    assert!(!has_face(&mesh, Side::Right, 3, 0, 2, test));
    assert!(!has_face(&mesh, Side::Left, 3, 0, 3, panel));
    assert_eq!(mesh.len(), (2 * 8 * 8 + 4 * 8 * 2) * 6);
}
