use voxelgame::atlas::Atlas;
use voxelgame::block::BlockState;
use voxelgame::geometry::{block_face, GridPoint, Side, TexCoord, UvRect, Vertex};
use voxelgame::mesher::{block_in, culled, simple};

fn rect(u0: f32, v0: f32, u1: f32, v1: f32) -> UvRect {
    UvRect {
        min: TexCoord { u: u0.to_bits(), v: v0.to_bits() },
        max: TexCoord { u: u1.to_bits(), v: v1.to_bits() },
    }
}

fn test_rect() -> UvRect {
    rect(0.0, 0.0, 0.5, 1.0)
}

fn panel_rect() -> UvRect {
    rect(0.5, 0.25, 1.0, 0.75)
}

fn atlas() -> Atlas {
    Atlas::new(&[(BlockState::TEST, test_rect()), (BlockState::PANEL, panel_rect())]).unwrap()
}

fn at(x: usize, y: usize, z: usize, n: usize) -> usize {
    z * n * n + y * n + x
}

fn faces_of(vertices: &[Vertex]) -> Vec<[Vertex; 6]> {
    assert_eq!(vertices.len() % 6, 0);
    vertices
        .chunks(6)
        .map(|c| [c[0], c[1], c[2], c[3], c[4], c[5]])
        .collect()
}

fn has_face(vertices: &[Vertex], side: Side, x: isize, y: isize, z: isize, uv: UvRect) -> bool {
    let wanted = block_face(side, x, y, z, uv);
    faces_of(vertices).iter().any(|f| *f == wanted)
}

fn v(x: isize, y: isize, z: isize, u: f32, w: f32) -> Vertex {
    Vertex { pos: GridPoint { x, y, z }, uv: TexCoord { u: u.to_bits(), v: w.to_bits() } }
}

#[test]
fn air_chunk_has_no_vertices() {
    let data = vec![BlockState::AIR; 27];
    assert!(culled(&data, 3, &atlas()).is_empty());
    assert!(simple(&data, 3, &atlas()).is_empty());
}

#[test]
fn empty_chunk_of_edge_zero_has_no_vertices() {
    let data: Vec<BlockState> = vec![];
    assert!(culled(&data, 0, &atlas()).is_empty());
    assert!(simple(&data, 0, &atlas()).is_empty());
}

#[test]
fn meshing_twice_gives_the_same_vertices() {
    let mut data = vec![BlockState::AIR; 64];
    data[at(1, 2, 3, 4)] = BlockState::TEST;
    data[at(1, 2, 2, 4)] = BlockState::PANEL;
    data[at(0, 0, 0, 4)] = BlockState::PANEL;
    let a = atlas();
    let first = culled(&data, 4, &a);
    let second = culled(&data, 4, &a);
    assert_eq!(first, second);
    let other_atlas = atlas();
    assert_eq!(culled(&data, 4, &other_atlas), first);
    assert_eq!(simple(&data, 4, &a), simple(&data, 4, &a));
}

#[test]
fn single_block_in_the_corner_has_six_faces() {
    let mut data = vec![BlockState::AIR; 27];
    data[0] = BlockState::TEST;
    let mesh = culled(&data, 3, &atlas());
    assert_eq!(mesh.len(), 36);
    let uv = test_rect();
    let mut expected: Vec<Vertex> = vec![];
    for side in [Side::Top, Side::Bottom, Side::Right, Side::Left, Side::Front, Side::Back] {
        expected.extend(block_face(side, 0, 0, 0, uv));
    }
    assert_eq!(mesh, expected);
    assert_eq!(simple(&data, 3, &atlas()), expected);
}

#[test]
fn single_block_inside_has_six_faces() {
    let mut data = vec![BlockState::AIR; 27];
    data[at(1, 1, 1, 3)] = BlockState::PANEL;
    let mesh = culled(&data, 3, &atlas());
    assert_eq!(mesh.len(), 36);
    for side in [Side::Top, Side::Bottom, Side::Right, Side::Left, Side::Front, Side::Back] {
        assert!(has_face(&mesh, side, 1, 1, 1, panel_rect()));
    }
}

#[test]
fn single_block_chunk_of_edge_one() {
    let data = vec![BlockState::TEST];
    assert_eq!(culled(&data, 1, &atlas()).len(), 36);
}

#[test]
fn full_chunk_shows_only_its_hull() {
    for n in 1..6usize {
        let data = vec![BlockState::TEST; n * n * n];
        let mesh = culled(&data, n, &atlas());
        assert_eq!(mesh.len(), 6 * n * n * 6);
        let last = n as isize - 1;
        for face in faces_of(&mesh) {
            let on_hull = face.iter().all(|p| p.pos.y == 0)
                || face.iter().all(|p| p.pos.y == last + 1)
                || face.iter().all(|p| p.pos.x == 0)
                || face.iter().all(|p| p.pos.x == last + 1)
                || face.iter().all(|p| p.pos.z == 0)
                || face.iter().all(|p| p.pos.z == last + 1);
            assert!(on_hull);
        }
    }
}

#[test]
fn full_chunk_of_mixed_blocks_is_culled_alike() {
    let mut data = vec![BlockState::TEST; 27];
    data[at(1, 1, 1, 3)] = BlockState::PANEL;
    data[at(0, 2, 1, 3)] = BlockState::PANEL;
    assert_eq!(culled(&data, 3, &atlas()).len(), 6 * 9 * 6);
}

#[test]
fn simple_mesh_has_every_face_of_every_block() {
    let data = vec![BlockState::TEST; 27];
    assert_eq!(simple(&data, 3, &atlas()).len(), 27 * 36);
    let mut sparse = vec![BlockState::AIR; 27];
    sparse[at(0, 0, 0, 3)] = BlockState::TEST;
    sparse[at(1, 0, 0, 3)] = BlockState::TEST;
    sparse[at(2, 2, 2, 3)] = BlockState::PANEL;
    assert_eq!(simple(&sparse, 3, &atlas()).len(), 3 * 36);
}

#[test]
fn face_between_two_blocks_is_culled() {
    let mut data = vec![BlockState::AIR; 27];
    data[at(1, 0, 1, 3)] = BlockState::TEST;
    data[at(1, 1, 1, 3)] = BlockState::TEST;
    let mesh = culled(&data, 3, &atlas());
    assert_eq!(mesh.len(), 10 * 6);
    let uv = test_rect();
    assert!(!has_face(&mesh, Side::Top, 1, 0, 1, uv));
    assert!(!has_face(&mesh, Side::Bottom, 1, 1, 1, uv));
    assert!(has_face(&mesh, Side::Top, 1, 1, 1, uv));
    assert!(has_face(&mesh, Side::Bottom, 1, 0, 1, uv));
    let all = simple(&data, 3, &atlas());
    assert!(has_face(&all, Side::Top, 1, 0, 1, uv));
    assert!(has_face(&all, Side::Bottom, 1, 1, 1, uv));
}

#[test]
fn each_direction_is_culled_by_its_own_neighbour() {
    let uv = test_rect();
    let cases = [
        (Side::Top, (1, 2, 1)),
        (Side::Bottom, (1, 0, 1)),
        (Side::Right, (1, 1, 2)),
        (Side::Left, (1, 1, 0)),
        (Side::Front, (2, 1, 1)),
        (Side::Back, (0, 1, 1)),
    ];
    for (side, (nx, ny, nz)) in cases {
        let mut data = vec![BlockState::AIR; 27];
        data[at(1, 1, 1, 3)] = BlockState::TEST;
        data[at(nx, ny, nz, 3)] = BlockState::PANEL;
        let mesh = culled(&data, 3, &atlas());
        assert_eq!(mesh.len(), 10 * 6);
        for other in [Side::Top, Side::Bottom, Side::Right, Side::Left, Side::Front, Side::Back] {
            assert_eq!(has_face(&mesh, other, 1, 1, 1, uv), other != side);
        }
    }
}

#[test]
fn faces_at_the_chunk_border_are_always_emitted() {
    let data = vec![BlockState::PANEL; 8];
    let mesh = culled(&data, 2, &atlas());
    let uv = panel_rect();
    assert!(has_face(&mesh, Side::Back, 0, 0, 0, uv));
    assert!(has_face(&mesh, Side::Bottom, 0, 0, 0, uv));
    assert!(has_face(&mesh, Side::Left, 0, 0, 0, uv));
    assert!(has_face(&mesh, Side::Front, 1, 1, 1, uv));
    assert!(has_face(&mesh, Side::Top, 1, 1, 1, uv));
    assert!(has_face(&mesh, Side::Right, 1, 1, 1, uv));
    assert!(!has_face(&mesh, Side::Front, 0, 0, 0, uv));
    assert!(!has_face(&mesh, Side::Top, 0, 0, 0, uv));
    assert!(!has_face(&mesh, Side::Right, 0, 0, 0, uv));
}

#[test]
fn cells_are_visited_with_x_outermost_and_z_innermost() {
    // Four blocks that touch nobody, so that each has all six faces.
    let mut data = vec![BlockState::AIR; 27];
    data[at(2, 0, 0, 3)] = BlockState::TEST;
    data[at(0, 2, 0, 3)] = BlockState::TEST;
    data[at(0, 0, 2, 3)] = BlockState::PANEL;
    data[at(0, 2, 2, 3)] = BlockState::TEST;
    let mesh = culled(&data, 3, &atlas());
    assert_eq!(mesh.len(), 4 * 36);
    let firsts: Vec<GridPoint> = mesh.chunks(36).map(|cell| cell[0].pos).collect();
    // The first vertex of a cell's top face is the cell's corner, one up.
    assert_eq!(
        firsts,
        vec![
            GridPoint { x: 0, y: 1, z: 2 },
            GridPoint { x: 0, y: 3, z: 0 },
            GridPoint { x: 0, y: 3, z: 2 },
            GridPoint { x: 2, y: 1, z: 0 },
        ]
    );
    assert_eq!(simple(&data, 3, &atlas()), mesh);
}

#[test]
fn sides_are_emitted_in_their_order() {
    let data = vec![BlockState::TEST];
    let mesh = culled(&data, 1, &atlas());
    let uv = test_rect();
    let faces = faces_of(&mesh);
    assert_eq!(faces[0], block_face(Side::Top, 0, 0, 0, uv));
    assert_eq!(faces[1], block_face(Side::Bottom, 0, 0, 0, uv));
    assert_eq!(faces[2], block_face(Side::Right, 0, 0, 0, uv));
    assert_eq!(faces[3], block_face(Side::Left, 0, 0, 0, uv));
    assert_eq!(faces[4], block_face(Side::Front, 0, 0, 0, uv));
    assert_eq!(faces[5], block_face(Side::Back, 0, 0, 0, uv));
}

#[test]
fn each_block_is_textured_with_its_own_rectangle() {
    let mut data = vec![BlockState::AIR; 8];
    data[at(0, 0, 0, 2)] = BlockState::TEST;
    data[at(1, 1, 1, 2)] = BlockState::PANEL;
    let mesh = culled(&data, 2, &atlas());
    assert_eq!(mesh.len(), 72);
    assert!(has_face(&mesh, Side::Top, 0, 0, 0, test_rect()));
    assert!(has_face(&mesh, Side::Top, 1, 1, 1, panel_rect()));
    assert!(!has_face(&mesh, Side::Top, 0, 0, 0, panel_rect()));
    assert!(!has_face(&mesh, Side::Top, 1, 1, 1, test_rect()));
}

#[test]
fn top_face_vertices() {
    let f = block_face(Side::Top, 2, 3, 4, panel_rect());
    assert_eq!(
        f,
        [
            v(2, 4, 4, 0.5, 0.25),
            v(2, 4, 5, 1.0, 0.25),
            v(3, 4, 5, 1.0, 0.75),
            v(3, 4, 5, 1.0, 0.75),
            v(3, 4, 4, 0.5, 0.75),
            v(2, 4, 4, 0.5, 0.25),
        ]
    );
}

#[test]
fn bottom_face_vertices() {
    let f = block_face(Side::Bottom, 2, 3, 4, panel_rect());
    assert_eq!(
        f,
        [
            v(2, 3, 4, 0.5, 0.25),
            v(3, 3, 4, 0.5, 0.75),
            v(3, 3, 5, 1.0, 0.75),
            v(3, 3, 5, 1.0, 0.75),
            v(2, 3, 5, 1.0, 0.25),
            v(2, 3, 4, 0.5, 0.25),
        ]
    );
}

#[test]
fn right_face_vertices() {
    let f = block_face(Side::Right, 2, 3, 4, panel_rect());
    assert_eq!(
        f,
        [
            v(2, 3, 5, 0.5, 0.25),
            v(3, 3, 5, 1.0, 0.25),
            v(3, 4, 5, 1.0, 0.75),
            v(3, 4, 5, 1.0, 0.75),
            v(2, 4, 5, 0.5, 0.75),
            v(2, 3, 5, 0.5, 0.25),
        ]
    );
}

#[test]
fn left_face_vertices() {
    let f = block_face(Side::Left, 2, 3, 4, panel_rect());
    assert_eq!(
        f,
        [
            v(2, 3, 4, 1.0, 0.25),
            v(2, 4, 4, 1.0, 0.75),
            v(3, 4, 4, 0.5, 0.75),
            v(3, 4, 4, 0.5, 0.75),
            v(3, 3, 4, 0.5, 0.25),
            v(2, 3, 4, 1.0, 0.25),
        ]
    );
}

#[test]
fn front_face_vertices() {
    let f = block_face(Side::Front, 2, 3, 4, panel_rect());
    assert_eq!(
        f,
        [
            v(3, 3, 4, 1.0, 0.25),
            v(3, 4, 4, 1.0, 0.75),
            v(3, 4, 5, 0.5, 0.75),
            v(3, 4, 5, 0.5, 0.75),
            v(3, 3, 5, 0.5, 0.25),
            v(3, 3, 4, 1.0, 0.25),
        ]
    );
}

#[test]
fn back_face_vertices() {
    let f = block_face(Side::Back, 2, 3, 4, panel_rect());
    assert_eq!(
        f,
        [
            v(2, 3, 4, 0.5, 0.25),
            v(2, 3, 5, 1.0, 0.25),
            v(2, 4, 5, 1.0, 0.75),
            v(2, 4, 5, 1.0, 0.75),
            v(2, 4, 4, 0.5, 0.75),
            v(2, 3, 4, 0.5, 0.25),
        ]
    );
}

#[test]
fn face_uses_exactly_the_four_corners_of_its_rectangle() {
    let uv = panel_rect();
    let corners = [
        TexCoord { u: uv.min.u, v: uv.min.v },
        TexCoord { u: uv.max.u, v: uv.min.v },
        TexCoord { u: uv.max.u, v: uv.max.v },
        TexCoord { u: uv.min.u, v: uv.max.v },
    ];
    for side in [Side::Top, Side::Bottom, Side::Right, Side::Left, Side::Front, Side::Back] {
        let f = block_face(side, 0, 0, 0, uv);
        for p in f.iter() {
            assert!(corners.contains(&p.uv));
        }
        for c in corners.iter() {
            assert!(f.iter().any(|p| p.uv == *c));
        }
        assert_eq!(f[3], f[2]);
        assert_eq!(f[5], f[0]);
    }
}

#[test]
fn face_at_negative_coordinates() {
    let f = block_face(Side::Back, -3, -1, 0, test_rect());
    assert_eq!(f[0].pos, GridPoint { x: -3, y: -1, z: 0 });
    assert_eq!(f[2].pos, GridPoint { x: -3, y: 0, z: 1 });
}

#[test]
fn texture_bits_pass_through_unchanged() {
    let odd = UvRect {
        min: TexCoord { u: 0x7fc0_0001, v: 0x8000_0000 },
        max: TexCoord { u: 0xffff_ffff, v: 0x0000_0001 },
    };
    let a = Atlas::new(&[(BlockState::TEST, odd), (BlockState::PANEL, odd)]).unwrap();
    let mesh = culled(&[BlockState::TEST], 1, &a);
    assert_eq!(mesh[0].uv, TexCoord { u: 0x7fc0_0001, v: 0x8000_0000 });
    assert_eq!(mesh[2].uv, TexCoord { u: 0xffff_ffff, v: 0x0000_0001 });
}

#[test]
fn block_lookup_treats_outside_as_air() {
    let data = vec![BlockState::PANEL; 8];
    assert_eq!(block_in(&data, 2, 0, 0, 0), BlockState::PANEL);
    assert_eq!(block_in(&data, 2, 1, 1, 1), BlockState::PANEL);
    assert_eq!(block_in(&data, 2, -1, 0, 0), BlockState::AIR);
    assert_eq!(block_in(&data, 2, 0, 2, 0), BlockState::AIR);
    assert_eq!(block_in(&data, 2, 0, 0, isize::MAX), BlockState::AIR);
    assert_eq!(block_in(&data, 2, isize::MIN, 0, 0), BlockState::AIR);
}
