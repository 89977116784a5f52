//! Mesh-builder behaviour: emission counts, packed attribute values,
//! winding data for a single block, and idempotence across passes.

use voxel_benchmark::block::Block;
use voxel_benchmark::chunk::{BlockSubPos, Chunk};
use voxel_benchmark::generator::random::RandomGenerator;
use voxel_benchmark::generator::WorldGenerator;
use voxel_benchmark::mesh::{
    build_chunk_point_mesh, build_chunk_quad_mesh, build_world_point_mesh,
    build_world_quad_mesh, MeshVertex, PointBufferGroup, QuadBufferGroup,
};
use voxel_benchmark::packs::basic::BasicId;
use voxel_benchmark::utils::WorldPosition;
use voxel_benchmark::world::{ChunkPos, World};

type SmallWorld = World<BasicId, 4, 2, 32, 2>;

fn single_block_chunk() -> Chunk<BasicId, 32, 2> {
    let mut chunk: Chunk<BasicId, 32, 2> = Chunk::default();
    chunk.set_block(
        BlockSubPos::new(0, 0, 0),
        Block::Solid { id: BasicId::Dirt },
    );
    chunk
}

#[test]
fn quad_mesh_single_block_counts() {
    let chunk = single_block_chunk();
    let mut group = QuadBufferGroup::new(32);
    build_chunk_quad_mesh(&chunk, ChunkPos::<4, 2>::from_index(0), &mut group);
    // One solid block: 6 faces, 4 x 6 = 24 vertices, 6 x 6 = 36 indices.
    assert_eq!(group.count, 6);
    assert_eq!(group.vertex.len(), 32 * 24);
    assert_eq!(group.index.len(), 32 * 36);
}

#[test]
fn quad_mesh_single_block_first_face_values() {
    let chunk = single_block_chunk();
    let mut group = QuadBufferGroup::new(32);
    build_chunk_quad_mesh(&chunk, ChunkPos::<4, 2>::from_index(0), &mut group);
    // Face 0 is North: corners ix.iy, ix, origin, iy of the block origin.
    let dirt_tile = 9u32;
    let expect = [
        (WorldPosition { x: 1, y: 1, z: 0 }, (dirt_tile << 16) | 0),
        (WorldPosition { x: 1, y: 0, z: 0 }, (dirt_tile << 16) | 1),
        (WorldPosition { x: 0, y: 0, z: 0 }, (dirt_tile << 16) | 3),
        (WorldPosition { x: 0, y: 1, z: 0 }, (dirt_tile << 16) | 2),
    ];
    for (j, (pos, tex)) in expect.iter().enumerate() {
        assert_eq!(group.vertex[j], MeshVertex { position: *pos, tex_info: *tex });
    }
    assert_eq!(&group.index[0..6], &[0, 1, 2, 0, 2, 3]);
    // The second face starts at vertex base 4.
    assert_eq!(&group.index[6..12], &[4, 5, 6, 4, 6, 7]);
}

#[test]
fn quad_mesh_index_pattern_covers_all_faces() {
    let chunk = single_block_chunk();
    let mut group = QuadBufferGroup::new(32);
    build_chunk_quad_mesh(&chunk, ChunkPos::<4, 2>::from_index(0), &mut group);
    for face in 0..6u32 {
        let base = face * 4;
        let at = (face * 6) as usize;
        assert_eq!(
            &group.index[at..at + 6],
            &[base, base + 1, base + 2, base, base + 2, base + 3]
        );
    }
}

#[test]
fn point_mesh_single_block_emits_face_ids_in_order() {
    let chunk = single_block_chunk();
    let mut group = PointBufferGroup::new(32);
    build_chunk_point_mesh(&chunk, ChunkPos::<4, 2>::from_index(0), &mut group);
    assert_eq!(group.count, 6);
    let dirt_tile = 9u32;
    for f in 0..6usize {
        let v = group.vertex[f];
        assert_eq!(v.position, WorldPosition { x: 0, y: 0, z: 0 });
        assert_eq!(v.tex_info >> 16, dirt_tile);
        assert_eq!(v.tex_info & 0xFFFF, f as u32);
    }
}

#[test]
fn point_mesh_positions_offset_by_chunk() {
    let chunk = single_block_chunk();
    let mut group = PointBufferGroup::new(32);
    // Chunk (1, 1) of the 2 x 2 grid: index 3.
    build_chunk_point_mesh(&chunk, ChunkPos::<4, 2>::from_index(3), &mut group);
    assert_eq!(group.vertex[0].position, WorldPosition { x: 2, y: 0, z: 2 });
}

#[test]
fn quad_mesh_two_passes_are_identical() {
    let mut world: Box<SmallWorld> = World::create();
    RandomGenerator::Odd.generate(world.as_mut());
    let chunk = world.chunk(ChunkPos::from_index(2));
    let mut a = QuadBufferGroup::new(32);
    let mut b = QuadBufferGroup::new(32);
    // Scribble over one buffer beforehand: the written prefix must not
    // depend on what the buffers held.
    for v in b.index.iter_mut() {
        *v = 0xDEAD;
    }
    build_chunk_quad_mesh(chunk, ChunkPos::<4, 2>::from_index(2), &mut a);
    build_chunk_quad_mesh(chunk, ChunkPos::<4, 2>::from_index(2), &mut b);
    assert_eq!(a.count, b.count);
    let nv = (a.count * 4) as usize;
    let ni = (a.count * 6) as usize;
    assert_eq!(&a.vertex[0..nv], &b.vertex[0..nv]);
    assert_eq!(&a.index[0..ni], &b.index[0..ni]);
    // Scribbled values beyond the prefix are still there.
    assert!(b.index[ni..].iter().all(|&v| v == 0xDEAD));
}

#[test]
fn point_mesh_two_passes_are_identical() {
    let mut world: Box<SmallWorld> = World::create();
    RandomGenerator::Odd.generate(world.as_mut());
    let chunk = world.chunk(ChunkPos::from_index(1));
    let mut a = PointBufferGroup::new(32);
    let mut b = PointBufferGroup::new(32);
    build_chunk_point_mesh(chunk, ChunkPos::<4, 2>::from_index(1), &mut a);
    build_chunk_point_mesh(chunk, ChunkPos::<4, 2>::from_index(1), &mut b);
    assert_eq!(a.count, b.count);
    let n = a.count as usize;
    assert_eq!(&a.vertex[0..n], &b.vertex[0..n]);
}

#[test]
fn world_mesh_counts_match_solid_blocks() {
    let mut world: Box<SmallWorld> = World::create();
    RandomGenerator::Odd.generate(world.as_mut());
    let mut quad_groups: Vec<QuadBufferGroup> = (0..4).map(|_| QuadBufferGroup::new(32)).collect();
    let mut point_groups: Vec<PointBufferGroup> =
        (0..4).map(|_| PointBufferGroup::new(32)).collect();
    build_world_quad_mesh(&world, &mut quad_groups);
    build_world_point_mesh(&world, &mut point_groups);
    for ci in 0..4usize {
        let solids = world.chunk(ChunkPos::from_index(ci)).iter_solid().len() as u32;
        assert_eq!(quad_groups[ci].count, 6 * solids);
        assert_eq!(point_groups[ci].count, 6 * solids);
    }
}
