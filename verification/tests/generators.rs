//! World container and generator behaviour: zero-filled creation, the flat
//! column profile, and the three random strategies.

use voxel_benchmark::block::Block;
use voxel_benchmark::chunk::BlockSubPos;
use voxel_benchmark::generator::flat::Flat;
use voxel_benchmark::generator::random::{RandomGenerator, FILL_RATE_DENOM};
use voxel_benchmark::generator::WorldGenerator;
use voxel_benchmark::packs::basic::BasicId;
use voxel_benchmark::world::{ChunkPos, World};

// A small world: a 2 x 2 chunk grid of 2 x 8 x 2 chunks.
type SmallWorld = World<BasicId, 4, 2, 32, 2>;

fn for_each_block(world: &SmallWorld, mut f: impl FnMut(u16, u16, u16, Block<BasicId>)) {
    for ci in 0..4usize {
        let chunk = world.chunk(ChunkPos::from_index(ci));
        for bi in 0..32usize {
            let pos = BlockSubPos::<32, 2>::from_index(bi);
            let (x, y, z) = pos.xyz();
            f(x, y, z, chunk.get(pos));
        }
    }
}

#[test]
fn fresh_world_is_all_empty() {
    let world: Box<SmallWorld> = World::create();
    let mut seen = 0usize;
    for_each_block(&world, |_, _, _, b| {
        assert!(b.is_empty());
        assert_eq!(b, Block::Empty);
        seen += 1;
    });
    assert_eq!(seen, 4 * 32);
}

#[test]
fn flat_simple_fills_columns_to_level() {
    let mut world: Box<SmallWorld> = World::create();
    let gen: Flat<BasicId> = Flat::new_simple(3);
    gen.generate(world.as_mut());
    for_each_block(&world, |_, y, _, b| match y {
        0 | 1 => assert_eq!(b, Block::Solid { id: BasicId::Dirt }),
        2 => assert_eq!(b, Block::Solid { id: BasicId::DirtGrass }),
        _ => assert!(b.is_empty()),
    });
    // Exactly `level` solid blocks per column.
    let mut solids_per_column = std::collections::HashMap::new();
    for ci in 0..4usize {
        let chunk = world.chunk(ChunkPos::from_index(ci));
        for (pos, _) in chunk.iter_solid() {
            let (x, _, z) = pos.xyz();
            *solids_per_column.entry((ci, x, z)).or_insert(0usize) += 1;
        }
    }
    assert_eq!(solids_per_column.len(), 4 * 2 * 2);
    assert!(solids_per_column.values().all(|&n| n == 3));
}

#[test]
fn flat_simple_level_one_keeps_only_top_kind() {
    let mut world: Box<SmallWorld> = World::create();
    let gen: Flat<BasicId> = Flat::new_simple(1);
    gen.generate(world.as_mut());
    for_each_block(&world, |_, y, _, b| {
        if y == 0 {
            assert_eq!(b, Block::Solid { id: BasicId::DirtGrass });
        } else {
            assert!(b.is_empty());
        }
    });
}

#[test]
fn flat_simple_level_zero_is_empty_column() {
    let mut world: Box<SmallWorld> = World::create();
    let gen: Flat<BasicId> = Flat::new_simple(0);
    gen.generate(world.as_mut());
    for_each_block(&world, |_, _, _, b| assert!(b.is_empty()));
}

#[test]
fn flat_explicit_recipe_reads_height_level() {
    let mut world: Box<SmallWorld> = World::create();
    let gen = Flat::new(vec![None, Some(BasicId::Stone), None, Some(BasicId::Sand)]);
    gen.generate(world.as_mut());
    for_each_block(&world, |_, y, _, b| match y {
        1 => assert_eq!(b, Block::Solid { id: BasicId::Stone }),
        3 => assert_eq!(b, Block::Solid { id: BasicId::Sand }),
        _ => assert!(b.is_empty()),
    });
}

#[test]
fn random_fill_leaves_no_empty_block() {
    let mut world: Box<SmallWorld> = World::create();
    RandomGenerator::Fill.generate(world.as_mut());
    for_each_block(&world, |_, _, _, b| assert!(!b.is_empty()));
}

#[test]
fn fill_rate_zero_leaves_no_solid_block() {
    let mut world: Box<SmallWorld> = World::create();
    RandomGenerator::Fill.generate(world.as_mut());
    RandomGenerator::FillRate(0).generate(world.as_mut());
    for_each_block(&world, |_, _, _, b| assert!(b.is_empty()));
}

#[test]
fn fill_rate_full_leaves_no_empty_block() {
    let mut world: Box<SmallWorld> = World::create();
    RandomGenerator::FillRate(FILL_RATE_DENOM).generate(world.as_mut());
    for_each_block(&world, |_, _, _, b| assert!(!b.is_empty()));
}

#[test]
fn random_odd_matches_parity_predicate() {
    let mut world: Box<SmallWorld> = World::create();
    RandomGenerator::Odd.generate(world.as_mut());
    for_each_block(&world, |x, y, z, b| {
        let solid = (x ^ y ^ z) % 2 == 0;
        assert_eq!(!b.is_empty(), solid);
    });
}
