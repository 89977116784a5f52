//! Coordinate-system behaviour: round trips, bijectivity on the index
//! range, composition into world positions, and the position iterators.

use voxel_benchmark::chunk::{calc_height, BlockSubPos, BlockSubPosIterator};
use voxel_benchmark::utils::WorldPosition;
use voxel_benchmark::world::{ChunkPos, ChunkPosIterator};

#[test]
fn chunk_pos_round_trip_all() {
    // 4 x 4 chunk grid.
    for x in 0..4u16 {
        for z in 0..4u16 {
            let pos = ChunkPos::<16, 4>::new(x, z);
            let back = ChunkPos::<16, 4>::from_index(pos.as_index());
            assert_eq!(back.xz(), (x, z));
        }
    }
}

#[test]
fn chunk_pos_index_bijection() {
    for i in 0..16usize {
        let (x, z) = ChunkPos::<16, 4>::from_index(i).xz();
        assert!(x < 4 && z < 4);
        assert_eq!(ChunkPos::<16, 4>::new(x, z).as_index(), i);
    }
}

#[test]
fn chunk_pos_encoding_is_row_major() {
    assert_eq!(ChunkPos::<16, 4>::new(0, 0).as_index(), 0);
    assert_eq!(ChunkPos::<16, 4>::new(1, 0).as_index(), 1);
    assert_eq!(ChunkPos::<16, 4>::new(0, 1).as_index(), 4);
    assert_eq!(ChunkPos::<16, 4>::new(3, 3).as_index(), 15);
}

#[test]
fn block_sub_pos_round_trip_all() {
    // 2 x 8 x 2 chunk: width 2, height 8.
    for x in 0..2u16 {
        for y in 0..8u16 {
            for z in 0..2u16 {
                let pos = BlockSubPos::<32, 2>::new(x, y, z);
                let back = BlockSubPos::<32, 2>::from_index(pos.as_index());
                assert_eq!(back.xyz(), (x, y, z));
            }
        }
    }
}

#[test]
fn block_sub_pos_index_bijection() {
    for i in 0..32usize {
        let (x, y, z) = BlockSubPos::<32, 2>::from_index(i).xyz();
        assert!(x < 2 && z < 2 && y < 8);
        assert_eq!(BlockSubPos::<32, 2>::new(x, y, z).as_index(), i);
    }
}

#[test]
fn block_sub_pos_encoding_is_row_major() {
    // index = x + (z + y * WIDTH) * WIDTH with x fastest, then z, then y.
    assert_eq!(BlockSubPos::<32, 2>::new(1, 0, 0).as_index(), 1);
    assert_eq!(BlockSubPos::<32, 2>::new(0, 0, 1).as_index(), 2);
    assert_eq!(BlockSubPos::<32, 2>::new(0, 1, 0).as_index(), 4);
    assert_eq!(BlockSubPos::<32, 2>::new(1, 7, 1).as_index(), 31);
}

#[test]
fn calc_height_matches_division() {
    assert_eq!(calc_height(32, 2), 8);
    assert_eq!(calc_height(8192, 16), 32);
}

#[test]
fn world_position_composes_chunk_and_block() {
    let chk = ChunkPos::<16, 4>::new(2, 3);
    let blk = BlockSubPos::<32, 2>::new(1, 5, 0);
    let p = WorldPosition::from_parts(chk, blk);
    assert_eq!(p, WorldPosition { x: 2 * 2 + 1, y: 5, z: 3 * 2 + 0 });
}

#[test]
fn world_position_unit_steps() {
    let p = WorldPosition { x: 7, y: 3, z: 11 };
    assert_eq!(p.ix(), WorldPosition { x: 8, y: 3, z: 11 });
    assert_eq!(p.iy(), WorldPosition { x: 7, y: 4, z: 11 });
    assert_eq!(p.iz(), WorldPosition { x: 7, y: 3, z: 12 });
    assert_eq!(p.ix().iz().iy(), WorldPosition { x: 8, y: 4, z: 12 });
}

#[test]
fn block_sub_pos_iterator_ascending() {
    let mut it = BlockSubPosIterator::<8, 2>::default();
    for i in 0..8usize {
        let pos = it.next().expect("iterator ended early");
        assert_eq!(pos.as_index(), i);
    }
    assert!(it.next().is_none());
    assert!(it.next().is_none());
}

#[test]
fn chunk_pos_iterator_ascending() {
    let mut it = ChunkPosIterator::<4, 2>::default();
    for i in 0..4usize {
        let pos = it.next().expect("iterator ended early");
        assert_eq!(pos.as_index(), i);
    }
    assert!(it.next().is_none());
}
