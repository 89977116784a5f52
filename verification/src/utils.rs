//! Absolute world-space voxel coordinates.

use vstd::prelude::*;

use crate::chunk::{
    grid3_dims_ok, spec_chunk_height, spec_sub_x, spec_sub_y, spec_sub_z, BlockSubPos,
};
use crate::world::{grid2_dims_ok, spec_chunk_x, spec_chunk_z, spec_grid_length, ChunkPos};

verus! {

/// An absolute voxel position in the world: `x` and `z` span the horizontal
/// plane across all chunks, `y` is the height level. The world is one chunk
/// tall, so `y` never exceeds a chunk's height.
#[derive(Debug, Clone, Copy, PartialEq, Eq, Structural)]
pub struct WorldPosition {
    pub x: u32,
    pub y: u16,
    pub z: u32,
}

/// The position one step along `+x`.
pub open spec fn spec_ix(p: WorldPosition) -> WorldPosition {
    WorldPosition { x: (p.x + 1) as u32, y: p.y, z: p.z }
}

/// The position one step along `+y`.
pub open spec fn spec_iy(p: WorldPosition) -> WorldPosition {
    WorldPosition { x: p.x, y: (p.y + 1) as u16, z: p.z }
}

/// The position one step along `+z`.
pub open spec fn spec_iz(p: WorldPosition) -> WorldPosition {
    WorldPosition { x: p.x, y: p.y, z: (p.z + 1) as u32 }
}

/// The absolute position of the block at flat index `bi` of the chunk at
/// flat index `ci`: horizontal components combine the chunk's grid cell
/// with the block's offset inside it, the height is the block's own level
/// (chunks do not stack vertically).
pub open spec fn spec_world_pos_of(
    ci: int,
    bi: int,
    world_width: int,
    chunk_width: int,
) -> WorldPosition {
    WorldPosition {
        x: (spec_chunk_x(ci, world_width) * chunk_width + spec_sub_x(bi, chunk_width)) as u32,
        y: spec_sub_y(bi, chunk_width) as u16,
        z: (spec_chunk_z(ci, world_width) * chunk_width + spec_sub_z(bi, chunk_width)) as u32,
    }
}

impl WorldPosition {
    /// The absolute position of block `blk` of chunk `chk`:
    /// `x = chunk_x * CHUNK_WIDTH + block_x`, likewise for `z`, and
    /// `y = block_y`.
    pub fn from_parts<
        const SIZE: usize,
        const WIDTH: usize,
        const CHUNK_SIZE: usize,
        const CHUNK_WIDTH: usize,
    >(chk: ChunkPos<SIZE, WIDTH>, blk: BlockSubPos<CHUNK_SIZE, CHUNK_WIDTH>) -> (r: Self)
        requires
            grid2_dims_ok(SIZE, WIDTH),
            grid3_dims_ok(CHUNK_SIZE, CHUNK_WIDTH),
            chk.wf(),
            blk.wf(),
            (WIDTH as int) * (CHUNK_WIDTH as int) <= 0xFFFF_FFFF,
            spec_grid_length(SIZE, WIDTH) * (CHUNK_WIDTH as int) <= 0xFFFF_FFFF,
        ensures
            r == spec_world_pos_of(chk@, blk@, WIDTH as int, CHUNK_WIDTH as int),
            (r.x as int) < (WIDTH as int) * (CHUNK_WIDTH as int),
            (r.z as int) < spec_grid_length(SIZE, WIDTH) * (CHUNK_WIDTH as int),
            (r.y as int) < spec_chunk_height(CHUNK_SIZE, CHUNK_WIDTH),
    {
        let (chk_x, chk_z) = chk.xz();
        let (blk_x, blk_y, blk_z) = blk.xyz();
        proof {
            let w = WIDTH as int;
            let l = spec_grid_length(SIZE, WIDTH);
            let cw = CHUNK_WIDTH as int;
            assert((chk_x as int) * cw + (blk_x as int) < w * cw) by (nonlinear_arith)
                requires
                    0 < cw,
                    0 <= (chk_x as int) < w,
                    0 <= (blk_x as int) < cw,
            ;
            assert((chk_z as int) * cw + (blk_z as int) < l * cw) by (nonlinear_arith)
                requires
                    0 < cw,
                    0 <= (chk_z as int) < l,
                    0 <= (blk_z as int) < cw,
            ;
        }
        Self {
            x: (chk_x as u32) * (CHUNK_WIDTH as u32) + (blk_x as u32),
            y: blk_y,
            z: (chk_z as u32) * (CHUNK_WIDTH as u32) + (blk_z as u32),
        }
    }

    /// Unit step along `+x`. Callers stay at most one step beyond a block's
    /// origin corner, so the bound is a machine limit, not a grid bound.
    pub fn ix(self) -> (r: Self)
        requires
            self.x < u32::MAX,
        ensures
            r == spec_ix(self),
    {
        Self { x: self.x + 1, y: self.y, z: self.z }
    }

    /// Unit step along `+y`.
    pub fn iy(self) -> (r: Self)
        requires
            self.y < u16::MAX,
        ensures
            r == spec_iy(self),
    {
        Self { x: self.x, y: self.y + 1, z: self.z }
    }

    /// Unit step along `+z`.
    pub fn iz(self) -> (r: Self)
        requires
            self.z < u32::MAX,
        ensures
            r == spec_iz(self),
    {
        Self { x: self.x, y: self.y, z: self.z + 1 }
    }
}

} // verus!
