//! World generators: strategies that populate every block of a world in a
//! single full pass.

pub mod flat;
pub mod random;

use vstd::prelude::*;

use crate::block::BlockId;
use crate::chunk::grid3_dims_ok;
use crate::world::{grid2_dims_ok, World};

verus! {

/// The capability of filling a world in place, given nothing but the
/// block-kind metadata carried by `Id`. Each strategy overwrites every
/// block of every chunk; its own contract says what it writes.
pub trait WorldGenerator<
    Id: BlockId,
    const SIZE: usize,
    const WIDTH: usize,
    const CHUNK_SIZE: usize,
    const CHUNK_WIDTH: usize,
> {
    /// Overwrites every block of `world`.
    fn generate(&self, world: &mut World<Id, SIZE, WIDTH, CHUNK_SIZE, CHUNK_WIDTH>)
        requires
            grid2_dims_ok(SIZE, WIDTH),
            grid3_dims_ok(CHUNK_SIZE, CHUNK_WIDTH),
            old(world).wf(),
        ensures
            final(world).wf(),
    ;
}

} // verus!
