//! Random world generators: full fill, parity checkerboard, and
//! probabilistic fill.

use rand::Rng;
use vstd::prelude::*;

use crate::block::Block;
use crate::chunk::{grid3_dims_ok, spec_sub_x, spec_sub_y, spec_sub_z, BlockSubPos, Chunk};
use crate::generator::WorldGenerator;
use crate::packs::SimpleBlockId;
use crate::world::{grid2_dims_ok, ChunkPos, World};

verus! {

/// The denominator of a [`RandomGenerator::FillRate`] probability: a rate
/// of `FILL_RATE_DENOM` fills every block, a rate of `0` fills none.
pub const FILL_RATE_DENOM: u32 = 0x100_0000;

/// A uniform draw from `[0, bound)`.
///
/// Relies on `rand::Rng::gen_range` on `rand::thread_rng()`: a uniform
/// sample from a non-empty half-open range, panicking only on an empty one.
#[verifier::external_body]
pub(crate) fn random_below(bound: u32) -> (r: u32)
    requires
        0 < bound,
    ensures
        r < bound,
{
    rand::thread_rng().gen_range(0..bound)
}

/// Whether the parity checkerboard makes the block at chunk-local
/// coordinates `(x, y, z)` solid: the XOR of the components is even.
pub open spec fn spec_odd_solid(x: u16, y: u16, z: u16) -> bool {
    ((x ^ y ^ z) % 2) == 0
}

/// A generator whose block kinds are drawn at random.
#[derive(Debug)]
pub enum RandomGenerator {
    /// Every block becomes solid, each with a random kind.
    Fill,
    /// A block is solid (with a random kind) exactly where the XOR of its
    /// chunk-local coordinates is even — a 3D checkerboard.
    Odd,
    /// Each block is independently solid with probability
    /// `rate / FILL_RATE_DENOM`, saturating at 1 for larger rates.
    FillRate(u32),
}

impl<
    Id: SimpleBlockId,
    const SIZE: usize,
    const WIDTH: usize,
    const CHUNK_SIZE: usize,
    const CHUNK_WIDTH: usize,
> WorldGenerator<Id, SIZE, WIDTH, CHUNK_SIZE, CHUNK_WIDTH> for RandomGenerator {
    /// Overwrites every block. `Fill` leaves no empty block; `Odd` makes a
    /// block solid exactly where its coordinate parity is even; a fill
    /// rate of `0` leaves every block empty and a rate of at least
    /// `FILL_RATE_DENOM` leaves none.
    fn generate(&self, world: &mut World<Id, SIZE, WIDTH, CHUNK_SIZE, CHUNK_WIDTH>)
        ensures
            forall|c: int, b: int|
                0 <= c < SIZE as int && 0 <= b < CHUNK_SIZE as int ==> self.spec_block_ok(
                    #[trigger] final(world)@[c]@[b],
                    b,
                    CHUNK_WIDTH as int,
                ),
    {
        let mut ci: usize = 0;
        while ci < SIZE
            invariant
                grid2_dims_ok(SIZE, WIDTH),
                grid3_dims_ok(CHUNK_SIZE, CHUNK_WIDTH),
                world.wf(),
                ci <= SIZE,
                forall|c: int, b: int|
                    0 <= c < ci as int && 0 <= b < CHUNK_SIZE as int ==> self.spec_block_ok(
                        #[trigger] world@[c]@[b],
                        b,
                        CHUNK_WIDTH as int,
                    ),
            decreases SIZE - ci,
        {
            let mut blocks: Vec<Block<Id>> = Vec::new();
            let mut bi: usize = 0;
            while bi < CHUNK_SIZE
                invariant
                    grid3_dims_ok(CHUNK_SIZE, CHUNK_WIDTH),
                    bi as int == blocks@.len(),
                    bi <= CHUNK_SIZE,
                    forall|b: int|
                        0 <= b < bi as int ==> self.spec_block_ok(
                            #[trigger] blocks@[b],
                            b,
                            CHUNK_WIDTH as int,
                        ),
                decreases CHUNK_SIZE - bi,
            {
                let pos = BlockSubPos::<CHUNK_SIZE, CHUNK_WIDTH>::from_index(bi);
                let block = match self {
                    RandomGenerator::Fill => Block::Solid { id: Id::get_random_block() },
                    RandomGenerator::Odd => {
                        let (x, y, z) = pos.xyz();
                        if (x ^ y ^ z) % 2 == 0 {
                            Block::Solid { id: Id::get_random_block() }
                        } else {
                            Block::Empty
                        }
                    },
                    RandomGenerator::FillRate(rate) => {
                        let draw = random_below(FILL_RATE_DENOM);
                        if draw < *rate {
                            Block::Solid { id: Id::get_random_block() }
                        } else {
                            Block::Empty
                        }
                    },
                };
                blocks.push(block);
                bi = bi + 1;
            }
            let chunk = Chunk::from_blocks(blocks);
            world.set_chunk(ChunkPos::from_index(ci), chunk);
            ci = ci + 1;
        }
    }
}

impl RandomGenerator {
    /// What this strategy promises of the block it wrote at chunk-local
    /// flat index `b`.
    pub open spec fn spec_block_ok<Id: SimpleBlockId>(
        self,
        block: Block<Id>,
        b: int,
        chunk_width: int,
    ) -> bool {
        match self {
            RandomGenerator::Fill => block is Solid,
            RandomGenerator::Odd => (block is Solid) == spec_odd_solid(
                spec_sub_x(b, chunk_width) as u16,
                spec_sub_y(b, chunk_width) as u16,
                spec_sub_z(b, chunk_width) as u16,
            ),
            RandomGenerator::FillRate(rate) => {
                &&& rate == 0 ==> block is Empty
                &&& rate >= FILL_RATE_DENOM ==> block is Solid
            },
        }
    }
}

} // verus!
