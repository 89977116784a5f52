//! Block-kind packs: concrete sets of block kinds with their per-face
//! texture assignments and the sprite sheet that numbers the tiles.

pub mod basic;
pub mod utils;

use vstd::prelude::*;

use crate::block::BlockId;

verus! {

/// A block-kind set with distinguished "simple" kinds: a filler kind, a
/// distinct top-of-column kind, and a way to draw a kind at random.
pub trait SimpleBlockId: BlockId {
    /// The filler kind used below the surface of a simple flat world.
    spec fn spec_simple_block() -> Self;

    /// The distinct kind used for the topmost level of a simple column.
    spec fn spec_simple_top_block() -> Self;

    /// The filler kind used below the surface of a simple flat world.
    fn get_simple_block() -> (r: Self)
        ensures
            r == Self::spec_simple_block(),
    ;

    /// The distinct kind used for the topmost level of a simple column.
    fn get_simple_top_block() -> (r: Self)
        ensures
            r == Self::spec_simple_top_block(),
    ;

    /// A kind drawn at random; nothing is promised about which one.
    fn get_random_block() -> Self;
}

} // verus!
