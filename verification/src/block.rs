//! The per-voxel occupancy value and the block-kind capability.

use vstd::prelude::*;

use crate::texture::SolidBlockDefinition;

verus! {

/// A block-kind identifier: an enumerable, copyable tag for one kind of
/// solid voxel, able to tell the per-face texture assignment of that kind.
pub trait BlockId: Sized + Copy {
    /// The per-face texture assignment of this block kind.
    spec fn def_spec(self) -> SolidBlockDefinition;

    /// Looks up the per-face texture assignment of this block kind.
    fn definition(self) -> (d: SolidBlockDefinition)
        ensures
            d == self.def_spec(),
    ;
}

/// The occupancy value stored per voxel: empty space, or a solid block of
/// some kind. `Empty` is the first variant so that a zero-initialized block
/// is empty, and it is the default.
#[derive(Debug, Clone, Copy, PartialEq, Eq)]
pub enum Block<Id: BlockId> {
    Empty,
    Solid { id: Id },
}

impl<Id: BlockId> Default for Block<Id> {
    /// The default block is empty space.
    fn default() -> (r: Self)
        ensures
            r == Block::<Id>::Empty,
    {
        Self::Empty
    }
}

impl<Id: BlockId> Block<Id> {
    /// Whether this block is empty space.
    pub fn is_empty(&self) -> (r: bool)
        ensures
            r == (*self == Block::<Id>::Empty),
    {
        match *self {
            Block::Empty => true,
            _ => false,
        }
    }
}

} // verus!
