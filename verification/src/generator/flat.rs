//! The flat-terrain generator: every column gets the same vertical profile.

use vstd::prelude::*;

use crate::block::{Block, BlockId};
use crate::chunk::{grid3_dims_ok, spec_sub_y, BlockSubPos, Chunk};
use crate::generator::WorldGenerator;
use crate::packs::SimpleBlockId;
use crate::world::{grid2_dims_ok, ChunkPos, World};

verus! {

/// The block that a recipe assigns to a height level: solid with the
/// recipe's kind where the recipe lists one, otherwise empty — including
/// every level beyond the recipe's length.
pub open spec fn spec_level_block<Id: BlockId>(recipe: Seq<Option<Id>>, level: int) -> Block<Id> {
    if 0 <= level < recipe.len() {
        match recipe[level] {
            Option::Some(id) => Block::Solid { id },
            Option::None => Block::Empty,
        }
    } else {
        Block::Empty
    }
}

/// A flat-terrain generator: a per-height-level recipe, read by each
/// block's `y` coordinate regardless of its horizontal position.
#[derive(Debug)]
pub struct Flat<Id: BlockId> {
    recipe: Vec<Option<Id>>,
}

impl<Id: BlockId> View for Flat<Id> {
    type V = Seq<Option<Id>>;

    closed spec fn view(&self) -> Seq<Option<Id>> {
        self.recipe@
    }
}

impl<Id: BlockId> Flat<Id> {
    /// The block this recipe assigns to height `level`.
    fn get_block(&self, level: u16) -> (r: Block<Id>)
        ensures
            r == spec_level_block(self@, level as int),
    {
        if (level as usize) < self.recipe.len() {
            match self.recipe[level as usize] {
                Option::Some(id) => Block::Solid { id },
                Option::None => Block::Empty,
            }
        } else {
            Block::Empty
        }
    }

    /// A generator with an explicit per-level recipe.
    pub fn new(recipe: Vec<Option<Id>>) -> (r: Self)
        ensures
            r@ == recipe@,
    {
        Self { recipe }
    }
}

impl<Id: SimpleBlockId> Flat<Id> {
    /// A uniform column of the simple filler kind, `level - 1` blocks deep,
    /// topped with the distinct simple-top kind; for `level == 0`, the
    /// empty recipe.
    pub fn new_simple(level: usize) -> (r: Self)
        ensures
            r@.len() == level as int,
            forall|i: int| 0 <= i < level as int - 1 ==> r@[i] == Some(Id::spec_simple_block()),
            level > 0 ==> r@[level as int - 1] == Some(Id::spec_simple_top_block()),
    {
        let mut recipe: Vec<Option<Id>> = Vec::new();
        if level == 0 {
            return Self { recipe };
        }
        let filler = Id::get_simple_block();
        let mut n: usize = 0;
        while n < level - 1
            invariant
                level > 0,
                n as int == recipe@.len(),
                n <= level - 1,
                forall|i: int| 0 <= i < n as int ==> recipe@[i] == Some(filler),
                filler == Id::spec_simple_block(),
            decreases level - n,
        {
            recipe.push(Some(filler));
            n = n + 1;
        }
        recipe.push(Some(Id::get_simple_top_block()));
        Self { recipe }
    }
}

/// The column law of a simple flat recipe (as built by
/// [`Flat::new_simple`]): a block is solid exactly below height `level`;
/// every solid block below the topmost level carries the simple filler
/// kind, and the topmost solid level carries the distinct top kind.
pub proof fn lemma_flat_simple_column<Id: SimpleBlockId>(
    recipe: Seq<Option<Id>>,
    level: int,
    y: int,
)
    requires
        recipe.len() == level,
        forall|i: int| 0 <= i < level - 1 ==> recipe[i] == Some(Id::spec_simple_block()),
        level > 0 ==> recipe[level - 1] == Some(Id::spec_simple_top_block()),
        0 <= y,
    ensures
        (spec_level_block(recipe, y) is Solid) == (y < level),
        y < level - 1 ==> spec_level_block(recipe, y) == (Block::Solid {
            id: Id::spec_simple_block(),
        }),
        y == level - 1 ==> spec_level_block(recipe, y) == (Block::Solid {
            id: Id::spec_simple_top_block(),
        }),
{
}

impl<
    Id: BlockId,
    const SIZE: usize,
    const WIDTH: usize,
    const CHUNK_SIZE: usize,
    const CHUNK_WIDTH: usize,
> WorldGenerator<Id, SIZE, WIDTH, CHUNK_SIZE, CHUNK_WIDTH> for Flat<Id> {
    /// Fills every column of every chunk with the recipe's profile: the
    /// block at height `y` is exactly what the recipe assigns to `y`.
    fn generate(&self, world: &mut World<Id, SIZE, WIDTH, CHUNK_SIZE, CHUNK_WIDTH>)
        ensures
            forall|c: int, b: int|
                0 <= c < SIZE as int && 0 <= b < CHUNK_SIZE as int ==> final(world)@[c]@[b]
                    == spec_level_block(self@, spec_sub_y(b, CHUNK_WIDTH as int)),
    {
        let mut ci: usize = 0;
        while ci < SIZE
            invariant
                grid2_dims_ok(SIZE, WIDTH),
                grid3_dims_ok(CHUNK_SIZE, CHUNK_WIDTH),
                world.wf(),
                ci <= SIZE,
                forall|c: int, b: int|
                    0 <= c < ci as int && 0 <= b < CHUNK_SIZE as int ==> world@[c]@[b]
                        == spec_level_block(self@, spec_sub_y(b, CHUNK_WIDTH as int)),
            decreases SIZE - ci,
        {
            let mut blocks: Vec<Block<Id>> = Vec::new();
            let mut bi: usize = 0;
            while bi < CHUNK_SIZE
                invariant
                    grid3_dims_ok(CHUNK_SIZE, CHUNK_WIDTH),
                    bi as int == blocks@.len(),
                    bi <= CHUNK_SIZE,
                    forall|b: int|
                        0 <= b < bi as int ==> blocks@[b] == spec_level_block(
                            self@,
                            spec_sub_y(b, CHUNK_WIDTH as int),
                        ),
                decreases CHUNK_SIZE - bi,
            {
                let pos = BlockSubPos::<CHUNK_SIZE, CHUNK_WIDTH>::from_index(bi);
                let (_, level, _) = pos.xyz();
                blocks.push(self.get_block(level));
                bi = bi + 1;
            }
            let chunk = Chunk::from_blocks(blocks);
            world.set_chunk(ChunkPos::from_index(ci), chunk);
            ci = ci + 1;
        }
    }
}

} // verus!
