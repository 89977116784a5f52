//! Blocks within a chunk: the 3D sub-position addressing scheme and the
//! fixed-capacity block container.
//!
//! A chunk stores `SIZE` blocks in a flat array. A position inside the chunk
//! is a triple `(x, y, z)` with `x, z < WIDTH` and `y < SIZE / WIDTH / WIDTH`,
//! flattened row-major as `index = x + (z + y * WIDTH) * WIDTH`: `x` varies
//! fastest, then `z`, then `y`.

use vstd::arithmetic::div_mod::{lemma_fundamental_div_mod, lemma_fundamental_div_mod_converse};
use vstd::prelude::*;

use crate::block::{Block, BlockId};

verus! {

/// The number of height levels of a chunk grid with the given flat size and
/// horizontal width.
pub open spec fn spec_chunk_height(size: usize, width: usize) -> int {
    (size as int) / (width as int) / (width as int)
}

/// Dimension consistency for a 3D grid: the width is positive, the flat size
/// is exactly `height * width * width`, and every axis fits in 16 bits so
/// coordinates can be decoded into `u16` components.
pub open spec fn grid3_dims_ok(size: usize, width: usize) -> bool {
    &&& 0 < width
    &&& width <= 0x10000
    &&& spec_chunk_height(size, width) <= 0x10000
    &&& size as int == spec_chunk_height(size, width) * (width as int) * (width as int)
}

/// The number of height levels of a chunk: `size / width / width`.
pub fn calc_height(size: usize, width: usize) -> (r: usize)
    requires
        0 < width,
    ensures
        r as int == spec_chunk_height(size, width),
{
    size / width / width
}

/// The flat index of the block at `(x, y, z)`.
pub open spec fn spec_sub_index(x: int, y: int, z: int, width: int) -> int {
    x + (z + y * width) * width
}

/// The `x` component of the block at flat index `i`.
pub open spec fn spec_sub_x(i: int, width: int) -> int {
    i % width
}

/// The `z` component of the block at flat index `i`.
pub open spec fn spec_sub_z(i: int, width: int) -> int {
    (i / width) % width
}

/// The `y` component of the block at flat index `i`.
pub open spec fn spec_sub_y(i: int, width: int) -> int {
    i / width / width
}

/// Encoding then decoding a 3D position returns its components: the flat
/// index determines the coordinates.
pub proof fn lemma_sub_round_trip(x: int, y: int, z: int, width: int)
    requires
        0 < width,
        0 <= x < width,
        0 <= z < width,
        0 <= y,
    ensures
        spec_sub_x(spec_sub_index(x, y, z, width), width) == x,
        spec_sub_y(spec_sub_index(x, y, z, width), width) == y,
        spec_sub_z(spec_sub_index(x, y, z, width), width) == z,
{
    let i = spec_sub_index(x, y, z, width);
    let q = z + y * width;
    lemma_fundamental_div_mod_converse(i, width, q, x);
    lemma_fundamental_div_mod_converse(q, width, y, z);
}

/// The flat index of an in-range 3D position is in `[0, size)`.
pub proof fn lemma_sub_index_bound(x: int, y: int, z: int, size: usize, width: usize)
    requires
        grid3_dims_ok(size, width),
        0 <= x < width as int,
        0 <= z < width as int,
        0 <= y < spec_chunk_height(size, width),
    ensures
        0 <= spec_sub_index(x, y, z, width as int) < size as int,
{
    let w = width as int;
    let h = spec_chunk_height(size, width);
    assert(x + (z + y * w) * w < h * w * w) by (nonlinear_arith)
        requires
            0 < w,
            0 <= x < w,
            0 <= z < w,
            0 <= y,
            y < h,
    ;
    assert(0 <= x + (z + y * w) * w) by (nonlinear_arith)
        requires
            0 < w,
            0 <= x,
            0 <= z,
            0 <= y,
    ;
}

/// Decoding then re-encoding a flat index returns it, and the decoded
/// components are in range: every index in `[0, size)` corresponds to
/// exactly one in-range 3D position. Together with [`lemma_sub_round_trip`]
/// this makes the flat encoding a bijection onto `[0, size)`.
pub proof fn lemma_sub_index_round_trip(i: int, size: usize, width: usize)
    requires
        grid3_dims_ok(size, width),
        0 <= i < size as int,
    ensures
        spec_sub_index(
            spec_sub_x(i, width as int),
            spec_sub_y(i, width as int),
            spec_sub_z(i, width as int),
            width as int,
        ) == i,
        0 <= spec_sub_x(i, width as int) < width as int,
        0 <= spec_sub_z(i, width as int) < width as int,
        0 <= spec_sub_y(i, width as int) < spec_chunk_height(size, width),
{
    let w = width as int;
    let h = spec_chunk_height(size, width);
    let a = i / w;
    lemma_fundamental_div_mod(i, w);
    lemma_fundamental_div_mod(a, w);
    // i == w * a + i % w, a == w * (a / w) + a % w.
    assert((i % w + ((i / w) % w + (i / w / w) * w) * w) == i) by (nonlinear_arith)
        requires
            0 < w,
            i == w * a + i % w,
            a == i / w,
            a == w * (a / w) + a % w,
    ;
    assert(a < h * w) by (nonlinear_arith)
        requires
            0 < w,
            0 <= i < h * w * w,
            i == w * a + i % w,
            0 <= i % w < w,
    ;
    assert(a / w < h) by (nonlinear_arith)
        requires
            0 < w,
            0 <= a < h * w,
            a == w * (a / w) + a % w,
            0 <= a % w < w,
    ;
}

/// A position of a block within a chunk, stored as its flat index.
///
/// The grid is `WIDTH` wide along `x` and `z` and `SIZE / WIDTH / WIDTH`
/// tall along `y`; the index is `x + (z + y * WIDTH) * WIDTH`.
#[derive(Debug, Clone, Copy, PartialEq, Eq)]
pub struct BlockSubPos<const SIZE: usize, const WIDTH: usize>(usize);

impl<const SIZE: usize, const WIDTH: usize> View for BlockSubPos<SIZE, WIDTH> {
    type V = int;

    closed spec fn view(&self) -> int {
        self.0 as int
    }
}

impl<const SIZE: usize, const WIDTH: usize> BlockSubPos<SIZE, WIDTH> {
    /// An in-range position: its flat index is below `SIZE`.
    pub open spec fn wf(self) -> bool {
        0 <= self@ < SIZE as int
    }

    /// The position at `(x, y, z)`. Out-of-range components are a caller
    /// error, ruled out ahead of the call.
    pub fn new(x: u16, y: u16, z: u16) -> (r: Self)
        requires
            grid3_dims_ok(SIZE, WIDTH),
            (x as int) < WIDTH as int,
            (z as int) < WIDTH as int,
            (y as int) < spec_chunk_height(SIZE, WIDTH),
        ensures
            r@ == spec_sub_index(x as int, y as int, z as int, WIDTH as int),
            r.wf(),
    {
        proof {
            lemma_sub_index_bound(x as int, y as int, z as int, SIZE, WIDTH);
            let w = WIDTH as int;
            let h = spec_chunk_height(SIZE, WIDTH);
            assert((y as int) * w <= h * w * w && (z as int) + (y as int) * w <= h * w * w && ((
            z as int) + (y as int) * w) * w <= h * w * w) by (nonlinear_arith)
                requires
                    0 < w,
                    0 <= (z as int) < w,
                    0 <= (y as int) < h,
            ;
        }
        Self((x as usize) + (z as usize + (y as usize) * WIDTH) * WIDTH)
    }

    /// The position with the given flat index. An index at or beyond `SIZE`
    /// is a caller error, ruled out ahead of the call.
    pub fn from_index(input: usize) -> (r: Self)
        requires
            input < SIZE,
        ensures
            r@ == input as int,
            r.wf(),
    {
        Self(input)
    }

    /// The flat index of this position.
    pub fn as_index(self) -> (r: usize)
        ensures
            r as int == self@,
    {
        self.0
    }

    /// The `(x, y, z)` components of this position.
    pub fn xyz(self) -> (r: (u16, u16, u16))
        requires
            grid3_dims_ok(SIZE, WIDTH),
            self.wf(),
        ensures
            r.0 as int == spec_sub_x(self@, WIDTH as int),
            r.1 as int == spec_sub_y(self@, WIDTH as int),
            r.2 as int == spec_sub_z(self@, WIDTH as int),
            (r.0 as int) < WIDTH as int,
            (r.2 as int) < WIDTH as int,
            (r.1 as int) < spec_chunk_height(SIZE, WIDTH),
    {
        proof {
            lemma_sub_index_round_trip(self@, SIZE, WIDTH);
        }
        let input = self.0;
        let x = (input % WIDTH) as u16;
        let z = ((input / WIDTH) % WIDTH) as u16;
        let y = (input / WIDTH / WIDTH) as u16;
        (x, y, z)
    }
}

/// A finite, restartable enumeration of every [`BlockSubPos`] of a chunk
/// grid, in ascending flat-index order.
#[derive(Debug, Clone, PartialEq, Eq)]
pub struct BlockSubPosIterator<const SIZE: usize, const WIDTH: usize> {
    current: usize,
}

impl<const SIZE: usize, const WIDTH: usize> View for BlockSubPosIterator<SIZE, WIDTH> {
    type V = int;

    closed spec fn view(&self) -> int {
        self.current as int
    }
}

impl<const SIZE: usize, const WIDTH: usize> Default for BlockSubPosIterator<SIZE, WIDTH> {
    /// A fresh enumeration, positioned before the first index.
    fn default() -> (r: Self)
        ensures
            r@ == 0,
    {
        Self { current: 0 }
    }
}

impl<const SIZE: usize, const WIDTH: usize> BlockSubPosIterator<SIZE, WIDTH> {
    /// The next position in ascending index order, or `None` once all
    /// `SIZE` positions have been produced.
    pub fn next(&mut self) -> (r: Option<BlockSubPos<SIZE, WIDTH>>)
        ensures
            old(self)@ < SIZE as int ==> {
                &&& r matches Some(p) && p@ == old(self)@ && p.wf()
                &&& final(self)@ == old(self)@ + 1
            },
            old(self)@ >= SIZE as int ==> r is None && final(self)@ == old(self)@,
    {
        if self.current < SIZE {
            let p = BlockSubPos::from_index(self.current);
            self.current = self.current + 1;
            Some(p)
        } else {
            None
        }
    }
}

/// The `(index, id)` pairs of the solid blocks of `s`, in ascending index
/// order.
pub open spec fn solid_pairs<Id: BlockId>(s: Seq<Block<Id>>) -> Seq<(int, Id)>
    decreases s.len(),
{
    if s.len() == 0 {
        Seq::empty()
    } else {
        solid_pairs(s.drop_last()) + match s.last() {
            Block::Empty => Seq::<(int, Id)>::empty(),
            Block::Solid { id } => seq![((s.len() - 1) as int, id)],
        }
    }
}

/// Extending a block sequence by one block appends its solid pair (if any)
/// and keeps the earlier pairs.
pub proof fn lemma_solid_pairs_step<Id: BlockId>(s: Seq<Block<Id>>, i: int)
    requires
        0 <= i < s.len(),
    ensures
        solid_pairs(s.take(i + 1)) == solid_pairs(s.take(i)) + match s[i] {
            Block::Empty => Seq::<(int, Id)>::empty(),
            Block::Solid { id } => seq![(i, id)],
        },
{
    let t = s.take(i + 1);
    assert(t.drop_last() =~= s.take(i));
    assert(t.last() == s[i]);
}

/// A sequence of blocks has at most one solid pair per block.
pub proof fn lemma_solid_pairs_len<Id: BlockId>(s: Seq<Block<Id>>)
    ensures
        solid_pairs(s).len() <= s.len(),
    decreases s.len(),
{
    if s.len() > 0 {
        lemma_solid_pairs_len(s.drop_last());
    }
}

/// Every solid pair points at a solid block of `s` with its id, and the
/// indices are within bounds.
pub proof fn lemma_solid_pairs_sound<Id: BlockId>(s: Seq<Block<Id>>)
    ensures
        forall|k: int|
            0 <= k < solid_pairs(s).len() ==> {
                &&& 0 <= (#[trigger] solid_pairs(s)[k]).0 < s.len()
                &&& s[solid_pairs(s)[k].0] == (Block::Solid { id: solid_pairs(s)[k].1 })
            },
    decreases s.len(),
{
    if s.len() > 0 {
        lemma_solid_pairs_sound(s.drop_last());
        assert(forall|j: int| 0 <= j < s.len() - 1 ==> s.drop_last()[j] == s[j]);
    }
}

/// The solid pairs are listed in strictly ascending index order: the
/// emission order of the mesh builders follows the flat storage order.
pub proof fn lemma_solid_pairs_sorted<Id: BlockId>(s: Seq<Block<Id>>)
    ensures
        forall|k1: int, k2: int|
            0 <= k1 < k2 < solid_pairs(s).len() ==> (#[trigger] solid_pairs(s)[k1]).0 < (
            #[trigger] solid_pairs(s)[k2]).0,
    decreases s.len(),
{
    if s.len() > 0 {
        lemma_solid_pairs_sorted(s.drop_last());
        lemma_solid_pairs_sound(s.drop_last());
    }
}

/// Every solid block of `s` appears among its solid pairs.
pub proof fn lemma_solid_pairs_complete<Id: BlockId>(s: Seq<Block<Id>>, i: int, id: Id)
    requires
        0 <= i < s.len(),
        s[i] == (Block::Solid { id }),
    ensures
        exists|k: int|
            0 <= k < solid_pairs(s).len() && #[trigger] solid_pairs(s)[k] == (i, id),
    decreases s.len(),
{
    if i == s.len() - 1 {
        assert(solid_pairs(s)[solid_pairs(s).len() - 1] == (i, id));
    } else {
        lemma_solid_pairs_complete(s.drop_last(), i, id);
        let k = choose|k: int|
            0 <= k < solid_pairs(s.drop_last()).len() && #[trigger] solid_pairs(
                s.drop_last(),
            )[k] == (i, id);
        assert(solid_pairs(s)[k] == (i, id));
    }
}

/// A fixed-capacity container of `SIZE` blocks, addressed by
/// [`BlockSubPos`].
#[derive(Debug, Clone)]
pub struct Chunk<Id: BlockId, const SIZE: usize, const WIDTH: usize> {
    blocks: Vec<Block<Id>>,
}

impl<Id: BlockId, const SIZE: usize, const WIDTH: usize> View for Chunk<Id, SIZE, WIDTH> {
    type V = Seq<Block<Id>>;

    closed spec fn view(&self) -> Seq<Block<Id>> {
        self.blocks@
    }
}

impl<Id: BlockId, const SIZE: usize, const WIDTH: usize> Default for Chunk<Id, SIZE, WIDTH> {
    /// A chunk of `SIZE` empty blocks.
    fn default() -> (r: Self)
        ensures
            r.wf(),
            forall|i: int| 0 <= i < SIZE as int ==> r@[i] == Block::<Id>::Empty,
    {
        let mut blocks: Vec<Block<Id>> = Vec::new();
        let mut n: usize = 0;
        while n < SIZE
            invariant
                n as int == blocks@.len(),
                n <= SIZE,
                forall|i: int| 0 <= i < n as int ==> blocks@[i] == Block::<Id>::Empty,
            decreases SIZE - n,
        {
            blocks.push(Block::Empty);
            n = n + 1;
        }
        Self { blocks }
    }
}

impl<Id: BlockId, const SIZE: usize, const WIDTH: usize> Chunk<Id, SIZE, WIDTH> {
    /// A well-formed chunk holds exactly `SIZE` blocks.
    pub open spec fn wf(self) -> bool {
        self@.len() == SIZE as int
    }

    /// A chunk owning the given blocks, which must fill it exactly.
    pub fn from_blocks(blocks: Vec<Block<Id>>) -> (r: Self)
        requires
            blocks@.len() == SIZE as int,
        ensures
            r@ == blocks@,
            r.wf(),
    {
        Self { blocks }
    }

    /// The block at `pos`.
    pub fn get(&self, pos: BlockSubPos<SIZE, WIDTH>) -> (r: Block<Id>)
        requires
            self.wf(),
            pos.wf(),
        ensures
            r == self@[pos@],
    {
        self.blocks[pos.as_index()]
    }

    /// Replaces the block at `pos`.
    pub fn set_block(&mut self, pos: BlockSubPos<SIZE, WIDTH>, b: Block<Id>)
        requires
            old(self).wf(),
            pos.wf(),
        ensures
            final(self)@ == old(self)@.update(pos@, b),
            final(self).wf(),
    {
        self.blocks[pos.as_index()] = b;
    }

    /// The `(position, id)` pairs of every solid block, in ascending
    /// flat-index order; empty blocks are skipped.
    pub fn iter_solid(&self) -> (r: Vec<(BlockSubPos<SIZE, WIDTH>, Id)>)
        requires
            self.wf(),
        ensures
            r@.map_values(|p: (BlockSubPos<SIZE, WIDTH>, Id)| (p.0@, p.1)) == solid_pairs(
                self@,
            ),
            forall|k: int| 0 <= k < r@.len() ==> (#[trigger] r@[k]).0.wf(),
    {
        let mut r: Vec<(BlockSubPos<SIZE, WIDTH>, Id)> = Vec::new();
        let mut i: usize = 0;
        while i < SIZE
            invariant
                self.wf(),
                i <= SIZE,
                r@.map_values(|p: (BlockSubPos<SIZE, WIDTH>, Id)| (p.0@, p.1)) == solid_pairs(
                    self@.take(i as int),
                ),
                forall|k: int| 0 <= k < r@.len() ==> (#[trigger] r@[k]).0.wf(),
            decreases SIZE - i,
        {
            proof {
                lemma_solid_pairs_step(self@, i as int);
            }
            let ghost prev = r@.map_values(|p: (BlockSubPos<SIZE, WIDTH>, Id)| (p.0@, p.1));
            match self.blocks[i] {
                Block::Empty => {
                    proof {
                        assert(solid_pairs(self@.take(i as int + 1)) =~= prev);
                    }
                },
                Block::Solid { id } => {
                    let pos = BlockSubPos::<SIZE, WIDTH>::from_index(i);
                    r.push((pos, id));
                    proof {
                        assert(r@.map_values(
                            |p: (BlockSubPos<SIZE, WIDTH>, Id)| (p.0@, p.1),
                        ) =~= prev + seq![(i as int, id)]);
                    }
                },
            }
            i = i + 1;
        }
        proof {
            assert(self@.take(SIZE as int) =~= self@);
        }
        r
    }
}

} // verus!
