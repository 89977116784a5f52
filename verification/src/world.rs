//! The world container: a flat grid of chunks and its addressing scheme.
//!
//! The chunk grid spans the horizontal plane only (the world is one chunk
//! tall): a chunk position is a pair `(x, z)` with `x < WIDTH` and
//! `z < SIZE / WIDTH`, flattened as `index = x + z * WIDTH`.

use vstd::arithmetic::div_mod::{lemma_fundamental_div_mod, lemma_fundamental_div_mod_converse};
use vstd::prelude::*;

use crate::block::{Block, BlockId};
use crate::chunk::Chunk;

verus! {

/// The number of grid rows of a chunk grid with the given flat size and
/// width: `size / width`.
pub open spec fn spec_grid_length(size: usize, width: usize) -> int {
    (size as int) / (width as int)
}

/// Dimension consistency for the 2D chunk grid: the width is positive, the
/// flat size is exactly `length * width`, and both axes fit in 16 bits so
/// coordinates can be decoded into `u16` components.
pub open spec fn grid2_dims_ok(size: usize, width: usize) -> bool {
    &&& 0 < width
    &&& width <= 0x10000
    &&& spec_grid_length(size, width) <= 0x10000
    &&& size as int == spec_grid_length(size, width) * (width as int)
}

/// The flat index of the chunk at `(x, z)`.
pub open spec fn spec_chunk_index(x: int, z: int, width: int) -> int {
    x + z * width
}

/// The `x` component of the chunk at flat index `i`.
pub open spec fn spec_chunk_x(i: int, width: int) -> int {
    i % width
}

/// The `z` component of the chunk at flat index `i`.
pub open spec fn spec_chunk_z(i: int, width: int) -> int {
    i / width
}

/// Encoding then decoding a 2D chunk position returns its components.
pub proof fn lemma_chunk_round_trip(x: int, z: int, width: int)
    requires
        0 < width,
        0 <= x < width,
        0 <= z,
    ensures
        spec_chunk_x(spec_chunk_index(x, z, width), width) == x,
        spec_chunk_z(spec_chunk_index(x, z, width), width) == z,
{
    lemma_fundamental_div_mod_converse(spec_chunk_index(x, z, width), width, z, x);
}

/// The flat index of an in-range 2D chunk position is in `[0, size)`.
pub proof fn lemma_chunk_index_bound(x: int, z: int, size: usize, width: usize)
    requires
        grid2_dims_ok(size, width),
        0 <= x < width as int,
        0 <= z < spec_grid_length(size, width),
    ensures
        0 <= spec_chunk_index(x, z, width as int) < size as int,
{
    let w = width as int;
    let l = spec_grid_length(size, width);
    assert(0 <= x + z * w < l * w) by (nonlinear_arith)
        requires
            0 < w,
            0 <= x < w,
            0 <= z < l,
    ;
}

/// Decoding then re-encoding a flat chunk index returns it, and the decoded
/// components are in range: every index in `[0, size)` corresponds to
/// exactly one in-range chunk position. Together with
/// [`lemma_chunk_round_trip`] this makes the flat encoding a bijection onto
/// `[0, size)`.
pub proof fn lemma_chunk_index_round_trip(i: int, size: usize, width: usize)
    requires
        grid2_dims_ok(size, width),
        0 <= i < size as int,
    ensures
        spec_chunk_index(
            spec_chunk_x(i, width as int),
            spec_chunk_z(i, width as int),
            width as int,
        ) == i,
        0 <= spec_chunk_x(i, width as int) < width as int,
        0 <= spec_chunk_z(i, width as int) < spec_grid_length(size, width),
{
    let w = width as int;
    let l = spec_grid_length(size, width);
    lemma_fundamental_div_mod(i, w);
    assert(i / w < l) by (nonlinear_arith)
        requires
            0 < w,
            0 <= i < l * w,
            i == w * (i / w) + i % w,
            0 <= i % w < w,
    ;
}

/// A position of a chunk within the world grid, stored as its flat index.
#[derive(Debug, Clone, Copy, PartialEq, Eq)]
pub struct ChunkPos<const SIZE: usize, const WIDTH: usize>(usize);

impl<const SIZE: usize, const WIDTH: usize> View for ChunkPos<SIZE, WIDTH> {
    type V = int;

    closed spec fn view(&self) -> int {
        self.0 as int
    }
}

impl<const SIZE: usize, const WIDTH: usize> ChunkPos<SIZE, WIDTH> {
    /// An in-range position: its flat index is below `SIZE`.
    pub open spec fn wf(self) -> bool {
        0 <= self@ < SIZE as int
    }

    /// The position at `(x, z)`. Out-of-range components are a caller
    /// error, ruled out ahead of the call.
    pub fn new(x: u16, z: u16) -> (r: Self)
        requires
            grid2_dims_ok(SIZE, WIDTH),
            (x as int) < WIDTH as int,
            (z as int) < spec_grid_length(SIZE, WIDTH),
        ensures
            r@ == spec_chunk_index(x as int, z as int, WIDTH as int),
            r.wf(),
    {
        proof {
            lemma_chunk_index_bound(x as int, z as int, SIZE, WIDTH);
        }
        Self((x as usize) + (z as usize) * WIDTH)
    }

    /// The flat index of this position.
    pub fn as_index(self) -> (r: usize)
        ensures
            r as int == self@,
    {
        self.0
    }

    /// The position with the given flat index. An index at or beyond `SIZE`
    /// is a caller error, ruled out ahead of the call.
    pub fn from_index(input: usize) -> (r: Self)
        requires
            input < SIZE,
        ensures
            r@ == input as int,
            r.wf(),
    {
        Self(input)
    }

    /// The `(x, z)` components of this position.
    pub fn xz(self) -> (r: (u16, u16))
        requires
            grid2_dims_ok(SIZE, WIDTH),
            self.wf(),
        ensures
            r.0 as int == spec_chunk_x(self@, WIDTH as int),
            r.1 as int == spec_chunk_z(self@, WIDTH as int),
            (r.0 as int) < WIDTH as int,
            (r.1 as int) < spec_grid_length(SIZE, WIDTH),
    {
        proof {
            lemma_chunk_index_round_trip(self@, SIZE, WIDTH);
        }
        let x = (self.0 % WIDTH) as u16;
        let z = (self.0 / WIDTH) as u16;
        (x, z)
    }
}

/// A finite, restartable enumeration of every [`ChunkPos`] of the world
/// grid, in ascending flat-index order.
#[derive(Debug, Clone, PartialEq, Eq)]
pub struct ChunkPosIterator<const SIZE: usize, const WIDTH: usize> {
    current: usize,
}

impl<const SIZE: usize, const WIDTH: usize> View for ChunkPosIterator<SIZE, WIDTH> {
    type V = int;

    closed spec fn view(&self) -> int {
        self.current as int
    }
}

impl<const SIZE: usize, const WIDTH: usize> Default for ChunkPosIterator<SIZE, WIDTH> {
    /// A fresh enumeration, positioned before the first index.
    fn default() -> (r: Self)
        ensures
            r@ == 0,
    {
        Self { current: 0 }
    }
}

impl<const SIZE: usize, const WIDTH: usize> ChunkPosIterator<SIZE, WIDTH> {
    /// The next position in ascending index order, or `None` once all
    /// `SIZE` positions have been produced.
    pub fn next(&mut self) -> (r: Option<ChunkPos<SIZE, WIDTH>>)
        ensures
            old(self)@ < SIZE as int ==> {
                &&& r matches Some(p) && p@ == old(self)@ && p.wf()
                &&& final(self)@ == old(self)@ + 1
            },
            old(self)@ >= SIZE as int ==> r is None && final(self)@ == old(self)@,
    {
        if self.current < SIZE {
            let p = ChunkPos::from_index(self.current);
            self.current = self.current + 1;
            Some(p)
        } else {
            None
        }
    }
}

/// The full voxel volume: a fixed-capacity container of `SIZE` chunks,
/// addressed by [`ChunkPos`]. Chunk storage lives on the heap, so very
/// large worlds never pass through the call stack.
#[derive(Debug, Clone)]
pub struct World<
    Id: BlockId,
    const SIZE: usize,
    const WIDTH: usize,
    const CHUNK_SIZE: usize,
    const CHUNK_WIDTH: usize,
> {
    chunks: Vec<Chunk<Id, CHUNK_SIZE, CHUNK_WIDTH>>,
}

impl<
    Id: BlockId,
    const SIZE: usize,
    const WIDTH: usize,
    const CHUNK_SIZE: usize,
    const CHUNK_WIDTH: usize,
> View for World<Id, SIZE, WIDTH, CHUNK_SIZE, CHUNK_WIDTH> {
    type V = Seq<Chunk<Id, CHUNK_SIZE, CHUNK_WIDTH>>;

    closed spec fn view(&self) -> Seq<Chunk<Id, CHUNK_SIZE, CHUNK_WIDTH>> {
        self.chunks@
    }
}

impl<
    Id: BlockId,
    const SIZE: usize,
    const WIDTH: usize,
    const CHUNK_SIZE: usize,
    const CHUNK_WIDTH: usize,
> World<Id, SIZE, WIDTH, CHUNK_SIZE, CHUNK_WIDTH> {
    /// A well-formed world holds exactly `SIZE` well-formed chunks.
    pub open spec fn wf(self) -> bool {
        &&& self@.len() == SIZE as int
        &&& forall|i: int| 0 <= i < SIZE as int ==> (#[trigger] self@[i]).wf()
    }

    /// Every block of every chunk is empty space.
    pub open spec fn all_empty(self) -> bool {
        forall|i: int, j: int|
            0 <= i < self@.len() && 0 <= j < self@[i]@.len() ==> (#[trigger] self@[i]@[j])
                == Block::<Id>::Empty
    }

    /// A fresh world: heap-backed storage for `SIZE` chunks, every block
    /// zero-initialized to empty space.
    pub fn create() -> (r: Box<Self>)
        ensures
            r.wf(),
            r.all_empty(),
    {
        let mut chunks: Vec<Chunk<Id, CHUNK_SIZE, CHUNK_WIDTH>> = Vec::new();
        let mut n: usize = 0;
        while n < SIZE
            invariant
                n as int == chunks@.len(),
                n <= SIZE,
                forall|i: int| 0 <= i < n as int ==> (#[trigger] chunks@[i]).wf(),
                forall|i: int, j: int|
                    0 <= i < n as int && 0 <= j < chunks@[i]@.len() ==> (
                    #[trigger] chunks@[i]@[j]) == Block::<Id>::Empty,
            decreases SIZE - n,
        {
            chunks.push(Chunk::default());
            n = n + 1;
        }
        Box::new(Self { chunks })
    }

    /// A read-only borrow of the chunk at `pos`.
    pub fn chunk(&self, pos: ChunkPos<SIZE, WIDTH>) -> (c: &Chunk<Id, CHUNK_SIZE, CHUNK_WIDTH>)
        requires
            self.wf(),
            pos.wf(),
        ensures
            *c == self@[pos@],
    {
        &self.chunks[pos.as_index()]
    }

    /// Replaces the chunk at `pos`.
    pub fn set_chunk(&mut self, pos: ChunkPos<SIZE, WIDTH>, c: Chunk<Id, CHUNK_SIZE, CHUNK_WIDTH>)
        requires
            old(self).wf(),
            pos.wf(),
            c.wf(),
        ensures
            final(self)@ == old(self)@.update(pos@, c),
            final(self).wf(),
    {
        self.chunks[pos.as_index()] = c;
    }
}

} // verus!
