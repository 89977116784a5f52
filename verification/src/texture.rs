//! The block-face and texture-tile data model.
//!
//! A solid block kind assigns one texture tile to each of its six faces. The
//! mesh builders pack a tile index together with a small per-vertex code into
//! a single 32-bit attribute: bits 31..16 hold the tile index, the low bits
//! hold either a 2-bit corner-order code (quad meshes) or the face ordinal
//! (point meshes).

use vstd::prelude::*;

verus! {

/// One of the six axis-aligned faces of a voxel cube.
///
/// The declaration order is load-bearing: it fixes the face ordinals `0..6`
/// used by the point-mesh attribute encoding and the emission order of the
/// mesh builders.
#[derive(Debug, Clone, Copy, PartialEq, Eq, Structural)]
pub enum BlockFace {
    North,
    South,
    East,
    West,
    Up,
    Down,
}

/// The ordinal of a face in declaration order.
pub open spec fn face_ordinal(f: BlockFace) -> int {
    match f {
        BlockFace::North => 0,
        BlockFace::South => 1,
        BlockFace::East => 2,
        BlockFace::West => 3,
        BlockFace::Up => 4,
        BlockFace::Down => 5,
    }
}

/// The face with the given ordinal; the inverse of [`face_ordinal`].
pub open spec fn spec_face(k: int) -> BlockFace {
    if k == 0 {
        BlockFace::North
    } else if k == 1 {
        BlockFace::South
    } else if k == 2 {
        BlockFace::East
    } else if k == 3 {
        BlockFace::West
    } else if k == 4 {
        BlockFace::Up
    } else {
        BlockFace::Down
    }
}

impl BlockFace {
    /// The face's ordinal in declaration order, `0..6`.
    pub fn face_id(self) -> (r: u8)
        ensures
            r == face_ordinal(self),
    {
        match self {
            BlockFace::North => 0,
            BlockFace::South => 1,
            BlockFace::East => 2,
            BlockFace::West => 3,
            BlockFace::Up => 4,
            BlockFace::Down => 5,
        }
    }

    /// The face with ordinal `k`, enumerating the faces in declaration order.
    pub fn from_ordinal(k: u8) -> (r: Self)
        requires
            k < 6,
        ensures
            r == spec_face(k as int),
            face_ordinal(r) == k,
    {
        if k == 0 {
            BlockFace::North
        } else if k == 1 {
            BlockFace::South
        } else if k == 2 {
            BlockFace::East
        } else if k == 3 {
            BlockFace::West
        } else if k == 4 {
            BlockFace::Up
        } else {
            BlockFace::Down
        }
    }
}

/// Every face ordinal decodes to exactly the face that encodes back to it:
/// the ordinal mapping is a bijection between the six faces and `0..6`.
pub proof fn lemma_face_ordinal_bijective()
    ensures
        forall|k: int| 0 <= k < 6 ==> face_ordinal(#[trigger] spec_face(k)) == k,
        forall|f: BlockFace| spec_face(#[trigger] face_ordinal(f)) == f,
{
}

/// An index into the texture-tile array: the position of one tile in the
/// atlas, assigned in insertion order by the sprite sheet.
#[derive(Debug, Clone, Copy, PartialEq, Eq, Structural)]
pub struct TextureIndex(pub u16);

/// A texture tile paired with a 2-bit corner-order code, ready to be packed
/// into the 32-bit vertex attribute.
#[derive(Debug, Clone, Copy, PartialEq, Eq, Structural)]
pub struct TextureInfo {
    index: u16,
    order: u8,
}

/// The packed 32-bit attribute: bits 31..16 the tile index, low bits `low`.
pub open spec fn spec_pack_tex(index: u16, low: u8) -> u32 {
    (0x10000 * (index as int) + (low as int)) as u32
}

/// The corner-order code of corner `j` of a quad, in emission order: the
/// fixed 2-bit cycle `0b00, 0b01, 0b11, 0b10`.
pub open spec fn spec_corner_order(j: int) -> u8 {
    if j == 0 {
        0
    } else if j == 1 {
        1
    } else if j == 2 {
        3
    } else {
        2
    }
}

impl View for TextureInfo {
    type V = (u16, u8);

    closed spec fn view(&self) -> (u16, u8) {
        (self.index, self.order)
    }
}

impl TextureInfo {
    /// A tile index paired with a corner-order (or face) code.
    pub fn new(index: u16, order: u8) -> (r: Self)
        ensures
            r@ == (index, order),
    {
        TextureInfo { index, order }
    }

    /// Packs the tile index into bits 31..16 and the code into the low bits.
    pub fn into_u32(self) -> (r: u32)
        ensures
            r == spec_pack_tex(self@.0, self@.1),
    {
        let i: u16 = self.index;
        let hi: u32 = (i as u32) << 16u32;
        assert(((i as u32) << 16u32) == 0x10000 * (i as u32)) by (bit_vector);
        hi + (self.order as u32)
    }
}

impl TextureIndex {
    /// The four [`TextureInfo`] values for the four corners of one quad, in
    /// emission order. This is the only place the corner order is defined;
    /// both mesh builders reuse it.
    pub fn into_arr(&self) -> (r: [TextureInfo; 4])
        ensures
            forall|j: int| 0 <= j < 4 ==> (#[trigger] r[j])@ == (self.0, spec_corner_order(j)),
    {
        [
            TextureInfo::new(self.0, 0b00),
            TextureInfo::new(self.0, 0b01),
            TextureInfo::new(self.0, 0b11),
            TextureInfo::new(self.0, 0b10),
        ]
    }
}

/// The per-face texture assignment of one solid block kind: a total mapping
/// from each of the six faces to a tile index.
#[derive(Debug, Clone, Copy, PartialEq, Eq, Structural)]
pub struct SolidBlockDefinition {
    pub north: TextureIndex,
    pub south: TextureIndex,
    pub east: TextureIndex,
    pub west: TextureIndex,
    pub up: TextureIndex,
    pub down: TextureIndex,
}

/// The tile assigned to face `f` by definition `d`.
pub open spec fn spec_face_texture(d: SolidBlockDefinition, f: BlockFace) -> TextureIndex {
    match f {
        BlockFace::North => d.north,
        BlockFace::South => d.south,
        BlockFace::East => d.east,
        BlockFace::West => d.west,
        BlockFace::Up => d.up,
        BlockFace::Down => d.down,
    }
}

impl SolidBlockDefinition {
    /// Assigns the same tile to all six faces.
    pub fn new_simple_block(uv: TextureIndex) -> (r: Self)
        ensures
            r == (SolidBlockDefinition {
                north: uv,
                south: uv,
                east: uv,
                west: uv,
                up: uv,
                down: uv,
            }),
            forall|f: BlockFace| spec_face_texture(r, f) == uv,
    {
        Self { north: uv, south: uv, east: uv, west: uv, up: uv, down: uv }
    }

    /// Assigns a tile to each face explicitly.
    pub fn new_block(
        north: TextureIndex,
        south: TextureIndex,
        east: TextureIndex,
        west: TextureIndex,
        up: TextureIndex,
        down: TextureIndex,
    ) -> (r: Self)
        ensures
            r == (SolidBlockDefinition { north, south, east, west, up, down }),
    {
        Self { north, south, east, west, up, down }
    }

    /// The tile assigned to one face; total, by construction.
    pub fn face_texture(&self, f: BlockFace) -> (r: TextureIndex)
        ensures
            r == spec_face_texture(*self, f),
    {
        match f {
            BlockFace::North => self.north,
            BlockFace::South => self.south,
            BlockFace::East => self.east,
            BlockFace::West => self.west,
            BlockFace::Up => self.up,
            BlockFace::Down => self.down,
        }
    }
}

} // verus!
