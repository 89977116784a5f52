//! The sprite sheet: named crop rectangles of a texture atlas, numbered by
//! insertion order.

use vstd::prelude::*;

use crate::texture::TextureIndex;

verus! {

/// One crop rectangle of the texture atlas, in pixels.
#[derive(Debug, Clone, Copy, PartialEq, Eq, Structural)]
pub struct SpriteDefinition {
    pub x: u32,
    pub y: u32,
    pub width: u32,
    pub height: u32,
}

impl SpriteDefinition {
    /// A crop rectangle at `(x, y)` of the given pixel size.
    pub fn new(x: u32, y: u32, width: u32, height: u32) -> (r: Self)
        ensures
            r == (SpriteDefinition { x, y, width, height }),
    {
        Self { x, y, width, height }
    }
}

/// A sprite sheet: an ordered list of crop rectangles, each with a name.
/// The position of a sprite in the list is its [`TextureIndex`]; the order
/// is the insertion order and is stable.
#[derive(Debug)]
pub struct SpriteArray {
    tiles: Vec<SpriteDefinition>,
    names: Vec<String>,
}

impl SpriteArray {
    /// The crop rectangles, in insertion order.
    pub closed spec fn spec_tiles(self) -> Seq<SpriteDefinition> {
        self.tiles@
    }

    /// The sprite names, in insertion order.
    pub closed spec fn spec_names(self) -> Seq<Seq<char>> {
        self.names@.map_values(|n: String| n@)
    }

    /// A well-formed sheet pairs every tile with a name and has few enough
    /// tiles that each position fits a [`TextureIndex`].
    pub open spec fn wf(self) -> bool {
        &&& self.spec_tiles().len() == self.spec_names().len()
        &&& self.spec_names().len() <= 0x10000
    }

    /// A sheet of the given `(name, rectangle)` pairs, numbered in order.
    pub fn from_pairs(pairs: Vec<(String, SpriteDefinition)>) -> (r: Self)
        requires
            pairs@.len() <= 0x10000,
        ensures
            r.wf(),
            r.spec_names().len() == pairs@.len(),
            forall|i: int|
                0 <= i < pairs@.len() ==> r.spec_names()[i] == (#[trigger] pairs@[i]).0@
                    && r.spec_tiles()[i] == pairs@[i].1,
    {
        let mut tiles: Vec<SpriteDefinition> = Vec::new();
        let mut names: Vec<String> = Vec::new();
        let mut i: usize = 0;
        while i < pairs.len()
            invariant
                i <= pairs@.len(),
                tiles@.len() == i as int,
                names@.len() == i as int,
                forall|j: int|
                    0 <= j < i as int ==> names@.map_values(|n: String| n@)[j] == (
                    #[trigger] pairs@[j]).0@ && tiles@[j] == pairs@[j].1,
            decreases pairs@.len() - i,
        {
            tiles.push(pairs[i].1);
            names.push(pairs[i].0.clone());
            i = i + 1;
        }
        Self { tiles, names }
    }

    /// The number of sprites.
    pub fn len(&self) -> (r: usize)
        ensures
            r as int == self.spec_tiles().len(),
    {
        self.tiles.len()
    }

    /// The crop rectangle of sprite `i`.
    pub fn tile(&self, i: usize) -> (r: SpriteDefinition)
        requires
            (i as int) < self.spec_tiles().len(),
        ensures
            r == self.spec_tiles()[i as int],
    {
        self.tiles[i]
    }

    /// The index of the first sprite with the given name, or `None` if no
    /// sprite has it.
    pub fn get(&self, name: &String) -> (r: Option<TextureIndex>)
        requires
            self.wf(),
        ensures
            r matches Some(t) ==> {
                &&& (t.0 as int) < self.spec_names().len()
                &&& self.spec_names()[t.0 as int] == name@
                &&& forall|j: int| 0 <= j < t.0 as int ==> self.spec_names()[j] != name@
            },
            r is None ==> forall|j: int|
                0 <= j < self.spec_names().len() ==> self.spec_names()[j] != name@,
    {
        let mut i: usize = 0;
        while i < self.names.len()
            invariant
                self.wf(),
                i <= self.spec_names().len(),
                forall|j: int| 0 <= j < i as int ==> self.spec_names()[j] != name@,
            decreases self.spec_names().len() - i,
        {
            if self.names[i] == *name {
                assert(self.spec_names()[i as int] == name@);
                return Some(TextureIndex(i as u16));
            }
            i = i + 1;
        }
        None
    }
}

} // verus!
