//! The basic block-kind pack: fourteen solid block kinds, their per-face
//! texture assignments, and the sprite sheet that numbers the atlas tiles.

use vstd::prelude::*;
use vstd::string::StringExecFns;

use crate::block::BlockId;
use crate::generator::random::random_below;
use crate::packs::utils::{SpriteArray, SpriteDefinition};
use crate::packs::SimpleBlockId;
use crate::texture::{SolidBlockDefinition, TextureIndex};

verus! {

/// The number of block kinds in [`BasicId`].
pub const BASIC_ID_COUNT: u32 = 14;

/// The basic pack: provides the sprite sheet and the per-kind texture
/// definitions of [`BasicId`].
pub struct BasicPack;

/// The block kinds of the basic pack.
#[derive(Debug, Clone, Copy, PartialEq, Eq, Structural)]
pub enum BasicId {
    Dirt,
    DirtGrass,
    DirtSand,
    DirtSnow,
    WoodRed,
    Wood,
    BrickGrey,
    BrickRed,
    Stone,
    Sand,
    RedStone,
    RedSand,
    GreyStone,
    GreySand,
}

/// The ordinal of a kind in declaration order.
pub open spec fn spec_basic_ordinal(id: BasicId) -> int {
    match id {
        BasicId::Dirt => 0,
        BasicId::DirtGrass => 1,
        BasicId::DirtSand => 2,
        BasicId::DirtSnow => 3,
        BasicId::WoodRed => 4,
        BasicId::Wood => 5,
        BasicId::BrickGrey => 6,
        BasicId::BrickRed => 7,
        BasicId::Stone => 8,
        BasicId::Sand => 9,
        BasicId::RedStone => 10,
        BasicId::RedSand => 11,
        BasicId::GreyStone => 12,
        BasicId::GreySand => 13,
    }
}

/// A definition that assigns tile `i` to all six faces.
pub open spec fn spec_uniform_def(i: u16) -> SolidBlockDefinition {
    SolidBlockDefinition {
        north: TextureIndex(i),
        south: TextureIndex(i),
        east: TextureIndex(i),
        west: TextureIndex(i),
        up: TextureIndex(i),
        down: TextureIndex(i),
    }
}

/// A definition with one tile for the four sides, and distinct top and
/// bottom tiles.
pub open spec fn spec_capped_def(side: u16, top: u16, bottom: u16) -> SolidBlockDefinition {
    SolidBlockDefinition {
        north: TextureIndex(side),
        south: TextureIndex(side),
        east: TextureIndex(side),
        west: TextureIndex(side),
        up: TextureIndex(top),
        down: TextureIndex(bottom),
    }
}

impl BasicId {
    /// The kind with ordinal `k`, enumerating the kinds in declaration
    /// order.
    pub fn from_ordinal(k: u32) -> (r: Self)
        requires
            k < BASIC_ID_COUNT,
        ensures
            spec_basic_ordinal(r) == k as int,
    {
        if k == 0 {
            BasicId::Dirt
        } else if k == 1 {
            BasicId::DirtGrass
        } else if k == 2 {
            BasicId::DirtSand
        } else if k == 3 {
            BasicId::DirtSnow
        } else if k == 4 {
            BasicId::WoodRed
        } else if k == 5 {
            BasicId::Wood
        } else if k == 6 {
            BasicId::BrickGrey
        } else if k == 7 {
            BasicId::BrickRed
        } else if k == 8 {
            BasicId::Stone
        } else if k == 9 {
            BasicId::Sand
        } else if k == 10 {
            BasicId::RedStone
        } else if k == 11 {
            BasicId::RedSand
        } else if k == 12 {
            BasicId::GreyStone
        } else {
            BasicId::GreySand
        }
    }

    /// This kind's ordinal in declaration order.
    pub fn ordinal(self) -> (r: u32)
        ensures
            r as int == spec_basic_ordinal(self),
    {
        match self {
            BasicId::Dirt => 0,
            BasicId::DirtGrass => 1,
            BasicId::DirtSand => 2,
            BasicId::DirtSnow => 3,
            BasicId::WoodRed => 4,
            BasicId::Wood => 5,
            BasicId::BrickGrey => 6,
            BasicId::BrickRed => 7,
            BasicId::Stone => 8,
            BasicId::Sand => 9,
            BasicId::RedStone => 10,
            BasicId::RedSand => 11,
            BasicId::GreyStone => 12,
            BasicId::GreySand => 13,
        }
    }
}

impl BlockId for BasicId {
    /// Tile assignments follow the sprite sheet of [`BasicPack`]: dirt-based
    /// kinds carry distinct top and bottom tiles, all other kinds one
    /// uniform tile.
    open spec fn def_spec(self) -> SolidBlockDefinition {
        match self {
            BasicId::Dirt => spec_uniform_def(9),
            BasicId::DirtGrass => spec_capped_def(10, 23, 9),
            BasicId::DirtSand => spec_capped_def(11, 48, 9),
            BasicId::DirtSnow => spec_capped_def(12, 49, 9),
            BasicId::WoodRed => spec_uniform_def(84),
            BasicId::Wood => spec_uniform_def(83),
            BasicId::BrickGrey => spec_uniform_def(0),
            BasicId::BrickRed => spec_uniform_def(1),
            BasicId::Stone => spec_uniform_def(50),
            BasicId::Sand => spec_uniform_def(48),
            BasicId::RedStone => spec_uniform_def(42),
            BasicId::RedSand => spec_uniform_def(41),
            BasicId::GreyStone => spec_uniform_def(27),
            BasicId::GreySand => spec_uniform_def(26),
        }
    }

    fn definition(self) -> (d: SolidBlockDefinition) {
        match self {
            BasicId::Dirt => SolidBlockDefinition::new_simple_block(TextureIndex(9)),
            BasicId::DirtGrass => SolidBlockDefinition::new_block(
                TextureIndex(10),
                TextureIndex(10),
                TextureIndex(10),
                TextureIndex(10),
                TextureIndex(23),
                TextureIndex(9),
            ),
            BasicId::DirtSand => SolidBlockDefinition::new_block(
                TextureIndex(11),
                TextureIndex(11),
                TextureIndex(11),
                TextureIndex(11),
                TextureIndex(48),
                TextureIndex(9),
            ),
            BasicId::DirtSnow => SolidBlockDefinition::new_block(
                TextureIndex(12),
                TextureIndex(12),
                TextureIndex(12),
                TextureIndex(12),
                TextureIndex(49),
                TextureIndex(9),
            ),
            BasicId::WoodRed => SolidBlockDefinition::new_simple_block(TextureIndex(84)),
            BasicId::Wood => SolidBlockDefinition::new_simple_block(TextureIndex(83)),
            BasicId::BrickGrey => SolidBlockDefinition::new_simple_block(TextureIndex(0)),
            BasicId::BrickRed => SolidBlockDefinition::new_simple_block(TextureIndex(1)),
            BasicId::Stone => SolidBlockDefinition::new_simple_block(TextureIndex(50)),
            BasicId::Sand => SolidBlockDefinition::new_simple_block(TextureIndex(48)),
            BasicId::RedStone => SolidBlockDefinition::new_simple_block(TextureIndex(42)),
            BasicId::RedSand => SolidBlockDefinition::new_simple_block(TextureIndex(41)),
            BasicId::GreyStone => SolidBlockDefinition::new_simple_block(TextureIndex(27)),
            BasicId::GreySand => SolidBlockDefinition::new_simple_block(TextureIndex(26)),
        }
    }
}

impl SimpleBlockId for BasicId {
    open spec fn spec_simple_block() -> Self {
        BasicId::Dirt
    }

    open spec fn spec_simple_top_block() -> Self {
        BasicId::DirtGrass
    }

    fn get_simple_block() -> (r: Self) {
        Self::Dirt
    }

    fn get_simple_top_block() -> (r: Self) {
        Self::DirtGrass
    }

    /// A kind drawn uniformly at random among the fourteen.
    fn get_random_block() -> Self {
        Self::from_ordinal(random_below(BASIC_ID_COUNT))
    }
}

impl BasicPack {
    /// The `(name, crop rectangle)` pairs of the atlas, in the insertion
    /// order that numbers the tiles.
    pub fn basic_sprites() -> (r: Vec<(String, SpriteDefinition)>)
        ensures
            r@.len() == 85,
    {
        let mut pairs: Vec<(String, SpriteDefinition)> = Vec::new();
        pairs.push((String::from_str("brick_grey.png"), SpriteDefinition::new(512, 256, 128, 128)));
        pairs.push((String::from_str("brick_red.png"), SpriteDefinition::new(1024, 384, 128, 128)));
        pairs.push((String::from_str("cactus_inside.png"), SpriteDefinition::new(1024, 256, 128, 128)));
        pairs.push((String::from_str("cactus_side.png"), SpriteDefinition::new(1024, 128, 128, 128)));
        pairs.push((String::from_str("cactus_top.png"), SpriteDefinition::new(1024, 0, 128, 128)));
        pairs.push((String::from_str("cotton_blue.png"), SpriteDefinition::new(896, 1152, 128, 128)));
        pairs.push((String::from_str("cotton_green.png"), SpriteDefinition::new(896, 1024, 128, 128)));
        pairs.push((String::from_str("cotton_red.png"), SpriteDefinition::new(896, 896, 128, 128)));
        pairs.push((String::from_str("cotton_tan.png"), SpriteDefinition::new(896, 768, 128, 128)));
        pairs.push((String::from_str("dirt.png"), SpriteDefinition::new(896, 640, 128, 128)));
        pairs.push((String::from_str("dirt_grass.png"), SpriteDefinition::new(896, 512, 128, 128)));
        pairs.push((String::from_str("dirt_sand.png"), SpriteDefinition::new(896, 384, 128, 128)));
        pairs.push((String::from_str("dirt_snow.png"), SpriteDefinition::new(896, 256, 128, 128)));
        pairs.push((String::from_str("fence_stone.png"), SpriteDefinition::new(896, 128, 128, 128)));
        pairs.push((String::from_str("fence_wood.png"), SpriteDefinition::new(896, 0, 128, 128)));
        pairs.push((String::from_str("glass.png"), SpriteDefinition::new(768, 1152, 128, 128)));
        pairs.push((String::from_str("glass_frame.png"), SpriteDefinition::new(768, 1024, 128, 128)));
        pairs.push((String::from_str("grass1.png"), SpriteDefinition::new(768, 896, 128, 128)));
        pairs.push((String::from_str("grass2.png"), SpriteDefinition::new(768, 768, 128, 128)));
        pairs.push((String::from_str("grass3.png"), SpriteDefinition::new(768, 640, 128, 128)));
        pairs.push((String::from_str("grass4.png"), SpriteDefinition::new(768, 512, 128, 128)));
        pairs.push((String::from_str("grass_brown.png"), SpriteDefinition::new(768, 384, 128, 128)));
        pairs.push((String::from_str("grass_tan.png"), SpriteDefinition::new(768, 256, 128, 128)));
        pairs.push((String::from_str("grass_top.png"), SpriteDefinition::new(768, 128, 128, 128)));
        pairs.push((String::from_str("gravel_dirt.png"), SpriteDefinition::new(768, 0, 128, 128)));
        pairs.push((String::from_str("gravel_stone.png"), SpriteDefinition::new(640, 1152, 128, 128)));
        pairs.push((String::from_str("greysand.png"), SpriteDefinition::new(640, 1024, 128, 128)));
        pairs.push((String::from_str("greystone.png"), SpriteDefinition::new(640, 896, 128, 128)));
        pairs.push((String::from_str("greystone_ruby.png"), SpriteDefinition::new(640, 768, 128, 128)));
        pairs.push((String::from_str("greystone_ruby_alt.png"), SpriteDefinition::new(640, 640, 128, 128)));
        pairs.push((String::from_str("greystone_sand.png"), SpriteDefinition::new(640, 512, 128, 128)));
        pairs.push((String::from_str("ice.png"), SpriteDefinition::new(640, 384, 128, 128)));
        pairs.push((String::from_str("lava.png"), SpriteDefinition::new(640, 256, 128, 128)));
        pairs.push((String::from_str("leaves.png"), SpriteDefinition::new(640, 128, 128, 128)));
        pairs.push((String::from_str("leaves_orange.png"), SpriteDefinition::new(640, 0, 128, 128)));
        pairs.push((String::from_str("leaves_orange_transparent.png"), SpriteDefinition::new(512, 1152, 128, 128)));
        pairs.push((String::from_str("leaves_transparent.png"), SpriteDefinition::new(512, 1024, 128, 128)));
        pairs.push((String::from_str("mushroom_brown.png"), SpriteDefinition::new(512, 896, 128, 128)));
        pairs.push((String::from_str("mushroom_red.png"), SpriteDefinition::new(512, 768, 128, 128)));
        pairs.push((String::from_str("mushroom_tan.png"), SpriteDefinition::new(512, 640, 128, 128)));
        pairs.push((String::from_str("oven.png"), SpriteDefinition::new(512, 512, 128, 128)));
        pairs.push((String::from_str("redsand.png"), SpriteDefinition::new(512, 384, 128, 128)));
        pairs.push((String::from_str("redstone.png"), SpriteDefinition::new(1024, 512, 128, 128)));
        pairs.push((String::from_str("redstone_emerald.png"), SpriteDefinition::new(512, 128, 128, 128)));
        pairs.push((String::from_str("redstone_emerald_alt.png"), SpriteDefinition::new(512, 0, 128, 128)));
        pairs.push((String::from_str("redstone_sand.png"), SpriteDefinition::new(384, 1152, 128, 128)));
        pairs.push((String::from_str("rock.png"), SpriteDefinition::new(384, 1024, 128, 128)));
        pairs.push((String::from_str("rock_moss.png"), SpriteDefinition::new(384, 896, 128, 128)));
        pairs.push((String::from_str("sand.png"), SpriteDefinition::new(384, 768, 128, 128)));
        pairs.push((String::from_str("snow.png"), SpriteDefinition::new(384, 640, 128, 128)));
        pairs.push((String::from_str("stone.png"), SpriteDefinition::new(384, 512, 128, 128)));
        pairs.push((String::from_str("stone_browniron.png"), SpriteDefinition::new(384, 384, 128, 128)));
        pairs.push((String::from_str("stone_browniron_alt.png"), SpriteDefinition::new(384, 256, 128, 128)));
        pairs.push((String::from_str("stone_coal.png"), SpriteDefinition::new(384, 128, 128, 128)));
        pairs.push((String::from_str("stone_coal_alt.png"), SpriteDefinition::new(384, 0, 128, 128)));
        pairs.push((String::from_str("stone_diamond.png"), SpriteDefinition::new(256, 1152, 128, 128)));
        pairs.push((String::from_str("stone_diamond_alt.png"), SpriteDefinition::new(256, 1024, 128, 128)));
        pairs.push((String::from_str("stone_dirt.png"), SpriteDefinition::new(256, 896, 128, 128)));
        pairs.push((String::from_str("stone_gold.png"), SpriteDefinition::new(256, 768, 128, 128)));
        pairs.push((String::from_str("stone_gold_alt.png"), SpriteDefinition::new(256, 640, 128, 128)));
        pairs.push((String::from_str("stone_grass.png"), SpriteDefinition::new(256, 512, 128, 128)));
        pairs.push((String::from_str("stone_iron.png"), SpriteDefinition::new(256, 384, 128, 128)));
        pairs.push((String::from_str("stone_iron_alt.png"), SpriteDefinition::new(256, 256, 128, 128)));
        pairs.push((String::from_str("stone_sand.png"), SpriteDefinition::new(256, 128, 128, 128)));
        pairs.push((String::from_str("stone_silver.png"), SpriteDefinition::new(256, 0, 128, 128)));
        pairs.push((String::from_str("stone_silver_alt.png"), SpriteDefinition::new(128, 1152, 128, 128)));
        pairs.push((String::from_str("stone_snow.png"), SpriteDefinition::new(128, 1024, 128, 128)));
        pairs.push((String::from_str("table.png"), SpriteDefinition::new(128, 896, 128, 128)));
        pairs.push((String::from_str("track_corner.png"), SpriteDefinition::new(128, 768, 128, 128)));
        pairs.push((String::from_str("track_corner_alt.png"), SpriteDefinition::new(128, 640, 128, 128)));
        pairs.push((String::from_str("track_straight.png"), SpriteDefinition::new(128, 512, 128, 128)));
        pairs.push((String::from_str("track_straight_alt.png"), SpriteDefinition::new(128, 384, 128, 128)));
        pairs.push((String::from_str("trunk_bottom.png"), SpriteDefinition::new(128, 256, 128, 128)));
        pairs.push((String::from_str("trunk_mid.png"), SpriteDefinition::new(128, 128, 128, 128)));
        pairs.push((String::from_str("trunk_side.png"), SpriteDefinition::new(128, 0, 128, 128)));
        pairs.push((String::from_str("trunk_top.png"), SpriteDefinition::new(0, 1152, 128, 128)));
        pairs.push((String::from_str("trunk_white_side.png"), SpriteDefinition::new(0, 1024, 128, 128)));
        pairs.push((String::from_str("trunk_white_top.png"), SpriteDefinition::new(0, 896, 128, 128)));
        pairs.push((String::from_str("water.png"), SpriteDefinition::new(0, 768, 128, 128)));
        pairs.push((String::from_str("wheat_stage1.png"), SpriteDefinition::new(0, 640, 128, 128)));
        pairs.push((String::from_str("wheat_stage2.png"), SpriteDefinition::new(0, 512, 128, 128)));
        pairs.push((String::from_str("wheat_stage3.png"), SpriteDefinition::new(0, 384, 128, 128)));
        pairs.push((String::from_str("wheat_stage4.png"), SpriteDefinition::new(0, 256, 128, 128)));
        pairs.push((String::from_str("wood.png"), SpriteDefinition::new(0, 128, 128, 128)));
        pairs.push((String::from_str("wood_red.png"), SpriteDefinition::new(0, 0, 128, 128)));
        pairs
    }

    /// The sprite sheet of the basic pack: 85 named tiles, numbered in
    /// insertion order.
    pub fn sprite_sheet() -> (r: SpriteArray)
        ensures
            r.wf(),
            r.spec_names().len() == 85,
    {
        SpriteArray::from_pairs(Self::basic_sprites())
    }

    /// The texture definition of every kind, indexed by its ordinal.
    pub fn get_map() -> (r: Vec<SolidBlockDefinition>)
        ensures
            r@.len() == BASIC_ID_COUNT as int,
            forall|id: BasicId| r@[spec_basic_ordinal(id)] == #[trigger] id.def_spec(),
    {
        let mut map: Vec<SolidBlockDefinition> = Vec::new();
        map.push(BasicId::Dirt.definition());
        map.push(BasicId::DirtGrass.definition());
        map.push(BasicId::DirtSand.definition());
        map.push(BasicId::DirtSnow.definition());
        map.push(BasicId::WoodRed.definition());
        map.push(BasicId::Wood.definition());
        map.push(BasicId::BrickGrey.definition());
        map.push(BasicId::BrickRed.definition());
        map.push(BasicId::Stone.definition());
        map.push(BasicId::Sand.definition());
        map.push(BasicId::RedStone.definition());
        map.push(BasicId::RedSand.definition());
        map.push(BasicId::GreyStone.definition());
        map.push(BasicId::GreySand.definition());
        map
    }
}

} // verus!
