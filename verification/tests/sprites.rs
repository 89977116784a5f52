//! Sprite-sheet behaviour: insertion-order numbering, lookups by name, and
//! agreement between the sheet and the per-kind texture definitions.

use voxel_benchmark::block::BlockId;
use voxel_benchmark::packs::basic::{BasicId, BasicPack, BASIC_ID_COUNT};
use voxel_benchmark::packs::SimpleBlockId;
use voxel_benchmark::texture::{BlockFace, TextureIndex};

#[test]
fn sheet_has_85_tiles_numbered_in_order() {
    let sheet = BasicPack::sprite_sheet();
    assert_eq!(sheet.len(), 85);
    // First and last entries of the atlas listing.
    assert_eq!(sheet.get(&"brick_grey.png".to_string()), Some(TextureIndex(0)));
    assert_eq!(sheet.get(&"wood_red.png".to_string()), Some(TextureIndex(84)));
    assert_eq!(sheet.get(&"dirt.png".to_string()), Some(TextureIndex(9)));
    assert_eq!(sheet.get(&"grass_top.png".to_string()), Some(TextureIndex(23)));
}

#[test]
fn sheet_lookup_of_unknown_name_is_none() {
    let sheet = BasicPack::sprite_sheet();
    assert_eq!(sheet.get(&"no_such_sprite.png".to_string()), None);
    assert_eq!(sheet.get(&"dirt".to_string()), None);
}

#[test]
fn sheet_tiles_carry_crop_rectangles() {
    let sheet = BasicPack::sprite_sheet();
    let brick = sheet.tile(0);
    assert_eq!((brick.x, brick.y, brick.width, brick.height), (512, 256, 128, 128));
    let dirt = sheet.tile(9);
    assert_eq!((dirt.x, dirt.y, dirt.width, dirt.height), (896, 640, 128, 128));
}

/// The sprite names each kind's faces are defined from, as
/// `(kind, sides, up, down)`; uniform kinds use one name for all six.
fn expected_face_sprites() -> Vec<(BasicId, &'static str, &'static str, &'static str)> {
    vec![
        (BasicId::Dirt, "dirt.png", "dirt.png", "dirt.png"),
        (BasicId::DirtGrass, "dirt_grass.png", "grass_top.png", "dirt.png"),
        (BasicId::DirtSand, "dirt_sand.png", "sand.png", "dirt.png"),
        (BasicId::DirtSnow, "dirt_snow.png", "snow.png", "dirt.png"),
        (BasicId::WoodRed, "wood_red.png", "wood_red.png", "wood_red.png"),
        (BasicId::Wood, "wood.png", "wood.png", "wood.png"),
        (BasicId::BrickGrey, "brick_grey.png", "brick_grey.png", "brick_grey.png"),
        (BasicId::BrickRed, "brick_red.png", "brick_red.png", "brick_red.png"),
        (BasicId::Stone, "stone.png", "stone.png", "stone.png"),
        (BasicId::Sand, "sand.png", "sand.png", "sand.png"),
        (BasicId::RedStone, "redstone.png", "redstone.png", "redstone.png"),
        (BasicId::RedSand, "redsand.png", "redsand.png", "redsand.png"),
        (BasicId::GreyStone, "greystone.png", "greystone.png", "greystone.png"),
        (BasicId::GreySand, "greysand.png", "greysand.png", "greysand.png"),
    ]
}

#[test]
fn definitions_agree_with_sheet_lookups() {
    let sheet = BasicPack::sprite_sheet();
    for (id, sides, up, down) in expected_face_sprites() {
        let def = id.definition();
        let side_tile = sheet.get(&sides.to_string()).unwrap();
        let up_tile = sheet.get(&up.to_string()).unwrap();
        let down_tile = sheet.get(&down.to_string()).unwrap();
        assert_eq!(def.face_texture(BlockFace::North), side_tile);
        assert_eq!(def.face_texture(BlockFace::South), side_tile);
        assert_eq!(def.face_texture(BlockFace::East), side_tile);
        assert_eq!(def.face_texture(BlockFace::West), side_tile);
        assert_eq!(def.face_texture(BlockFace::Up), up_tile);
        assert_eq!(def.face_texture(BlockFace::Down), down_tile);
    }
}

#[test]
fn map_lists_every_definition_by_ordinal() {
    let map = BasicPack::get_map();
    assert_eq!(map.len(), BASIC_ID_COUNT as usize);
    for (id, _, _, _) in expected_face_sprites() {
        assert_eq!(map[id.ordinal() as usize], id.definition());
    }
}

#[test]
fn simple_kinds_and_random_kind_are_in_range() {
    assert_eq!(BasicId::get_simple_block(), BasicId::Dirt);
    assert_eq!(BasicId::get_simple_top_block(), BasicId::DirtGrass);
    for _ in 0..100 {
        let id = BasicId::get_random_block();
        assert!(id.ordinal() < BASIC_ID_COUNT);
    }
}
