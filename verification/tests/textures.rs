//! Texture model behaviour: attribute packing, the fixed corner-order
//! cycle, face ordinals, and per-face definitions.

use voxel_benchmark::texture::{
    BlockFace, SolidBlockDefinition, TextureIndex, TextureInfo,
};

#[test]
fn into_arr_yields_gray_code_corner_cycle() {
    let infos = TextureIndex(7).into_arr();
    let packed: Vec<u32> = infos.iter().map(|i| i.into_u32()).collect();
    assert_eq!(
        packed,
        vec![(7 << 16) | 0, (7 << 16) | 1, (7 << 16) | 3, (7 << 16) | 2]
    );
}

#[test]
fn texture_info_packs_index_high_order_low() {
    assert_eq!(TextureInfo::new(1, 2).into_u32(), 0x0001_0002);
    assert_eq!(TextureInfo::new(0xFFFF, 5).into_u32(), 0xFFFF_0005);
    assert_eq!(TextureInfo::new(0, 0).into_u32(), 0);
}

#[test]
fn face_ids_follow_declaration_order() {
    let faces = [
        BlockFace::North,
        BlockFace::South,
        BlockFace::East,
        BlockFace::West,
        BlockFace::Up,
        BlockFace::Down,
    ];
    for (k, face) in faces.iter().enumerate() {
        assert_eq!(face.face_id() as usize, k);
        assert_eq!(BlockFace::from_ordinal(k as u8), *face);
    }
}

#[test]
fn simple_block_definition_is_uniform() {
    let d = SolidBlockDefinition::new_simple_block(TextureIndex(3));
    for k in 0..6u8 {
        assert_eq!(d.face_texture(BlockFace::from_ordinal(k)), TextureIndex(3));
    }
}

#[test]
fn explicit_block_definition_is_per_face() {
    let d = SolidBlockDefinition::new_block(
        TextureIndex(0),
        TextureIndex(1),
        TextureIndex(2),
        TextureIndex(3),
        TextureIndex(4),
        TextureIndex(5),
    );
    assert_eq!(d.face_texture(BlockFace::North), TextureIndex(0));
    assert_eq!(d.face_texture(BlockFace::South), TextureIndex(1));
    assert_eq!(d.face_texture(BlockFace::East), TextureIndex(2));
    assert_eq!(d.face_texture(BlockFace::West), TextureIndex(3));
    assert_eq!(d.face_texture(BlockFace::Up), TextureIndex(4));
    assert_eq!(d.face_texture(BlockFace::Down), TextureIndex(5));
}
