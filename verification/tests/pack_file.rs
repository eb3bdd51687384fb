use foxgame::editor_level::EditorLevel;
use foxgame::editor_level_pack::EditorLevelPack;
use foxgame::entity::EntityKind;
use foxgame::font::{Font, FontDataManager};
use foxgame::level_pack_data::{level_pos_to_pos, pos_to_level_pos, LevelData, LevelPackData};
use foxgame::things::DoorKind;
use foxgame::tile::{LockColor, Tile};

const CHECKSUM: &[u8] = b"jumbledFox rules!";

fn field(s: &str) -> Vec<u8> {
    let mut v: Vec<u8> = s.bytes().collect();
    v.resize(24, 255);
    v
}

fn sample_pack() -> EditorLevelPack {
    let mut first = EditorLevel::new_default();
    first.set_name("meadow".to_string());
    first.set_world("grassland".to_string());
    first.try_add_sign((5, 6), ["hello".to_string(), "there".to_string(), String::new(), "bye".to_string()]);
    first.try_add_door(DoorKind::Teleporter, (1, 2), (10, 3));
    first.try_add_checkpoint((7, 7));
    first.try_add_entity((4, 4), EntityKind::Key(LockColor::Blue));
    first.set_tile_at_pos(Tile::Lock(LockColor::Blue), 6, 7, false);
    let mut second = EditorLevel::new_default();
    second.set_name("cave".to_string());
    let mut third = EditorLevel::new_default();
    third.set_world("caves".to_string());
    EditorLevelPack::new("mypack".to_string(), "my pack".to_string(), "fox".to_string(), vec![first, second, third])
}

#[test]
fn saved_pack_starts_with_checksum_names_and_worlds() {
    let fonts = FontDataManager::new();
    let font = fonts.font_data(Font::Small);
    let data = LevelPackData::from_editor_level_pack(&sample_pack());
    let bytes = data.to_bytes(font);
    assert_eq!(&bytes[0..17], CHECKSUM);
    assert_eq!(&bytes[17..41], &field("my pack")[..]);
    assert_eq!(&bytes[41..65], &field("fox")[..]);
    assert_eq!(bytes[65], 2);
    assert_eq!(&bytes[66..90], &field("grassland")[..]);
    assert_eq!(&bytes[90..114], &field("caves")[..]);
    // the first level: its name, then its world number
    assert_eq!(&bytes[114..138], &field("meadow")[..]);
    assert_eq!(bytes[138], 1);
    // background colour, width and height
    assert_eq!(&bytes[139..144], &[109, 202, 255, 22, 14]);
}

#[test]
fn levels_are_numbered_by_world() {
    let data = LevelPackData::from_editor_level_pack(&sample_pack());
    let worlds: Vec<u8> = data.levels().iter().map(|l| l.world()).collect();
    assert_eq!(worlds, vec![1, 1, 2]);
    assert_eq!(data.worlds(), &vec!["grassland".to_string(), "caves".to_string()]);
    assert_eq!(data.file_name(), "mypack");
    assert_eq!(data.name(), "my pack");
    assert_eq!(data.author(), "fox");
    assert_eq!(data.levels()[1].name(), "cave");
}

#[test]
fn saved_pack_reads_back_the_same() {
    let fonts = FontDataManager::new();
    let font = fonts.font_data(Font::Small);
    let data = LevelPackData::from_editor_level_pack(&sample_pack());
    let bytes = data.to_bytes(font);
    let read = LevelPackData::from_bytes("other".to_string(), &bytes, font).expect("a saved pack reads back");
    assert_eq!(read.file_name(), "other");
    assert_eq!(read.name(), "my pack");
    assert_eq!(read.author(), "fox");
    assert_eq!(read.worlds().len(), 2);
    assert_eq!(read.levels().len(), 3);
    assert_eq!(read.to_bytes(font), bytes);
}

#[test]
fn editor_pack_opens_again_as_saved() {
    let fonts = FontDataManager::new();
    let font = fonts.font_data(Font::Small);
    let pack = sample_pack();
    let bytes = LevelPackData::from_editor_level_pack(&pack).to_bytes(font);
    let read = LevelPackData::from_bytes("mypack".to_string(), &bytes, font).unwrap();
    let opened = read.to_editor_level_pack();
    assert_eq!(opened.level_count(), 3);
    assert_eq!(opened.current(), 0);
    assert_eq!(opened.name(), "my pack");
    assert_eq!(opened.file_name(), "mypack");
    for i in 0..3 {
        let a = &pack.levels()[i];
        let b = &opened.levels()[i];
        assert_eq!(a.world(), b.world());
        assert_eq!(a.name(), b.name());
        assert_eq!(a.tiles(), b.tiles());
        assert_eq!(a.tiles_bg(), b.tiles_bg());
        assert_eq!(a.signs(), b.signs());
        assert_eq!(a.doors(), b.doors());
        assert_eq!(a.checkpoints(), b.checkpoints());
        assert_eq!(a.entities(), b.entities());
        assert_eq!(a.spawn(), b.spawn());
        assert_eq!(a.finish(), b.finish());
    }
}

#[test]
fn bad_checksum_is_refused() {
    let fonts = FontDataManager::new();
    let font = fonts.font_data(Font::Small);
    let mut bytes = LevelPackData::from_editor_level_pack(&sample_pack()).to_bytes(font);
    bytes[0] = b'J';
    assert!(LevelPackData::from_bytes("x".to_string(), &bytes, font).is_none());
}

#[test]
fn short_file_is_refused() {
    let fonts = FontDataManager::new();
    let font = fonts.font_data(Font::Small);
    assert!(LevelPackData::from_bytes("x".to_string(), &[1, 2, 3], font).is_none());
    assert!(LevelPackData::from_bytes("x".to_string(), CHECKSUM, font).is_none());
    // a file that is only a beginning of the checksum is discarded too
    assert!(LevelPackData::from_bytes("x".to_string(), &CHECKSUM[..5], font).is_none());
    assert!(LevelPackData::from_bytes("x".to_string(), &[], font).is_none());
}

#[test]
fn pack_without_levels_is_refused() {
    let fonts = FontDataManager::new();
    let font = fonts.font_data(Font::Small);
    let mut bytes = CHECKSUM.to_vec();
    bytes.extend(field("name"));
    bytes.extend(field("author"));
    bytes.push(0);
    assert!(LevelPackData::from_bytes("x".to_string(), &bytes, font).is_none());
}

#[test]
fn trailing_bytes_after_the_last_level_are_dropped() {
    let fonts = FontDataManager::new();
    let font = fonts.font_data(Font::Small);
    let data = LevelPackData::from_editor_level_pack(&sample_pack());
    let mut bytes = data.to_bytes(font);
    bytes.extend_from_slice(&[7u8; 37]);
    let read = LevelPackData::from_bytes("x".to_string(), &bytes, font).unwrap();
    assert_eq!(read.levels().len(), 3);
    assert_eq!(read.to_bytes(font), data.to_bytes(font));
}

#[test]
fn world_names_come_back_on_the_first_level_of_each_world() {
    let pack = sample_pack();
    let back = LevelPackData::from_editor_level_pack(&pack).to_editor_level_pack();
    assert_eq!(back.level_count(), pack.level_count());
    for (a, b) in back.levels().iter().zip(pack.levels().iter()) {
        assert_eq!(a.world(), b.world());
    }
    assert_eq!(back.current(), 0);
}

#[test]
fn truncated_level_is_dropped() {
    let fonts = FontDataManager::new();
    let font = fonts.font_data(Font::Small);
    let mut bytes = LevelPackData::from_editor_level_pack(&sample_pack()).to_bytes(font);
    bytes.pop();
    let read = LevelPackData::from_bytes("x".to_string(), &bytes, font).unwrap();
    assert_eq!(read.levels().len(), 2);
}

#[test]
fn level_with_too_many_signs_is_refused() {
    let fonts = FontDataManager::new();
    let font = fonts.font_data(Font::Small);
    let level = LevelData::from_editor_level(&EditorLevel::new_default(), 0);
    let mut bytes = level.to_bytes(font);
    // name, world, colour, size, two grids, spawn and finish, no checkpoints: the sign count
    let at = 24 + 1 + 3 + 2 + 2 * 22 * 14 + 4 + 1;
    assert_eq!(bytes[at], 0);
    bytes[at] = 65;
    let mut cursor = 0;
    assert!(LevelData::from_bytes(&bytes, &mut cursor, font).is_none());
}

#[test]
fn level_reads_back_and_moves_the_cursor() {
    let fonts = FontDataManager::new();
    let font = fonts.font_data(Font::Small);
    let level = LevelData::from_editor_level(&sample_pack().levels()[0], 1);
    let bytes = level.to_bytes(font);
    let mut cursor = 0;
    let read = LevelData::from_bytes(&bytes, &mut cursor, font).unwrap();
    assert_eq!(cursor, bytes.len());
    assert_eq!(read.name(), "meadow");
    assert_eq!(read.world(), 1);
    assert_eq!(read.to_bytes(font), bytes);
}

#[test]
fn untypable_characters_are_saved_as_255() {
    let fonts = FontDataManager::new();
    let font = fonts.font_data(Font::Small);
    let mut level = EditorLevel::new_default();
    level.set_name("A\u{e9}b".to_string());
    let bytes = LevelData::from_editor_level(&level, 0).to_bytes(font);
    assert_eq!(&bytes[0..4], &[b'A', 255, b'b', 255]);
}

#[test]
fn positions_are_clamped_to_bytes() {
    assert_eq!(pos_to_level_pos((-3, 300)), (0, 255));
    assert_eq!(pos_to_level_pos((17, 4)), (17, 4));
    assert_eq!(level_pos_to_pos((255, 0)), (255, 0));
}

#[test]
fn world_names_and_first_levels() {
    let data = LevelPackData::from_editor_level_pack(&sample_pack());
    assert_eq!(data.world_name(0), "");
    assert_eq!(data.world_name(1), "grassland");
    assert_eq!(data.world_name(2), "caves");
    assert_eq!(data.world_name(3), "");
    assert_eq!(data.first_level_in_world(2), 2);
    assert_eq!(data.first_level_in_world(7), 0);
}
