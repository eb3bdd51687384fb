use foxgame::editor_level::{bg_sky, Border, EditorLevel};
use foxgame::editor_level_pack::EditorLevelPack;
use foxgame::entity::EntityKind;
use foxgame::level::{TileDrawKind, TileRenderData};
use foxgame::things::DoorKind;
use foxgame::tile::{LockColor, Tile};

fn lines(a: &str) -> [String; 4] {
    [a.to_string(), String::new(), String::new(), String::new()]
}

#[test]
fn default_level_has_grass_under_spawn_and_finish() {
    let l = EditorLevel::new_default();
    assert_eq!(l.width(), 22);
    assert_eq!(l.height(), 14);
    assert_eq!(l.bg_col(), (109, 202, 255));
    assert_eq!(bg_sky(), (109, 202, 255));
    assert_eq!(l.spawn(), (3, 7));
    assert_eq!(l.finish(), (18, 7));
    let grass: Vec<usize> = (0..l.tiles().len()).filter(|i| l.tiles()[*i] == Tile::Grass).collect();
    let expected: Vec<usize> = [2, 3, 4, 9, 10, 11, 12, 17, 18, 19].iter().map(|x| 8 * 22 + x).collect();
    assert_eq!(grass, expected);
    assert!(l.tiles_bg().iter().all(|t| *t == Tile::Empty));
    assert!(l.should_update_render_data());
}

#[test]
fn growing_left_moves_everything_right() {
    let mut l = EditorLevel::new_default();
    l.try_add_sign((1, 1), lines("a"));
    l.try_add_checkpoint((5, 5));
    l.try_add_entity((6, 6), EntityKind::Goat);
    assert!(l.move_left_border(true));
    assert_eq!(l.width(), 23);
    assert_eq!(l.tiles().len(), 23 * 14);
    assert_eq!(l.tiles()[8 * 23 + 3], Tile::Grass);
    assert_eq!(l.tiles()[8 * 23], Tile::Empty);
    assert_eq!(l.spawn(), (4, 7));
    assert_eq!(l.finish(), (19, 7));
    assert_eq!(l.signs()[0].0, (2, 1));
    assert_eq!(l.checkpoints(), &vec![(6, 5)]);
    assert_eq!(l.entities(), &vec![((7, 6), EntityKind::Goat)]);
}

#[test]
fn growing_top_moves_everything_down() {
    let mut l = EditorLevel::new_default();
    l.try_add_checkpoint((5, 5));
    l.try_add_entity((6, 6), EntityKind::Goat);
    assert!(l.move_top_border(true));
    assert_eq!(l.spawn(), (3, 8));
    assert_eq!(l.checkpoints(), &vec![(5, 6)]);
    assert_eq!(l.entities(), &vec![((6, 7), EntityKind::Goat)]);
}

#[test]
fn entities_are_capped_at_255() {
    let mut l = EditorLevel::new_default();
    for i in 0..300 {
        l.try_add_entity((i, 0), EntityKind::Goat);
    }
    assert_eq!(l.entities().len(), 255);
}

#[test]
fn things_far_away_can_be_placed_and_moved() {
    let mut l = EditorLevel::new_default();
    l.try_add_sign((1000, -500), lines("far"));
    l.try_add_entity((i32::MAX, 0), EntityKind::Goat);
    assert!(l.move_left_border(true));
    assert_eq!(l.signs()[0].0, (1001, -500));
    // a position at the edge of the coordinates stays there
    assert_eq!(l.entities()[0].0, (i32::MAX, 0));
}

#[test]
fn growing_then_shrinking_gives_back_the_level() {
    for b in [Border::Left, Border::Right, Border::Top, Border::Bottom] {
        let mut l = EditorLevel::new_default();
        l.try_add_sign((1, 1), lines("a"));
        l.try_add_door(DoorKind::Door, (2, 2), (20, 12));
        l.try_add_checkpoint((4, 4));
        l.try_add_entity((5, 5), EntityKind::Goat);
        let before_tiles = l.tiles().clone();
        assert!(l.move_border(b, true));
        assert!(l.move_border(b, false));
        assert_eq!(l.width(), 22);
        assert_eq!(l.height(), 14);
        assert_eq!(l.tiles(), &before_tiles);
        assert_eq!(l.signs()[0].0, (1, 1));
        assert_eq!(l.doors()[0], (DoorKind::Door, (2, 2), (20, 12)));
        assert_eq!(l.spawn(), (3, 7));
        assert_eq!(l.checkpoints(), &vec![(4, 4)]);
        assert_eq!(l.entities(), &vec![((5, 5), EntityKind::Goat)]);
    }
}

#[test]
fn smallest_level_cannot_shrink() {
    let mut l = EditorLevel::new_default();
    assert!(!l.can_change_width(false));
    assert!(!l.can_change_height(false));
    assert!(l.can_change_width(true));
    assert!(!l.move_right_border(false));
    assert_eq!(l.width(), 22);
}

#[test]
fn shrinking_removes_things_outside_and_clamps_spawn() {
    let mut l = EditorLevel::new_default();
    assert!(l.move_right_border(true));
    l.try_add_sign((22, 3), lines("edge"));
    l.try_add_checkpoint((22, 4));
    l.try_add_checkpoint((3, 4));
    l.set_finish((22, 7));
    assert!(l.move_right_border(false));
    assert!(l.signs().is_empty());
    assert_eq!(l.checkpoints(), &vec![(3, 4)]);
    assert_eq!(l.finish(), (21, 7));
}

#[test]
fn signs_are_replaced_at_the_same_place_and_capped() {
    let mut l = EditorLevel::new_default();
    l.try_add_sign((1, 1), lines("a"));
    l.try_add_sign((1, 1), lines("b"));
    assert_eq!(l.signs().len(), 1);
    assert_eq!(l.signs()[0].1[0], "b");
    for i in 0..70 {
        l.try_add_sign((i % 22, 1 + i / 22), lines("x"));
    }
    assert_eq!(l.signs().len(), 64);
    l.try_remove_sign((1, 1));
    assert_eq!(l.signs().len(), 63);
}

#[test]
fn things_are_added_once_and_removed() {
    let mut l = EditorLevel::new_default();
    l.try_add_checkpoint((5, 5));
    l.try_add_checkpoint((5, 5));
    assert_eq!(l.checkpoints(), &vec![(5, 5)]);
    l.try_remove_checkpoint((5, 5));
    assert!(l.checkpoints().is_empty());
    l.try_add_entity((2, 2), EntityKind::Goat);
    l.try_add_entity((2, 2), EntityKind::Key(LockColor::Red));
    assert_eq!(l.entities(), &vec![((2, 2), EntityKind::Goat)]);
    l.try_remove_entity((2, 2));
    assert!(l.entities().is_empty());
    l.try_add_door(DoorKind::Teleporter, (1, 1), (3, 3));
    l.try_remove_door((1, 1));
    assert!(l.doors().is_empty());
}

#[test]
fn setting_a_tile_marks_it_for_drawing() {
    let mut l = EditorLevel::new_default();
    let mut below = Vec::new();
    let mut above = Vec::new();
    let mut back = Vec::new();
    assert!(l.update_if_should(&mut below, &mut above, &mut back));
    assert!(!l.should_update_render_data());
    assert!(!l.update_if_should(&mut below, &mut above, &mut back));
    l.set_tile_at_pos(Tile::Stone, 0, 0, true);
    assert_eq!(l.tiles_bg()[0], Tile::Stone);
    assert!(l.should_update_render_data());
    assert!(l.update_if_should(&mut below, &mut above, &mut back));
    assert_eq!(back, vec![TileRenderData { tile: Tile::Stone, draw_kind: TileDrawKind::Quarters(4, 2, 1, 0), index: 0 }]);
    assert_eq!(below.len(), 10);
    assert!(above.is_empty());
}

#[test]
fn pack_navigation() {
    let mut p = EditorLevelPack::new_default();
    assert_eq!(p.level_count(), 1);
    assert!(!p.can_next());
    assert!(!p.can_prev());
    p.editor_level_mut().set_name("first".to_string());
    p.add_level();
    assert_eq!(p.level_count(), 2);
    assert_eq!(p.current(), 1);
    assert_eq!(p.editor_level().name(), "");
    p.prev();
    assert_eq!(p.current(), 0);
    assert_eq!(p.editor_level().name(), "first");
    p.prev();
    assert_eq!(p.current(), 0);
    p.next();
    assert_eq!(p.current(), 1);
    p.next();
    assert_eq!(p.current(), 1);
}

#[test]
fn shifting_moves_the_open_level() {
    let mut p = EditorLevelPack::new_default();
    p.editor_level_mut().set_name("a".to_string());
    p.add_level();
    p.editor_level_mut().set_name("b".to_string());
    p.shift_prev();
    assert_eq!(p.current(), 0);
    assert_eq!(p.levels()[0].name(), "b");
    assert_eq!(p.levels()[1].name(), "a");
    p.shift_next();
    assert_eq!(p.current(), 1);
    assert_eq!(p.levels()[0].name(), "a");
    assert_eq!(p.levels()[1].name(), "b");
}

#[test]
fn deleting_levels() {
    let mut p = EditorLevelPack::new_default();
    p.editor_level_mut().set_name("a".to_string());
    p.add_level();
    p.editor_level_mut().set_name("b".to_string());
    p.delete_level();
    assert_eq!(p.level_count(), 1);
    assert_eq!(p.current(), 0);
    assert_eq!(p.editor_level().name(), "a");
    p.delete_level();
    assert_eq!(p.level_count(), 1);
    assert_eq!(p.editor_level().name(), "");
}

#[test]
fn pack_holds_at_most_99_levels() {
    let mut p = EditorLevelPack::default();
    for _ in 0..120 {
        p.add_level();
    }
    assert_eq!(p.level_count(), 99);
    assert!(!p.can_add());
}

#[test]
fn pack_names_can_be_edited() {
    let mut p = EditorLevelPack::new_default();
    p.file_name_mut().push_str("file");
    p.name_mut().push_str("name");
    p.author_mut().push_str("me");
    assert_eq!(p.file_name(), "file");
    assert_eq!(p.name(), "name");
    assert_eq!(p.author(), "me");
}

#[test]
fn saving_needs_a_file_name() {
    use_save();
}

fn use_save() {
    let fonts = foxgame::font::FontDataManager::new();
    let font = fonts.font_data(foxgame::font::Font::Small);
    let mut p = EditorLevelPack::new_default();
    assert_eq!(foxgame::editor_menu::pack_save_data(&p, font), Err(foxgame::editor_menu::SaveError::EmptyFileName));
    p.file_name_mut().push_str("pack");
    let (name, bytes) = foxgame::editor_menu::pack_save_data(&p, font).unwrap();
    assert_eq!(name, "pack");
    assert_eq!(&bytes[0..17], b"jumbledFox rules!");
    assert_eq!(bytes[65], 0);
}
