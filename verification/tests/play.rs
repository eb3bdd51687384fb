use foxgame::editor_level::EditorLevel;
use foxgame::editor_level_pack::EditorLevelPack;
use foxgame::entity::EntityKind;
use foxgame::editor_menu::HelpKind;
use foxgame::game::{next_action, GameProgress, TransitionAction};
use foxgame::level_pack_data::LevelPackData;
use foxgame::level_view::{EditorMouse, LevelView};
use foxgame::object_selector::{Object, ObjectOtherKind};
use foxgame::player_kinds::{next_move_dir, Dir, FeetPowerup, HeadPowerup};
use foxgame::things::DoorKind;
use foxgame::tile::Tile;

const NONE: EditorMouse = EditorMouse { left_pressed: false, right_pressed: false, middle_pressed: false, left_down: false, right_down: false, copy_pressed: false, cut_pressed: false };
const LEFT_PRESS: EditorMouse = EditorMouse { left_pressed: true, right_pressed: false, middle_pressed: false, left_down: true, right_down: false, copy_pressed: false, cut_pressed: false };
const LEFT_DOWN: EditorMouse = EditorMouse { left_pressed: false, right_pressed: false, middle_pressed: false, left_down: true, right_down: false, copy_pressed: false, cut_pressed: false };
const RIGHT_PRESS: EditorMouse = EditorMouse { left_pressed: false, right_pressed: true, middle_pressed: false, left_down: false, right_down: true, copy_pressed: false, cut_pressed: false };
const MIDDLE_PRESS: EditorMouse = EditorMouse { left_pressed: false, right_pressed: false, middle_pressed: true, left_down: false, right_down: false, copy_pressed: false, cut_pressed: false };
const COPY: EditorMouse = EditorMouse { copy_pressed: true, ..NONE };
const CUT: EditorMouse = EditorMouse { cut_pressed: true, ..NONE };

fn lines(a: &str) -> [String; 4] {
    [a.to_string(), String::new(), String::new(), String::new()]
}

#[test]
fn cursor_only_inside_the_level() {
    let l = EditorLevel::new_default();
    assert_eq!(LevelView::cursor_tile(&l, (0, 0)), Some((0, 0)));
    assert_eq!(LevelView::cursor_tile(&l, (21, 13)), Some((21, 13)));
    assert_eq!(LevelView::cursor_tile(&l, (22, 0)), None);
    assert_eq!(LevelView::cursor_tile(&l, (-1, 3)), None);
}

#[test]
fn drawing_tiles_needs_a_stroke_begun_inside() {
    let mut l = EditorLevel::new_default();
    let mut v = LevelView::new();
    v.select_object(&mut l, Object::Tile(Tile::Stone));
    // a stroke that began outside the level does not draw
    v.update_cursor(&mut l, None, LEFT_PRESS);
    v.update_cursor(&mut l, Some((1, 1)), LEFT_DOWN);
    assert_eq!(l.tiles()[22 + 1], Tile::Empty);
    v.update_cursor(&mut l, Some((1, 1)), NONE);
    // a stroke begun inside draws, on the foreground
    v.update_cursor(&mut l, Some((1, 1)), LEFT_PRESS);
    v.update_cursor(&mut l, Some((2, 1)), LEFT_DOWN);
    assert_eq!(l.tiles()[22 + 1], Tile::Stone);
    assert_eq!(l.tiles()[22 + 2], Tile::Stone);
    // the right button erases; the background layer is drawn on after toggling
    v.update_cursor(&mut l, Some((1, 1)), RIGHT_PRESS);
    assert_eq!(l.tiles()[22 + 1], Tile::Empty);
    assert!(v.toggle_layer());
    v.update_cursor(&mut l, Some((3, 1)), LEFT_PRESS);
    assert_eq!(l.tiles_bg()[22 + 3], Tile::Stone);
    assert_eq!(l.tiles()[22 + 3], Tile::Empty);
}

#[test]
fn signs_are_written_cut_and_pasted() {
    let mut l = EditorLevel::new_default();
    let mut v = LevelView::new();
    v.select_object(&mut l, Object::Other(ObjectOtherKind::Sign));
    // clicking where there is no sign asks for a new one
    assert_eq!(v.update_cursor(&mut l, Some((4, 4)), LEFT_PRESS), Some(((4, 4), None)));
    l.try_add_sign((4, 4), lines("hi"));
    // clicking on a sign asks to edit its lines
    assert_eq!(v.update_cursor(&mut l, Some((4, 4)), LEFT_PRESS), Some(((4, 4), Some(lines("hi")))));
    // a middle click cuts it, and a left click elsewhere pastes it
    assert_eq!(v.update_cursor(&mut l, Some((4, 4)), MIDDLE_PRESS), None);
    assert!(l.signs().is_empty());
    assert_eq!(v.update_cursor(&mut l, Some((6, 2)), LEFT_PRESS), None);
    assert_eq!(l.signs(), &vec![((6, 2), lines("hi"))]);
    // a right click removes it
    v.update_cursor(&mut l, Some((6, 2)), RIGHT_PRESS);
    assert!(l.signs().is_empty());
}

#[test]
fn doors_are_placed_in_two_clicks() {
    let mut l = EditorLevel::new_default();
    let mut v = LevelView::new();
    v.select_object(&mut l, Object::Other(ObjectOtherKind::Door(DoorKind::Teleporter)));
    v.update_cursor(&mut l, Some((1, 1)), LEFT_PRESS);
    assert_eq!(l.door_start(), Some((1, 1)));
    v.update_cursor(&mut l, Some((5, 6)), LEFT_PRESS);
    assert_eq!(l.door_start(), None);
    assert_eq!(l.doors(), &vec![(DoorKind::Teleporter, (1, 1), (5, 6))]);
    // no door starts where one already does
    v.update_cursor(&mut l, Some((1, 1)), LEFT_PRESS);
    assert_eq!(l.door_start(), None);
    // a right click drops a door being placed, or removes the door there
    v.update_cursor(&mut l, Some((2, 2)), LEFT_PRESS);
    assert_eq!(l.door_start(), Some((2, 2)));
    v.update_cursor(&mut l, Some((1, 1)), RIGHT_PRESS);
    assert_eq!(l.door_start(), None);
    assert_eq!(l.doors().len(), 1);
    v.update_cursor(&mut l, Some((1, 1)), RIGHT_PRESS);
    assert!(l.doors().is_empty());
}

#[test]
fn entities_checkpoints_spawn_and_finish_are_placed_by_clicking() {
    let mut l = EditorLevel::new_default();
    let mut v = LevelView::new();
    v.select_object(&mut l, Object::Entity(EntityKind::Goat));
    assert_eq!(v.update_cursor(&mut l, Some((1, 1)), LEFT_PRESS), None);
    v.select_object(&mut l, Object::Entity(EntityKind::Chip(false)));
    v.update_cursor(&mut l, Some((1, 1)), LEFT_PRESS);
    assert_eq!(l.entities(), &vec![((1, 1), EntityKind::Goat)]);
    v.update_cursor(&mut l, Some((1, 1)), RIGHT_PRESS);
    assert!(l.entities().is_empty());
    v.select_object(&mut l, Object::Other(ObjectOtherKind::Checkpoint));
    v.update_cursor(&mut l, Some((2, 3)), LEFT_PRESS);
    assert_eq!(l.checkpoints(), &vec![(2, 3)]);
    v.update_cursor(&mut l, Some((2, 3)), RIGHT_PRESS);
    assert!(l.checkpoints().is_empty());
    v.select_object(&mut l, Object::Other(ObjectOtherKind::Spawn));
    v.update_cursor(&mut l, Some((5, 5)), LEFT_PRESS);
    v.update_cursor(&mut l, Some((6, 5)), RIGHT_PRESS);
    assert_eq!(l.spawn(), (5, 5));
    v.select_object(&mut l, Object::Other(ObjectOtherKind::Finish));
    v.update_cursor(&mut l, Some((7, 5)), LEFT_PRESS);
    assert_eq!(l.finish(), (7, 5));
    assert_eq!(v.selected_object(), Object::Other(ObjectOtherKind::Finish));
}

#[test]
fn signs_are_copied_with_a_key() {
    let mut l = EditorLevel::new_default();
    let mut v = LevelView::new();
    v.select_object(&mut l, Object::Other(ObjectOtherKind::Sign));
    l.try_add_sign((1, 1), lines("copy me"));
    v.update_cursor(&mut l, Some((1, 1)), COPY);
    assert_eq!(l.signs().len(), 1);
    assert_eq!(v.clipboard(), (&Some(lines("copy me")), true));
    v.update_cursor(&mut l, Some((2, 1)), LEFT_PRESS);
    assert_eq!(l.signs().len(), 2);
    assert_eq!(v.clipboard(), (&None, false));
    v.update_cursor(&mut l, Some((2, 1)), CUT);
    assert_eq!(l.signs().len(), 1);
    assert_eq!(v.clipboard(), (&Some(lines("copy me")), false));
}

fn pack_with_worlds() -> LevelPackData {
    let mut a = EditorLevel::new_default();
    a.set_world("one".to_string());
    let b = EditorLevel::new_default();
    let mut c = EditorLevel::new_default();
    c.set_world("two".to_string());
    let d = EditorLevel::new_default();
    LevelPackData::from_editor_level_pack(&EditorLevelPack::new(String::new(), String::new(), String::new(), vec![a, b, c, d]))
}

#[test]
fn progress_through_a_pack() {
    let pack = pack_with_worlds();
    let mut g = GameProgress::new();
    assert_eq!(g.lives(), 3);
    assert_eq!(g.intro(), (None, None));
    g.finish(Some(HeadPowerup::Helmet), None, 5);
    assert_eq!(g.current_level(), 1);
    assert_eq!(g.chips(), 0);
    assert_eq!(g.intro(), (Some(HeadPowerup::Helmet), None));
    assert_eq!(g.chips(), 5);
    assert_eq!(g.intro(), (None, None));
    assert_eq!(g.chips(), 5);
    g.finish(None, Some(FeetPowerup::Boots), 0);
    g.finish(None, None, 2);
    assert_eq!(g.current_level(), 3);
    g.game_over(&pack);
    assert_eq!(g.current_level(), 2);
    assert!(!g.pack_completed(&pack));
    g.finish(None, None, 0);
    g.finish(None, None, 0);
    assert!(g.pack_completed(&pack));
    g.game_over(&pack);
    assert_eq!(g.current_level(), 4);
    *g.lives_mut() -= 1;
    assert_eq!(g.lives(), 2);
}

#[test]
fn finishing_a_level_is_the_only_action() {
    assert_eq!(next_action(true), Some(TransitionAction::Finish));
    assert_eq!(next_action(false), None);
}

#[test]
fn help_page_follows_the_selected_object() {
    use_help();
}

fn use_help() {
    let mut l = EditorLevel::new_default();
    let mut v = LevelView::new();
    assert_eq!(v.help_kind(), HelpKind::Doors);
    v.select_object(&mut l, Object::Other(ObjectOtherKind::Door(DoorKind::SeamlessTeleporter)));
    assert_eq!(v.help_kind(), HelpKind::Teles);
    v.select_object(&mut l, Object::Tile(Tile::Grass));
    assert_eq!(v.help_kind(), HelpKind::Tiles);
    v.select_object(&mut l, Object::Other(ObjectOtherKind::Finish));
    assert_eq!(v.help_kind(), HelpKind::SpawnFinish);
}

#[test]
fn move_direction_follows_the_keys() {
    // pressing right starts moving right, and it turns
    assert_eq!(next_move_dir(None, false, true, false, true), (Some(Dir::Right), true));
    // holding right keeps moving right
    assert_eq!(next_move_dir(Some(Dir::Right), false, false, false, true), (Some(Dir::Right), false));
    // letting go of left while holding right turns right
    assert_eq!(next_move_dir(Some(Dir::Left), false, false, false, true), (Some(Dir::Right), true));
    // pressing left while holding both moves left
    assert_eq!(next_move_dir(Some(Dir::Right), true, false, true, true), (Some(Dir::Left), true));
    // holding neither stops
    assert_eq!(next_move_dir(Some(Dir::Left), false, false, false, false), (None, false));
}
