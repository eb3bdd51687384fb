use foxgame::collision::{EntityCollision, EntityCollisionSides};
use foxgame::editor_level_pack::EditorLevelPack;
use foxgame::editor_menu::{EditorMenu, HelpKind, HelpScreen, MenuAction, MenuControl, PopupControl, PopupKind};
use foxgame::font::{Font, FontDataManager};
use foxgame::menu::{index_in_pack, Submenu, SubmenuState};
use foxgame::object_selector::{placeable_entities, placeable_others, placeable_tiles, ObjectOtherKind};
use foxgame::sign_display::SignDisplay;
use foxgame::sign_popup::{SignPopup, SignPopupReturn};
use foxgame::text_edit::{delete_char, type_char, MAX_USER_STRING_LEN};
use foxgame::tile::{LockColor, Tile};
use foxgame::entity::EntityKind;
use foxgame::things::DoorKind;
use foxgame::ui::{Button, ButtonState, MouseInput, SliderU8, Ui};

const UP: MouseInput = MouseInput { pressed: false, down: false, released: false };
const PRESS: MouseInput = MouseInput { pressed: true, down: true, released: false };
const HOLD: MouseInput = MouseInput { pressed: false, down: true, released: false };
const RELEASE: MouseInput = MouseInput { pressed: false, down: false, released: true };

fn frame(b: &mut Button, hovered: bool, mouse: MouseInput) -> ButtonState {
    let mut ui = Ui::new();
    ui.begin_frame();
    b.update(&mut ui, hovered, mouse);
    ui.end_frame(mouse.down);
    b.state()
}

#[test]
fn button_click_sequence() {
    let mut b = Button::new(Some("Play!".to_string()), Some("tip".to_string()));
    assert_eq!(frame(&mut b, true, UP), ButtonState::Hovered);
    assert_eq!(frame(&mut b, true, PRESS), ButtonState::Clicked);
    assert_eq!(frame(&mut b, true, HOLD), ButtonState::Held);
    assert_eq!(frame(&mut b, true, RELEASE), ButtonState::Released);
    assert!(b.released());
    assert_eq!(frame(&mut b, true, UP), ButtonState::Hovered);
    assert_eq!(frame(&mut b, false, UP), ButtonState::Idle);
}

#[test]
fn disabled_button_stays_idle() {
    let mut b = Button::new(None, None);
    b.set_disabled(true);
    assert_eq!(frame(&mut b, true, UP), ButtonState::Idle);
    assert_eq!(frame(&mut b, true, PRESS), ButtonState::Idle);
    assert!(b.disabled());
}

#[test]
fn only_one_element_takes_the_mouse() {
    let mut ui = Ui::new();
    let mut a = Button::new(None, Some("first".to_string()));
    let mut b = Button::new(None, Some("second".to_string()));
    ui.begin_frame();
    a.update(&mut ui, true, UP);
    b.update(&mut ui, true, UP);
    assert_eq!(a.state(), ButtonState::Hovered);
    assert_eq!(b.state(), ButtonState::Idle);
    assert!(ui.interacted());
    assert_eq!(ui.tooltip(), "first");
    ui.end_frame(true);
    assert!(ui.interacted());
    ui.end_frame(false);
    assert!(!ui.interacted());
    ui.interact();
    ui.set_tooltip("x");
    ui.begin_frame();
    assert!(!ui.interacted());
    assert_eq!(ui.tooltip(), "");
}

#[test]
fn button_labels() {
    let mut b = Button::new(None, None);
    b.set_label("Save");
    assert_eq!(b.label(), &Some("Save".to_string()));
}

#[test]
fn slider_nudges_within_its_range() {
    let mut s = SliderU8::new(10, 20);
    assert_eq!(s.nudge(15, true, false), 14);
    assert_eq!(s.nudge(15, false, true), 16);
    assert_eq!(s.nudge(10, true, false), 10);
    assert_eq!(s.nudge(20, false, true), 20);
    assert_eq!(s.nudge(0, false, true), 10);
    assert_eq!(s.nudge(15, true, true), 15);
    assert_eq!(s.nudge(3, false, false), 3);
    let full = SliderU8::new(0, 255);
    assert_eq!(full.nudge(0, true, false), 0);
    assert_eq!(full.nudge(255, false, true), 255);
    assert!(!s.active());
    s.update_active(true, true);
    assert!(s.active());
    s.update_active(false, true);
    assert!(s.active());
    s.update_active(false, false);
    assert!(!s.active());
}

#[test]
fn sign_display_closes_with_its_key() {
    let mut d = SignDisplay::new();
    assert!(!d.active());
    d.update(true);
    assert!(!d.closed_this_frame());
    d.set_lines(["a".to_string(), "b".to_string(), "c".to_string(), "d".to_string()]);
    assert!(d.active());
    d.update(false);
    assert!(d.active());
    d.update(true);
    assert!(!d.active());
    assert!(d.closed_this_frame());
    d.update(false);
    assert!(!d.closed_this_frame());
}

#[test]
fn submenu_closes_with_back() {
    let mut s = Submenu::new();
    assert!(!s.is_some());
    s.set_submenu_state(SubmenuState::Credits);
    assert!(s.is_some());
    s.update(false);
    assert_eq!(s.state(), SubmenuState::Credits);
    s.update(true);
    assert_eq!(s.state(), SubmenuState::Closed);
}

#[test]
fn entity_collision_none() {
    let n = EntityCollisionSides::none();
    assert_eq!(n.top, EntityCollision::Nothing);
    assert_eq!(n.bottom, EntityCollision::Nothing);
    assert_eq!(n.left, EntityCollision::Nothing);
    assert_eq!(n.right, EntityCollision::Nothing);
}

#[test]
fn pack_index_in_list() {
    let list: Vec<String> = ["apple", "cherry", "melon"].iter().map(|s| s.to_string()).collect();
    assert_eq!(index_in_pack(None, &list), 0);
    assert_eq!(index_in_pack(Some("cherry".to_string()), &list), 1);
    assert_eq!(index_in_pack(Some("banana".to_string()), &list), 0);
    assert_eq!(index_in_pack(Some("kiwi".to_string()), &list), 1);
    assert_eq!(index_in_pack(Some("zebra".to_string()), &list), 2);
    assert_eq!(index_in_pack(Some("aaa".to_string()), &list), 0);
    assert_eq!(index_in_pack(Some("app".to_string()), &list), 0);
    assert_eq!(index_in_pack(Some("x".to_string()), &Vec::new()), 0);
}

#[test]
fn typing_names() {
    let fonts = FontDataManager::new();
    let font = fonts.font_data(Font::Small);
    let mut s = String::new();
    assert!(type_char(&mut s, 'H', font, MAX_USER_STRING_LEN));
    assert!(type_char(&mut s, 'i', font, MAX_USER_STRING_LEN));
    assert_eq!(s, "hi");
    assert!(!type_char(&mut s, '\u{e9}', font, MAX_USER_STRING_LEN));
    assert_eq!(s, "hi");
    delete_char(&mut s);
    assert_eq!(s, "h");
    delete_char(&mut s);
    delete_char(&mut s);
    assert_eq!(s, "");
    let mut long = "a".repeat(24);
    assert!(type_char(&mut long, 'b', font, MAX_USER_STRING_LEN));
    assert_eq!(long.len(), 24);
    // typing on and on never takes a name past 24 bytes
    let mut name = String::new();
    for _ in 0..40 {
        type_char(&mut name, 'z', font, MAX_USER_STRING_LEN);
        assert!(name.len() <= 24);
    }
    assert_eq!(name.len(), 24);
}

#[test]
fn sign_popup_edits_lines() {
    let fonts = FontDataManager::new();
    let font = fonts.font_data(Font::Small);
    let mut p = SignPopup::new(None);
    let mut ui = Ui::new();
    assert_eq!(p.update(&mut ui, false, false, Some('A'), false, font, false, false, UP), SignPopupReturn::Nothing);
    assert_eq!(p.update(&mut ui, true, false, Some('z'), false, font, false, false, UP), SignPopupReturn::Nothing);
    assert_eq!(p.line(), 3);
    assert_eq!(p.update(&mut ui, false, true, None, false, font, false, false, UP), SignPopupReturn::Nothing);
    assert_eq!(p.line(), 0);
    p.update(&mut ui, false, false, None, true, font, false, false, UP);
    assert_eq!(p.lines()[0], "");
    assert_eq!(p.lines()[3], "z");
    // the done button: hovered, pressed, held, released
    let mut ui = Ui::new();
    for m in [UP, PRESS, HOLD] {
        ui.begin_frame();
        assert_eq!(p.update(&mut ui, false, false, None, false, font, true, false, m), SignPopupReturn::Nothing);
    }
    ui.begin_frame();
    assert_eq!(p.update(&mut ui, false, false, None, false, font, true, false, RELEASE), SignPopupReturn::Done);
    let lines = p.data();
    assert_eq!(lines[3], "z");
}

#[test]
fn help_pages() {
    let mut m = EditorMenu::new(String::new());
    assert_eq!(m.help_screen(), HelpScreen::OpenFromKeybind);
    m.set_active(true);
    assert_eq!(m.help_screen(), HelpScreen::Closed);
    m.open_help_menu(HelpKind::Checkpoints);
    assert_eq!(m.help_page(), 12);
    assert_eq!(u8::from(HelpKind::Last), 13);
    // the next button is disabled on the last page
    let mut ui = Ui::new();
    for mm in [UP, PRESS, HOLD, RELEASE] {
        ui.begin_frame();
        m.update_help_screen(&mut ui, false, true, false, mm, false);
    }
    assert_eq!(m.help_page(), 12);
    // the previous button turns back a page
    let mut ui = Ui::new();
    for mm in [UP, PRESS, HOLD, RELEASE] {
        ui.begin_frame();
        m.update_help_screen(&mut ui, true, false, false, mm, false);
    }
    assert_eq!(m.help_page(), 11);
    // the help key closes the screen and, since it was opened by key, the menu
    let mut ui = Ui::new();
    m.update_help_screen(&mut ui, false, false, false, UP, true);
    assert_eq!(m.help_screen(), HelpScreen::Closed);
    assert!(!m.active());
}

#[test]
fn object_selector_lists() {
    let tiles = placeable_tiles();
    assert_eq!(tiles.len(), 52);
    assert_eq!(tiles[0], Tile::Grass);
    assert_eq!(tiles[38], Tile::Lock(LockColor::Red));
    assert_eq!(tiles[51], Tile::LockBlock(LockColor::Rainbow));
    let ents = placeable_entities();
    assert_eq!(ents.len(), 36);
    assert_eq!(ents[19], (EntityKind::Goat, "Aerosol Kid".to_string()));
    assert_eq!(ents[22], (EntityKind::Key(LockColor::Red), "Red key".to_string()));
    assert_eq!(ents[35].1, "Rainbow key crate");
    let others = placeable_others();
    assert_eq!(others.len(), 7);
    assert_eq!(others[3], (ObjectOtherKind::Door(DoorKind::SeamlessTeleporter), "Seamless Teleporter".to_string()));
    // everything offered is saved unchanged
    for t in tiles {
        assert_eq!(Tile::try_from(u8::from(t)), Ok(t));
    }
    for (e, _) in ents {
        assert_eq!(EntityKind::try_from(u8::from(e)), Ok(e));
    }
}

#[test]
fn menu_controls_act_only_when_nothing_is_open() {
    let mut pack = EditorLevelPack::new_default();
    let mut m = EditorMenu::new("mine".to_string());
    assert_eq!(m.popup(), PopupKind::Closed);
    assert_eq!(m.last_saved_file_name(), "mine");
    // the help screen is open at first: the controls do nothing
    assert_eq!(m.update(&mut pack, Some(MenuControl::AddLevel)), MenuAction::Nothing);
    assert_eq!(pack.level_count(), 1);
    m.set_active(true);
    assert_eq!(m.update(&mut pack, Some(MenuControl::AddLevel)), MenuAction::LevelChanged);
    assert_eq!((pack.level_count(), pack.current()), (2, 1));
    assert_eq!(m.update(&mut pack, Some(MenuControl::PrevLevel)), MenuAction::LevelChanged);
    assert_eq!(pack.current(), 0);
    assert_eq!(m.update(&mut pack, Some(MenuControl::ShiftNext)), MenuAction::Nothing);
    assert_eq!(pack.current(), 1);
    assert_eq!(m.update(&mut pack, None), MenuAction::Nothing);
    assert_eq!(m.update(&mut pack, Some(MenuControl::Help)), MenuAction::Nothing);
    assert_eq!(m.help_screen(), HelpScreen::OpenFromMenu);
    assert_eq!(m.update(&mut pack, Some(MenuControl::NextLevel)), MenuAction::Nothing);
    assert_eq!(pack.current(), 1);
    // a hidden menu does nothing either
    m.set_active(false);
    assert_eq!(m.update(&mut pack, Some(MenuControl::Save)), MenuAction::Nothing);
    assert_eq!(m.popup(), PopupKind::Closed);
}

#[test]
fn popups_ask_before_deleting_saving_and_leaving() {
    let mut pack = EditorLevelPack::new_default();
    let mut m = EditorMenu::new(String::new());
    m.set_active(true);
    m.update(&mut pack, Some(MenuControl::AddLevel));
    // delete: cancelling keeps the level
    assert_eq!(m.update(&mut pack, Some(MenuControl::DeleteLevel)), MenuAction::Nothing);
    assert_eq!(m.popup(), PopupKind::DeleteLevel);
    assert_eq!(m.update(&mut pack, Some(MenuControl::PrevLevel)), MenuAction::Nothing);
    assert_eq!(pack.current(), 1);
    assert_eq!(m.update_popup(&mut pack, None), MenuAction::Nothing);
    assert_eq!(m.update_popup(&mut pack, Some(PopupControl::Cancel)), MenuAction::Nothing);
    assert_eq!(m.popup(), PopupKind::Closed);
    assert_eq!(pack.level_count(), 2);
    // confirming deletes it
    m.update(&mut pack, Some(MenuControl::DeleteLevel));
    assert_eq!(m.update_popup(&mut pack, Some(PopupControl::Confirm)), MenuAction::LevelChanged);
    assert_eq!(m.popup(), PopupKind::Closed);
    assert_eq!((pack.level_count(), pack.current()), (1, 0));
    // save: confirming asks for the save, which closes the popup once done
    m.update(&mut pack, Some(MenuControl::Save));
    assert_eq!(m.update_popup(&mut pack, Some(PopupControl::Confirm)), MenuAction::SavePack);
    assert_eq!(m.popup(), PopupKind::Save);
    m.pack_saved("pack".to_string());
    assert_eq!(m.popup(), PopupKind::Closed);
    assert_eq!(m.last_saved_file_name(), "pack");
    // exit: confirming leaves the editor
    m.update(&mut pack, Some(MenuControl::Exit));
    assert_eq!(m.popup(), PopupKind::Exit);
    assert_eq!(m.update_popup(&mut pack, Some(PopupControl::Confirm)), MenuAction::ExitEditor);
    assert_eq!(m.update_popup(&mut pack, Some(PopupControl::Cancel)), MenuAction::Nothing);
    assert_eq!(m.popup(), PopupKind::Closed);
}
