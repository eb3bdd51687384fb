//! The editor menu: its help screen (which page is shown, paging through them, closing it),
//! its popups, and what its controls do to the pack being edited.
use vstd::prelude::*;

use crate::codec::pack_bytes;
use crate::editor_level_pack::{
    added_level, deleted_level, shifted_next, shifted_prev, went_next, went_prev, EditorLevelPack,
    EditorLevelPackModel,
};
use crate::font::FontData;
use crate::level_pack_data::{pack_from_editor, worlds_upto, LevelPackData};
use crate::ui::{Button, ButtonModel, ButtonState, MouseInput, Ui};

verus! {

/// The pages of the editor's help, in order; `Last` only counts them.
#[derive(PartialEq, Eq, Structural, Clone, Copy, Debug)]
pub enum HelpKind {
    Editor,
    LevelPacks,
    Level,
    Resizing,
    ObjectSelector,
    Tiles,
    BackgroundTiles,
    Entities,
    Signs,
    Doors,
    Teles,
    SpawnFinish,
    Checkpoints,
    Last,
}

/// The number of a help page.
pub open spec fn help_index(k: HelpKind) -> u8 {
    match k {
        HelpKind::Editor => 0,
        HelpKind::LevelPacks => 1,
        HelpKind::Level => 2,
        HelpKind::Resizing => 3,
        HelpKind::ObjectSelector => 4,
        HelpKind::Tiles => 5,
        HelpKind::BackgroundTiles => 6,
        HelpKind::Entities => 7,
        HelpKind::Signs => 8,
        HelpKind::Doors => 9,
        HelpKind::Teles => 10,
        HelpKind::SpawnFinish => 11,
        HelpKind::Checkpoints => 12,
        HelpKind::Last => 13,
    }
}

/// The number of the last help page.
pub const LAST_HELP_PAGE: u8 = 12;

impl From<HelpKind> for u8 {
    fn from(value: HelpKind) -> (res: u8) {
        match value {
            HelpKind::Editor => 0,
            HelpKind::LevelPacks => 1,
            HelpKind::Level => 2,
            HelpKind::Resizing => 3,
            HelpKind::ObjectSelector => 4,
            HelpKind::Tiles => 5,
            HelpKind::BackgroundTiles => 6,
            HelpKind::Entities => 7,
            HelpKind::Signs => 8,
            HelpKind::Doors => 9,
            HelpKind::Teles => 10,
            HelpKind::SpawnFinish => 11,
            HelpKind::Checkpoints => 12,
            HelpKind::Last => 13,
        }
    }
}

impl vstd::std_specs::convert::FromSpecImpl<HelpKind> for u8 {
    open spec fn obeys_from_spec() -> bool {
        true
    }

    open spec fn from_spec(v: HelpKind) -> u8 {
        help_index(v)
    }
}

/// Whether the help screen is shown, and how it was opened: from the menu, or by a key (then
/// closing it closes the menu too).
#[derive(PartialEq, Eq, Structural, Clone, Copy, Debug)]
pub enum HelpScreen {
    Closed,
    OpenFromMenu,
    OpenFromKeybind,
}

/// The popup the menu shows over everything else, if any.
#[derive(PartialEq, Eq, Structural, Clone, Copy, Debug)]
pub enum PopupKind {
    Closed,
    /// asks for the pack's file name, name and author before saving it
    Save,
    /// asks before deleting the open level
    DeleteLevel,
    /// asks before leaving the editor
    Exit,
}

/// A control of the menu released this frame.
#[derive(PartialEq, Eq, Structural, Clone, Copy, Debug)]
pub enum MenuControl {
    AddLevel,
    DeleteLevel,
    PrevLevel,
    NextLevel,
    ShiftPrev,
    ShiftNext,
    Help,
    Save,
    Exit,
}

/// A button of the open popup released this frame.
#[derive(PartialEq, Eq, Structural, Clone, Copy, Debug)]
pub enum PopupControl {
    Cancel,
    /// save, delete or exit, after the popup
    Confirm,
}

/// What the editor is to do after the menu's frame.
#[derive(PartialEq, Eq, Structural, Clone, Copy, Debug)]
pub enum MenuAction {
    Nothing,
    /// another level is open (the view goes back to its corner)
    LevelChanged,
    /// write the pack to its file
    SavePack,
    /// leave the editor for the main menu
    ExitEditor,
}

/// The pack after a control of the menu was released.
pub open spec fn controlled_pack(p: EditorLevelPackModel, control: MenuControl) -> EditorLevelPackModel {
    match control {
        MenuControl::AddLevel => added_level(p),
        MenuControl::PrevLevel => went_prev(p),
        MenuControl::NextLevel => went_next(p),
        MenuControl::ShiftPrev => shifted_prev(p),
        MenuControl::ShiftNext => shifted_next(p),
        _ => p,
    }
}

/// The popup a control of the menu opens.
pub open spec fn opened_popup(control: MenuControl) -> PopupKind {
    match control {
        MenuControl::DeleteLevel => PopupKind::DeleteLevel,
        MenuControl::Save => PopupKind::Save,
        MenuControl::Exit => PopupKind::Exit,
        _ => PopupKind::Closed,
    }
}

/// The state of the editor menu: whether it is shown, its help screen and its popup.
pub struct EditorMenu {
    active: bool,
    last_saved_file_name: String,
    popup: PopupKind,
    help_page: u8,
    help_screen: HelpScreen,
    help_button_prev: Button,
    help_button_next: Button,
    help_button_close: Button,
}

impl EditorMenu {
    pub closed spec fn spec_active(&self) -> bool {
        self.active
    }

    pub closed spec fn spec_help_page(&self) -> u8 {
        self.help_page
    }

    pub closed spec fn spec_help_screen(&self) -> HelpScreen {
        self.help_screen
    }

    pub closed spec fn spec_popup(&self) -> PopupKind {
        self.popup
    }

    pub closed spec fn spec_last_saved_file_name(&self) -> Seq<char> {
        self.last_saved_file_name@
    }

    pub closed spec fn spec_prev_button(&self) -> ButtonModel {
        self.help_button_prev@
    }

    pub closed spec fn spec_next_button(&self) -> ButtonModel {
        self.help_button_next@
    }

    pub closed spec fn spec_close_button(&self) -> ButtonModel {
        self.help_button_close@
    }

    /// The page is one of the help pages.
    pub closed spec fn wf(&self) -> bool {
        self.help_page <= LAST_HELP_PAGE
    }

    /// A shown menu, with the help screen open at the first page, as if opened by its key, and
    /// no popup; `last_saved_file_name` is the file the pack was last saved to or opened from.
    pub fn new(last_saved_file_name: String) -> (res: EditorMenu)
        ensures
            res.wf(),
            res.spec_active(),
            res.spec_popup() == PopupKind::Closed,
            res.spec_last_saved_file_name() == last_saved_file_name@,
            res.spec_help_page() == 0,
            res.spec_help_screen() == HelpScreen::OpenFromKeybind,
            res.spec_prev_button() == (ButtonModel {
                state: ButtonState::Idle,
                disabled: false,
                label: Some("\u{1FBA4}"@),
                tooltip: None,
            }),
            res.spec_next_button() == (ButtonModel {
                state: ButtonState::Idle,
                disabled: false,
                label: Some("\u{1FBA5}"@),
                tooltip: None,
            }),
            res.spec_close_button() == (ButtonModel {
                state: ButtonState::Idle,
                disabled: false,
                label: Some("Close"@),
                tooltip: None,
            }),
    {
        EditorMenu {
            active: true,
            last_saved_file_name,
            popup: PopupKind::Closed,
            help_page: 0,
            help_screen: HelpScreen::OpenFromKeybind,
            help_button_prev: Button::new(Some("\u{1FBA4}".to_owned()), None),
            help_button_next: Button::new(Some("\u{1FBA5}".to_owned()), None),
            help_button_close: Button::new(Some("Close".to_owned()), None),
        }
    }

    /// Whether the menu is shown.
    pub fn active(&self) -> (res: bool)
        ensures
            res == self.spec_active(),
    {
        self.active
    }

    /// The help page shown.
    pub fn help_page(&self) -> (res: u8)
        ensures
            res == self.spec_help_page(),
    {
        self.help_page
    }

    /// Whether and how the help screen is shown.
    pub fn help_screen(&self) -> (res: HelpScreen)
        ensures
            res == self.spec_help_screen(),
    {
        self.help_screen
    }

    /// The buttons of the help screen: previous page, next page, close.
    pub fn help_buttons(&self) -> (res: (&Button, &Button, &Button))
        ensures
            res.0@ == self.spec_prev_button(),
            res.1@ == self.spec_next_button(),
            res.2@ == self.spec_close_button(),
    {
        (&self.help_button_prev, &self.help_button_next, &self.help_button_close)
    }

    /// Shows or hides the menu; showing it closes the help screen.
    pub fn set_active(&mut self, active: bool)
        requires
            old(self).wf(),
        ensures
            final(self).wf(),
            final(self).spec_active() == active,
            final(self).spec_help_page() == old(self).spec_help_page(),
            final(self).spec_popup() == old(self).spec_popup(),
            final(self).spec_last_saved_file_name() == old(self).spec_last_saved_file_name(),
            final(self).spec_help_screen() == (if active { HelpScreen::Closed } else { old(self).spec_help_screen() }),
    {
        if active {
            self.help_screen = HelpScreen::Closed;
        }
        self.active = active;
    }

    /// Shows the menu with the help screen open at the page `help_kind`, as if opened by its
    /// key.
    pub fn open_help_menu(&mut self, help_kind: HelpKind)
        requires
            help_kind != HelpKind::Last,
        ensures
            final(self).wf(),
            final(self).spec_active(),
            final(self).spec_help_page() == help_index(help_kind),
            final(self).spec_help_screen() == HelpScreen::OpenFromKeybind,
            final(self).spec_popup() == old(self).spec_popup(),
            final(self).spec_last_saved_file_name() == old(self).spec_last_saved_file_name(),
    {
        self.active = true;
        self.help_page = help_kind.into();
        self.help_screen = HelpScreen::OpenFromKeybind;
    }

    /// Updates the help screen for a frame: the previous-page button is disabled on the first
    /// page and the next-page button on the last; a released one turns the page. The close
    /// button, or the help key, closes the help screen, and the menu too when the help screen
    /// was opened by its key.
    pub fn update_help_screen(
        &mut self,
        ui: &mut Ui,
        hovered_prev: bool,
        hovered_next: bool,
        hovered_close: bool,
        mouse: MouseInput,
        help_key_pressed: bool,
    )
        requires
            old(self).wf(),
        ensures
            final(self).wf(),
            final(self).spec_popup() == old(self).spec_popup(),
            final(self).spec_last_saved_file_name() == old(self).spec_last_saved_file_name(),
            ({
                let prev = final(self).spec_prev_button().state == ButtonState::Released;
                let next = final(self).spec_next_button().state == ButtonState::Released;
                let close = final(self).spec_close_button().state == ButtonState::Released || help_key_pressed;
                &&& final(self).spec_help_page() == old(self).spec_help_page() - (if prev { 1int } else { 0int }) + (if next {
                    1int
                } else {
                    0int
                })
                &&& (prev ==> old(self).spec_help_page() > 0)
                &&& (next ==> old(self).spec_help_page() < LAST_HELP_PAGE)
                &&& final(self).spec_help_screen() == (if close { HelpScreen::Closed } else { old(self).spec_help_screen() })
                &&& final(self).spec_active() == (old(self).spec_active() && !(close
                    && old(self).spec_help_screen() == HelpScreen::OpenFromKeybind))
            }),
    {
        self.help_button_prev.set_disabled(self.help_page == 0);
        self.help_button_next.set_disabled(self.help_page == LAST_HELP_PAGE);
        self.help_button_prev.update(ui, hovered_prev, mouse);
        self.help_button_next.update(ui, hovered_next, mouse);
        self.help_button_close.update(ui, hovered_close, mouse);
        if self.help_button_prev.released() {
            self.help_page = self.help_page - 1;
        }
        if self.help_button_next.released() {
            self.help_page = self.help_page + 1;
        }
        assert(self.help_page <= LAST_HELP_PAGE);
        if self.help_button_close.released() || help_key_pressed {
            if self.help_screen == HelpScreen::OpenFromKeybind {
                self.active = false;
            }
            self.help_screen = HelpScreen::Closed;
        }
    }

    /// The popup shown.
    pub fn popup(&self) -> (res: PopupKind)
        ensures
            res == self.spec_popup(),
    {
        self.popup
    }

    /// The file the pack was last saved to, or opened from.
    pub fn last_saved_file_name(&self) -> (res: &String)
        ensures
            res@ == self.spec_last_saved_file_name(),
    {
        &self.last_saved_file_name
    }

    /// Updates the open popup for a frame, given the button of it that was released. Cancel
    /// closes it. Confirming the delete popup deletes the open level and closes it; confirming
    /// the save popup asks for the pack to be saved, and the exit popup for the editor to be
    /// left, both leaving the popup open.
    pub fn update_popup(&mut self, pack: &mut EditorLevelPack, control: Option<PopupControl>) -> (res: MenuAction)
        requires
            old(self).wf(),
            old(pack)@.wf(),
        ensures
            final(self).wf(),
            final(pack)@.wf(),
            final(self).spec_active() == old(self).spec_active(),
            final(self).spec_help_page() == old(self).spec_help_page(),
            final(self).spec_help_screen() == old(self).spec_help_screen(),
            final(self).spec_last_saved_file_name() == old(self).spec_last_saved_file_name(),
            ({
                let popup = old(self).spec_popup();
                let confirm = control == Some(PopupControl::Confirm);
                &&& final(pack)@ == (if popup == PopupKind::DeleteLevel && confirm {
                    deleted_level(old(pack)@)
                } else {
                    old(pack)@
                })
                &&& res == (if !confirm {
                    MenuAction::Nothing
                } else {
                    match popup {
                        PopupKind::Save => MenuAction::SavePack,
                        PopupKind::DeleteLevel => MenuAction::LevelChanged,
                        PopupKind::Exit => MenuAction::ExitEditor,
                        PopupKind::Closed => MenuAction::Nothing,
                    }
                })
                &&& final(self).spec_popup() == (if control == Some(PopupControl::Cancel) || (confirm && popup
                    == PopupKind::DeleteLevel) {
                    PopupKind::Closed
                } else {
                    popup
                })
            }),
    {
        match control {
            None => MenuAction::Nothing,
            Some(PopupControl::Cancel) => {
                self.popup = PopupKind::Closed;
                MenuAction::Nothing
            },
            Some(PopupControl::Confirm) => match self.popup {
                PopupKind::Save => MenuAction::SavePack,
                PopupKind::DeleteLevel => {
                    self.popup = PopupKind::Closed;
                    pack.delete_level();
                    MenuAction::LevelChanged
                },
                PopupKind::Exit => MenuAction::ExitEditor,
                PopupKind::Closed => MenuAction::Nothing,
            },
        }
    }

    /// Records that the pack was saved to the file `file_name`: the save popup closes.
    pub fn pack_saved(&mut self, file_name: String)
        requires
            old(self).wf(),
        ensures
            final(self).wf(),
            final(self).spec_last_saved_file_name() == file_name@,
            final(self).spec_popup() == PopupKind::Closed,
            final(self).spec_active() == old(self).spec_active(),
            final(self).spec_help_page() == old(self).spec_help_page(),
            final(self).spec_help_screen() == old(self).spec_help_screen(),
    {
        self.last_saved_file_name = file_name;
        self.popup = PopupKind::Closed;
    }

    /// Updates the menu's controls for a frame, given the one that was released; they act only
    /// while the menu is shown with neither the help screen nor a popup open. Adding a level,
    /// and going to the previous or next one, change the open level; shifting moves it; the
    /// delete, save and exit controls open their popups, and the help control the help screen.
    pub fn update(&mut self, pack: &mut EditorLevelPack, control: Option<MenuControl>) -> (res: MenuAction)
        requires
            old(self).wf(),
            old(pack)@.wf(),
        ensures
            final(self).wf(),
            final(pack)@.wf(),
            final(self).spec_active() == old(self).spec_active(),
            final(self).spec_help_page() == old(self).spec_help_page(),
            final(self).spec_last_saved_file_name() == old(self).spec_last_saved_file_name(),
            ({
                let live = old(self).spec_active() && old(self).spec_help_screen() == HelpScreen::Closed
                    && old(self).spec_popup() == PopupKind::Closed;
                match control {
                    Some(c) if live => {
                        &&& final(pack)@ == controlled_pack(old(pack)@, c)
                        &&& final(self).spec_popup() == opened_popup(c)
                        &&& final(self).spec_help_screen() == (if c == MenuControl::Help {
                            HelpScreen::OpenFromMenu
                        } else {
                            HelpScreen::Closed
                        })
                        &&& res == (if c == MenuControl::AddLevel || c == MenuControl::PrevLevel || c
                            == MenuControl::NextLevel {
                            MenuAction::LevelChanged
                        } else {
                            MenuAction::Nothing
                        })
                    },
                    _ => {
                        &&& final(pack)@ == old(pack)@
                        &&& final(self).spec_popup() == old(self).spec_popup()
                        &&& final(self).spec_help_screen() == old(self).spec_help_screen()
                        &&& res == MenuAction::Nothing
                    },
                }
            }),
    {
        if self.help_screen != HelpScreen::Closed || self.popup != PopupKind::Closed || !self.active {
            return MenuAction::Nothing;
        }
        match control {
            None => MenuAction::Nothing,
            Some(MenuControl::AddLevel) => {
                pack.add_level();
                MenuAction::LevelChanged
            },
            Some(MenuControl::DeleteLevel) => {
                self.popup = PopupKind::DeleteLevel;
                MenuAction::Nothing
            },
            Some(MenuControl::PrevLevel) => {
                pack.prev();
                MenuAction::LevelChanged
            },
            Some(MenuControl::NextLevel) => {
                pack.next();
                MenuAction::LevelChanged
            },
            Some(MenuControl::ShiftPrev) => {
                pack.shift_prev();
                MenuAction::Nothing
            },
            Some(MenuControl::ShiftNext) => {
                pack.shift_next();
                MenuAction::Nothing
            },
            Some(MenuControl::Help) => {
                self.help_screen = HelpScreen::OpenFromMenu;
                MenuAction::Nothing
            },
            Some(MenuControl::Save) => {
                self.popup = PopupKind::Save;
                MenuAction::Nothing
            },
            Some(MenuControl::Exit) => {
                self.popup = PopupKind::Exit;
                MenuAction::Nothing
            },
        }
    }
}

/// Why a pack is not saved.
#[derive(PartialEq, Eq, Structural, Clone, Copy, Debug)]
pub enum SaveError {
    /// the pack has no file name
    EmptyFileName,
}

/// The file name (without its extension) and the bytes a pack being edited is saved as, with
/// the characters `font` can type; a pack without a file name is not saved.
pub fn pack_save_data(pack: &EditorLevelPack, font: &FontData) -> (res: Result<(String, Vec<u8>), SaveError>)
    requires
        worlds_upto(pack@.levels, pack@.levels.len() as int).len() <= 255,
    ensures
        pack@.file_name.len() == 0 ==> res == Err::<(String, Vec<u8>), SaveError>(SaveError::EmptyFileName),
        pack@.file_name.len() > 0 ==> (res matches Ok((name, bytes)) && name@ == pack@.file_name
            && bytes@ == pack_bytes(pack_from_editor(pack@), font@)),
{
    let data = LevelPackData::from_editor_level_pack(pack);
    let bytes = data.to_bytes(font);
    let file_name = data.file_name().clone();
    if file_name.as_str().is_empty() {
        return Err(SaveError::EmptyFileName);
    }
    Ok((file_name, bytes))
}

} // verus!
