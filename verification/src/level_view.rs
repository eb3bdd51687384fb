//! What the editor does with the mouse over a level: drawing tiles, writing, removing, cutting
//! and pasting signs, and placing and removing doors.
use vstd::prelude::*;

use crate::editor_level::{
    checkpoint_not_at, door_not_at, entity_at_pos, entity_not_at, first_sign_at, lines_model, pos_in_level, sign_added,
    sign_at, sign_not_at, with_checkpoints, with_door_start, with_doors, with_entities, with_finish, with_signs, with_spawn,
    with_tile, EditorLevel, EditorLevelModel, TilePos, MAX_CHECKPOINTS, MAX_DOORS, MAX_ENTITIES,
};
use crate::entity::EntityKind;
use crate::editor_menu::HelpKind;
use crate::object_selector::{Object, ObjectOtherKind};
use crate::things::DoorKind;
use crate::tile::Tile;

verus! {

/// What the mouse buttons, and the keys that copy ('C') and cut ('X') a sign, did in a frame.
#[derive(PartialEq, Eq, Structural, Clone, Copy, Debug)]
pub struct EditorMouse {
    pub left_pressed: bool,
    pub right_pressed: bool,
    pub middle_pressed: bool,
    pub left_down: bool,
    pub right_down: bool,
    pub copy_pressed: bool,
    pub cut_pressed: bool,
}

/// The object being placed, the layer drawn on, whether the current stroke began inside the
/// level, and the sign copied or cut, if any (and whether it was copied).
pub struct LevelView {
    selected_object: Object,
    began_drawing_in_area: bool,
    layer_bg: bool,
    cut_sign: Option<[String; 4]>,
    sign_copied: bool,
}

/// The state of the level view, as a model.
pub struct LevelViewModel {
    pub selected_object: Object,
    pub began_drawing_in_area: bool,
    pub layer_bg: bool,
    pub cut_sign: Option<Seq<Seq<char>>>,
    pub sign_copied: bool,
}

impl View for LevelView {
    type V = LevelViewModel;

    closed spec fn view(&self) -> LevelViewModel {
        LevelViewModel {
            selected_object: self.selected_object,
            began_drawing_in_area: self.began_drawing_in_area,
            layer_bg: self.layer_bg,
            cut_sign: match self.cut_sign {
                Some(l) => Some(lines_model(l)),
                None => None,
            },
            sign_copied: self.sign_copied,
        }
    }
}

/// The level without its signs at `pos`.
pub open spec fn signs_removed(m: EditorLevelModel, pos: TilePos) -> EditorLevelModel {
    with_signs(m, m.signs.filter(sign_not_at(pos)))
}

/// The level after a door from `pos` to `dest` is added, unless it has 255 doors.
pub open spec fn door_added(m: EditorLevelModel, kind: DoorKind, pos: TilePos, dest: TilePos) -> EditorLevelModel {
    if m.doors.len() < MAX_DOORS {
        with_doors(m, m.doors.push((kind, pos, dest)))
    } else {
        m
    }
}

/// The level after an entity of `kind` is placed at `pos`, unless one is there or it has 255.
pub open spec fn entity_added(m: EditorLevelModel, pos: TilePos, kind: EntityKind) -> EditorLevelModel {
    if entity_at_pos(m.entities, pos) || m.entities.len() >= MAX_ENTITIES {
        m
    } else {
        with_entities(m, m.entities.push((pos, kind)))
    }
}

/// The level after a checkpoint is placed at `pos`, unless one is there or it has 255.
pub open spec fn checkpoint_added(m: EditorLevelModel, pos: TilePos) -> EditorLevelModel {
    if m.checkpoints.contains(pos) || m.checkpoints.len() >= MAX_CHECKPOINTS {
        m
    } else {
        with_checkpoints(m, m.checkpoints.push(pos))
    }
}

/// Whether a door starts at `pos`.
pub open spec fn door_at(m: EditorLevelModel, pos: TilePos) -> bool {
    exists|i: int| 0 <= i < m.doors.len() && m.doors[i].1 == pos
}

/// The level after a right click at `pos` with doors selected: a door being placed is dropped;
/// otherwise the doors starting at `pos` are removed.
pub open spec fn door_right_click(m: EditorLevelModel, pos: TilePos) -> EditorLevelModel {
    if m.door_start is Some {
        with_door_start(m, None)
    } else {
        with_doors(m, m.doors.filter(door_not_at(pos)))
    }
}

/// The level after a left click at `pos` with doors of `kind` selected: a door being placed is
/// finished at `pos`; otherwise a door starts at `pos`, unless one starts there already.
pub open spec fn door_left_click(m: EditorLevelModel, kind: DoorKind, pos: TilePos) -> EditorLevelModel {
    match m.door_start {
        Some(s) => with_door_start(door_added(m, kind, s, pos), None),
        None => if door_at(m, pos) {
            m
        } else {
            with_door_start(m, Some(pos))
        },
    }
}

/// The help page about an object: tiles, entities, signs, doors, teleporters, the spawn and
/// finish, or checkpoints.
pub open spec fn spec_help_kind(o: Object) -> HelpKind {
    match o {
        Object::Tile(_) => HelpKind::Tiles,
        Object::Entity(_) => HelpKind::Entities,
        Object::Other(ObjectOtherKind::Sign) => HelpKind::Signs,
        Object::Other(ObjectOtherKind::Door(DoorKind::Door)) => HelpKind::Doors,
        Object::Other(ObjectOtherKind::Door(_)) => HelpKind::Teles,
        Object::Other(ObjectOtherKind::Spawn) => HelpKind::SpawnFinish,
        Object::Other(ObjectOtherKind::Finish) => HelpKind::SpawnFinish,
        Object::Other(ObjectOtherKind::Checkpoint) => HelpKind::Checkpoints,
    }
}

/// A copy of the lines of a sign.
fn copy_sign_lines(lines: &[String; 4]) -> (res: [String; 4])
    ensures
        lines_model(res) == lines_model(*lines),
{
    let res = [lines[0].clone(), lines[1].clone(), lines[2].clone(), lines[3].clone()];
    assert(lines_model(res) =~= lines_model(*lines));
    res
}

/// The lines of the first sign at `pos`, if there is one.
fn find_sign_lines(level: &EditorLevel, pos: TilePos) -> (res: Option<[String; 4]>)
    ensures
        res is None <==> !sign_at(level@.signs, pos),
        res matches Some(l) ==> exists|i: int| first_sign_at(level@.signs, pos, i) && level@.signs[i].1 == lines_model(l),
{
    let signs = level.signs();
    let mut i: usize = 0;
    while i < signs.len()
        invariant
            i <= signs@.len(),
            crate::editor_level::editor_signs_model(signs@) == level@.signs,
            forall|j: int| 0 <= j < i ==> level@.signs[j].0 != pos,
        decreases signs@.len() - i,
    {
        assert(level@.signs[i as int] == crate::editor_level::editor_sign_model(signs@[i as int]));
        if (signs[i].0).0 == pos.0 && (signs[i].0).1 == pos.1 {
            let l = copy_sign_lines(&signs[i].1);
            assert(first_sign_at(level@.signs, pos, i as int));
            return Some(l);
        }
        i += 1;
    }
    None
}

/// Whether a door starts at `pos`.
fn has_door_at(level: &EditorLevel, pos: TilePos) -> (res: bool)
    ensures
        res == door_at(level@, pos),
{
    let doors = level.doors();
    let mut i: usize = 0;
    while i < doors.len()
        invariant
            i <= doors@.len(),
            doors@ == level@.doors,
            forall|j: int| 0 <= j < i ==> level@.doors[j].1 != pos,
        decreases doors@.len() - i,
    {
        if (doors[i].1).0 == pos.0 && (doors[i].1).1 == pos.1 {
            return true;
        }
        i += 1;
    }
    false
}

impl LevelView {
    /// Doors selected, the foreground layer, nothing being drawn or cut.
    pub fn new() -> (res: LevelView)
        ensures
            res@.selected_object == Object::Other(ObjectOtherKind::Door(DoorKind::Door)),
            !res@.began_drawing_in_area,
            !res@.layer_bg,
            res@.cut_sign is None,
            !res@.sign_copied,
    {
        LevelView {
            selected_object: Object::Other(ObjectOtherKind::Door(DoorKind::Door)),
            began_drawing_in_area: false,
            layer_bg: false,
            cut_sign: None,
            sign_copied: false,
        }
    }

    /// The sign copied or cut, if any, and whether it was copied.
    pub fn clipboard(&self) -> (res: (&Option<[String; 4]>, bool))
        ensures
            self@.cut_sign == (match *res.0 {
                Some(l) => Some(lines_model(l)),
                None => None,
            }),
            res.1 == self@.sign_copied,
    {
        (&self.cut_sign, self.sign_copied)
    }

    /// The object being placed.
    pub fn selected_object(&self) -> (res: Object)
        ensures
            res == self@.selected_object,
    {
        self.selected_object
    }

    /// The help page about the object being placed (see `spec_help_kind`); it is never the
    /// count of pages.
    pub fn help_kind(&self) -> (res: HelpKind)
        ensures
            res == spec_help_kind(self@.selected_object),
            res != HelpKind::Last,
    {
        match self.selected_object {
            Object::Tile(_) => HelpKind::Tiles,
            Object::Entity(_) => HelpKind::Entities,
            Object::Other(ObjectOtherKind::Sign) => HelpKind::Signs,
            Object::Other(ObjectOtherKind::Door(DoorKind::Door)) => HelpKind::Doors,
            Object::Other(ObjectOtherKind::Door(_)) => HelpKind::Teles,
            Object::Other(ObjectOtherKind::Spawn) => HelpKind::SpawnFinish,
            Object::Other(ObjectOtherKind::Finish) => HelpKind::SpawnFinish,
            Object::Other(ObjectOtherKind::Checkpoint) => HelpKind::Checkpoints,
        }
    }

    /// Whether tiles are drawn on the background layer.
    pub fn layer_bg(&self) -> (res: bool)
        ensures
            res == self@.layer_bg,
    {
        self.layer_bg
    }

    /// Switches between drawing on the foreground and the background; returns the new layer.
    pub fn toggle_layer(&mut self) -> (res: bool)
        ensures
            res == !old(self)@.layer_bg,
            final(self)@ == (LevelViewModel { layer_bg: res, ..old(self)@ }),
    {
        self.layer_bg = !self.layer_bg;
        self.layer_bg
    }

    /// Selects an object to place, dropping a door being placed.
    pub fn select_object(&mut self, level: &mut EditorLevel, object: Object)
        requires
            old(level)@.wf(),
        ensures
            final(self)@ == (LevelViewModel { selected_object: object, ..old(self)@ }),
            final(level)@ == with_door_start(old(level)@, None),
            final(level)@.wf(),
    {
        level.set_door_start(None);
        self.selected_object = object;
    }

    /// The tile under the mouse, when it is inside the level.
    pub fn cursor_tile(level: &EditorLevel, mouse_tile: (i64, i64)) -> (res: Option<TilePos>)
        requires
            level@.wf(),
        ensures
            (0 <= mouse_tile.0 < level@.width && 0 <= mouse_tile.1 < level@.height) ==> res == Some(
                (mouse_tile.0 as i32, mouse_tile.1 as i32),
            ),
            !(0 <= mouse_tile.0 < level@.width && 0 <= mouse_tile.1 < level@.height) ==> res is None,
    {
        let w = level.width();
        let h = level.height();
        if mouse_tile.0 >= 0 && mouse_tile.0 < w as i64 && mouse_tile.1 >= 0 && mouse_tile.1 < h as i64 {
            Some((mouse_tile.0 as i32, mouse_tile.1 as i32))
        } else {
            None
        }
    }

    /// Acts on the level for a frame in which the mouse is over the tile `cursor` (if inside
    /// the level). A stroke begins inside the level when a button is pressed there and ends
    /// when both are up. With a tile selected, the left button draws it and the right button
    /// erases, while a stroke that began inside goes on. With signs selected, a left click
    /// pastes a copied or cut sign where there is none, and otherwise asks for the sign popup
    /// (returned: where, and the lines of the sign already there); a right click removes the
    /// signs there; a middle click or the cut key cuts the sign there, and the copy key copies
    /// it. With doors selected, see `door_right_click` and `door_left_click`. Entities and
    /// checkpoints are placed with a left click and removed with a right click; the spawn and
    /// the finish are moved with a left click.
    pub fn update_cursor(&mut self, level: &mut EditorLevel, cursor: Option<TilePos>, mouse: EditorMouse) -> (res: Option<(TilePos, Option<[String; 4]>)>)
        requires
            old(level)@.wf(),
            cursor matches Some(p) ==> pos_in_level(p, old(level)@.width, old(level)@.height),
        ensures
            final(level)@.wf(),
            final(self)@.selected_object == old(self)@.selected_object,
            final(self)@.layer_bg == old(self)@.layer_bg,
            final(self)@.began_drawing_in_area == ((old(self)@.began_drawing_in_area || ((mouse.left_pressed
                || mouse.right_pressed) && cursor is Some)) && (mouse.left_down || mouse.right_down)),
            cursor is None ==> final(level)@ == old(level)@ && final(self)@.cut_sign == old(self)@.cut_sign
                && final(self)@.sign_copied == old(self)@.sign_copied && res is None,
            cursor matches Some(p) ==> ({
                let m = old(level)@;
                let began = final(self)@.began_drawing_in_area;
                let unchanged_clipboard = final(self)@.cut_sign == old(self)@.cut_sign && final(self)@.sign_copied
                    == old(self)@.sign_copied;
                match old(self)@.selected_object {
                    Object::Tile(t) => {
                        &&& res is None
                        &&& unchanged_clipboard
                        &&& final(level)@ == (if mouse.left_down && began {
                            with_tile(m, t, p.0 as int, p.1 as int, old(self)@.layer_bg)
                        } else if mouse.right_down && began {
                            with_tile(m, Tile::Empty, p.0 as int, p.1 as int, old(self)@.layer_bg)
                        } else {
                            m
                        })
                    },
                    Object::Other(ObjectOtherKind::Sign) => if mouse.left_pressed {
                        if old(self)@.cut_sign is Some && !sign_at(m.signs, p) {
                            &&& res is None
                            &&& final(self)@.cut_sign is None
                            &&& !final(self)@.sign_copied
                            &&& sign_added(m, p, old(self)@.cut_sign.unwrap(), final(level)@)
                        } else {
                            &&& final(level)@ == m
                            &&& unchanged_clipboard
                            &&& res matches Some((q, lines)) && q == p && (lines is None <==> !sign_at(m.signs, p))
                            &&& (res matches Some((_, Some(l))) ==> exists|i: int| first_sign_at(m.signs, p, i) && m.signs[i].1 == lines_model(l))
                        }
                    } else if mouse.right_pressed {
                        &&& res is None
                        &&& unchanged_clipboard
                        &&& final(level)@ == signs_removed(m, p)
                    } else if mouse.middle_pressed || mouse.cut_pressed || mouse.copy_pressed {
                        let cutting = mouse.middle_pressed || mouse.cut_pressed;
                        &&& res is None
                        &&& (sign_at(m.signs, p) ==> {
                            &&& final(level)@ == (if cutting { signs_removed(m, p) } else { m })
                            &&& final(self)@.sign_copied == !cutting
                            &&& exists|i: int| first_sign_at(m.signs, p, i) && final(self)@.cut_sign == Some(m.signs[i].1)
                        })
                        &&& (!sign_at(m.signs, p) ==> final(level)@ == m && unchanged_clipboard)
                    } else {
                        &&& res is None
                        &&& final(level)@ == m
                        &&& unchanged_clipboard
                    },
                    Object::Other(ObjectOtherKind::Door(kind)) => {
                        let after_right = if mouse.right_pressed { door_right_click(m, p) } else { m };
                        &&& res is None
                        &&& unchanged_clipboard
                        &&& final(level)@ == (if mouse.left_pressed {
                            door_left_click(after_right, kind, p)
                        } else {
                            after_right
                        })
                    },
                    Object::Entity(k) => {
                        &&& res is None
                        &&& unchanged_clipboard
                        &&& final(level)@ == (if mouse.left_pressed {
                            entity_added(m, p, k)
                        } else if mouse.right_pressed {
                            with_entities(m, m.entities.filter(entity_not_at(p)))
                        } else {
                            m
                        })
                    },
                    Object::Other(ObjectOtherKind::Checkpoint) => {
                        &&& res is None
                        &&& unchanged_clipboard
                        &&& final(level)@ == (if mouse.left_pressed {
                            checkpoint_added(m, p)
                        } else if mouse.right_pressed {
                            with_checkpoints(m, m.checkpoints.filter(checkpoint_not_at(p)))
                        } else {
                            m
                        })
                    },
                    Object::Other(ObjectOtherKind::Spawn) => {
                        &&& res is None
                        &&& unchanged_clipboard
                        &&& final(level)@ == (if mouse.left_pressed { with_spawn(m, p) } else { m })
                    },
                    Object::Other(ObjectOtherKind::Finish) => {
                        &&& res is None
                        &&& unchanged_clipboard
                        &&& final(level)@ == (if mouse.left_pressed { with_finish(m, p) } else { m })
                    },
                }
            }),
    {
        if (mouse.left_pressed || mouse.right_pressed) && cursor.is_some() {
            self.began_drawing_in_area = true;
        }
        if !mouse.left_down && !mouse.right_down {
            self.began_drawing_in_area = false;
        }
        let p = match cursor {
            Some(p) => p,
            None => return None,
        };
        proof {
            assert(0 <= p.0 < old(level)@.width && 0 <= p.1 < old(level)@.height);
        }
        match self.selected_object {
            Object::Tile(t) => {
                if mouse.left_down && self.began_drawing_in_area {
                    level.set_tile_at_pos(t, p.0 as usize, p.1 as usize, self.layer_bg);
                } else if mouse.right_down && self.began_drawing_in_area {
                    level.set_tile_at_pos(Tile::Empty, p.0 as usize, p.1 as usize, self.layer_bg);
                }
                None
            },
            Object::Other(ObjectOtherKind::Sign) => {
                if mouse.left_pressed {
                    let lines = find_sign_lines(level, p);
                    if lines.is_none() && self.cut_sign.is_some() {
                        let mut cut: Option<[String; 4]> = None;
                        std::mem::swap(&mut cut, &mut self.cut_sign);
                        self.sign_copied = false;
                        match cut {
                            Some(c) => {
                                level.try_remove_sign(p);
                                proof {
                                    assert(old(level)@.signs.filter(sign_not_at(p)) =~= old(level)@.signs) by {
                                        let s = old(level)@.signs;
                                        assert forall|j: int| 0 <= j < s.len() implies (sign_not_at(p))(s[j]) by {}
                                        crate::editor_level::lemma_filter_all(s, sign_not_at(p));
                                    }
                                }
                                level.try_add_sign(p, c);
                            },
                            None => {},
                        }
                        None
                    } else {
                        Some((p, lines))
                    }
                } else if mouse.right_pressed {
                    level.try_remove_sign(p);
                    None
                } else if mouse.middle_pressed || mouse.cut_pressed || mouse.copy_pressed {
                    let cutting = mouse.middle_pressed || mouse.cut_pressed;
                    let lines = find_sign_lines(level, p);
                    match lines {
                        Some(l) => {
                            self.cut_sign = Some(l);
                            self.sign_copied = !cutting;
                            if cutting {
                                level.try_remove_sign(p);
                            }
                        },
                        None => {},
                    }
                    None
                } else {
                    None
                }
            },
            Object::Other(ObjectOtherKind::Door(kind)) => {
                if mouse.right_pressed {
                    if level.door_start().is_some() {
                        level.set_door_start(None);
                    } else {
                        level.try_remove_door(p);
                    }
                }
                if mouse.left_pressed {
                    match level.door_start() {
                        Some(s) => {
                            level.try_add_door(kind, s, p);
                            level.set_door_start(None);
                        },
                        None => {
                            if !has_door_at(level, p) {
                                level.set_door_start(Some(p));
                            }
                        },
                    }
                }
                None
            },
            Object::Entity(k) => {
                if mouse.left_pressed {
                    level.try_add_entity(p, k);
                } else if mouse.right_pressed {
                    level.try_remove_entity(p);
                }
                None
            },
            Object::Other(ObjectOtherKind::Checkpoint) => {
                if mouse.left_pressed {
                    level.try_add_checkpoint(p);
                } else if mouse.right_pressed {
                    level.try_remove_checkpoint(p);
                }
                None
            },
            Object::Other(ObjectOtherKind::Spawn) => {
                if mouse.left_pressed {
                    level.set_spawn(p);
                }
                None
            },
            Object::Other(ObjectOtherKind::Finish) => {
                if mouse.left_pressed {
                    level.set_finish(p);
                }
                None
            },
        }
    }
}

} // verus!
