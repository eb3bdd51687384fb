//! A level being edited: its tile grids, the things placed in it, and resizing it.
use vstd::prelude::*;

use crate::entity::EntityKind;
use crate::grid::{cell, grid_ok, lemma_grid_ext, lemma_resized_grid_cells, source_line, resize_grid, resized_cell, resized_grid, resized_len, Resize};
use crate::things::DoorKind;
use crate::tile::Tile;
use crate::level::{back_list, front_list, update_tile_render_data, TileRenderData};

verus! {

/// A position in a level being edited, in tiles.
pub type TilePos = (i32, i32);

/// The smallest width of a level (the width of the view).
pub const MIN_WIDTH: usize = 22;
/// The smallest height of a level (the height of the view).
pub const MIN_HEIGHT: usize = 14;
/// The largest width of a level, so that it fits in a byte.
pub const MAX_WIDTH: usize = 255;
/// The largest height of a level, so that it fits in a byte.
pub const MAX_HEIGHT: usize = 255;
pub const MAX_CHECKPOINTS: usize = 255;
/// The most entities a level may hold, so that their count fits in a byte.
pub const MAX_ENTITIES: usize = 255;
pub const MAX_DOORS: usize = 255;
pub const MAX_SIGNS: usize = 64;

/// The sky blue that new levels have as their background.
pub fn bg_sky() -> (res: (u8, u8, u8))
    ensures
        res == (109u8, 202u8, 255u8),
{
    (109, 202, 255)
}

/// The contents of a level being edited.
pub struct EditorLevelModel {
    pub world: Seq<char>,
    pub name: Seq<char>,
    pub bg_col: (u8, u8, u8),
    pub width: int,
    pub height: int,
    pub tiles: Seq<Tile>,
    pub tiles_bg: Seq<Tile>,
    /// position and four lines
    pub signs: Seq<(TilePos, Seq<Seq<char>>)>,
    /// the first end of a door being placed
    pub door_start: Option<TilePos>,
    /// kind, position, destination
    pub doors: Seq<(DoorKind, TilePos, TilePos)>,
    pub spawn: TilePos,
    pub finish: TilePos,
    pub checkpoints: Seq<TilePos>,
    pub entities: Seq<(TilePos, EntityKind)>,
    /// whether the tiles changed since they were last prepared for drawing
    pub should_update_render_data: bool,
}

pub open spec fn editor_sign_model(s: (TilePos, [String; 4])) -> (TilePos, Seq<Seq<char>>) {
    (s.0, s.1@.map_values(|l: String| l@))
}

pub open spec fn editor_signs_model(ss: Seq<(TilePos, [String; 4])>) -> Seq<(TilePos, Seq<Seq<char>>)> {
    ss.map_values(|s: (TilePos, [String; 4])| editor_sign_model(s))
}

/// A position within a level `w` by `h`.
pub open spec fn pos_in_level(p: TilePos, w: int, h: int) -> bool {
    0 <= p.0 < w && 0 <= p.1 < h
}

impl EditorLevelModel {
    /// The grids hold `width * height` tiles, and the level is at most 255 by 255.
    pub open spec fn wf(self) -> bool {
        &&& grid_ok(self.tiles, self.width, self.height)
        &&& grid_ok(self.tiles_bg, self.width, self.height)
        &&& self.width <= MAX_WIDTH
        &&& self.height <= MAX_HEIGHT
    }
}

/// A level being edited.
pub struct EditorLevel {
    world: String,
    name: String,
    bg_col: (u8, u8, u8),
    width: usize,
    height: usize,
    tiles: Vec<Tile>,
    tiles_bg: Vec<Tile>,
    signs: Vec<(TilePos, [String; 4])>,
    door_start: Option<TilePos>,
    doors: Vec<(DoorKind, TilePos, TilePos)>,
    spawn: TilePos,
    finish: TilePos,
    checkpoints: Vec<TilePos>,
    entities: Vec<(TilePos, EntityKind)>,
    should_update_render_data: bool,
}

impl View for EditorLevel {
    type V = EditorLevelModel;

    closed spec fn view(&self) -> EditorLevelModel {
        EditorLevelModel {
            world: self.world@,
            name: self.name@,
            bg_col: self.bg_col,
            width: self.width as int,
            height: self.height as int,
            tiles: self.tiles@,
            tiles_bg: self.tiles_bg@,
            signs: editor_signs_model(self.signs@),
            door_start: self.door_start,
            doors: self.doors@,
            spawn: self.spawn,
            finish: self.finish,
            checkpoints: self.checkpoints@,
            entities: self.entities@,
            should_update_render_data: self.should_update_render_data,
        }
    }
}

/// The columns of the default level that hold grass, on row 8.
pub open spec fn default_grass_column(x: int) -> bool {
    x == 2 || x == 3 || x == 4 || x == 9 || x == 10 || x == 11 || x == 12 || x == 17 || x == 18 || x == 19
}

/// The tiles of a new level: empty but for a strip of grass under the spawn, under the
/// finish, and between them.
pub open spec fn default_tiles() -> Seq<Tile> {
    Seq::new(
        (MIN_WIDTH * MIN_HEIGHT) as nat,
        |j: int|
            if j / (MIN_WIDTH as int) == 8 && default_grass_column(j % (MIN_WIDTH as int)) {
                Tile::Grass
            } else {
                Tile::Empty
            },
    )
}

/// `n` empty tiles.
fn empty_tiles(n: usize) -> (res: Vec<Tile>)
    ensures
        res@ == Seq::new(n as nat, |j: int| Tile::Empty),
{
    let mut v: Vec<Tile> = Vec::new();
    let mut i: usize = 0;
    while i < n
        invariant
            i <= n,
            v@ == Seq::new(i as nat, |j: int| Tile::Empty),
        decreases n - i,
    {
        v.push(Tile::Empty);
        i += 1;
        assert(v@ =~= Seq::new(i as nat, |j: int| Tile::Empty));
    }
    v
}

/// A new level: the smallest size, a sky background, grass under the spawn (3, 7), under the
/// finish (18, 7) and between them, and nothing else.
pub open spec fn default_level() -> EditorLevelModel {
    EditorLevelModel {
        world: Seq::<char>::empty(),
        name: Seq::<char>::empty(),
        bg_col: (109u8, 202u8, 255u8),
        width: MIN_WIDTH as int,
        height: MIN_HEIGHT as int,
        tiles: default_tiles(),
        tiles_bg: Seq::new((MIN_WIDTH * MIN_HEIGHT) as nat, |j: int| Tile::Empty),
        signs: Seq::<(TilePos, Seq<Seq<char>>)>::empty(),
        door_start: None,
        doors: Seq::<(DoorKind, TilePos, TilePos)>::empty(),
        spawn: (3i32, 7i32),
        finish: (18i32, 7i32),
        checkpoints: Seq::<TilePos>::empty(),
        entities: Seq::<(TilePos, EntityKind)>::empty(),
        should_update_render_data: true,
    }
}

impl EditorLevel {
    /// A new level (see `default_level`).
    pub fn new_default() -> (res: EditorLevel)
        ensures
            res@ == default_level(),
            res@.wf(),
            res@.world == Seq::<char>::empty(),
            res@.name == Seq::<char>::empty(),
            res@.bg_col == (109u8, 202u8, 255u8),
            res@.width == MIN_WIDTH,
            res@.height == MIN_HEIGHT,
            res@.tiles == default_tiles(),
            res@.tiles_bg == Seq::new((MIN_WIDTH * MIN_HEIGHT) as nat, |j: int| Tile::Empty),
            res@.signs == Seq::<(TilePos, Seq<Seq<char>>)>::empty(),
            res@.door_start is None,
            res@.doors == Seq::<(DoorKind, TilePos, TilePos)>::empty(),
            res@.spawn == (3i32, 7i32),
            res@.finish == (18i32, 7i32),
            res@.checkpoints == Seq::<TilePos>::empty(),
            res@.entities == Seq::<(TilePos, EntityKind)>::empty(),
            res@.should_update_render_data,
    {
        let width = MIN_WIDTH;
        let height = MIN_HEIGHT;
        let mut tiles = empty_tiles(width * height);
        let tiles_bg = empty_tiles(width * height);
        // Put some platforms down for the default spawn and finish points
        let columns: [usize; 10] = [2, 3, 4, 9, 10, 11, 12, 17, 18, 19];
        let mut k: usize = 0;
        while k < 10
            invariant
                k <= 10,
                columns@ == seq![2usize, 3, 4, 9, 10, 11, 12, 17, 18, 19],
                tiles@.len() == width * height,
                width == 22,
                height == 14,
                forall|j: int|
                    0 <= j < tiles@.len() ==> #[trigger] tiles@[j] == (if j / 22 == 8 && exists|m: int|
                        0 <= m < k && j % 22 == columns@[m] {
                        Tile::Grass
                    } else {
                        Tile::Empty
                    }),
            decreases 10 - k,
        {
            let x = columns[k];
            let idx = width * 8 + x;
            tiles.set(idx, Tile::Grass);
            proof {
                assert forall|j: int| 0 <= j < tiles@.len() implies #[trigger] tiles@[j] == (if j / 22 == 8
                    && exists|m: int| 0 <= m < k + 1 && j % 22 == columns@[m] {
                    Tile::Grass
                } else {
                    Tile::Empty
                }) by {
                    if j == idx {
                        assert(j / 22 == 8 && j % 22 == columns@[k as int]);
                    } else if j / 22 == 8 && j % 22 == columns@[k as int] {
                        assert(j == 22 * 8 + columns@[k as int]);
                    }
                }
            }
            k += 1;
        }
        proof {
            assert forall|j: int| 0 <= j < tiles@.len() implies #[trigger] tiles@[j] == default_tiles()[j] by {
                if j / 22 == 8 && default_grass_column(j % 22) {
                    let m: int = if j % 22 == 2 { 0 } else if j % 22 == 3 { 1 } else if j % 22 == 4 { 2 }
                        else if j % 22 == 9 { 3 } else if j % 22 == 10 { 4 } else if j % 22 == 11 { 5 }
                        else if j % 22 == 12 { 6 } else if j % 22 == 17 { 7 } else if j % 22 == 18 { 8 } else { 9 };
                    assert(j % 22 == columns@[m]);
                }
            }
            assert(tiles@ =~= default_tiles());
        }
        let level = EditorLevel {
            world: String::new(),
            name: String::new(),
            bg_col: bg_sky(),
            width,
            height,
            tiles,
            tiles_bg,
            signs: Vec::new(),
            door_start: None,
            doors: Vec::new(),
            spawn: (3, 7),
            finish: (18, 7),
            checkpoints: Vec::new(),
            entities: Vec::new(),
            should_update_render_data: true,
        };
        assert(editor_signs_model(level.signs@) =~= Seq::<(TilePos, Seq<Seq<char>>)>::empty());
        level
    }
}

impl Default for EditorLevel {
    /// A new level (see `default_level`).
    fn default() -> (res: EditorLevel)
        ensures
            res@ == default_level(),
            res@.wf(),
    {
        EditorLevel::new_default()
    }
}

/// A coordinate held within the range of `i32`.
pub open spec fn saturate_i32(v: int) -> i32 {
    if v > i32::MAX {
        i32::MAX
    } else if v < i32::MIN {
        i32::MIN
    } else {
        v as i32
    }
}

/// A position moved by `dx` columns and `dy` rows (held within the range of `i32`).
pub open spec fn shift(p: TilePos, dx: int, dy: int) -> TilePos {
    (saturate_i32(p.0 + dx), saturate_i32(p.1 + dy))
}

pub open spec fn shift_checkpoint(dx: int, dy: int) -> spec_fn(TilePos) -> TilePos {
    |c: TilePos| shift(c, dx, dy)
}

pub open spec fn shift_entity(dx: int, dy: int) -> spec_fn((TilePos, EntityKind)) -> (TilePos, EntityKind) {
    |e: (TilePos, EntityKind)| (shift(e.0, dx, dy), e.1)
}

pub open spec fn shift_sign(dx: int, dy: int) -> spec_fn((TilePos, Seq<Seq<char>>)) -> (TilePos, Seq<Seq<char>>) {
    |s: (TilePos, Seq<Seq<char>>)| (shift(s.0, dx, dy), s.1)
}

pub open spec fn shift_door(dx: int, dy: int) -> spec_fn((DoorKind, TilePos, TilePos)) -> (DoorKind, TilePos, TilePos) {
    |d: (DoorKind, TilePos, TilePos)| (d.0, shift(d.1, dx, dy), shift(d.2, dx, dy))
}

/// The level with all the things in it (signs, doors at both ends, door start, spawn, finish,
/// checkpoints and entities) moved by `dx` columns and `dy` rows.
pub open spec fn shifted_model(m: EditorLevelModel, dx: int, dy: int) -> EditorLevelModel {
    EditorLevelModel {
        signs: m.signs.map_values(shift_sign(dx, dy)),
        doors: m.doors.map_values(shift_door(dx, dy)),
        checkpoints: m.checkpoints.map_values(shift_checkpoint(dx, dy)),
        entities: m.entities.map_values(shift_entity(dx, dy)),
        door_start: match m.door_start {
            Some(p) => Some(shift(p, dx, dy)),
            None => None,
        },
        spawn: shift(m.spawn, dx, dy),
        finish: shift(m.finish, dx, dy),
        ..m
    }
}

/// `v` raised to at least `lo`, then lowered to at most `hi`.
pub open spec fn clamp_int(v: int, lo: int, hi: int) -> int {
    let r = if v < lo {
        lo
    } else {
        v
    };
    if r > hi {
        hi
    } else {
        r
    }
}

/// A position moved to the nearest tile within a level `w` by `h`.
pub open spec fn clamp_pos(p: TilePos, w: int, h: int) -> TilePos {
    (clamp_int(p.0 as int, 0, w - 1) as i32, clamp_int(p.1 as int, 0, h - 1) as i32)
}

pub open spec fn sign_in_level(w: int, h: int) -> spec_fn((TilePos, Seq<Seq<char>>)) -> bool {
    |s: (TilePos, Seq<Seq<char>>)| pos_in_level(s.0, w, h)
}

pub open spec fn door_in_level(w: int, h: int) -> spec_fn((DoorKind, TilePos, TilePos)) -> bool {
    |d: (DoorKind, TilePos, TilePos)| pos_in_level(d.1, w, h) && pos_in_level(d.2, w, h)
}

pub open spec fn checkpoint_in_level(w: int, h: int) -> spec_fn(TilePos) -> bool {
    |c: TilePos| pos_in_level(c, w, h)
}

/// The level without the signs, doors (and door start) and checkpoints that lie outside it,
/// and with its spawn and finish moved inside it; entities stay.
pub open spec fn bounded_model(m: EditorLevelModel) -> EditorLevelModel {
    EditorLevelModel {
        signs: m.signs.filter(sign_in_level(m.width, m.height)),
        doors: m.doors.filter(door_in_level(m.width, m.height)),
        checkpoints: m.checkpoints.filter(checkpoint_in_level(m.width, m.height)),
        door_start: match m.door_start {
            Some(p) => if pos_in_level(p, m.width, m.height) {
                Some(p)
            } else {
                None
            },
            None => None,
        },
        spawn: clamp_pos(m.spawn, m.width, m.height),
        finish: clamp_pos(m.finish, m.width, m.height),
        ..m
    }
}

/// An edge of a level.
#[derive(Clone, Copy, PartialEq, Eq, Structural, Debug)]
pub enum Border {
    Left,
    Right,
    Top,
    Bottom,
}

/// How the columns and the rows change when a border moves out (`increase`) or in.
pub open spec fn border_resize(b: Border, increase: bool, w: int, h: int) -> (Resize, Resize) {
    match b {
        Border::Left => (if increase { Resize::Insert(0) } else { Resize::Remove(0) }, Resize::Keep),
        Border::Right => (
            if increase {
                Resize::Insert(w as usize)
            } else {
                Resize::Remove((w - 1) as usize)
            },
            Resize::Keep,
        ),
        Border::Top => (Resize::Keep, if increase { Resize::Insert(0) } else { Resize::Remove(0) }),
        Border::Bottom => (
            Resize::Keep,
            if increase {
                Resize::Insert(h as usize)
            } else {
                Resize::Remove((h - 1) as usize)
            },
        ),
    }
}

/// How far the things in a level move when a border moves: one tile away from the left or
/// top border as it moves out, one tile towards it as it moves in; nothing for the others.
pub open spec fn border_shift(b: Border, increase: bool) -> (int, int) {
    let d: int = if increase { 1 } else { -1 };
    match b {
        Border::Left => (d, 0),
        Border::Top => (0, d),
        _ => (0, 0),
    }
}

/// Whether a border can move: a level is from 22 to 255 tiles wide and 14 to 255 high.
pub open spec fn spec_can_move(m: EditorLevelModel, b: Border, increase: bool) -> bool {
    match b {
        Border::Left | Border::Right => if increase {
            m.width < MAX_WIDTH
        } else {
            m.width > MIN_WIDTH
        },
        _ => if increase {
            m.height < MAX_HEIGHT
        } else {
            m.height > MIN_HEIGHT
        },
    }
}

/// The level after moving border `b` out (`increase`) or in by one tile: a line of empty
/// tiles is added along it, or the line along it is removed; the things in the level move
/// with the tiles; on shrinking, signs, doors and checkpoints that fall outside are removed and
/// the spawn and finish are moved inside.
pub open spec fn moved_model(m: EditorLevelModel, b: Border, increase: bool) -> EditorLevelModel {
    let (rc, rr) = border_resize(b, increase, m.width, m.height);
    let (dx, dy) = border_shift(b, increase);
    let resized = EditorLevelModel {
        width: resized_len(m.width, rc),
        height: resized_len(m.height, rr),
        tiles: resized_grid(m.tiles, m.width, m.height, rc, rr),
        tiles_bg: resized_grid(m.tiles_bg, m.width, m.height, rc, rr),
        should_update_render_data: true,
        ..m
    };
    let shifted = shifted_model(resized, dx, dy);
    if increase {
        shifted
    } else {
        bounded_model(shifted)
    }
}

proof fn lemma_filter_step<A>(s: Seq<A>, i: int, p: spec_fn(A) -> bool)
    requires
        0 <= i < s.len(),
    ensures
        s.take(i + 1).filter(p) == if p(s[i]) {
            s.take(i).filter(p).push(s[i])
        } else {
            s.take(i).filter(p)
        },
{
    reveal(Seq::filter);
    assert(s.take(i + 1).drop_last() =~= s.take(i));
}

impl EditorLevel {
    /// The fields that moving the things in a level leaves alone are equal.
    spec fn same_grid(self, other: EditorLevel) -> bool {
        &&& self.world == other.world
        &&& self.name == other.name
        &&& self.bg_col == other.bg_col
        &&& self.width == other.width
        &&& self.height == other.height
        &&& self.tiles == other.tiles
        &&& self.tiles_bg == other.tiles_bg
        &&& self.checkpoints == other.checkpoints
        &&& self.entities == other.entities
        &&& self.should_update_render_data == other.should_update_render_data
    }

    fn shift_things(&mut self, dx: i32, dy: i32)
        requires
            -1 <= dx <= 1,
            -1 <= dy <= 1,
        ensures
            final(self)@ == shifted_model(old(self)@, dx as int, dy as int),
    {
        let ghost m0 = self@;
        let ghost l0 = *self;
        // The signs
        let mut old_signs: Vec<(TilePos, [String; 4])> = Vec::new();
        let ghost d0 = self.doors;
        assert(m0.doors == d0@);
        std::mem::swap(&mut old_signs, &mut self.signs);
        let ghost orig = old_signs@;
        let ghost f = shift_sign(dx as int, dy as int);
        let orig_len = old_signs.len();
        proof {
            assert(editor_signs_model(self.signs@) =~= editor_signs_model(orig.take(0)).map_values(f));
        }
        let mut k: usize = 0;
        while old_signs.len() > 0
            invariant
                -1 <= dx <= 1,
                -1 <= dy <= 1,
                k + old_signs@.len() == orig.len(),
                orig_len == orig.len(),
                self.same_grid(l0),
                self.doors == d0,
                self.door_start == m0.door_start,
                self.spawn == m0.spawn,
                self.finish == m0.finish,
                old_signs@ == orig.skip(k as int),
                f == shift_sign(dx as int, dy as int),
                editor_signs_model(self.signs@) == editor_signs_model(orig.take(k as int)).map_values(f),
            decreases old_signs@.len(),
        {
            let s = old_signs.remove(0);
            assert(s == orig[k as int]);
            let moved = (shift_pos(s.0, dx, dy), s.1);
            let ghost before = self.signs@;
            self.signs.push(moved);
            assert(orig.take(k + 1) =~= orig.take(k as int).push(s));
            assert(editor_sign_model(moved) == f(editor_sign_model(s)));
            assert(editor_signs_model(self.signs@) =~= editor_signs_model(before).push(editor_sign_model(moved)));
            assert(editor_signs_model(orig.take(k + 1)) =~= editor_signs_model(orig.take(k as int)).push(editor_sign_model(s)));
            assert(editor_signs_model(self.signs@) =~= editor_signs_model(orig.take(k + 1)).map_values(f));
            assert(old_signs@ =~= orig.skip(k + 1));
            k += 1;
        }
        assert(orig.take(k as int) =~= orig);
        assert(editor_signs_model(self.signs@) =~= m0.signs.map_values(shift_sign(dx as int, dy as int)));
        // The doors
        let mut i: usize = 0;
        let ghost doors0 = self.doors@;
        assert(doors0 == m0.doors);
        while i < self.doors.len()
            invariant
                -1 <= dx <= 1,
                -1 <= dy <= 1,
                editor_signs_model(self.signs@) == m0.signs.map_values(shift_sign(dx as int, dy as int)),
                self.same_grid(l0),
                self.door_start == m0.door_start,
                self.spawn == m0.spawn,
                self.finish == m0.finish,
                self.doors@.len() == doors0.len(),
                i <= doors0.len(),
                forall|j: int| 0 <= j < i ==> #[trigger] self.doors@[j] == shift_door(dx as int, dy as int)(doors0[j]),
                forall|j: int| i <= j < doors0.len() ==> #[trigger] self.doors@[j] == doors0[j],
            decreases doors0.len() - i,
        {
            let d = self.doors[i];
            assert(d == doors0[i as int]);
            let moved = (d.0, shift_pos(d.1, dx, dy), shift_pos(d.2, dx, dy));
            self.doors.set(i, moved);
            i += 1;
        }
        assert(self.doors@ =~= doors0.map_values(shift_door(dx as int, dy as int)));
        // The checkpoints
        let mut i: usize = 0;
        let ghost cps0 = self.checkpoints@;
        while i < self.checkpoints.len()
            invariant
                -1 <= dx <= 1,
                -1 <= dy <= 1,
                self.checkpoints@.len() == cps0.len(),
                i <= cps0.len(),
                forall|j: int| 0 <= j < i ==> #[trigger] self.checkpoints@[j] == shift(cps0[j], dx as int, dy as int),
                forall|j: int| i <= j < cps0.len() ==> #[trigger] self.checkpoints@[j] == cps0[j],
                editor_signs_model(self.signs@) == m0.signs.map_values(shift_sign(dx as int, dy as int)),
                self.doors@ == doors0.map_values(shift_door(dx as int, dy as int)),
                self.entities == l0.entities,
                self.world == l0.world,
                self.name == l0.name,
                self.bg_col == l0.bg_col,
                self.width == l0.width,
                self.height == l0.height,
                self.tiles == l0.tiles,
                self.tiles_bg == l0.tiles_bg,
                self.should_update_render_data == l0.should_update_render_data,
                self.door_start == m0.door_start,
                self.spawn == m0.spawn,
                self.finish == m0.finish,
            decreases cps0.len() - i,
        {
            let c = self.checkpoints[i];
            assert(c == cps0[i as int]);
            self.checkpoints.set(i, shift_pos(c, dx, dy));
            i += 1;
        }
        assert(self.checkpoints@ =~= cps0.map_values(shift_checkpoint(dx as int, dy as int)));
        // The entities
        let mut i: usize = 0;
        let ghost es0 = self.entities@;
        while i < self.entities.len()
            invariant
                -1 <= dx <= 1,
                -1 <= dy <= 1,
                self.entities@.len() == es0.len(),
                i <= es0.len(),
                forall|j: int| 0 <= j < i ==> #[trigger] self.entities@[j] == shift_entity(dx as int, dy as int)(es0[j]),
                forall|j: int| i <= j < es0.len() ==> #[trigger] self.entities@[j] == es0[j],
                editor_signs_model(self.signs@) == m0.signs.map_values(shift_sign(dx as int, dy as int)),
                self.doors@ == doors0.map_values(shift_door(dx as int, dy as int)),
                self.checkpoints@ == cps0.map_values(shift_checkpoint(dx as int, dy as int)),
                self.world == l0.world,
                self.name == l0.name,
                self.bg_col == l0.bg_col,
                self.width == l0.width,
                self.height == l0.height,
                self.tiles == l0.tiles,
                self.tiles_bg == l0.tiles_bg,
                self.should_update_render_data == l0.should_update_render_data,
                self.door_start == m0.door_start,
                self.spawn == m0.spawn,
                self.finish == m0.finish,
            decreases es0.len() - i,
        {
            let e = self.entities[i];
            assert(e == es0[i as int]);
            self.entities.set(i, (shift_pos(e.0, dx, dy), e.1));
            i += 1;
        }
        assert(self.entities@ =~= es0.map_values(shift_entity(dx as int, dy as int)));
        // The door start, spawn and finish
        self.door_start = match self.door_start {
            Some(p) => Some(shift_pos(p, dx, dy)),
            None => None,
        };
        self.spawn = shift_pos(self.spawn, dx, dy);
        self.finish = shift_pos(self.finish, dx, dy);
    }
}

/// A coordinate moved by -1, 0 or 1, held within the range of `i32`.
fn shift_coord(v: i32, d: i32) -> (res: i32)
    requires
        -1 <= d <= 1,
    ensures
        res == saturate_i32(v + d),
{
    if d > 0 && v == i32::MAX {
        v
    } else if d < 0 && v == i32::MIN {
        v
    } else {
        v + d
    }
}

/// A position moved by `dx` columns and `dy` rows (see `shift`).
fn shift_pos(p: TilePos, dx: i32, dy: i32) -> (res: TilePos)
    requires
        -1 <= dx <= 1,
        -1 <= dy <= 1,
    ensures
        res == shift(p, dx as int, dy as int),
{
    (shift_coord(p.0, dx), shift_coord(p.1, dy))
}

fn clamp_i32(v: i32, lo: i32, hi: i32) -> (res: i32)
    ensures
        res == clamp_int(v as int, lo as int, hi as int),
{
    let r = if v < lo {
        lo
    } else {
        v
    };
    if r > hi {
        hi
    } else {
        r
    }
}

impl EditorLevel {
    /// Removes the signs, doors and checkpoints outside the level, forgets a door start outside
    /// it, and moves the spawn and finish inside it.
    fn bound_things(&mut self)
        requires
            old(self).width <= 255,
            old(self).height <= 255,
        ensures
            final(self)@ == bounded_model(old(self)@),
    {
        let ghost m0 = self@;
        let ghost l0 = *self;
        let w = self.width as i32;
        let h = self.height as i32;
        // The signs
        let mut old_signs: Vec<(TilePos, [String; 4])> = Vec::new();
        std::mem::swap(&mut old_signs, &mut self.signs);
        let ghost orig = old_signs@;
        let ghost p = sign_in_level(m0.width, m0.height);
        let orig_len = old_signs.len();
        proof {
            assert(editor_signs_model(orig) == m0.signs);
            assert(editor_signs_model(self.signs@) =~= editor_signs_model(orig.take(0)).filter(p)) by {
                reveal(Seq::filter);
            }
        }
        let mut k: usize = 0;
        while old_signs.len() > 0
            invariant
                w == m0.width,
                h == m0.height,
                k + old_signs@.len() == orig.len(),
                orig_len == orig.len(),
                old_signs@ == orig.skip(k as int),
                p == sign_in_level(m0.width, m0.height),
                self.same_grid(l0),
                self.doors == l0.doors,
                self.door_start == m0.door_start,
                self.spawn == m0.spawn,
                self.finish == m0.finish,
                editor_signs_model(self.signs@) == editor_signs_model(orig.take(k as int)).filter(p),
            decreases old_signs@.len(),
        {
            let s = old_signs.remove(0);
            assert(s == orig[k as int]);
            let ghost before = self.signs@;
            let keep = 0 <= (s.0).0 && (s.0).0 < w && 0 <= (s.0).1 && (s.0).1 < h;
            proof {
                lemma_filter_step(editor_signs_model(orig), k as int, p);
                assert(editor_signs_model(orig).take(k + 1) =~= editor_signs_model(orig.take(k + 1)));
                assert(editor_signs_model(orig).take(k as int) =~= editor_signs_model(orig.take(k as int)));
                assert(editor_signs_model(orig)[k as int] == editor_sign_model(s));
            }
            if keep {
                self.signs.push(s);
                assert(editor_signs_model(self.signs@) =~= editor_signs_model(before).push(editor_sign_model(s)));
            }
            assert(old_signs@ =~= orig.skip(k + 1));
            k += 1;
        }
        assert(orig.take(k as int) =~= orig);
        // The doors
        let mut kept: Vec<(DoorKind, TilePos, TilePos)> = Vec::new();
        let ghost pd = door_in_level(m0.width, m0.height);
        let mut i: usize = 0;
        proof {
            assert(kept@ =~= m0.doors.take(0).filter(pd)) by {
                reveal(Seq::filter);
            }
        }
        while i < self.doors.len()
            invariant
                w == m0.width,
                h == m0.height,
                self.doors@ == m0.doors,
                i <= m0.doors.len(),
                pd == door_in_level(m0.width, m0.height),
                kept@ == m0.doors.take(i as int).filter(pd),
            decreases m0.doors.len() - i,
        {
            let d = self.doors[i];
            proof {
                lemma_filter_step(m0.doors, i as int, pd);
            }
            if 0 <= (d.1).0 && (d.1).0 < w && 0 <= (d.1).1 && (d.1).1 < h && 0 <= (d.2).0 && (d.2).0 < w
                && 0 <= (d.2).1 && (d.2).1 < h {
                kept.push(d);
            }
            i += 1;
        }
        assert(m0.doors.take(m0.doors.len() as int) =~= m0.doors);
        self.doors = kept;
        // The checkpoints
        let mut kept_cps: Vec<TilePos> = Vec::new();
        let ghost pc = checkpoint_in_level(m0.width, m0.height);
        let mut i: usize = 0;
        proof {
            assert(kept_cps@ =~= m0.checkpoints.take(0).filter(pc)) by {
                reveal(Seq::filter);
            }
        }
        while i < self.checkpoints.len()
            invariant
                w == m0.width,
                h == m0.height,
                self.checkpoints@ == m0.checkpoints,
                i <= m0.checkpoints.len(),
                pc == checkpoint_in_level(m0.width, m0.height),
                kept_cps@ == m0.checkpoints.take(i as int).filter(pc),
            decreases m0.checkpoints.len() - i,
        {
            let c = self.checkpoints[i];
            proof {
                lemma_filter_step(m0.checkpoints, i as int, pc);
            }
            if 0 <= c.0 && c.0 < w && 0 <= c.1 && c.1 < h {
                kept_cps.push(c);
            }
            i += 1;
        }
        assert(m0.checkpoints.take(m0.checkpoints.len() as int) =~= m0.checkpoints);
        self.checkpoints = kept_cps;
        // The door start, spawn and finish
        self.door_start = match self.door_start {
            Some(p) => if 0 <= p.0 && p.0 < w && 0 <= p.1 && p.1 < h {
                Some(p)
            } else {
                None
            },
            None => None,
        };
        self.spawn = (clamp_i32(self.spawn.0, 0, w - 1), clamp_i32(self.spawn.1, 0, h - 1));
        self.finish = (clamp_i32(self.finish.0, 0, w - 1), clamp_i32(self.finish.1, 0, h - 1));
    }

    /// Whether the width can change: grow up to 255 tiles, shrink down to 22.
    pub fn can_change_width(&self, increase: bool) -> (res: bool)
        ensures
            res == (increase && self@.width < MAX_WIDTH || !increase && self@.width > MIN_WIDTH),
    {
        increase && self.width < MAX_WIDTH || !increase && self.width > MIN_WIDTH
    }

    /// Whether the height can change: grow up to 255 tiles, shrink down to 14.
    pub fn can_change_height(&self, increase: bool) -> (res: bool)
        ensures
            res == (increase && self@.height < MAX_HEIGHT || !increase && self@.height > MIN_HEIGHT),
    {
        increase && self.height < MAX_HEIGHT || !increase && self.height > MIN_HEIGHT
    }

    /// Moves border `b` out (`increase`) or in by one tile, when the level's size allows it;
    /// returns whether it moved.
    pub fn move_border(&mut self, b: Border, increase: bool) -> (res: bool)
        requires
            old(self)@.wf(),
        ensures
            res == spec_can_move(old(self)@, b, increase),
            res ==> final(self)@ == moved_model(old(self)@, b, increase),
            !res ==> final(self)@ == old(self)@,
            final(self)@.wf(),
    {
        let can = match b {
            Border::Left | Border::Right => self.can_change_width(increase),
            Border::Top | Border::Bottom => self.can_change_height(increase),
        };
        if !can {
            return false;
        }
        let ghost m0 = self@;
        let (rc, rr) = match b {
            Border::Left => (if increase { Resize::Insert(0) } else { Resize::Remove(0) }, Resize::Keep),
            Border::Right => (if increase { Resize::Insert(self.width) } else { Resize::Remove(self.width - 1) }, Resize::Keep),
            Border::Top => (Resize::Keep, if increase { Resize::Insert(0) } else { Resize::Remove(0) }),
            Border::Bottom => (Resize::Keep, if increase { Resize::Insert(self.height) } else { Resize::Remove(self.height - 1) }),
        };
        assert((rc, rr) == border_resize(b, increase, m0.width, m0.height));
        let tiles = resize_grid(&self.tiles, self.width, self.height, rc, rr);
        let tiles_bg = resize_grid(&self.tiles_bg, self.width, self.height, rc, rr);
        self.tiles = tiles;
        self.tiles_bg = tiles_bg;
        self.width = match rc {
            Resize::Keep => self.width,
            Resize::Insert(_) => self.width + 1,
            Resize::Remove(_) => self.width - 1,
        };
        self.height = match rr {
            Resize::Keep => self.height,
            Resize::Insert(_) => self.height + 1,
            Resize::Remove(_) => self.height - 1,
        };
        self.should_update_render_data = true;
        let d: i32 = if increase { 1 } else { -1 };
        let (dx, dy): (i32, i32) = match b {
            Border::Left => (d, 0),
            Border::Top => (0, d),
            _ => (0, 0),
        };
        let ghost resized = self@;
        proof {
            lemma_resized_grid_cells(m0.tiles, m0.width, m0.height, rc, rr);
        }
        self.shift_things(dx, dy);
        if !increase {
            self.bound_things();
        }
        proof {
            let mm = moved_model(m0, b, increase);
            assert(self@.signs =~= mm.signs);
            assert(self@.doors =~= mm.doors);
            assert(self@ == mm);
            lemma_moved_wf(m0, b, increase);
        }
        true
    }

    /// Moves the left border out or in by one tile (see `move_border`).
    pub fn move_left_border(&mut self, increase: bool) -> (res: bool)
        requires
            old(self)@.wf(),
        ensures
            res == spec_can_move(old(self)@, Border::Left, increase),
            res ==> final(self)@ == moved_model(old(self)@, Border::Left, increase),
            !res ==> final(self)@ == old(self)@,
            final(self)@.wf(),
    {
        self.move_border(Border::Left, increase)
    }

    /// Moves the right border out or in by one tile (see `move_border`); the caller moves the
    /// camera with it when it moved.
    pub fn move_right_border(&mut self, increase: bool) -> (res: bool)
        requires
            old(self)@.wf(),
        ensures
            res == spec_can_move(old(self)@, Border::Right, increase),
            res ==> final(self)@ == moved_model(old(self)@, Border::Right, increase),
            !res ==> final(self)@ == old(self)@,
            final(self)@.wf(),
    {
        self.move_border(Border::Right, increase)
    }

    /// Moves the top border out or in by one tile (see `move_border`).
    pub fn move_top_border(&mut self, increase: bool) -> (res: bool)
        requires
            old(self)@.wf(),
        ensures
            res == spec_can_move(old(self)@, Border::Top, increase),
            res ==> final(self)@ == moved_model(old(self)@, Border::Top, increase),
            !res ==> final(self)@ == old(self)@,
            final(self)@.wf(),
    {
        self.move_border(Border::Top, increase)
    }

    /// Moves the bottom border out or in by one tile (see `move_border`); the caller moves the
    /// camera with it when it moved.
    pub fn move_bot_border(&mut self, increase: bool) -> (res: bool)
        requires
            old(self)@.wf(),
        ensures
            res == spec_can_move(old(self)@, Border::Bottom, increase),
            res ==> final(self)@ == moved_model(old(self)@, Border::Bottom, increase),
            !res ==> final(self)@ == old(self)@,
            final(self)@.wf(),
    {
        self.move_border(Border::Bottom, increase)
    }
}

/// A level that differs from a well-formed one only in its name, world, colour, checkpoints,
/// entities or drawing flag is well formed.
proof fn lemma_wf_frame(a: EditorLevelModel, b: EditorLevelModel)
    requires
        a.wf(),
        b.width == a.width,
        b.height == a.height,
        b.tiles == a.tiles,
        b.tiles_bg == a.tiles_bg,
        b.signs == a.signs,
        b.doors == a.doors,
        b.door_start == a.door_start,
        b.spawn == a.spawn,
        b.finish == a.finish,
    ensures
        b.wf(),
{
}

/// Replacing the signs of a level keeps it well formed.
proof fn lemma_with_signs_wf(m: EditorLevelModel, signs: Seq<(TilePos, Seq<Seq<char>>)>)
    requires
        m.wf(),
    ensures
        with_signs(m, signs).wf(),
{
}

/// Moving a border keeps a level well formed.
proof fn lemma_moved_wf(m: EditorLevelModel, b: Border, increase: bool)
    requires
        m.wf(),
        spec_can_move(m, b, increase),
    ensures
        moved_model(m, b, increase).wf(),
{
    let (rc, rr) = border_resize(b, increase, m.width, m.height);
    lemma_resized_grid_cells(m.tiles, m.width, m.height, rc, rr);
    lemma_resized_grid_cells(m.tiles_bg, m.width, m.height, rc, rr);
}

pub open spec fn sign_not_at(pos: TilePos) -> spec_fn((TilePos, Seq<Seq<char>>)) -> bool {
    |s: (TilePos, Seq<Seq<char>>)| s.0 != pos
}

pub open spec fn door_not_at(pos: TilePos) -> spec_fn((DoorKind, TilePos, TilePos)) -> bool {
    |d: (DoorKind, TilePos, TilePos)| d.1 != pos
}

pub open spec fn checkpoint_not_at(pos: TilePos) -> spec_fn(TilePos) -> bool {
    |c: TilePos| c != pos
}

pub open spec fn entity_not_at(pos: TilePos) -> spec_fn((TilePos, EntityKind)) -> bool {
    |e: (TilePos, EntityKind)| e.0 != pos
}

/// Whether some entity stands at `pos`.
pub open spec fn entity_at_pos(es: Seq<(TilePos, EntityKind)>, pos: TilePos) -> bool {
    exists|i: int| 0 <= i < es.len() && es[i].0 == pos
}

/// `i` is the first sign at `pos`.
pub open spec fn first_sign_at(ss: Seq<(TilePos, Seq<Seq<char>>)>, pos: TilePos, i: int) -> bool {
    &&& 0 <= i < ss.len()
    &&& ss[i].0 == pos
    &&& forall|j: int| 0 <= j < i ==> ss[j].0 != pos
}

/// Whether a sign is at `pos`.
pub open spec fn sign_at(ss: Seq<(TilePos, Seq<Seq<char>>)>, pos: TilePos) -> bool {
    exists|i: int| 0 <= i < ss.len() && ss[i].0 == pos
}

/// Whether `r` is the level `m` after putting a sign with these lines at `pos`: a level with 64
/// signs is unchanged; otherwise the first sign at `pos` gets the lines, or a new sign is added
/// after the others when none is there.
pub open spec fn sign_added(m: EditorLevelModel, pos: TilePos, lines: Seq<Seq<char>>, r: EditorLevelModel) -> bool {
    &&& m.signs.len() >= MAX_SIGNS ==> r == m
    &&& m.signs.len() < MAX_SIGNS ==> {
        ||| exists|i: int| first_sign_at(m.signs, pos, i) && r == with_signs(m, m.signs.update(i, (pos, lines)))
        ||| !sign_at(m.signs, pos) && r == with_signs(m, m.signs.push((pos, lines)))
    }
}

/// The four lines of a sign, as a model.
pub open spec fn lines_model(lines: [String; 4]) -> Seq<Seq<char>> {
    lines@.map_values(|l: String| l@)
}

pub open spec fn with_world(m: EditorLevelModel, world: Seq<char>) -> EditorLevelModel {
    EditorLevelModel { world, ..m }
}

pub open spec fn with_name(m: EditorLevelModel, name: Seq<char>) -> EditorLevelModel {
    EditorLevelModel { name, ..m }
}

pub open spec fn with_bg_col(m: EditorLevelModel, bg_col: (u8, u8, u8)) -> EditorLevelModel {
    EditorLevelModel { bg_col, ..m }
}

/// The level with some of its things changed.
pub open spec fn with_signs(m: EditorLevelModel, signs: Seq<(TilePos, Seq<Seq<char>>)>) -> EditorLevelModel {
    EditorLevelModel { signs, ..m }
}

impl EditorLevel {
    /// A level with the given contents and no door being placed; its tiles are to be prepared
    /// for drawing.
    pub fn new(
        world: String,
        name: String,
        bg_col: (u8, u8, u8),
        width: usize,
        height: usize,
        tiles: Vec<Tile>,
        tiles_bg: Vec<Tile>,
        signs: Vec<(TilePos, [String; 4])>,
        doors: Vec<(DoorKind, TilePos, TilePos)>,
        spawn: TilePos,
        finish: TilePos,
        checkpoints: Vec<TilePos>,
        entities: Vec<(TilePos, EntityKind)>,
    ) -> (res: EditorLevel)
        requires
            grid_ok(tiles@, width as int, height as int),
            grid_ok(tiles_bg@, width as int, height as int),
            width <= MAX_WIDTH,
            height <= MAX_HEIGHT,
        ensures
            res@.wf(),
            res@.world == world@,
            res@.name == name@,
            res@.bg_col == bg_col,
            res@.width == width,
            res@.height == height,
            res@.tiles == tiles@,
            res@.tiles_bg == tiles_bg@,
            res@.signs == editor_signs_model(signs@),
            res@.door_start is None,
            res@.doors == doors@,
            res@.spawn == spawn,
            res@.finish == finish,
            res@.checkpoints == checkpoints@,
            res@.entities == entities@,
            res@.should_update_render_data,
    {
        let level = EditorLevel {
            world,
            name,
            bg_col,
            width,
            height,
            tiles,
            tiles_bg,
            signs,
            door_start: None,
            doors,
            spawn,
            finish,
            checkpoints,
            entities,
            should_update_render_data: true,
        };
        level
    }

    /// The name of the world this level starts, or an empty name if it starts none.
    pub fn world(&self) -> (res: &String)
        ensures
            res@ == self@.world,
    {
        &self.world
    }

    pub fn set_world(&mut self, world: String)
        ensures
            final(self)@ == with_world(old(self)@, world@),
    {
        self.world = world;
    }

    pub fn name(&self) -> (res: &String)
        ensures
            res@ == self@.name,
    {
        &self.name
    }

    /// The name of the world this level starts, to be edited.
    pub fn world_mut(&mut self) -> (res: &mut String)
        ensures
            res@ == old(self)@.world,
            final(self)@ == with_world(old(self)@, final(res)@),
    {
        &mut self.world
    }

    /// The name of the level, to be edited.
    pub fn name_mut(&mut self) -> (res: &mut String)
        ensures
            res@ == old(self)@.name,
            final(self)@ == with_name(old(self)@, final(res)@),
    {
        &mut self.name
    }

    pub fn set_name(&mut self, name: String)
        ensures
            final(self)@ == with_name(old(self)@, name@),
    {
        self.name = name;
    }

    /// The background colour (red, green, blue).
    pub fn bg_col(&self) -> (res: (u8, u8, u8))
        ensures
            res == self@.bg_col,
    {
        self.bg_col
    }

    pub fn set_bg_col(&mut self, bg_col: (u8, u8, u8))
        ensures
            final(self)@ == with_bg_col(old(self)@, bg_col),
    {
        self.bg_col = bg_col;
    }

    /// The red part of the background colour, to be edited.
    pub fn bg_col_r(&mut self) -> (res: &mut u8)
        ensures
            *res == old(self)@.bg_col.0,
            final(self)@ == with_bg_col(old(self)@, (*final(res), old(self)@.bg_col.1, old(self)@.bg_col.2)),
    {
        &mut self.bg_col.0
    }

    /// The green part of the background colour, to be edited.
    pub fn bg_col_g(&mut self) -> (res: &mut u8)
        ensures
            *res == old(self)@.bg_col.1,
            final(self)@ == with_bg_col(old(self)@, (old(self)@.bg_col.0, *final(res), old(self)@.bg_col.2)),
    {
        &mut self.bg_col.1
    }

    /// The blue part of the background colour, to be edited.
    pub fn bg_col_b(&mut self) -> (res: &mut u8)
        ensures
            *res == old(self)@.bg_col.2,
            final(self)@ == with_bg_col(old(self)@, (old(self)@.bg_col.0, old(self)@.bg_col.1, *final(res))),
    {
        &mut self.bg_col.2
    }

    pub fn tiles(&self) -> (res: &Vec<Tile>)
        ensures
            res@ == self@.tiles,
    {
        &self.tiles
    }

    pub fn tiles_bg(&self) -> (res: &Vec<Tile>)
        ensures
            res@ == self@.tiles_bg,
    {
        &self.tiles_bg
    }

    pub fn width(&self) -> (res: usize)
        ensures
            res == self@.width,
    {
        self.width
    }

    pub fn height(&self) -> (res: usize)
        ensures
            res == self@.height,
    {
        self.height
    }

    pub fn signs(&self) -> (res: &Vec<(TilePos, [String; 4])>)
        ensures
            editor_signs_model(res@) == self@.signs,
    {
        &self.signs
    }

    /// Puts a sign at `pos`: a sign already there gets the new lines; otherwise a new sign is
    /// added, unless the level already has 64 signs.
    pub fn try_add_sign(&mut self, pos: TilePos, lines: [String; 4])
        requires
            old(self)@.wf(),
        ensures
            final(self)@.wf(),
            sign_added(old(self)@, pos, lines_model(lines), final(self)@),
    {
        if self.signs.len() >= MAX_SIGNS {
            return;
        }
        let ghost m0 = self@;
        let mut i: usize = 0;
        while i < self.signs.len()
            invariant
                i <= self.signs@.len(),
                self@ == m0,
                m0 == old(self)@,
                m0.signs.len() < MAX_SIGNS,
                m0.wf(),
                forall|j: int| 0 <= j < i ==> m0.signs[j].0 != pos,
            decreases self.signs@.len() - i,
        {
            assert(m0.signs[i as int] == editor_sign_model(self.signs@[i as int]));
            if (self.signs[i].0).0 == pos.0 && (self.signs[i].0).1 == pos.1 {
                let ghost before = self.signs@;
                self.signs.set(i, (pos, lines));
                proof {
                    assert(editor_signs_model(self.signs@) =~= m0.signs.update(i as int, (pos, lines_model(lines))));
                    assert(first_sign_at(m0.signs, pos, i as int));
                    assert(self@ == with_signs(m0, m0.signs.update(i as int, (pos, lines_model(lines)))));
                }
                return;
            }
            i += 1;
        }
        let ghost before = self.signs@;
        self.signs.push((pos, lines));
        proof {
            let ns = m0.signs.push((pos, lines_model(lines)));
            assert(editor_signs_model(self.signs@) =~= ns);
            assert(self@ == with_signs(m0, ns));
            lemma_with_signs_wf(m0, ns);
        }
    }

    /// Removes every sign at `pos`.
    pub fn try_remove_sign(&mut self, pos: TilePos)
        requires
            old(self)@.wf(),
        ensures
            final(self)@.wf(),
            final(self)@ == with_signs(old(self)@, old(self)@.signs.filter(sign_not_at(pos))),
    {
        let ghost m0 = self@;
        let ghost l0 = *self;
        assert(m0.wf());
        let mut old_signs: Vec<(TilePos, [String; 4])> = Vec::new();
        std::mem::swap(&mut old_signs, &mut self.signs);
        let ghost orig = old_signs@;
        let ghost p = sign_not_at(pos);
        let orig_len = old_signs.len();
        proof {
            assert(editor_signs_model(orig) == m0.signs);
            assert(editor_signs_model(self.signs@) =~= editor_signs_model(orig.take(0)).filter(p)) by {
                reveal(Seq::filter);
            }
        }
        let mut k: usize = 0;
        while old_signs.len() > 0
            invariant
                k + old_signs@.len() == orig.len(),
                orig_len == orig.len(),
                old_signs@ == orig.skip(k as int),
                p == sign_not_at(pos),
                self.same_grid(l0),
                self.doors == l0.doors,
                self.door_start == m0.door_start,
                self.spawn == m0.spawn,
                self.finish == m0.finish,
                editor_signs_model(self.signs@) == editor_signs_model(orig.take(k as int)).filter(p),
            decreases old_signs@.len(),
        {
            let s = old_signs.remove(0);
            assert(s == orig[k as int]);
            let ghost before = self.signs@;
            let keep = !((s.0).0 == pos.0 && (s.0).1 == pos.1);
            proof {
                lemma_filter_step(editor_signs_model(orig), k as int, p);
                assert(editor_signs_model(orig).take(k + 1) =~= editor_signs_model(orig.take(k + 1)));
                assert(editor_signs_model(orig).take(k as int) =~= editor_signs_model(orig.take(k as int)));
                assert(editor_signs_model(orig)[k as int] == editor_sign_model(s));
            }
            if keep {
                self.signs.push(s);
                assert(editor_signs_model(self.signs@) =~= editor_signs_model(before).push(editor_sign_model(s)));
            }
            assert(old_signs@ =~= orig.skip(k + 1));
            k += 1;
        }
        assert(orig.take(k as int) =~= orig);
        proof {
            assert(grid_ok(self@.tiles, self@.width, self@.height));
            assert(grid_ok(self@.tiles_bg, self@.width, self@.height));
            assert(self@.doors == m0.doors);
            assert(self@.spawn == m0.spawn);
        }
    }
}

pub open spec fn with_doors(m: EditorLevelModel, doors: Seq<(DoorKind, TilePos, TilePos)>) -> EditorLevelModel {
    EditorLevelModel { doors, ..m }
}

pub open spec fn with_door_start(m: EditorLevelModel, door_start: Option<TilePos>) -> EditorLevelModel {
    EditorLevelModel { door_start, ..m }
}

pub open spec fn with_spawn(m: EditorLevelModel, spawn: TilePos) -> EditorLevelModel {
    EditorLevelModel { spawn, ..m }
}

pub open spec fn with_finish(m: EditorLevelModel, finish: TilePos) -> EditorLevelModel {
    EditorLevelModel { finish, ..m }
}

pub open spec fn with_checkpoints(m: EditorLevelModel, checkpoints: Seq<TilePos>) -> EditorLevelModel {
    EditorLevelModel { checkpoints, ..m }
}

pub open spec fn with_entities(m: EditorLevelModel, entities: Seq<(TilePos, EntityKind)>) -> EditorLevelModel {
    EditorLevelModel { entities, ..m }
}

/// The level with tile `t` at column `x`, row `y` of the foreground (or of the background when
/// `bg`), marked for its tiles to be prepared for drawing again.
pub open spec fn with_tile(m: EditorLevelModel, t: Tile, x: int, y: int, bg: bool) -> EditorLevelModel {
    if bg {
        EditorLevelModel { tiles_bg: m.tiles_bg.update(y * m.width + x, t), should_update_render_data: true, ..m }
    } else {
        EditorLevelModel { tiles: m.tiles.update(y * m.width + x, t), should_update_render_data: true, ..m }
    }
}

impl EditorLevel {
    /// The first end of the door being placed, if any.
    pub fn door_start(&self) -> (res: Option<TilePos>)
        ensures
            res == self@.door_start,
    {
        self.door_start
    }

    pub fn set_door_start(&mut self, door_start: Option<TilePos>)
        requires
            old(self)@.wf(),
        ensures
            final(self)@.wf(),
            final(self)@ == with_door_start(old(self)@, door_start),
    {
        self.door_start = door_start;
        proof {
            assert(editor_signs_model(self.signs@) == old(self)@.signs);
            assert(self@.doors == old(self)@.doors);
            assert(grid_ok(self@.tiles, self@.width, self@.height));
            assert(grid_ok(self@.tiles_bg, self@.width, self@.height));
        }
    }

    pub fn doors(&self) -> (res: &Vec<(DoorKind, TilePos, TilePos)>)
        ensures
            res@ == self@.doors,
    {
        &self.doors
    }

    /// Adds a door from `pos` to `dest`, unless the level already has 255 doors.
    pub fn try_add_door(&mut self, kind: DoorKind, pos: TilePos, dest: TilePos)
        requires
            old(self)@.wf(),
        ensures
            final(self)@.wf(),
            old(self)@.doors.len() < MAX_DOORS ==> final(self)@ == with_doors(old(self)@, old(self)@.doors.push((kind, pos, dest))),
            old(self)@.doors.len() >= MAX_DOORS ==> final(self)@ == old(self)@,
    {
        if self.doors.len() < MAX_DOORS {
            self.doors.push((kind, pos, dest));
            proof {
                assert(editor_signs_model(self.signs@) == old(self)@.signs);
            }
        }
    }

    /// Removes every door whose position (not destination) is `pos`.
    pub fn try_remove_door(&mut self, pos: TilePos)
        requires
            old(self)@.wf(),
        ensures
            final(self)@.wf(),
            final(self)@ == with_doors(old(self)@, old(self)@.doors.filter(door_not_at(pos))),
    {
        let ghost m0 = self@;
        let ghost p = door_not_at(pos);
        let mut kept: Vec<(DoorKind, TilePos, TilePos)> = Vec::new();
        let mut i: usize = 0;
        proof {
            assert(kept@ =~= m0.doors.take(0).filter(p)) by {
                reveal(Seq::filter);
            }
        }
        while i < self.doors.len()
            invariant
                self.doors@ == m0.doors,
                i <= m0.doors.len(),
                p == door_not_at(pos),
                kept@ == m0.doors.take(i as int).filter(p),
            decreases m0.doors.len() - i,
        {
            let d = self.doors[i];
            proof {
                lemma_filter_step(m0.doors, i as int, p);
            }
            if !((d.1).0 == pos.0 && (d.1).1 == pos.1) {
                kept.push(d);
            }
            i += 1;
        }
        assert(m0.doors.take(m0.doors.len() as int) =~= m0.doors);
        self.doors = kept;
        proof {
            assert(editor_signs_model(self.signs@) == m0.signs);
            assert(grid_ok(self@.tiles, self@.width, self@.height));
            assert(grid_ok(self@.tiles_bg, self@.width, self@.height));
        }
    }

    pub fn spawn(&self) -> (res: TilePos)
        ensures
            res == self@.spawn,
    {
        self.spawn
    }

    pub fn set_spawn(&mut self, spawn: TilePos)
        requires
            old(self)@.wf(),
        ensures
            final(self)@.wf(),
            final(self)@ == with_spawn(old(self)@, spawn),
    {
        self.spawn = spawn;
        proof {
            assert(editor_signs_model(self.signs@) == old(self)@.signs);
            assert(self@.doors == old(self)@.doors);
            assert(grid_ok(self@.tiles, self@.width, self@.height));
            assert(grid_ok(self@.tiles_bg, self@.width, self@.height));
        }
    }

    pub fn finish(&self) -> (res: TilePos)
        ensures
            res == self@.finish,
    {
        self.finish
    }

    pub fn set_finish(&mut self, finish: TilePos)
        requires
            old(self)@.wf(),
        ensures
            final(self)@.wf(),
            final(self)@ == with_finish(old(self)@, finish),
    {
        self.finish = finish;
        proof {
            assert(editor_signs_model(self.signs@) == old(self)@.signs);
            assert(self@.doors == old(self)@.doors);
            assert(grid_ok(self@.tiles, self@.width, self@.height));
            assert(grid_ok(self@.tiles_bg, self@.width, self@.height));
        }
    }

    pub fn checkpoints(&self) -> (res: &Vec<TilePos>)
        ensures
            res@ == self@.checkpoints,
    {
        &self.checkpoints
    }

    /// Adds a checkpoint at `pos`, unless there is one there already or the level already has
    /// 255 of them.
    pub fn try_add_checkpoint(&mut self, pos: TilePos)
        requires
            old(self)@.wf(),
        ensures
            final(self)@.wf(),
            !old(self)@.checkpoints.contains(pos) && old(self)@.checkpoints.len() < MAX_CHECKPOINTS ==> final(self)@
                == with_checkpoints(old(self)@, old(self)@.checkpoints.push(pos)),
            old(self)@.checkpoints.contains(pos) || old(self)@.checkpoints.len() >= MAX_CHECKPOINTS ==> final(self)@
                == old(self)@,
    {
        let mut i: usize = 0;
        while i < self.checkpoints.len()
            invariant
                i <= self.checkpoints@.len(),
                *self == *old(self),
                old(self)@.wf(),
                forall|j: int| 0 <= j < i ==> self.checkpoints@[j] != pos,
            decreases self.checkpoints@.len() - i,
        {
            let c = self.checkpoints[i];
            if c.0 == pos.0 && c.1 == pos.1 {
                assert(self.checkpoints@[i as int] == pos);
                return;
            }
            i += 1;
        }
        if self.checkpoints.len() < MAX_CHECKPOINTS {
            self.checkpoints.push(pos);
            proof {
                assert(editor_signs_model(self.signs@) == old(self)@.signs);
                assert(self@.doors == old(self)@.doors);
                assert(grid_ok(self@.tiles, self@.width, self@.height));
            }
        }
    }

    /// Removes the checkpoints at `pos`.
    pub fn try_remove_checkpoint(&mut self, pos: TilePos)
        requires
            old(self)@.wf(),
        ensures
            final(self)@.wf(),
            final(self)@ == with_checkpoints(old(self)@, old(self)@.checkpoints.filter(checkpoint_not_at(pos))),
    {
        let ghost m0 = self@;
        let ghost p = checkpoint_not_at(pos);
        let mut kept: Vec<TilePos> = Vec::new();
        let mut i: usize = 0;
        proof {
            assert(kept@ =~= m0.checkpoints.take(0).filter(p)) by {
                reveal(Seq::filter);
            }
        }
        while i < self.checkpoints.len()
            invariant
                self.checkpoints@ == m0.checkpoints,
                i <= m0.checkpoints.len(),
                p == checkpoint_not_at(pos),
                kept@ == m0.checkpoints.take(i as int).filter(p),
            decreases m0.checkpoints.len() - i,
        {
            let c = self.checkpoints[i];
            proof {
                lemma_filter_step(m0.checkpoints, i as int, p);
            }
            if !(c.0 == pos.0 && c.1 == pos.1) {
                kept.push(c);
            }
            i += 1;
        }
        assert(m0.checkpoints.take(m0.checkpoints.len() as int) =~= m0.checkpoints);
        self.checkpoints = kept;
        proof {
            assert(editor_signs_model(self.signs@) == m0.signs);
            lemma_wf_frame(m0, self@);
        }
    }

    pub fn entities(&self) -> (res: &Vec<(TilePos, EntityKind)>)
        ensures
            res@ == self@.entities,
    {
        &self.entities
    }

    /// Adds an entity at `pos`, unless there is one there already or the level has 255.
    pub fn try_add_entity(&mut self, pos: TilePos, kind: EntityKind)
        requires
            old(self)@.wf(),
        ensures
            final(self)@.wf(),
            !entity_at_pos(old(self)@.entities, pos) && old(self)@.entities.len() < MAX_ENTITIES ==> final(self)@
                == with_entities(old(self)@, old(self)@.entities.push((pos, kind))),
            entity_at_pos(old(self)@.entities, pos) || old(self)@.entities.len() >= MAX_ENTITIES ==> final(self)@
                == old(self)@,
    {
        let mut i: usize = 0;
        while i < self.entities.len()
            invariant
                i <= self.entities@.len(),
                *self == *old(self),
                old(self)@.wf(),
                forall|j: int| 0 <= j < i ==> self.entities@[j].0 != pos,
            decreases self.entities@.len() - i,
        {
            let e = self.entities[i];
            if (e.0).0 == pos.0 && (e.0).1 == pos.1 {
                assert(self.entities@[i as int].0 == pos);
                return;
            }
            i += 1;
        }
        if self.entities.len() >= MAX_ENTITIES {
            return;
        }
        self.entities.push((pos, kind));
        proof {
            assert(editor_signs_model(self.signs@) == old(self)@.signs);
            lemma_wf_frame(old(self)@, self@);
        }
    }

    /// Removes every entity at `pos`.
    pub fn try_remove_entity(&mut self, pos: TilePos)
        requires
            old(self)@.wf(),
        ensures
            final(self)@.wf(),
            final(self)@ == with_entities(old(self)@, old(self)@.entities.filter(entity_not_at(pos))),
    {
        let ghost m0 = self@;
        let ghost p = entity_not_at(pos);
        let mut kept: Vec<(TilePos, EntityKind)> = Vec::new();
        let mut i: usize = 0;
        proof {
            assert(kept@ =~= m0.entities.take(0).filter(p)) by {
                reveal(Seq::filter);
            }
        }
        while i < self.entities.len()
            invariant
                self.entities@ == m0.entities,
                i <= m0.entities.len(),
                p == entity_not_at(pos),
                kept@ == m0.entities.take(i as int).filter(p),
            decreases m0.entities.len() - i,
        {
            let e = self.entities[i];
            proof {
                lemma_filter_step(m0.entities, i as int, p);
            }
            if !((e.0).0 == pos.0 && (e.0).1 == pos.1) {
                kept.push(e);
            }
            i += 1;
        }
        assert(m0.entities.take(m0.entities.len() as int) =~= m0.entities);
        self.entities = kept;
        proof {
            assert(editor_signs_model(self.signs@) == m0.signs);
            lemma_wf_frame(m0, self@);
        }
    }

    /// Puts tile `t` at column `x`, row `y` of the foreground, or of the background when `bg`.
    pub fn set_tile_at_pos(&mut self, t: Tile, x: usize, y: usize, bg: bool)
        requires
            old(self)@.wf(),
            x < old(self)@.width,
            y < old(self)@.height,
        ensures
            final(self)@.wf(),
            final(self)@ == with_tile(old(self)@, t, x as int, y as int, bg),
    {
        let len = self.tiles.len();
        proof {
            assert(y * self.width + x < self.width * self.height) by (nonlinear_arith)
                requires
                    x < self.width,
                    y < self.height,
            ;
            assert(y * self.width + x < len);
        }
        let index = x + y * self.width;
        if bg {
            self.tiles_bg.set(index, t);
        } else {
            self.tiles.set(index, t);
        }
        self.should_update_render_data = true;
        proof {
            assert(editor_signs_model(self.signs@) == old(self)@.signs);
            assert(self@.doors == old(self)@.doors);
            assert(grid_ok(self@.tiles, self@.width, self@.height));
            assert(grid_ok(self@.tiles_bg, self@.width, self@.height));
            assert(self@ == with_tile(old(self)@, t, x as int, y as int, bg));
        }
    }

    /// Whether the tiles changed since they were last prepared for drawing.
    pub fn should_update_render_data(&self) -> (res: bool)
        ensures
            res == self@.should_update_render_data,
    {
        self.should_update_render_data
    }

    /// Records that the tiles have been prepared for drawing.
    pub fn render_data_updated(&mut self)
        ensures
            final(self)@ == (EditorLevelModel { should_update_render_data: false, ..old(self)@ }),
    {
        self.should_update_render_data = false;
    }

    /// Prepares the tiles for drawing when they changed (see `update_tile_render_data`; no
    /// tile is being bumped in the editor); returns whether they were prepared.
    pub fn update_if_should(
        &mut self,
        tiles_below: &mut Vec<TileRenderData>,
        tiles_above: &mut Vec<TileRenderData>,
        tiles_background: &mut Vec<TileRenderData>,
    ) -> (res: bool)
        requires
            old(self)@.wf(),
        ensures
            res == old(self)@.should_update_render_data,
            final(self)@ == (EditorLevelModel { should_update_render_data: false, ..old(self)@ }),
            res ==> final(tiles_below)@ == front_list(old(self)@.tiles, old(self)@.width, old(self)@.height, Seq::empty(), false, old(self)@.tiles.len() as int),
            res ==> final(tiles_above)@ == front_list(old(self)@.tiles, old(self)@.width, old(self)@.height, Seq::empty(), true, old(self)@.tiles.len() as int),
            res ==> final(tiles_background)@ == back_list(old(self)@.tiles_bg, old(self)@.width, old(self)@.height, old(self)@.tiles_bg.len() as int),
            !res ==> final(tiles_below)@ == old(tiles_below)@ && final(tiles_above)@ == old(tiles_above)@
                && final(tiles_background)@ == old(tiles_background)@,
    {
        if self.should_update_render_data {
            let none: Vec<usize> = Vec::new();
            update_tile_render_data(tiles_below, tiles_above, tiles_background, &none, &self.tiles, &self.tiles_bg, self.width, self.height);
            self.should_update_render_data = false;
            true
        } else {
            false
        }
    }
}

/// Everything placed in the level that moves with its borders lies inside it.
pub open spec fn things_in_level(m: EditorLevelModel) -> bool {
    &&& forall|i: int| 0 <= i < m.signs.len() ==> pos_in_level(#[trigger] m.signs[i].0, m.width, m.height)
    &&& forall|i: int|
        0 <= i < m.doors.len() ==> pos_in_level(#[trigger] m.doors[i].1, m.width, m.height)
            && pos_in_level(m.doors[i].2, m.width, m.height)
    &&& (m.door_start matches Some(p) ==> pos_in_level(p, m.width, m.height))
    &&& pos_in_level(m.spawn, m.width, m.height)
    &&& pos_in_level(m.finish, m.width, m.height)
    &&& forall|i: int| 0 <= i < m.checkpoints.len() ==> pos_in_level(#[trigger] m.checkpoints[i], m.width, m.height)
}

/// Moving border `b` out moves every entity without reaching the limit of `i32`.
pub open spec fn entities_movable(m: EditorLevelModel, b: Border) -> bool {
    let (dx, dy) = border_shift(b, true);
    forall|i: int|
        0 <= i < m.entities.len() ==> (#[trigger] m.entities[i]).0.0 + dx <= i32::MAX && m.entities[i].0.1 + dy
            <= i32::MAX
}

pub(crate) proof fn lemma_filter_all<A>(s: Seq<A>, p: spec_fn(A) -> bool)
    requires
        forall|i: int| 0 <= i < s.len() ==> p(#[trigger] s[i]),
    ensures
        s.filter(p) == s,
    decreases s.len(),
{
    reveal(Seq::filter);
    if s.len() > 0 {
        lemma_filter_all(s.drop_last(), p);
        assert(s.drop_last().push(s.last()) =~= s);
    }
}

proof fn lemma_regrid(s: Seq<Tile>, w: int, h: int, b: Border)
    requires
        grid_ok(s, w, h),
        w <= 255,
        h <= 255,
        w >= 1,
        h >= 1,
    ensures
        ({
            let (rc, rr) = border_resize(b, true, w, h);
            let g = resized_grid(s, w, h, rc, rr);
            let nw = resized_len(w, rc);
            let nh = resized_len(h, rr);
            let (rc2, rr2) = border_resize(b, false, nw, nh);
            &&& resized_len(nw, rc2) == w
            &&& resized_len(nh, rr2) == h
            &&& resized_grid(g, nw, nh, rc2, rr2) == s
        }),
{
    let (rc, rr) = border_resize(b, true, w, h);
    let g = resized_grid(s, w, h, rc, rr);
    let nw = resized_len(w, rc);
    let nh = resized_len(h, rr);
    let (rc2, rr2) = border_resize(b, false, nw, nh);
    lemma_resized_grid_cells(s, w, h, rc, rr);
    lemma_resized_grid_cells(g, nw, nh, rc2, rr2);
    let g2 = resized_grid(g, nw, nh, rc2, rr2);
    assert forall|x: int, y: int| 0 <= x < w && 0 <= y < h implies #[trigger] cell(g2, w, x, y) == cell(s, w, x, y) by {
        assert(cell(g2, w, x, y) == resized_cell(g, nw, x, y, rc2, rr2));
        let sx = source_line(x, rc2).unwrap();
        let sy = source_line(y, rr2).unwrap();
        assert(cell(g, nw, sx, sy) == resized_cell(s, w, sx, sy, rc, rr));
    }
    lemma_grid_ext(g2, s, w, h);
}

/// Moving a border of a level out by a tile and then back in gives back the level (marked
/// for its tiles to be prepared for drawing again), when the level is at least as large as
/// the view across that border, and everything that is removed or moved inside on shrinking
/// lies inside it.
pub proof fn lemma_grow_then_shrink(m: EditorLevelModel, b: Border)
    requires
        m.wf(),
        (b == Border::Left || b == Border::Right) ==> m.width >= MIN_WIDTH,
        (b == Border::Top || b == Border::Bottom) ==> m.height >= MIN_HEIGHT,
        spec_can_move(m, b, true),
        things_in_level(m),
        entities_movable(m, b),
    ensures
        spec_can_move(moved_model(m, b, true), b, false),
        moved_model(moved_model(m, b, true), b, false) == (EditorLevelModel { should_update_render_data: true, ..m }),
{
    let g = moved_model(m, b, true);
    let r = moved_model(g, b, false);
    let (dx, dy) = border_shift(b, true);
    let (dx2, dy2) = border_shift(b, false);
    lemma_regrid(m.tiles, m.width, m.height, b);
    lemma_regrid(m.tiles_bg, m.width, m.height, b);
    assert(r.width == m.width && r.height == m.height);
    // The signs go back where they were, and all of them stay.
    let back_signs = g.signs.map_values(shift_sign(dx2, dy2));
    assert(back_signs =~= m.signs);
    lemma_filter_all(back_signs, sign_in_level(r.width, r.height));
    let back_doors = g.doors.map_values(shift_door(dx2, dy2));
    assert(back_doors =~= m.doors);
    lemma_filter_all(back_doors, door_in_level(r.width, r.height));
    let back_cps = g.checkpoints.map_values(shift_checkpoint(dx2, dy2));
    assert(back_cps =~= m.checkpoints);
    lemma_filter_all(back_cps, checkpoint_in_level(r.width, r.height));
    assert(r.signs =~= m.signs);
    assert(r.doors =~= m.doors);
    assert(r.checkpoints =~= m.checkpoints);
    assert(r.entities =~= m.entities);
    assert(r == (EditorLevelModel { should_update_render_data: true, ..m }));
}

/// After a border moves in, every sign, door (at both of its ends), door start and checkpoint
/// left in the level lies inside it, and so do the spawn and the finish (in a level with at least
/// one tile); a door one of whose
/// ends falls outside the smaller level is removed.
pub proof fn lemma_shrink_keeps_things_inside(m: EditorLevelModel, b: Border)
    requires
        m.wf(),
        spec_can_move(m, b, false),
    ensures
        ({
            let mm = moved_model(m, b, false);
            let (dx, dy) = border_shift(b, false);
            &&& forall|i: int|
                0 <= i < mm.doors.len() ==> pos_in_level(#[trigger] mm.doors[i].1, mm.width, mm.height)
                    && pos_in_level(mm.doors[i].2, mm.width, mm.height)
            &&& forall|i: int| 0 <= i < mm.signs.len() ==> pos_in_level(#[trigger] mm.signs[i].0, mm.width, mm.height)
            &&& forall|i: int| 0 <= i < mm.checkpoints.len() ==> pos_in_level(#[trigger] mm.checkpoints[i], mm.width, mm.height)
            &&& (mm.door_start matches Some(p) ==> pos_in_level(p, mm.width, mm.height))
            &&& (mm.width >= 1 && mm.height >= 1 ==> pos_in_level(mm.spawn, mm.width, mm.height) && pos_in_level(
                mm.finish,
                mm.width,
                mm.height,
            ))
            &&& forall|i: int|
                0 <= i < m.doors.len() && !pos_in_level(shift((#[trigger] m.doors[i]).2, dx, dy), mm.width, mm.height)
                    ==> !mm.doors.contains(shift_door(dx, dy)(m.doors[i]))
        }),
{
    broadcast use vstd::seq_lib::group_filter_ensures;
    let mm = moved_model(m, b, false);
    let (dx, dy) = border_shift(b, false);
    let (rc, rr) = border_resize(b, false, m.width, m.height);
    let w2 = resized_len(m.width, rc);
    let h2 = resized_len(m.height, rr);
    assert(mm.width == w2 && mm.height == h2);
    assert(w2 <= 255 && h2 <= 255);
    let sh_doors = m.doors.map_values(shift_door(dx, dy));
    let pd = door_in_level(w2, h2);
    assert(mm.doors == sh_doors.filter(pd));
    assert forall|i: int| 0 <= i < mm.doors.len() implies pos_in_level(#[trigger] mm.doors[i].1, mm.width, mm.height)
        && pos_in_level(mm.doors[i].2, mm.width, mm.height) by {
        assert(pd(mm.doors[i]));
    }
    let sh_signs = m.signs.map_values(shift_sign(dx, dy));
    let ps = sign_in_level(w2, h2);
    assert(mm.signs == sh_signs.filter(ps));
    assert forall|i: int| 0 <= i < mm.signs.len() implies pos_in_level(#[trigger] mm.signs[i].0, mm.width, mm.height) by {
        assert(ps(mm.signs[i]));
    }
    let sh_cps = m.checkpoints.map_values(shift_checkpoint(dx, dy));
    let pc = checkpoint_in_level(w2, h2);
    assert(mm.checkpoints == sh_cps.filter(pc));
    assert forall|i: int| 0 <= i < mm.checkpoints.len() implies pos_in_level(#[trigger] mm.checkpoints[i], mm.width, mm.height) by {
        assert(pc(mm.checkpoints[i]));
    }
    assert forall|i: int|
        0 <= i < m.doors.len() && !pos_in_level(shift((#[trigger] m.doors[i]).2, dx, dy), mm.width, mm.height)
            implies !mm.doors.contains(shift_door(dx, dy)(m.doors[i])) by {
        let d = shift_door(dx, dy)(m.doors[i]);
        assert(!pd(d));
    }
}

} // verus!
