//! A level being played: its tile grids, what hitting a tile does, locks and switches, and
//! which piece of its texture each tile is drawn with.
use vstd::prelude::*;

use crate::grid::grid_ok;
use crate::codec::LevelPosition;
use crate::editor_level::TilePos;
use crate::entity::EntityKind;
use crate::things::{Door, DoorKind, Sign};
use crate::tile::{LockColor, Tile};
use crate::tile_data::{
    spec_tile_data, tile_data, ConnectionKindModel, ConnectionModel, TileCollision, TileHit, TileHitKind,
    TileTextureConnection, TileTextureConnectionKind,
};

verus! {

/// Which piece of its texture a tile is drawn with: one piece (an offset from its first piece),
/// or four quarters, each from its own piece.
#[derive(PartialEq, Eq, Structural, Clone, Copy, Debug)]
pub enum TileDrawKind {
    Single(usize),
    Quarters(usize, usize, usize, usize),
}

/// What a level is filled with, which changes how things move in it.
#[derive(PartialEq, Eq, Structural, Clone, Copy, Debug)]
pub enum LevelPhysics {
    Air,
    Water,
}

/// Which layer a tile is drawn in: in front (see-through or not), or behind.
#[derive(PartialEq, Eq, Structural, Clone, Copy, Debug)]
pub enum TileRenderLayer {
    Foreground(bool),
    Background,
}

/// A tile to draw: which tile, with which pieces, at which index of its grid.
#[derive(PartialEq, Eq, Structural, Clone, Copy, Debug)]
pub struct TileRenderData {
    pub tile: Tile,
    pub draw_kind: TileDrawKind,
    pub index: usize,
}

/// Whether a connected texture joins up with the tile `t` next to it (besides tiles of its own
/// kind).
pub open spec fn kind_accepts(k: ConnectionKindModel, t: Tile) -> bool {
    match k {
        ConnectionKindModel::OnlySame => false,
        ConnectionKindModel::AllBut(v) => !v.contains(t),
        ConnectionKindModel::Only(v) => v.contains(t),
    }
}

/// Whether the tile at `index`, of kind `tile`, joins up with its neighbour `dx` columns and
/// `dy` rows away: always past the edge of the grid, and otherwise when the neighbour is of the
/// same kind or one the connection accepts.
pub open spec fn spec_tile_connects(
    tiles: Seq<Tile>,
    w: int,
    h: int,
    tile: Tile,
    index: int,
    dx: int,
    dy: int,
    k: ConnectionKindModel,
) -> bool {
    let x = index % w + dx;
    let y = index / w + dy;
    if x < 0 || x >= w || y < 0 || y >= h {
        true
    } else {
        let t = tiles[y * w + x];
        t == tile || kind_accepts(k, t)
    }
}

/// The piece for a texture joined up along one axis, from whether it joins its first and its
/// second neighbour.
pub open spec fn single_offset(first: bool, second: bool) -> usize {
    match (first, second) {
        (false, false) => 0,
        (false, true) => 1,
        (true, true) => 2,
        (true, false) => 3,
    }
}

/// The piece for one quarter of a texture joined up on all sides, from whether it joins its
/// neighbour above or below, to the side, and in the corner.
pub open spec fn quarter_offset(horz: bool, vert: bool, corner: bool) -> usize {
    match (horz, vert, corner) {
        (false, false, _) => 0,
        (false, true, _) => 1,
        (true, false, _) => 2,
        (true, true, false) => 3,
        (true, true, true) => 4,
    }
}

/// The pieces the tile at `i` is drawn with, for a texture joined up as `conn`.
pub open spec fn spec_draw_kind(tiles: Seq<Tile>, w: int, h: int, i: int, conn: ConnectionModel) -> TileDrawKind {
    let t = tiles[i];
    match conn {
        ConnectionModel::Unconnected => TileDrawKind::Single(0),
        ConnectionModel::Horizontal(k) => TileDrawKind::Single(
            single_offset(spec_tile_connects(tiles, w, h, t, i, -1, 0, k), spec_tile_connects(tiles, w, h, t, i, 1, 0, k)),
        ),
        ConnectionModel::Vertical(k) => TileDrawKind::Single(
            single_offset(spec_tile_connects(tiles, w, h, t, i, 0, -1, k), spec_tile_connects(tiles, w, h, t, i, 0, 1, k)),
        ),
        ConnectionModel::Both(k) => {
            let n = spec_tile_connects(tiles, w, h, t, i, 0, -1, k);
            let e = spec_tile_connects(tiles, w, h, t, i, 1, 0, k);
            let s = spec_tile_connects(tiles, w, h, t, i, 0, 1, k);
            let wst = spec_tile_connects(tiles, w, h, t, i, -1, 0, k);
            let ne = spec_tile_connects(tiles, w, h, t, i, 1, -1, k);
            let nw = spec_tile_connects(tiles, w, h, t, i, -1, -1, k);
            let se = spec_tile_connects(tiles, w, h, t, i, 1, 1, k);
            let sw = spec_tile_connects(tiles, w, h, t, i, -1, 1, k);
            TileDrawKind::Quarters(
                quarter_offset(n, wst, nw),
                quarter_offset(n, e, ne),
                quarter_offset(s, wst, sw),
                quarter_offset(s, e, se),
            )
        },
    }
}

/// Whether `v` holds `t`.
fn contains_tile(v: &Vec<Tile>, t: Tile) -> (res: bool)
    ensures
        res == v@.contains(t),
{
    let mut i: usize = 0;
    while i < v.len()
        invariant
            i <= v@.len(),
            forall|j: int| 0 <= j < i ==> v@[j] != t,
        decreases v@.len() - i,
    {
        if v[i] == t {
            assert(v@[i as int] == t);
            return true;
        }
        i += 1;
    }
    false
}

/// Whether the connection accepts the tile `t` (see `kind_accepts`).
fn accepts(k: &TileTextureConnectionKind, t: Tile) -> (res: bool)
    ensures
        res == kind_accepts(k@, t),
{
    match k {
        TileTextureConnectionKind::OnlySame => false,
        TileTextureConnectionKind::AllBut(v) => !contains_tile(v, t),
        TileTextureConnectionKind::Only(v) => contains_tile(v, t),
    }
}

/// Whether the tile at `index` joins up with its neighbour `dx` columns and `dy` rows away (see
/// `spec_tile_connects`).
pub fn tile_connects(
    tiles: &Vec<Tile>,
    width: usize,
    height: usize,
    tile: Tile,
    index: usize,
    dx: i8,
    dy: i8,
    k: &TileTextureConnectionKind,
) -> (res: bool)
    requires
        grid_ok(tiles@, width as int, height as int),
        width <= 255,
        height <= 255,
        index < tiles@.len(),
        -1 <= dx <= 1,
        -1 <= dy <= 1,
    ensures
        res == spec_tile_connects(tiles@, width as int, height as int, tile, index as int, dx as int, dy as int, k@),
{
    assert(width > 0) by {
        if width == 0 {
            assert(tiles@.len() == 0);
        }
    }
    assert(index / width < height) by (nonlinear_arith)
        requires
            width > 0,
            index < width * height,
    ;
    let x = (index % width) as i64 + dx as i64;
    let y = (index / width) as i64 + dy as i64;
    if x < 0 || x >= width as i64 || y < 0 || y >= height as i64 {
        return true;
    }
    let yu = y as usize;
    let xu = x as usize;
    assert(yu * width + xu < width * height) by (nonlinear_arith)
        requires
            yu < height,
            xu < width,
    ;
    assert(width * height <= 255 * 255) by (nonlinear_arith)
        requires
            width <= 255,
            height <= 255,
    ;
    let j = yu * width + xu;
    let t = tiles[j];
    t == tile || accepts(k, t)
}

/// The pieces the tile at `i` is drawn with (see `spec_draw_kind`).
pub fn draw_kind(tiles: &Vec<Tile>, width: usize, height: usize, i: usize, conn: &TileTextureConnection) -> (res: TileDrawKind)
    requires
        grid_ok(tiles@, width as int, height as int),
        width <= 255,
        height <= 255,
        i < tiles@.len(),
    ensures
        res == spec_draw_kind(tiles@, width as int, height as int, i as int, conn@),
{
    let t = tiles[i];
    match conn {
        TileTextureConnection::Unconnected => TileDrawKind::Single(0),
        TileTextureConnection::Horizontal(k) => {
            let first = tile_connects(tiles, width, height, t, i, -1, 0, k);
            let second = tile_connects(tiles, width, height, t, i, 1, 0, k);
            TileDrawKind::Single(single(first, second))
        },
        TileTextureConnection::Vertical(k) => {
            let first = tile_connects(tiles, width, height, t, i, 0, -1, k);
            let second = tile_connects(tiles, width, height, t, i, 0, 1, k);
            TileDrawKind::Single(single(first, second))
        },
        TileTextureConnection::Both(k) => {
            let n = tile_connects(tiles, width, height, t, i, 0, -1, k);
            let e = tile_connects(tiles, width, height, t, i, 1, 0, k);
            let s = tile_connects(tiles, width, height, t, i, 0, 1, k);
            let wst = tile_connects(tiles, width, height, t, i, -1, 0, k);
            let ne = tile_connects(tiles, width, height, t, i, 1, -1, k);
            let nw = tile_connects(tiles, width, height, t, i, -1, -1, k);
            let se = tile_connects(tiles, width, height, t, i, 1, 1, k);
            let sw = tile_connects(tiles, width, height, t, i, -1, 1, k);
            TileDrawKind::Quarters(quarter(n, wst, nw), quarter(n, e, ne), quarter(s, wst, sw), quarter(s, e, se))
        },
    }
}

/// See `single_offset`.
fn single(first: bool, second: bool) -> (res: usize)
    ensures
        res == single_offset(first, second),
{
    match (first, second) {
        (false, false) => 0,
        (false, true) => 1,
        (true, true) => 2,
        (true, false) => 3,
    }
}

/// See `quarter_offset`.
fn quarter(horz: bool, vert: bool, corner: bool) -> (res: usize)
    ensures
        res == quarter_offset(horz, vert, corner),
{
    match (horz, vert, corner) {
        (false, false, _) => 0,
        (false, true, _) => 1,
        (true, false, _) => 2,
        (true, true, false) => 3,
        (true, true, true) => 4,
    }
}

/// The tile at `i` as it is to be drawn, when it has a texture.
pub open spec fn render_entry(tiles: Seq<Tile>, w: int, h: int, i: int) -> TileRenderData {
    TileRenderData {
        tile: tiles[i],
        draw_kind: spec_draw_kind(tiles, w, h, i, spec_tile_data(tiles[i]).texture.unwrap().connection),
        index: i as usize,
    }
}

/// The tiles among the first `n` of the front grid that are drawn in front of things (`above`)
/// or behind them: those with a texture that are not being bumped, in order.
pub open spec fn front_list(tiles: Seq<Tile>, w: int, h: int, bumped: Seq<usize>, above: bool, n: int) -> Seq<TileRenderData>
    decreases n,
{
    if n <= 0 {
        Seq::empty()
    } else {
        let prev = front_list(tiles, w, h, bumped, above, n - 1);
        let i = n - 1;
        match spec_tile_data(tiles[i]).texture {
            Some(tex) => if !bumped.contains(i as usize) && tex.above == above {
                prev.push(render_entry(tiles, w, h, i))
            } else {
                prev
            },
            None => prev,
        }
    }
}

/// The tiles among the first `n` of the background grid that have a texture, in order.
pub open spec fn back_list(tiles: Seq<Tile>, w: int, h: int, n: int) -> Seq<TileRenderData>
    decreases n,
{
    if n <= 0 {
        Seq::empty()
    } else {
        let prev = back_list(tiles, w, h, n - 1);
        let i = n - 1;
        match spec_tile_data(tiles[i]).texture {
            Some(tex) => prev.push(render_entry(tiles, w, h, i)),
            None => prev,
        }
    }
}

/// Whether `v` holds `x`.
fn contains_index(v: &Vec<usize>, x: usize) -> (res: bool)
    ensures
        res == v@.contains(x),
{
    let mut i: usize = 0;
    while i < v.len()
        invariant
            i <= v@.len(),
            forall|j: int| 0 <= j < i ==> v@[j] != x,
        decreases v@.len() - i,
    {
        if v[i] == x {
            assert(v@[i as int] == x);
            return true;
        }
        i += 1;
    }
    false
}

/// Prepares the tiles for drawing: the front tiles drawn behind things go to `tiles_below`,
/// those drawn in front of things to `tiles_above`, and the background tiles to
/// `tiles_background` (see `front_list` and `back_list`); tiles without a texture, and front
/// tiles at the `bumped` indices, are left out.
pub fn update_tile_render_data(
    tiles_below: &mut Vec<TileRenderData>,
    tiles_above: &mut Vec<TileRenderData>,
    tiles_background: &mut Vec<TileRenderData>,
    bumped: &Vec<usize>,
    tiles: &Vec<Tile>,
    tiles_bg: &Vec<Tile>,
    width: usize,
    height: usize,
)
    requires
        grid_ok(tiles@, width as int, height as int),
        grid_ok(tiles_bg@, width as int, height as int),
        width <= 255,
        height <= 255,
    ensures
        final(tiles_below)@ == front_list(tiles@, width as int, height as int, bumped@, false, tiles@.len() as int),
        final(tiles_above)@ == front_list(tiles@, width as int, height as int, bumped@, true, tiles@.len() as int),
        final(tiles_background)@ == back_list(tiles_bg@, width as int, height as int, tiles_bg@.len() as int),
{
    tiles_below.clear();
    tiles_above.clear();
    tiles_background.clear();
    let mut i: usize = 0;
    while i < tiles.len()
        invariant
            i <= tiles@.len(),
            grid_ok(tiles@, width as int, height as int),
            width <= 255,
            height <= 255,
            tiles_below@ == front_list(tiles@, width as int, height as int, bumped@, false, i as int),
            tiles_above@ == front_list(tiles@, width as int, height as int, bumped@, true, i as int),
        decreases tiles@.len() - i,
    {
        let tile = tiles[i];
        let data = tile_data(tile);
        match data.texture() {
            Some(tex) => {
                if !contains_index(bumped, i) {
                    let kind = draw_kind(tiles, width, height, i, &tex.connection);
                    let entry = TileRenderData { tile, draw_kind: kind, index: i };
                    if tex.above {
                        tiles_above.push(entry);
                    } else {
                        tiles_below.push(entry);
                    }
                }
            },
            None => {},
        }
        i += 1;
    }
    let mut i: usize = 0;
    while i < tiles_bg.len()
        invariant
            i <= tiles_bg@.len(),
            grid_ok(tiles_bg@, width as int, height as int),
            width <= 255,
            height <= 255,
            tiles_background@ == back_list(tiles_bg@, width as int, height as int, i as int),
        decreases tiles_bg@.len() - i,
    {
        let tile = tiles_bg[i];
        let data = tile_data(tile);
        match data.texture() {
            Some(tex) => {
                let kind = draw_kind(tiles_bg, width, height, i, &tex.connection);
                tiles_background.push(TileRenderData { tile, draw_kind: kind, index: i });
            },
            None => {},
        }
        i += 1;
    }
}

/// A tile after the locks and lock blocks of `color` are removed.
pub open spec fn unlocked(t: Tile, color: LockColor) -> Tile {
    if t == Tile::Lock(color) || t == Tile::LockBlock(color) {
        Tile::Empty
    } else {
        t
    }
}

/// Whether a tile is a lock or lock block of `color`.
pub open spec fn is_lock_of(t: Tile, color: LockColor) -> bool {
    t == Tile::Lock(color) || t == Tile::LockBlock(color)
}

/// A tile after the switches are set to `enabled`: switches and "on" blocks take the state,
/// and "off" blocks the opposite.
pub open spec fn switched(t: Tile, enabled: bool) -> Tile {
    match t {
        Tile::Switch(_) => Tile::Switch(enabled),
        Tile::SwitchBlockOn(_) => Tile::SwitchBlockOn(enabled),
        Tile::SwitchBlockOff(_) => Tile::SwitchBlockOff(!enabled),
        _ => t,
    }
}

/// What hitting a tile did: nothing, bumped the tile at `index` (which is then shown as
/// `tile`), or replaced the tile at `index`, which was `old`.
#[derive(PartialEq, Eq, Structural, Clone, Copy, Debug)]
pub enum TileHitOutcome {
    Nothing,
    Bumped { index: usize, tile: Tile },
    Replaced { index: usize, old: Tile },
}

/// The state of a level being played, but for what moves in it.
pub struct PlayedLevelModel {
    pub bg_col: (u8, u8, u8),
    pub width: int,
    pub height: int,
    pub tiles: Seq<Tile>,
    pub tiles_bg: Seq<Tile>,
    /// the state the switches are set to at the next fixed update, if any
    pub new_on_off_state: Option<bool>,
    /// the last checkpoint touched, if any
    pub checkpoint: Option<usize>,
    /// whether the tiles changed since they were last prepared for drawing
    pub should_update_render_data: bool,
    pub spawn: TilePos,
    pub finish: TilePos,
    pub checkpoints: Seq<TilePos>,
    /// position, lines and whether it was read
    pub signs: Seq<(TilePos, Seq<Seq<char>>, bool)>,
    /// kind, position and destination
    pub doors: Seq<(DoorKind, TilePos, TilePos)>,
    /// where entities start, and their kinds; no position is listed twice
    pub entity_spawns: Seq<(LevelPosition, EntityKind)>,
}

/// A sign, as a model.
pub open spec fn sign_view(s: Sign) -> (TilePos, Seq<Seq<char>>, bool) {
    (s.spec_pos(), s.spec_lines(), s.spec_read())
}

/// A door, as a model.
pub open spec fn door_view(d: Door) -> (DoorKind, TilePos, TilePos) {
    (d.spec_kind(), d.spec_pos(), d.spec_dest())
}

/// No position is listed twice.
pub open spec fn keys_distinct(s: Seq<(LevelPosition, EntityKind)>) -> bool {
    forall|i: int, j: int| 0 <= i < j < s.len() ==> #[trigger] s[i].0 != #[trigger] s[j].0
}

/// The entity spawns after `e` is added: an entity already listed at its position is replaced
/// (in its place); otherwise it is listed last.
pub open spec fn insert_spawn(m: Seq<(LevelPosition, EntityKind)>, e: (LevelPosition, EntityKind)) -> Seq<(LevelPosition, EntityKind)> {
    if exists|k: int| 0 <= k < m.len() && m[k].0 == e.0 {
        m.update(choose|k: int| 0 <= k < m.len() && m[k].0 == e.0, e)
    } else {
        m.push(e)
    }
}

/// The entity spawns of a list of entities, a later one at a position replacing an earlier
/// one.
pub open spec fn spawns_from(es: Seq<(LevelPosition, EntityKind)>) -> Seq<(LevelPosition, EntityKind)>
    decreases es.len(),
{
    if es.len() == 0 {
        Seq::empty()
    } else {
        insert_spawn(spawns_from(es.drop_last()), es.last())
    }
}

/// Whether an entity does not start at `pos`.
pub open spec fn spawn_not_at(pos: LevelPosition) -> spec_fn((LevelPosition, EntityKind)) -> bool {
    |e: (LevelPosition, EntityKind)| e.0 != pos
}

impl PlayedLevelModel {
    /// The grids hold `width * height` tiles, and the level is at most 255 by 255.
    pub open spec fn wf(self) -> bool {
        &&& grid_ok(self.tiles, self.width, self.height)
        &&& grid_ok(self.tiles_bg, self.width, self.height)
        &&& self.width <= 255
        &&& self.height <= 255
        &&& keys_distinct(self.entity_spawns)
    }
}

/// The tile at column `x`, row `y` of a level `w` by `h`. Left or right of the level there is
/// a solid wall (a block); above or below it, empty space.
pub open spec fn spec_tile_at(tiles: Seq<Tile>, w: int, h: int, x: int, y: int) -> Tile {
    if !(0 <= x < w) {
        Tile::Block
    } else if !(0 <= y < h) {
        Tile::Empty
    } else {
        tiles[y * w + x]
    }
}

/// The level after hitting the tile at column `x`, row `y`, and what the hit did. Only a solid
/// tile inside the level reacts, as its collision says for the kind of hit: bumping it (a
/// switch is shown flipped, and all switches flip at the next fixed update) or replacing it.
pub open spec fn spec_hit(m: PlayedLevelModel, x: int, y: int, kind: TileHitKind) -> (PlayedLevelModel, TileHitOutcome) {
    if !(0 <= x < m.width && 0 <= y < m.height) {
        (m, TileHitOutcome::Nothing)
    } else {
        let index = y * m.width + x;
        let t = m.tiles[index];
        match spec_tile_data(t).collision {
            TileCollision::Solid { hit_soft, hit_hard } => {
                let hit = match kind {
                    TileHitKind::Soft => hit_soft,
                    TileHitKind::Hard => hit_hard,
                };
                match hit {
                    TileHit::Bump => match t {
                        Tile::Switch(e) => (
                            PlayedLevelModel { new_on_off_state: Some(!e), should_update_render_data: true, ..m },
                            TileHitOutcome::Bumped { index: index as usize, tile: Tile::Switch(!e) },
                        ),
                        _ => (
                            PlayedLevelModel { should_update_render_data: true, ..m },
                            TileHitOutcome::Bumped { index: index as usize, tile: t },
                        ),
                    },
                    TileHit::Replace { new } => (
                        PlayedLevelModel { tiles: m.tiles.update(index, new), should_update_render_data: true, ..m },
                        TileHitOutcome::Replaced { index: index as usize, old: t },
                    ),
                    TileHit::Nothing => (m, TileHitOutcome::Nothing),
                }
            },
            _ => (m, TileHitOutcome::Nothing),
        }
    }
}

/// The level after a fixed update: a pending switch state is applied to every tile of both
/// grids and then forgotten.
pub open spec fn spec_fixed_update(m: PlayedLevelModel) -> PlayedLevelModel {
    match m.new_on_off_state {
        Some(e) => PlayedLevelModel {
            tiles: m.tiles.map_values(|t: Tile| switched(t, e)),
            tiles_bg: m.tiles_bg.map_values(|t: Tile| switched(t, e)),
            new_on_off_state: None,
            ..m
        },
        None => m,
    }
}

/// The level after the locks and lock blocks of `color` are removed from both grids; the tiles
/// are to be prepared for drawing again if any was removed.
pub open spec fn spec_remove_lock_blocks(m: PlayedLevelModel, color: LockColor) -> PlayedLevelModel {
    PlayedLevelModel {
        tiles: m.tiles.map_values(|t: Tile| unlocked(t, color)),
        tiles_bg: m.tiles_bg.map_values(|t: Tile| unlocked(t, color)),
        should_update_render_data: m.should_update_render_data
            || (exists|i: int| 0 <= i < m.tiles.len() && is_lock_of(#[trigger] m.tiles[i], color))
            || (exists|i: int| 0 <= i < m.tiles_bg.len() && is_lock_of(#[trigger] m.tiles_bg[i], color)),
        ..m
    }
}

/// The tile grids of a level being played, and the state they decide.
pub struct Level {
    bg_col: (u8, u8, u8),
    width: usize,
    height: usize,
    tiles: Vec<Tile>,
    tiles_bg: Vec<Tile>,
    new_on_off_state: Option<bool>,
    spawn: TilePos,
    finish: TilePos,
    checkpoints: Vec<TilePos>,
    checkpoint: Option<usize>,
    signs: Vec<Sign>,
    doors: Vec<Door>,
    entity_spawns: Vec<(LevelPosition, EntityKind)>,
    should_update_render_data: bool,
}

impl View for Level {
    type V = PlayedLevelModel;

    closed spec fn view(&self) -> PlayedLevelModel {
        PlayedLevelModel {
            bg_col: self.bg_col,
            width: self.width as int,
            height: self.height as int,
            tiles: self.tiles@,
            tiles_bg: self.tiles_bg@,
            new_on_off_state: self.new_on_off_state,
            checkpoint: self.checkpoint,
            should_update_render_data: self.should_update_render_data,
            spawn: self.spawn,
            finish: self.finish,
            checkpoints: self.checkpoints@,
            signs: self.signs@.map_values(|s: Sign| sign_view(s)),
            doors: self.doors@.map_values(|d: Door| door_view(d)),
            entity_spawns: self.entity_spawns@,
        }
    }
}

/// Removes the locks and lock blocks of `color` from a grid, and says whether any was there.
fn remove_locks_in(tiles: &mut Vec<Tile>, color: LockColor) -> (res: bool)
    ensures
        final(tiles)@ == old(tiles)@.map_values(|t: Tile| unlocked(t, color)),
        res == exists|i: int| 0 <= i < old(tiles)@.len() && is_lock_of(#[trigger] old(tiles)@[i], color),
{
    let ghost before = tiles@;
    let mut changed = false;
    let mut i: usize = 0;
    while i < tiles.len()
        invariant
            i <= tiles@.len(),
            tiles@.len() == before.len(),
            forall|j: int| 0 <= j < i ==> tiles@[j] == unlocked(before[j], color),
            forall|j: int| i <= j < tiles@.len() ==> tiles@[j] == before[j],
            changed == exists|j: int| 0 <= j < i && is_lock_of(#[trigger] before[j], color),
        decreases tiles@.len() - i,
    {
        let t = tiles[i];
        if t == Tile::Lock(color) || t == Tile::LockBlock(color) {
            tiles.set(i, Tile::Empty);
            changed = true;
        }
        proof {
            if !changed {
                assert forall|j: int| 0 <= j < i + 1 implies !is_lock_of(#[trigger] before[j], color) by {
                    if j == i {
                        assert(before[j] == t);
                    }
                }
            } else {
                if is_lock_of(t, color) {
                    assert(is_lock_of(before[i as int], color));
                }
            }
        }
        i += 1;
    }
    assert(tiles@ =~= before.map_values(|t: Tile| unlocked(t, color)));
    changed
}

/// Sets the switches of a grid to `enabled` (see `switched`).
fn switch_in(tiles: &mut Vec<Tile>, enabled: bool)
    ensures
        final(tiles)@ == old(tiles)@.map_values(|t: Tile| switched(t, enabled)),
{
    let ghost before = tiles@;
    let mut i: usize = 0;
    while i < tiles.len()
        invariant
            i <= tiles@.len(),
            tiles@.len() == before.len(),
            forall|j: int| 0 <= j < i ==> tiles@[j] == switched(before[j], enabled),
            forall|j: int| i <= j < tiles@.len() ==> tiles@[j] == before[j],
        decreases tiles@.len() - i,
    {
        let t = tiles[i];
        let n = match t {
            Tile::Switch(_) => Tile::Switch(enabled),
            Tile::SwitchBlockOn(_) => Tile::SwitchBlockOn(enabled),
            Tile::SwitchBlockOff(_) => Tile::SwitchBlockOff(!enabled),
            _ => t,
        };
        tiles.set(i, n);
        i += 1;
    }
    assert(tiles@ =~= before.map_values(|t: Tile| switched(t, enabled)));
}

impl Level {
    /// A level with these contents, no pending switch state, no checkpoint touched, and its
    /// tiles to be prepared for drawing.
    pub fn new(
        bg_col: (u8, u8, u8),
        width: usize,
        height: usize,
        tiles: Vec<Tile>,
        tiles_bg: Vec<Tile>,
        spawn: TilePos,
        finish: TilePos,
        checkpoints: Vec<TilePos>,
        signs: Vec<Sign>,
        doors: Vec<Door>,
        entity_spawns: Vec<(LevelPosition, EntityKind)>,
    ) -> (res: Level)
        requires
            grid_ok(tiles@, width as int, height as int),
            grid_ok(tiles_bg@, width as int, height as int),
            width <= 255,
            height <= 255,
            keys_distinct(entity_spawns@),
        ensures
            res@.wf(),
            res@ == (PlayedLevelModel {
                bg_col,
                width: width as int,
                height: height as int,
                tiles: tiles@,
                tiles_bg: tiles_bg@,
                new_on_off_state: None,
                checkpoint: None,
                should_update_render_data: true,
                spawn,
                finish,
                checkpoints: checkpoints@,
                signs: signs@.map_values(|s: Sign| sign_view(s)),
                doors: doors@.map_values(|d: Door| door_view(d)),
                entity_spawns: entity_spawns@,
            }),
    {
        Level {
            bg_col,
            width,
            height,
            tiles,
            tiles_bg,
            new_on_off_state: None,
            spawn,
            finish,
            checkpoints,
            checkpoint: None,
            signs,
            doors,
            entity_spawns,
            should_update_render_data: true,
        }
    }

    /// The background colour (red, green, blue).
    pub fn bg_col(&self) -> (res: (u8, u8, u8))
        ensures
            res == self@.bg_col,
    {
        self.bg_col
    }

    pub fn spawn(&self) -> (res: TilePos)
        ensures
            res == self@.spawn,
    {
        self.spawn
    }

    pub fn finish(&self) -> (res: TilePos)
        ensures
            res == self@.finish,
    {
        self.finish
    }

    pub fn checkpoints(&self) -> (res: &Vec<TilePos>)
        ensures
            res@ == self@.checkpoints,
    {
        &self.checkpoints
    }

    pub fn doors(&self) -> (res: &Vec<Door>)
        ensures
            res@.map_values(|d: Door| door_view(d)) == self@.doors,
    {
        &self.doors
    }

    pub fn signs(&self) -> (res: &Vec<Sign>)
        ensures
            res@.map_values(|s: Sign| sign_view(s)) == self@.signs,
    {
        &self.signs
    }

    /// The signs, to be changed (marked read).
    pub fn signs_mut(&mut self) -> (res: &mut Vec<Sign>)
        ensures
            res@.map_values(|s: Sign| sign_view(s)) == old(self)@.signs,
            final(self)@ == (PlayedLevelModel { signs: final(res)@.map_values(|s: Sign| sign_view(s)), ..old(self)@ }),
    {
        &mut self.signs
    }

    /// Where entities start, and their kinds.
    pub fn entity_spawns(&self) -> (res: &Vec<(LevelPosition, EntityKind)>)
        ensures
            res@ == self@.entity_spawns,
    {
        &self.entity_spawns
    }

    /// Forgets the entity that starts at `pos`, once it is spawned for good.
    pub fn remove_entity_spawn(&mut self, pos: LevelPosition)
        requires
            old(self)@.wf(),
        ensures
            final(self)@ == (PlayedLevelModel {
                entity_spawns: old(self)@.entity_spawns.filter(spawn_not_at(pos)),
                ..old(self)@
            }),
            final(self)@.wf(),
    {
        let ghost before = self.entity_spawns@;
        let mut kept: Vec<(LevelPosition, EntityKind)> = Vec::new();
        let mut i: usize = 0;
        while i < self.entity_spawns.len()
            invariant
                i <= self.entity_spawns@.len(),
                self.entity_spawns@ == before,
                kept@ == before.take(i as int).filter(spawn_not_at(pos)),
            decreases self.entity_spawns@.len() - i,
        {
            let e = self.entity_spawns[i];
            proof {
                assert(before.take(i + 1).drop_last() =~= before.take(i as int));
                reveal_with_fuel(Seq::filter, 1);
            }
            if e.0.0 != pos.0 || e.0.1 != pos.1 {
                kept.push(e);
            }
            i += 1;
        }
        assert(before.take(before.len() as int) =~= before);
        proof {
            broadcast use vstd::seq_lib::group_filter_ensures;
            let f = before.filter(spawn_not_at(pos));
            assert forall|a: int, b: int| 0 <= a < b < f.len() implies #[trigger] f[a].0 != #[trigger] f[b].0 by {
                lemma_filter_distinct(before, pos, a, b);
            }
        }
        self.entity_spawns = kept;
    }

    pub fn width(&self) -> (res: usize)
        ensures
            res == self@.width,
    {
        self.width
    }

    pub fn height(&self) -> (res: usize)
        ensures
            res == self@.height,
    {
        self.height
    }

    pub fn tiles(&self) -> (res: &Vec<Tile>)
        ensures
            res@ == self@.tiles,
    {
        &self.tiles
    }

    pub fn tiles_bg(&self) -> (res: &Vec<Tile>)
        ensures
            res@ == self@.tiles_bg,
    {
        &self.tiles_bg
    }

    /// The last checkpoint touched, if any.
    pub fn checkpoint(&self) -> (res: Option<usize>)
        ensures
            res == self@.checkpoint,
    {
        self.checkpoint
    }

    /// Marks the checkpoint at `index` as the last one touched.
    pub fn set_checkpoint(&mut self, index: usize)
        ensures
            final(self)@ == (PlayedLevelModel { checkpoint: Some(index), ..old(self)@ }),
    {
        self.checkpoint = Some(index);
    }

    /// Removes every lock and lock block of `color` (see `spec_remove_lock_blocks`).
    pub fn remove_lock_blocks(&mut self, color: LockColor)
        requires
            old(self)@.wf(),
        ensures
            final(self)@ == spec_remove_lock_blocks(old(self)@, color),
            final(self)@.wf(),
    {
        let a = remove_locks_in(&mut self.tiles, color);
        let b = remove_locks_in(&mut self.tiles_bg, color);
        if a || b {
            self.should_update_render_data = true;
        }
    }

    /// The tile at column `x`, row `y`; left or right of the level, a solid block, and above
    /// or below it, an empty tile.
    pub fn tile_at_pos(&self, x: i64, y: i64) -> (res: Tile)
        requires
            self@.wf(),
        ensures
            res == spec_tile_at(self@.tiles, self@.width, self@.height, x as int, y as int),
    {
        if x < 0 || x >= self.width as i64 {
            return Tile::Block;
        }
        if y < 0 || y >= self.height as i64 {
            return Tile::Empty;
        }
        let index = self.index_of(x as usize, y as usize);
        self.tiles[index]
    }

    /// The index of column `x`, row `y`.
    fn index_of(&self, x: usize, y: usize) -> (res: usize)
        requires
            self@.wf(),
            x < self@.width,
            y < self@.height,
        ensures
            res == y * self@.width + x,
            res < self@.tiles.len(),
    {
        assert(y * self.width + x < self.width * self.height) by (nonlinear_arith)
            requires
                y < self.height,
                x < self.width,
        ;
        assert(self.width * self.height <= 255 * 255) by (nonlinear_arith)
            requires
                self.width <= 255,
                self.height <= 255,
        ;
        y * self.width + x
    }

    /// Hits the tile at column `x`, row `y` (see `spec_hit`).
    pub fn hit_tile_at_pos(&mut self, x: i64, y: i64, hit_kind: TileHitKind) -> (res: TileHitOutcome)
        requires
            old(self)@.wf(),
        ensures
            (final(self)@, res) == spec_hit(old(self)@, x as int, y as int, hit_kind),
            final(self)@.wf(),
    {
        if x < 0 || x >= self.width as i64 || y < 0 || y >= self.height as i64 {
            return TileHitOutcome::Nothing;
        }
        let index = self.index_of(x as usize, y as usize);
        let t = self.tiles[index];
        let data = tile_data(t);
        match data.collision() {
            TileCollision::Solid { hit_soft, hit_hard } => {
                let hit = match hit_kind {
                    TileHitKind::Soft => hit_soft,
                    TileHitKind::Hard => hit_hard,
                };
                match hit {
                    TileHit::Bump => {
                        self.should_update_render_data = true;
                        match t {
                            Tile::Switch(e) => {
                                self.new_on_off_state = Some(!e);
                                TileHitOutcome::Bumped { index, tile: Tile::Switch(!e) }
                            },
                            _ => TileHitOutcome::Bumped { index, tile: t },
                        }
                    },
                    TileHit::Replace { new } => {
                        self.tiles.set(index, new);
                        self.should_update_render_data = true;
                        TileHitOutcome::Replaced { index, old: t }
                    },
                    TileHit::Nothing => TileHitOutcome::Nothing,
                }
            },
            _ => TileHitOutcome::Nothing,
        }
    }

    /// Applies a pending switch state (see `spec_fixed_update`).
    pub fn fixed_update(&mut self)
        requires
            old(self)@.wf(),
        ensures
            final(self)@ == spec_fixed_update(old(self)@),
            final(self)@.wf(),
    {
        match self.new_on_off_state {
            Some(enabled) => {
                self.new_on_off_state = None;
                switch_in(&mut self.tiles, enabled);
                switch_in(&mut self.tiles_bg, enabled);
            },
            None => {},
        }
    }

    /// Whether the tiles are to be prepared for drawing.
    pub fn should_update_render_data(&self) -> (res: bool)
        ensures
            res == self@.should_update_render_data,
    {
        self.should_update_render_data
    }

    /// Prepares the tiles for drawing, unless they are up to date (see
    /// `update_tile_render_data`); returns whether they were prepared.
    pub fn update_if_should(
        &mut self,
        tiles_below: &mut Vec<TileRenderData>,
        tiles_above: &mut Vec<TileRenderData>,
        tiles_background: &mut Vec<TileRenderData>,
        bumped: &Vec<usize>,
    ) -> (res: bool)
        requires
            old(self)@.wf(),
        ensures
            res == old(self)@.should_update_render_data,
            final(self)@ == (PlayedLevelModel { should_update_render_data: false, ..old(self)@ }),
            res ==> final(tiles_below)@ == front_list(old(self)@.tiles, old(self)@.width, old(self)@.height, bumped@, false, old(self)@.tiles.len() as int),
            res ==> final(tiles_above)@ == front_list(old(self)@.tiles, old(self)@.width, old(self)@.height, bumped@, true, old(self)@.tiles.len() as int),
            res ==> final(tiles_background)@ == back_list(old(self)@.tiles_bg, old(self)@.width, old(self)@.height, old(self)@.tiles_bg.len() as int),
            !res ==> final(tiles_below)@ == old(tiles_below)@ && final(tiles_above)@ == old(tiles_above)@
                && final(tiles_background)@ == old(tiles_background)@,
    {
        if self.should_update_render_data {
            update_tile_render_data(
                tiles_below,
                tiles_above,
                tiles_background,
                bumped,
                &self.tiles,
                &self.tiles_bg,
                self.width,
                self.height,
            );
            self.should_update_render_data = false;
            true
        } else {
            false
        }
    }

    /// The column and row of the tile at `index` in a grid `width` wide.
    pub fn tile_pos(index: usize, width: usize) -> (res: (usize, usize))
        requires
            width > 0,
        ensures
            res == ((index % width) as usize, (index / width) as usize),
    {
        (index % width, index / width)
    }
}

/// Removing the locks of a colour leaves none of that colour, and removing them again changes
/// nothing.
pub proof fn lemma_remove_lock_blocks(m: PlayedLevelModel, color: LockColor)
    ensures
        forall|i: int| 0 <= i < spec_remove_lock_blocks(m, color).tiles.len() ==> !is_lock_of(
            #[trigger] spec_remove_lock_blocks(m, color).tiles[i],
            color,
        ),
        forall|i: int| 0 <= i < spec_remove_lock_blocks(m, color).tiles_bg.len() ==> !is_lock_of(
            #[trigger] spec_remove_lock_blocks(m, color).tiles_bg[i],
            color,
        ),
        spec_remove_lock_blocks(spec_remove_lock_blocks(m, color), color) == spec_remove_lock_blocks(m, color),
{
    let r = spec_remove_lock_blocks(m, color);
    let rr = spec_remove_lock_blocks(r, color);
    assert(rr.tiles =~= r.tiles);
    assert(rr.tiles_bg =~= r.tiles_bg);
}

/// After a fixed update that applies a switch state, every switch and "on" block of both grids
/// is in that state and every "off" block in the other; a second fixed update changes nothing.
pub proof fn lemma_fixed_update_switches(m: PlayedLevelModel)
    requires
        m.new_on_off_state is Some,
    ensures
        ({
            let e = m.new_on_off_state.unwrap();
            let u = spec_fixed_update(m);
            &&& forall|i: int| 0 <= i < u.tiles.len() ==> switch_agrees(#[trigger] u.tiles[i], e)
            &&& forall|i: int| 0 <= i < u.tiles_bg.len() ==> switch_agrees(#[trigger] u.tiles_bg[i], e)
            &&& spec_fixed_update(u) == u
        }),
{
}

/// Whether a tile agrees with the switch state `e`.
pub open spec fn switch_agrees(t: Tile, e: bool) -> bool {
    match t {
        Tile::Switch(s) => s == e,
        Tile::SwitchBlockOn(s) => s == e,
        Tile::SwitchBlockOff(s) => s == !e,
        _ => true,
    }
}

/// Bumping a switch from below and then running a fixed update flips every switch and block
/// in the level, when they all agreed with the switch before.
pub proof fn lemma_bump_switch_flips(m: PlayedLevelModel, x: int, y: int, e: bool)
    requires
        m.wf(),
        0 <= x < m.width,
        0 <= y < m.height,
        m.tiles[y * m.width + x] == Tile::Switch(e),
    ensures
        ({
            let (h, out) = spec_hit(m, x, y, TileHitKind::Soft);
            let u = spec_fixed_update(h);
            &&& out == TileHitOutcome::Bumped { index: (y * m.width + x) as usize, tile: Tile::Switch(!e) }
            &&& u.tiles[y * m.width + x] == Tile::Switch(!e)
            &&& forall|i: int| 0 <= i < u.tiles.len() ==> switch_agrees(#[trigger] u.tiles[i], !e)
        }),
{
    assert(0 <= y * m.width + x < m.tiles.len()) by (nonlinear_arith)
        requires
            0 <= x < m.width,
            0 <= y < m.height,
            m.tiles.len() == m.width * m.height,
    ;
}

/// A texture joined up along a row is drawn, for each tile, with one of four pieces: a tile
/// that joins neither neighbour with piece 0, one that joins only its right neighbour with the
/// left end (piece 1), one that joins both with the middle (piece 2), and one that joins only
/// its left neighbour with the right end (piece 3). The same holds down a column, with the
/// neighbour below for the right one and the one above for the left one.
pub proof fn lemma_line_pieces(tiles: Seq<Tile>, w: int, h: int, i: int, k: ConnectionKindModel)
    ensures
        ({
            let t = tiles[i];
            let left = spec_tile_connects(tiles, w, h, t, i, -1, 0, k);
            let right = spec_tile_connects(tiles, w, h, t, i, 1, 0, k);
            let d = spec_draw_kind(tiles, w, h, i, ConnectionModel::Horizontal(k));
            &&& (!left && !right ==> d == TileDrawKind::Single(0))
            &&& (!left && right ==> d == TileDrawKind::Single(1))
            &&& (left && right ==> d == TileDrawKind::Single(2))
            &&& (left && !right ==> d == TileDrawKind::Single(3))
        }),
        ({
            let t = tiles[i];
            let up = spec_tile_connects(tiles, w, h, t, i, 0, -1, k);
            let down = spec_tile_connects(tiles, w, h, t, i, 0, 1, k);
            let d = spec_draw_kind(tiles, w, h, i, ConnectionModel::Vertical(k));
            &&& (!up && !down ==> d == TileDrawKind::Single(0))
            &&& (!up && down ==> d == TileDrawKind::Single(1))
            &&& (up && down ==> d == TileDrawKind::Single(2))
            &&& (up && !down ==> d == TileDrawKind::Single(3))
        }),
{
}

/// A connected texture joins up with any neighbour past the edge of the grid and with a
/// neighbour of its own kind; a texture that joins only its own kind joins nothing else, one
/// that joins all but some tiles joins every other tile, and one that joins only some tiles
/// joins just those (and its own kind).
pub proof fn lemma_joins(tiles: Seq<Tile>, w: int, h: int, i: int, dx: int, dy: int, k: ConnectionKindModel)
    requires
        w > 0,
        0 <= i < w * h,
        tiles.len() == w * h,
    ensures
        ({
            let x = i % w + dx;
            let y = i / w + dy;
            let t = tiles[i];
            let j = spec_tile_connects(tiles, w, h, t, i, dx, dy, k);
            &&& (!(0 <= x < w && 0 <= y < h) ==> j)
            &&& (0 <= x < w && 0 <= y < h ==> {
                let other = tiles[y * w + x];
                &&& (other == t ==> j)
                &&& (other != t ==> match k {
                    ConnectionKindModel::OnlySame => !j,
                    ConnectionKindModel::AllBut(v) => j == !v.contains(other),
                    ConnectionKindModel::Only(v) => j == v.contains(other),
                })
            })
        }),
{
}

/// Whether `piece` is the piece for one quarter of a texture joined up on all sides, given
/// whether the quarter joins its neighbour above or below (`horz`), to its side (`vert`), and
/// in its corner: 0 when it joins neither edge, 1 when only the side, 2 when only above or
/// below, 3 when both edges but not the corner, and 4 when all three.
pub open spec fn quarter_piece(piece: usize, horz: bool, vert: bool, corner: bool) -> bool {
    &&& (!horz && !vert ==> piece == 0)
    &&& (!horz && vert ==> piece == 1)
    &&& (horz && !vert ==> piece == 2)
    &&& (horz && vert && !corner ==> piece == 3)
    &&& (horz && vert && corner ==> piece == 4)
}

/// A texture joined up on all sides is drawn in four quarters (top left, top right, bottom
/// left, bottom right), each chosen from the neighbours on its own corner of the tile; an
/// unconnected texture is drawn with its one piece.
pub proof fn lemma_quarter_pieces(tiles: Seq<Tile>, w: int, h: int, i: int, k: ConnectionKindModel)
    ensures
        ({
            let t = tiles[i];
            let n = spec_tile_connects(tiles, w, h, t, i, 0, -1, k);
            let e = spec_tile_connects(tiles, w, h, t, i, 1, 0, k);
            let s = spec_tile_connects(tiles, w, h, t, i, 0, 1, k);
            let wst = spec_tile_connects(tiles, w, h, t, i, -1, 0, k);
            let ne = spec_tile_connects(tiles, w, h, t, i, 1, -1, k);
            let nw = spec_tile_connects(tiles, w, h, t, i, -1, -1, k);
            let se = spec_tile_connects(tiles, w, h, t, i, 1, 1, k);
            let sw = spec_tile_connects(tiles, w, h, t, i, -1, 1, k);
            match spec_draw_kind(tiles, w, h, i, ConnectionModel::Both(k)) {
                TileDrawKind::Quarters(tl, tr, bl, br) => {
                    &&& quarter_piece(tl, n, wst, nw)
                    &&& quarter_piece(tr, n, e, ne)
                    &&& quarter_piece(bl, s, wst, sw)
                    &&& quarter_piece(br, s, e, se)
                },
                _ => false,
            }
        }),
        spec_draw_kind(tiles, w, h, i, ConnectionModel::Unconnected) == TileDrawKind::Single(0),
{
}

/// Hitting a switch inside the level, softly or hard, bumps it: the hit reports the switch
/// flipped, the level is marked for drawing, and the flipped state is set at the next fixed
/// update, which then flips every switch and switch block that agreed with the old state.
pub proof fn lemma_switch_hit(m: PlayedLevelModel, x: int, y: int, e: bool, kind: TileHitKind)
    requires
        m.wf(),
        0 <= x < m.width,
        0 <= y < m.height,
        m.tiles[y * m.width + x] == Tile::Switch(e),
    ensures
        ({
            let (h, out) = spec_hit(m, x, y, kind);
            let u = spec_fixed_update(h);
            &&& out == TileHitOutcome::Bumped { index: (y * m.width + x) as usize, tile: Tile::Switch(!e) }
            &&& h.new_on_off_state == Some(!e)
            &&& h.tiles == m.tiles
            &&& u.tiles[y * m.width + x] == Tile::Switch(!e)
            &&& forall|i: int| 0 <= i < u.tiles.len() ==> switch_agrees(#[trigger] u.tiles[i], !e)
        }),
{
    assert(0 <= y * m.width + x < m.tiles.len()) by (nonlinear_arith)
        requires
            0 <= x < m.width,
            0 <= y < m.height,
            m.tiles.len() == m.width * m.height,
    ;
}

/// Only switches react to being hit: hitting any other tile, or a place outside the level,
/// softly or hard, leaves the level as it was and does nothing.
pub proof fn lemma_only_switches_react(m: PlayedLevelModel, x: int, y: int, kind: TileHitKind)
    requires
        m.wf(),
        !(0 <= x < m.width && 0 <= y < m.height && m.tiles[y * m.width + x] is Switch),
    ensures
        spec_hit(m, x, y, kind) == (m, TileHitOutcome::Nothing),
{
}

/// Once switches are set to `enabled`, the "on" switch blocks are solid exactly when they are
/// enabled and the "off" blocks exactly when they are not; anything but a switch or a switch
/// block is left as it is.
pub proof fn lemma_switch_blocks_follow(t: Tile, enabled: bool)
    ensures
        t is SwitchBlockOn ==> (spec_tile_data(switched(t, enabled)).collision is Solid <==> enabled),
        t is SwitchBlockOff ==> (spec_tile_data(switched(t, enabled)).collision is Solid <==> !enabled),
        t is Switch ==> switched(t, enabled) == Tile::Switch(enabled),
        !(t is Switch || t is SwitchBlockOn || t is SwitchBlockOff) ==> switched(t, enabled) == t,
{
}

/// Two entries of the spawns kept by a filter come from two entries of the list, in order.
proof fn lemma_filter_distinct(s: Seq<(LevelPosition, EntityKind)>, pos: LevelPosition, a: int, b: int)
    requires
        keys_distinct(s),
        0 <= a < b < s.filter(spawn_not_at(pos)).len(),
    ensures
        s.filter(spawn_not_at(pos))[a].0 != s.filter(spawn_not_at(pos))[b].0,
    decreases s.len(),
{
    reveal_with_fuel(Seq::filter, 1);
    let f = s.filter(spawn_not_at(pos));
    let init = s.drop_last();
    let fi = init.filter(spawn_not_at(pos));
    assert(keys_distinct(init)) by {
        assert forall|i: int, j: int| 0 <= i < j < init.len() implies #[trigger] init[i].0 != #[trigger] init[j].0 by {
            assert(init[i] == s[i] && init[j] == s[j]);
        }
    }
    if (spawn_not_at(pos))(s.last()) {
        assert(f == fi.push(s.last()));
        if b < fi.len() {
            lemma_filter_distinct(init, pos, a, b);
        } else {
            assert(fi.contains(fi[a]));
            init.lemma_filter_contains_rev(spawn_not_at(pos), fi[a]);
            let k = choose|k: int| 0 <= k < init.len() && init[k] == fi[a];
            assert(init[k] == s[k]);
            assert(f[a] == fi[a]);
            assert(f[b] == s.last());
            assert(s[k].0 != s[s.len() - 1].0);
        }
    } else {
        assert(f == fi);
        lemma_filter_distinct(init, pos, a, b);
    }
}

} // verus!
