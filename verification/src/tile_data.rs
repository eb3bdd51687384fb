//! What each tile is: its name, its texture (which pieces of the tile atlas, whether it joins
//! up with the tiles next to it, whether it is drawn in front of things) and how things collide
//! with it.
use vstd::prelude::*;

use crate::tile::{BrickColor, CheckerBlockColor, LockColor, Tile, TileDir};

verus! {

/// Which neighbours a connected texture joins up with: tiles of the same kind only, also all
/// tiles but some, or also some tiles.
pub enum TileTextureConnectionKind {
    OnlySame,
    AllBut(Vec<Tile>),
    Only(Vec<Tile>),
}

/// How a tile's texture joins up with its neighbours: not at all, with its left and right
/// neighbours (four pieces), with those above and below (four pieces), or on all sides (five
/// pieces, drawn in quarters).
pub enum TileTextureConnection {
    Unconnected,
    Horizontal(TileTextureConnectionKind),
    Vertical(TileTextureConnectionKind),
    Both(TileTextureConnectionKind),
}

/// The first piece of a tile's texture in the tile atlas, or the pieces an animated texture
/// cycles through.
pub enum TileTextureRenderType {
    Fixed(usize),
    Animated(Vec<usize>),
}

/// The texture of a tile, and whether it is drawn in front of things.
pub struct TileTexture {
    pub render: TileTextureRenderType,
    pub connection: TileTextureConnection,
    pub above: bool,
}

/// What hitting a solid tile does: nothing, bumping it, or replacing it with another tile.
#[derive(PartialEq, Eq, Structural, Clone, Copy, Debug)]
pub enum TileHit {
    Nothing,
    Bump,
    Replace { new: Tile },
}

/// How hard a tile is hit: softly (from below by a player) or hard (by something thrown).
#[derive(PartialEq, Eq, Structural, Clone, Copy, Debug)]
pub enum TileHitKind {
    Soft,
    Hard,
}

/// How things collide with a tile: they pass through it, stand on it from above, cannot enter
/// it (and hitting it softly or hard does something), or climb it. Every platform and solid
/// tile has the same friction and no bounce.
#[derive(PartialEq, Eq, Structural, Clone, Copy, Debug)]
pub enum TileCollision {
    Passable,
    Platform,
    Solid { hit_soft: TileHit, hit_hard: TileHit },
    Ladder,
}

impl TileCollision {
    /// A tile things stand on from above.
    pub fn platform() -> (res: TileCollision)
        ensures
            res == TileCollision::Platform,
    {
        TileCollision::Platform
    }

    /// A solid tile that reacts to soft and hard hits as given.
    pub fn solid(hit_soft: TileHit, hit_hard: TileHit) -> (res: TileCollision)
        ensures
            res == (TileCollision::Solid { hit_soft, hit_hard }),
    {
        TileCollision::Solid { hit_soft, hit_hard }
    }

    /// A solid tile that is bumped by every hit (`bump`), or ignores them.
    pub fn solid_default(bump: bool) -> (res: TileCollision)
        ensures
            res == (if bump {
                TileCollision::Solid { hit_soft: TileHit::Bump, hit_hard: TileHit::Bump }
            } else {
                TileCollision::Solid { hit_soft: TileHit::Nothing, hit_hard: TileHit::Nothing }
            }),
    {
        let hit = if bump {
            TileHit::Bump
        } else {
            TileHit::Nothing
        };
        TileCollision::Solid { hit_soft: hit, hit_hard: hit }
    }

    /// Whether nothing can enter the tile.
    pub fn is_solid(&self) -> (res: bool)
        ensures
            res == (*self is Solid),
    {
        match self {
            TileCollision::Solid { .. } => true,
            _ => false,
        }
    }

    /// Whether things stand on the tile from above.
    pub fn is_platform(&self) -> (res: bool)
        ensures
            res == (*self is Platform),
    {
        match self {
            TileCollision::Platform => true,
            _ => false,
        }
    }

    /// Whether the tile can be climbed.
    pub fn is_ladder(&self) -> (res: bool)
        ensures
            res == (*self is Ladder),
    {
        match self {
            TileCollision::Ladder => true,
            _ => false,
        }
    }
}

/// Which neighbours a connected texture joins up with, as a model.
pub enum ConnectionKindModel {
    OnlySame,
    AllBut(Seq<Tile>),
    Only(Seq<Tile>),
}

/// How a texture joins up with its neighbours, as a model.
pub enum ConnectionModel {
    Unconnected,
    Horizontal(ConnectionKindModel),
    Vertical(ConnectionKindModel),
    Both(ConnectionKindModel),
}

/// The pieces of a texture, as a model.
pub enum RenderModel {
    Fixed(usize),
    Animated(Seq<usize>),
}

/// A texture, as a model.
pub struct TextureModel {
    pub render: RenderModel,
    pub connection: ConnectionModel,
    pub above: bool,
}

/// What a tile is, as a model.
pub struct TileDataModel {
    pub name: Seq<char>,
    pub texture: Option<TextureModel>,
    pub collision: TileCollision,
}

impl View for TileTextureConnectionKind {
    type V = ConnectionKindModel;

    open spec fn view(&self) -> ConnectionKindModel {
        match self {
            TileTextureConnectionKind::OnlySame => ConnectionKindModel::OnlySame,
            TileTextureConnectionKind::AllBut(v) => ConnectionKindModel::AllBut(v@),
            TileTextureConnectionKind::Only(v) => ConnectionKindModel::Only(v@),
        }
    }
}

impl View for TileTextureConnection {
    type V = ConnectionModel;

    open spec fn view(&self) -> ConnectionModel {
        match self {
            TileTextureConnection::Unconnected => ConnectionModel::Unconnected,
            TileTextureConnection::Horizontal(k) => ConnectionModel::Horizontal(k@),
            TileTextureConnection::Vertical(k) => ConnectionModel::Vertical(k@),
            TileTextureConnection::Both(k) => ConnectionModel::Both(k@),
        }
    }
}

impl View for TileTextureRenderType {
    type V = RenderModel;

    open spec fn view(&self) -> RenderModel {
        match self {
            TileTextureRenderType::Fixed(n) => RenderModel::Fixed(*n),
            TileTextureRenderType::Animated(v) => RenderModel::Animated(v@),
        }
    }
}

impl View for TileTexture {
    type V = TextureModel;

    open spec fn view(&self) -> TextureModel {
        TextureModel { render: self.render@, connection: self.connection@, above: self.above }
    }
}

impl TileTexture {
    /// A texture that starts at piece `texture` of the atlas.
    pub fn fixed(texture: usize, connection: TileTextureConnection, above: bool) -> (res: TileTexture)
        ensures
            res@ == (TextureModel { render: RenderModel::Fixed(texture), connection: connection@, above }),
    {
        TileTexture { render: TileTextureRenderType::Fixed(texture), connection, above }
    }

    /// A texture that cycles through the pieces `frames`.
    pub fn animated(frames: Vec<usize>, connection: TileTextureConnection, above: bool) -> (res: TileTexture)
        ensures
            res@ == (TextureModel { render: RenderModel::Animated(frames@), connection: connection@, above }),
    {
        TileTexture { render: TileTextureRenderType::Animated(frames), connection, above }
    }
}

/// The model of an optional texture.
pub open spec fn texture_model(t: Option<TileTexture>) -> Option<TextureModel> {
    match t {
        Some(x) => Some(x@),
        None => None,
    }
}

/// What a tile is.
pub struct TileData {
    name: String,
    texture: Option<TileTexture>,
    collision: TileCollision,
}

impl View for TileData {
    type V = TileDataModel;

    closed spec fn view(&self) -> TileDataModel {
        TileDataModel { name: self.name@, texture: texture_model(self.texture), collision: self.collision }
    }
}

impl TileData {
    /// The name of the tile.
    pub fn name(&self) -> (res: &String)
        ensures
            res@ == self@.name,
    {
        &self.name
    }

    /// The texture of the tile, if it is drawn.
    pub fn texture(&self) -> (res: &Option<TileTexture>)
        ensures
            texture_model(*res) == self@.texture,
    {
        &self.texture
    }

    /// How things collide with the tile.
    pub fn collision(&self) -> (res: TileCollision)
        ensures
            res == self@.collision,
    {
        self.collision
    }
}

/// What each tile is.
pub open spec fn spec_tile_data(t: Tile) -> TileDataModel {
    match t {
        Tile::Empty => TileDataModel { name: "Empty"@, texture: None, collision: TileCollision::Passable },
        Tile::Door => TileDataModel { name: "Door"@, texture: Some(TextureModel { render: RenderModel::Fixed(140), connection: ConnectionModel::Vertical(ConnectionKindModel::OnlySame), above: false }), collision: TileCollision::Passable },
        Tile::Lava => TileDataModel { name: "Lava"@, texture: Some(TextureModel { render: RenderModel::Animated(frames_model(82, 16, 8)), connection: ConnectionModel::Vertical(ConnectionKindModel::OnlySame), above: true }), collision: TileCollision::Passable },
        Tile::Bridge => TileDataModel { name: "Bridge"@, texture: Some(TextureModel { render: RenderModel::Fixed(92), connection: ConnectionModel::Horizontal(ConnectionKindModel::OnlySame), above: true }), collision: TileCollision::Platform },
        Tile::Rope => TileDataModel { name: "Rope"@, texture: Some(TextureModel { render: RenderModel::Fixed(76), connection: ConnectionModel::Horizontal(ConnectionKindModel::OnlySame), above: true }), collision: TileCollision::Passable },
        Tile::ShortGrass => TileDataModel { name: "Short Grass"@, texture: Some(TextureModel { render: RenderModel::Fixed(80), connection: ConnectionModel::Unconnected, above: true }), collision: TileCollision::Passable },
        Tile::TallGrass => TileDataModel { name: "Tall Grass"@, texture: Some(TextureModel { render: RenderModel::Fixed(81), connection: ConnectionModel::Unconnected, above: true }), collision: TileCollision::Passable },
        Tile::DeadShortGrass => TileDataModel { name: "Dead Short Grass"@, texture: Some(TextureModel { render: RenderModel::Fixed(96), connection: ConnectionModel::Unconnected, above: true }), collision: TileCollision::Passable },
        Tile::DeadTallGrass => TileDataModel { name: "Dead Tall Grass"@, texture: Some(TextureModel { render: RenderModel::Fixed(97), connection: ConnectionModel::Unconnected, above: true }), collision: TileCollision::Passable },
        Tile::Bush => TileDataModel { name: "Bush"@, texture: Some(TextureModel { render: RenderModel::Fixed(208), connection: ConnectionModel::Horizontal(ConnectionKindModel::OnlySame), above: false }), collision: TileCollision::Passable },
        Tile::Spikes(TileDir::Bottom) => TileDataModel { name: "Bottom Spikes"@, texture: Some(TextureModel { render: RenderModel::Fixed(66), connection: ConnectionModel::Unconnected, above: false }), collision: TileCollision::Solid { hit_soft: TileHit::Nothing, hit_hard: TileHit::Nothing } },
        Tile::Spikes(TileDir::Left) => TileDataModel { name: "Left Spikes"@, texture: Some(TextureModel { render: RenderModel::Fixed(67), connection: ConnectionModel::Unconnected, above: false }), collision: TileCollision::Solid { hit_soft: TileHit::Nothing, hit_hard: TileHit::Nothing } },
        Tile::Spikes(TileDir::Top) => TileDataModel { name: "Top Spikes"@, texture: Some(TextureModel { render: RenderModel::Fixed(68), connection: ConnectionModel::Unconnected, above: false }), collision: TileCollision::Solid { hit_soft: TileHit::Nothing, hit_hard: TileHit::Nothing } },
        Tile::Spikes(TileDir::Right) => TileDataModel { name: "Right Spikes"@, texture: Some(TextureModel { render: RenderModel::Fixed(69), connection: ConnectionModel::Unconnected, above: false }), collision: TileCollision::Solid { hit_soft: TileHit::Nothing, hit_hard: TileHit::Nothing } },
        Tile::Grass => TileDataModel { name: "Grass"@, texture: Some(TextureModel { render: RenderModel::Fixed(6), connection: ConnectionModel::Both(ConnectionKindModel::Only(seq![Tile::Dirt])), above: false }), collision: TileCollision::Solid { hit_soft: TileHit::Nothing, hit_hard: TileHit::Nothing } },
        Tile::Dirt => TileDataModel { name: "Dirt"@, texture: Some(TextureModel { render: RenderModel::Fixed(118), connection: ConnectionModel::Both(ConnectionKindModel::Only(seq![Tile::Grass])), above: false }), collision: TileCollision::Solid { hit_soft: TileHit::Nothing, hit_hard: TileHit::Nothing } },
        Tile::Stone => TileDataModel { name: "Stone"@, texture: Some(TextureModel { render: RenderModel::Fixed(22), connection: ConnectionModel::Both(ConnectionKindModel::OnlySame), above: false }), collision: TileCollision::Solid { hit_soft: TileHit::Nothing, hit_hard: TileHit::Nothing } },
        Tile::BrightStone => TileDataModel { name: "Bright Stone"@, texture: Some(TextureModel { render: RenderModel::Fixed(134), connection: ConnectionModel::Both(ConnectionKindModel::OnlySame), above: false }), collision: TileCollision::Solid { hit_soft: TileHit::Nothing, hit_hard: TileHit::Nothing } },
        Tile::Metal => TileDataModel { name: "Metal"@, texture: Some(TextureModel { render: RenderModel::Fixed(11), connection: ConnectionModel::Both(ConnectionKindModel::OnlySame), above: false }), collision: TileCollision::Solid { hit_soft: TileHit::Nothing, hit_hard: TileHit::Nothing } },
        Tile::Checker => TileDataModel { name: "Checker"@, texture: Some(TextureModel { render: RenderModel::Fixed(27), connection: ConnectionModel::Both(ConnectionKindModel::OnlySame), above: false }), collision: TileCollision::Solid { hit_soft: TileHit::Nothing, hit_hard: TileHit::Nothing } },
        Tile::CheckerBlock(CheckerBlockColor::Cyan) => TileDataModel { name: "Cyan Checker Block"@, texture: Some(TextureModel { render: RenderModel::Fixed(70), connection: ConnectionModel::Both(ConnectionKindModel::OnlySame), above: false }), collision: TileCollision::Solid { hit_soft: TileHit::Nothing, hit_hard: TileHit::Nothing } },
        Tile::CheckerBlock(CheckerBlockColor::Orange) => TileDataModel { name: "Orange Checker Block"@, texture: Some(TextureModel { render: RenderModel::Fixed(86), connection: ConnectionModel::Both(ConnectionKindModel::OnlySame), above: false }), collision: TileCollision::Solid { hit_soft: TileHit::Nothing, hit_hard: TileHit::Nothing } },
        Tile::CheckerBlock(CheckerBlockColor::Purple) => TileDataModel { name: "Purple Checker Block"@, texture: Some(TextureModel { render: RenderModel::Fixed(102), connection: ConnectionModel::Both(ConnectionKindModel::OnlySame), above: false }), collision: TileCollision::Solid { hit_soft: TileHit::Nothing, hit_hard: TileHit::Nothing } },
        Tile::Cloud => TileDataModel { name: "Cloud"@, texture: Some(TextureModel { render: RenderModel::Fixed(38), connection: ConnectionModel::Both(ConnectionKindModel::OnlySame), above: false }), collision: TileCollision::Solid { hit_soft: TileHit::Nothing, hit_hard: TileHit::Nothing } },
        Tile::Sand => TileDataModel { name: "Sand"@, texture: Some(TextureModel { render: RenderModel::Fixed(150), connection: ConnectionModel::Both(ConnectionKindModel::OnlySame), above: false }), collision: TileCollision::Solid { hit_soft: TileHit::Nothing, hit_hard: TileHit::Nothing } },
        Tile::StoneBlock => TileDataModel { name: "Stone Block"@, texture: Some(TextureModel { render: RenderModel::Fixed(2), connection: ConnectionModel::Unconnected, above: false }), collision: TileCollision::Solid { hit_soft: TileHit::Nothing, hit_hard: TileHit::Nothing } },
        Tile::Glass => TileDataModel { name: "Glass"@, texture: Some(TextureModel { render: RenderModel::Fixed(4), connection: ConnectionModel::Unconnected, above: false }), collision: TileCollision::Solid { hit_soft: TileHit::Nothing, hit_hard: TileHit::Nothing } },
        Tile::Block => TileDataModel { name: "Block"@, texture: Some(TextureModel { render: RenderModel::Fixed(5), connection: ConnectionModel::Unconnected, above: false }), collision: TileCollision::Solid { hit_soft: TileHit::Nothing, hit_hard: TileHit::Nothing } },
        Tile::Bricks(BrickColor::Gray) => TileDataModel { name: "Gray bricks"@, texture: Some(TextureModel { render: RenderModel::Fixed(44), connection: ConnectionModel::Horizontal(ConnectionKindModel::OnlySame), above: false }), collision: TileCollision::Solid { hit_soft: TileHit::Nothing, hit_hard: TileHit::Nothing } },
        Tile::Bricks(BrickColor::Tan) => TileDataModel { name: "Tan bricks"@, texture: Some(TextureModel { render: RenderModel::Fixed(60), connection: ConnectionModel::Horizontal(ConnectionKindModel::OnlySame), above: false }), collision: TileCollision::Solid { hit_soft: TileHit::Nothing, hit_hard: TileHit::Nothing } },
        Tile::Bricks(BrickColor::Blue) => TileDataModel { name: "Blue bricks"@, texture: Some(TextureModel { render: RenderModel::Fixed(188), connection: ConnectionModel::Horizontal(ConnectionKindModel::OnlySame), above: false }), collision: TileCollision::Solid { hit_soft: TileHit::Nothing, hit_hard: TileHit::Nothing } },
        Tile::Bricks(BrickColor::Green) => TileDataModel { name: "Green bricks"@, texture: Some(TextureModel { render: RenderModel::Fixed(204), connection: ConnectionModel::Horizontal(ConnectionKindModel::OnlySame), above: false }), collision: TileCollision::Solid { hit_soft: TileHit::Nothing, hit_hard: TileHit::Nothing } },
        Tile::Switch(false) => TileDataModel { name: "Switch"@, texture: Some(TextureModel { render: RenderModel::Fixed(16), connection: ConnectionModel::Unconnected, above: false }), collision: TileCollision::Solid { hit_soft: TileHit::Bump, hit_hard: TileHit::Bump } },
        Tile::Switch(true) => TileDataModel { name: "Switch"@, texture: Some(TextureModel { render: RenderModel::Fixed(17), connection: ConnectionModel::Unconnected, above: false }), collision: TileCollision::Solid { hit_soft: TileHit::Bump, hit_hard: TileHit::Bump } },
        Tile::SwitchBlockOff(false) => TileDataModel { name: "Switch Block Off"@, texture: Some(TextureModel { render: RenderModel::Fixed(18), connection: ConnectionModel::Unconnected, above: false }), collision: TileCollision::Passable },
        Tile::SwitchBlockOff(true) => TileDataModel { name: "Switch Block Off"@, texture: Some(TextureModel { render: RenderModel::Fixed(19), connection: ConnectionModel::Unconnected, above: false }), collision: TileCollision::Solid { hit_soft: TileHit::Nothing, hit_hard: TileHit::Nothing } },
        Tile::SwitchBlockOn(false) => TileDataModel { name: "Switch Block On"@, texture: Some(TextureModel { render: RenderModel::Fixed(20), connection: ConnectionModel::Unconnected, above: false }), collision: TileCollision::Passable },
        Tile::SwitchBlockOn(true) => TileDataModel { name: "Switch Block On"@, texture: Some(TextureModel { render: RenderModel::Fixed(21), connection: ConnectionModel::Unconnected, above: false }), collision: TileCollision::Solid { hit_soft: TileHit::Nothing, hit_hard: TileHit::Nothing } },
        Tile::WoodenPlatform => TileDataModel { name: "Wooden Platform"@, texture: Some(TextureModel { render: RenderModel::Fixed(156), connection: ConnectionModel::Horizontal(ConnectionKindModel::OnlySame), above: true }), collision: TileCollision::Platform },
        Tile::MetalPlatform => TileDataModel { name: "Metal Platform"@, texture: Some(TextureModel { render: RenderModel::Fixed(172), connection: ConnectionModel::Horizontal(ConnectionKindModel::OnlySame), above: true }), collision: TileCollision::Platform },
        Tile::Ladder => TileDataModel { name: "Ladder"@, texture: Some(TextureModel { render: RenderModel::Fixed(108), connection: ConnectionModel::Vertical(ConnectionKindModel::OnlySame), above: false }), collision: TileCollision::Ladder },
        Tile::Vine => TileDataModel { name: "Vine"@, texture: Some(TextureModel { render: RenderModel::Fixed(64), connection: ConnectionModel::Unconnected, above: false }), collision: TileCollision::Ladder },
        Tile::Lock(LockColor::Red) => TileDataModel { name: "Red Lock"@, texture: Some(TextureModel { render: RenderModel::Fixed(32), connection: ConnectionModel::Unconnected, above: false }), collision: TileCollision::Solid { hit_soft: TileHit::Nothing, hit_hard: TileHit::Nothing } },
        Tile::LockBlock(LockColor::Red) => TileDataModel { name: "Red Lock Block"@, texture: Some(TextureModel { render: RenderModel::Fixed(48), connection: ConnectionModel::Unconnected, above: false }), collision: TileCollision::Solid { hit_soft: TileHit::Nothing, hit_hard: TileHit::Nothing } },
        Tile::Lock(LockColor::Green) => TileDataModel { name: "Green Lock"@, texture: Some(TextureModel { render: RenderModel::Fixed(33), connection: ConnectionModel::Unconnected, above: false }), collision: TileCollision::Solid { hit_soft: TileHit::Nothing, hit_hard: TileHit::Nothing } },
        Tile::LockBlock(LockColor::Green) => TileDataModel { name: "Green Lock Block"@, texture: Some(TextureModel { render: RenderModel::Fixed(49), connection: ConnectionModel::Unconnected, above: false }), collision: TileCollision::Solid { hit_soft: TileHit::Nothing, hit_hard: TileHit::Nothing } },
        Tile::Lock(LockColor::Blue) => TileDataModel { name: "Blue Lock"@, texture: Some(TextureModel { render: RenderModel::Fixed(34), connection: ConnectionModel::Unconnected, above: false }), collision: TileCollision::Solid { hit_soft: TileHit::Nothing, hit_hard: TileHit::Nothing } },
        Tile::LockBlock(LockColor::Blue) => TileDataModel { name: "Blue Lock Block"@, texture: Some(TextureModel { render: RenderModel::Fixed(50), connection: ConnectionModel::Unconnected, above: false }), collision: TileCollision::Solid { hit_soft: TileHit::Nothing, hit_hard: TileHit::Nothing } },
        Tile::Lock(LockColor::Yellow) => TileDataModel { name: "Yellow Lock"@, texture: Some(TextureModel { render: RenderModel::Fixed(35), connection: ConnectionModel::Unconnected, above: false }), collision: TileCollision::Solid { hit_soft: TileHit::Nothing, hit_hard: TileHit::Nothing } },
        Tile::LockBlock(LockColor::Yellow) => TileDataModel { name: "Yellow Lock Block"@, texture: Some(TextureModel { render: RenderModel::Fixed(51), connection: ConnectionModel::Unconnected, above: false }), collision: TileCollision::Solid { hit_soft: TileHit::Nothing, hit_hard: TileHit::Nothing } },
        Tile::Lock(LockColor::White) => TileDataModel { name: "White Lock"@, texture: Some(TextureModel { render: RenderModel::Fixed(36), connection: ConnectionModel::Unconnected, above: false }), collision: TileCollision::Solid { hit_soft: TileHit::Nothing, hit_hard: TileHit::Nothing } },
        Tile::LockBlock(LockColor::White) => TileDataModel { name: "White Lock Block"@, texture: Some(TextureModel { render: RenderModel::Fixed(52), connection: ConnectionModel::Unconnected, above: false }), collision: TileCollision::Solid { hit_soft: TileHit::Nothing, hit_hard: TileHit::Nothing } },
        Tile::Lock(LockColor::Black) => TileDataModel { name: "Black Lock"@, texture: Some(TextureModel { render: RenderModel::Fixed(37), connection: ConnectionModel::Unconnected, above: false }), collision: TileCollision::Solid { hit_soft: TileHit::Nothing, hit_hard: TileHit::Nothing } },
        Tile::LockBlock(LockColor::Black) => TileDataModel { name: "Black Lock Block"@, texture: Some(TextureModel { render: RenderModel::Fixed(53), connection: ConnectionModel::Unconnected, above: false }), collision: TileCollision::Solid { hit_soft: TileHit::Nothing, hit_hard: TileHit::Nothing } },
        Tile::Lock(LockColor::Rainbow) => TileDataModel { name: "Rainbow Lock"@, texture: Some(TextureModel { render: RenderModel::Animated(frames_model(32, 1, 4)), connection: ConnectionModel::Unconnected, above: false }), collision: TileCollision::Solid { hit_soft: TileHit::Nothing, hit_hard: TileHit::Nothing } },
        Tile::LockBlock(LockColor::Rainbow) => TileDataModel { name: "Rainbow Lock Block"@, texture: Some(TextureModel { render: RenderModel::Animated(frames_model(48, 1, 4)), connection: ConnectionModel::Unconnected, above: false }), collision: TileCollision::Solid { hit_soft: TileHit::Nothing, hit_hard: TileHit::Nothing } },
    }
}

/// The `n` pieces `first`, `first + step`, ... of an animated texture.
pub open spec fn frames_model(first: usize, step: usize, n: usize) -> Seq<usize> {
    Seq::new(n as nat, |i: int| (first + step * i) as usize)
}

/// The `n` pieces `first`, `first + step`, ... of an animated texture.
fn frames(first: usize, step: usize, n: usize) -> (res: Vec<usize>)
    requires
        first + step * n <= 256,
    ensures
        res@ == frames_model(first, step, n),
{
    let mut v: Vec<usize> = Vec::new();
    let mut i: usize = 0;
    while i < n
        invariant
            i <= n,
            first + step * n <= 256,
            v@ == Seq::new(i as nat, |j: int| (first + step * j) as usize),
        decreases n - i,
    {
        assert(step * i <= step * n) by (nonlinear_arith)
            requires
                i <= n,
        ;
        v.push(first + step * i);
        i += 1;
        assert(v@ =~= Seq::new(i as nat, |j: int| (first + step * j) as usize));
    }
    v
}

/// Joining up with tiles of the same kind and with `t`.
fn only(t: Tile) -> (res: TileTextureConnectionKind)
    ensures
        res@ == ConnectionKindModel::Only(seq![t]),
{
    let v = vec![t];
    assert(v@ =~= seq![t]);
    TileTextureConnectionKind::Only(v)
}

/// What a tile is (see `spec_tile_data`).
pub fn tile_data(tile: Tile) -> (res: TileData)
    ensures
        res@ == spec_tile_data(tile),
{
    let (name, texture, collision): (&str, Option<TileTexture>, TileCollision) = match tile {
        Tile::Empty => ("Empty", None, TileCollision::Passable),
        Tile::Door => ("Door", Some(TileTexture { render: TileTextureRenderType::Fixed(140), connection: TileTextureConnection::Vertical(TileTextureConnectionKind::OnlySame), above: false }), TileCollision::Passable),
        Tile::Lava => ("Lava", Some(TileTexture { render: TileTextureRenderType::Animated(frames(82, 16, 8)), connection: TileTextureConnection::Vertical(TileTextureConnectionKind::OnlySame), above: true }), TileCollision::Passable),
        Tile::Bridge => ("Bridge", Some(TileTexture { render: TileTextureRenderType::Fixed(92), connection: TileTextureConnection::Horizontal(TileTextureConnectionKind::OnlySame), above: true }), TileCollision::Platform),
        Tile::Rope => ("Rope", Some(TileTexture { render: TileTextureRenderType::Fixed(76), connection: TileTextureConnection::Horizontal(TileTextureConnectionKind::OnlySame), above: true }), TileCollision::Passable),
        Tile::ShortGrass => ("Short Grass", Some(TileTexture { render: TileTextureRenderType::Fixed(80), connection: TileTextureConnection::Unconnected, above: true }), TileCollision::Passable),
        Tile::TallGrass => ("Tall Grass", Some(TileTexture { render: TileTextureRenderType::Fixed(81), connection: TileTextureConnection::Unconnected, above: true }), TileCollision::Passable),
        Tile::DeadShortGrass => ("Dead Short Grass", Some(TileTexture { render: TileTextureRenderType::Fixed(96), connection: TileTextureConnection::Unconnected, above: true }), TileCollision::Passable),
        Tile::DeadTallGrass => ("Dead Tall Grass", Some(TileTexture { render: TileTextureRenderType::Fixed(97), connection: TileTextureConnection::Unconnected, above: true }), TileCollision::Passable),
        Tile::Bush => ("Bush", Some(TileTexture { render: TileTextureRenderType::Fixed(208), connection: TileTextureConnection::Horizontal(TileTextureConnectionKind::OnlySame), above: false }), TileCollision::Passable),
        Tile::Spikes(TileDir::Bottom) => ("Bottom Spikes", Some(TileTexture { render: TileTextureRenderType::Fixed(66), connection: TileTextureConnection::Unconnected, above: false }), TileCollision::Solid { hit_soft: TileHit::Nothing, hit_hard: TileHit::Nothing }),
        Tile::Spikes(TileDir::Left) => ("Left Spikes", Some(TileTexture { render: TileTextureRenderType::Fixed(67), connection: TileTextureConnection::Unconnected, above: false }), TileCollision::Solid { hit_soft: TileHit::Nothing, hit_hard: TileHit::Nothing }),
        Tile::Spikes(TileDir::Top) => ("Top Spikes", Some(TileTexture { render: TileTextureRenderType::Fixed(68), connection: TileTextureConnection::Unconnected, above: false }), TileCollision::Solid { hit_soft: TileHit::Nothing, hit_hard: TileHit::Nothing }),
        Tile::Spikes(TileDir::Right) => ("Right Spikes", Some(TileTexture { render: TileTextureRenderType::Fixed(69), connection: TileTextureConnection::Unconnected, above: false }), TileCollision::Solid { hit_soft: TileHit::Nothing, hit_hard: TileHit::Nothing }),
        Tile::Grass => ("Grass", Some(TileTexture { render: TileTextureRenderType::Fixed(6), connection: TileTextureConnection::Both(only(Tile::Dirt)), above: false }), TileCollision::Solid { hit_soft: TileHit::Nothing, hit_hard: TileHit::Nothing }),
        Tile::Dirt => ("Dirt", Some(TileTexture { render: TileTextureRenderType::Fixed(118), connection: TileTextureConnection::Both(only(Tile::Grass)), above: false }), TileCollision::Solid { hit_soft: TileHit::Nothing, hit_hard: TileHit::Nothing }),
        Tile::Stone => ("Stone", Some(TileTexture { render: TileTextureRenderType::Fixed(22), connection: TileTextureConnection::Both(TileTextureConnectionKind::OnlySame), above: false }), TileCollision::Solid { hit_soft: TileHit::Nothing, hit_hard: TileHit::Nothing }),
        Tile::BrightStone => ("Bright Stone", Some(TileTexture { render: TileTextureRenderType::Fixed(134), connection: TileTextureConnection::Both(TileTextureConnectionKind::OnlySame), above: false }), TileCollision::Solid { hit_soft: TileHit::Nothing, hit_hard: TileHit::Nothing }),
        Tile::Metal => ("Metal", Some(TileTexture { render: TileTextureRenderType::Fixed(11), connection: TileTextureConnection::Both(TileTextureConnectionKind::OnlySame), above: false }), TileCollision::Solid { hit_soft: TileHit::Nothing, hit_hard: TileHit::Nothing }),
        Tile::Checker => ("Checker", Some(TileTexture { render: TileTextureRenderType::Fixed(27), connection: TileTextureConnection::Both(TileTextureConnectionKind::OnlySame), above: false }), TileCollision::Solid { hit_soft: TileHit::Nothing, hit_hard: TileHit::Nothing }),
        Tile::CheckerBlock(CheckerBlockColor::Cyan) => ("Cyan Checker Block", Some(TileTexture { render: TileTextureRenderType::Fixed(70), connection: TileTextureConnection::Both(TileTextureConnectionKind::OnlySame), above: false }), TileCollision::Solid { hit_soft: TileHit::Nothing, hit_hard: TileHit::Nothing }),
        Tile::CheckerBlock(CheckerBlockColor::Orange) => ("Orange Checker Block", Some(TileTexture { render: TileTextureRenderType::Fixed(86), connection: TileTextureConnection::Both(TileTextureConnectionKind::OnlySame), above: false }), TileCollision::Solid { hit_soft: TileHit::Nothing, hit_hard: TileHit::Nothing }),
        Tile::CheckerBlock(CheckerBlockColor::Purple) => ("Purple Checker Block", Some(TileTexture { render: TileTextureRenderType::Fixed(102), connection: TileTextureConnection::Both(TileTextureConnectionKind::OnlySame), above: false }), TileCollision::Solid { hit_soft: TileHit::Nothing, hit_hard: TileHit::Nothing }),
        Tile::Cloud => ("Cloud", Some(TileTexture { render: TileTextureRenderType::Fixed(38), connection: TileTextureConnection::Both(TileTextureConnectionKind::OnlySame), above: false }), TileCollision::Solid { hit_soft: TileHit::Nothing, hit_hard: TileHit::Nothing }),
        Tile::Sand => ("Sand", Some(TileTexture { render: TileTextureRenderType::Fixed(150), connection: TileTextureConnection::Both(TileTextureConnectionKind::OnlySame), above: false }), TileCollision::Solid { hit_soft: TileHit::Nothing, hit_hard: TileHit::Nothing }),
        Tile::StoneBlock => ("Stone Block", Some(TileTexture { render: TileTextureRenderType::Fixed(2), connection: TileTextureConnection::Unconnected, above: false }), TileCollision::Solid { hit_soft: TileHit::Nothing, hit_hard: TileHit::Nothing }),
        Tile::Glass => ("Glass", Some(TileTexture { render: TileTextureRenderType::Fixed(4), connection: TileTextureConnection::Unconnected, above: false }), TileCollision::Solid { hit_soft: TileHit::Nothing, hit_hard: TileHit::Nothing }),
        Tile::Block => ("Block", Some(TileTexture { render: TileTextureRenderType::Fixed(5), connection: TileTextureConnection::Unconnected, above: false }), TileCollision::Solid { hit_soft: TileHit::Nothing, hit_hard: TileHit::Nothing }),
        Tile::Bricks(BrickColor::Gray) => ("Gray bricks", Some(TileTexture { render: TileTextureRenderType::Fixed(44), connection: TileTextureConnection::Horizontal(TileTextureConnectionKind::OnlySame), above: false }), TileCollision::Solid { hit_soft: TileHit::Nothing, hit_hard: TileHit::Nothing }),
        Tile::Bricks(BrickColor::Tan) => ("Tan bricks", Some(TileTexture { render: TileTextureRenderType::Fixed(60), connection: TileTextureConnection::Horizontal(TileTextureConnectionKind::OnlySame), above: false }), TileCollision::Solid { hit_soft: TileHit::Nothing, hit_hard: TileHit::Nothing }),
        Tile::Bricks(BrickColor::Blue) => ("Blue bricks", Some(TileTexture { render: TileTextureRenderType::Fixed(188), connection: TileTextureConnection::Horizontal(TileTextureConnectionKind::OnlySame), above: false }), TileCollision::Solid { hit_soft: TileHit::Nothing, hit_hard: TileHit::Nothing }),
        Tile::Bricks(BrickColor::Green) => ("Green bricks", Some(TileTexture { render: TileTextureRenderType::Fixed(204), connection: TileTextureConnection::Horizontal(TileTextureConnectionKind::OnlySame), above: false }), TileCollision::Solid { hit_soft: TileHit::Nothing, hit_hard: TileHit::Nothing }),
        Tile::Switch(false) => ("Switch", Some(TileTexture { render: TileTextureRenderType::Fixed(16), connection: TileTextureConnection::Unconnected, above: false }), TileCollision::Solid { hit_soft: TileHit::Bump, hit_hard: TileHit::Bump }),
        Tile::Switch(true) => ("Switch", Some(TileTexture { render: TileTextureRenderType::Fixed(17), connection: TileTextureConnection::Unconnected, above: false }), TileCollision::Solid { hit_soft: TileHit::Bump, hit_hard: TileHit::Bump }),
        Tile::SwitchBlockOff(false) => ("Switch Block Off", Some(TileTexture { render: TileTextureRenderType::Fixed(18), connection: TileTextureConnection::Unconnected, above: false }), TileCollision::Passable),
        Tile::SwitchBlockOff(true) => ("Switch Block Off", Some(TileTexture { render: TileTextureRenderType::Fixed(19), connection: TileTextureConnection::Unconnected, above: false }), TileCollision::Solid { hit_soft: TileHit::Nothing, hit_hard: TileHit::Nothing }),
        Tile::SwitchBlockOn(false) => ("Switch Block On", Some(TileTexture { render: TileTextureRenderType::Fixed(20), connection: TileTextureConnection::Unconnected, above: false }), TileCollision::Passable),
        Tile::SwitchBlockOn(true) => ("Switch Block On", Some(TileTexture { render: TileTextureRenderType::Fixed(21), connection: TileTextureConnection::Unconnected, above: false }), TileCollision::Solid { hit_soft: TileHit::Nothing, hit_hard: TileHit::Nothing }),
        Tile::WoodenPlatform => ("Wooden Platform", Some(TileTexture { render: TileTextureRenderType::Fixed(156), connection: TileTextureConnection::Horizontal(TileTextureConnectionKind::OnlySame), above: true }), TileCollision::Platform),
        Tile::MetalPlatform => ("Metal Platform", Some(TileTexture { render: TileTextureRenderType::Fixed(172), connection: TileTextureConnection::Horizontal(TileTextureConnectionKind::OnlySame), above: true }), TileCollision::Platform),
        Tile::Ladder => ("Ladder", Some(TileTexture { render: TileTextureRenderType::Fixed(108), connection: TileTextureConnection::Vertical(TileTextureConnectionKind::OnlySame), above: false }), TileCollision::Ladder),
        Tile::Vine => ("Vine", Some(TileTexture { render: TileTextureRenderType::Fixed(64), connection: TileTextureConnection::Unconnected, above: false }), TileCollision::Ladder),
        Tile::Lock(LockColor::Red) => ("Red Lock", Some(TileTexture { render: TileTextureRenderType::Fixed(32), connection: TileTextureConnection::Unconnected, above: false }), TileCollision::Solid { hit_soft: TileHit::Nothing, hit_hard: TileHit::Nothing }),
        Tile::LockBlock(LockColor::Red) => ("Red Lock Block", Some(TileTexture { render: TileTextureRenderType::Fixed(48), connection: TileTextureConnection::Unconnected, above: false }), TileCollision::Solid { hit_soft: TileHit::Nothing, hit_hard: TileHit::Nothing }),
        Tile::Lock(LockColor::Green) => ("Green Lock", Some(TileTexture { render: TileTextureRenderType::Fixed(33), connection: TileTextureConnection::Unconnected, above: false }), TileCollision::Solid { hit_soft: TileHit::Nothing, hit_hard: TileHit::Nothing }),
        Tile::LockBlock(LockColor::Green) => ("Green Lock Block", Some(TileTexture { render: TileTextureRenderType::Fixed(49), connection: TileTextureConnection::Unconnected, above: false }), TileCollision::Solid { hit_soft: TileHit::Nothing, hit_hard: TileHit::Nothing }),
        Tile::Lock(LockColor::Blue) => ("Blue Lock", Some(TileTexture { render: TileTextureRenderType::Fixed(34), connection: TileTextureConnection::Unconnected, above: false }), TileCollision::Solid { hit_soft: TileHit::Nothing, hit_hard: TileHit::Nothing }),
        Tile::LockBlock(LockColor::Blue) => ("Blue Lock Block", Some(TileTexture { render: TileTextureRenderType::Fixed(50), connection: TileTextureConnection::Unconnected, above: false }), TileCollision::Solid { hit_soft: TileHit::Nothing, hit_hard: TileHit::Nothing }),
        Tile::Lock(LockColor::Yellow) => ("Yellow Lock", Some(TileTexture { render: TileTextureRenderType::Fixed(35), connection: TileTextureConnection::Unconnected, above: false }), TileCollision::Solid { hit_soft: TileHit::Nothing, hit_hard: TileHit::Nothing }),
        Tile::LockBlock(LockColor::Yellow) => ("Yellow Lock Block", Some(TileTexture { render: TileTextureRenderType::Fixed(51), connection: TileTextureConnection::Unconnected, above: false }), TileCollision::Solid { hit_soft: TileHit::Nothing, hit_hard: TileHit::Nothing }),
        Tile::Lock(LockColor::White) => ("White Lock", Some(TileTexture { render: TileTextureRenderType::Fixed(36), connection: TileTextureConnection::Unconnected, above: false }), TileCollision::Solid { hit_soft: TileHit::Nothing, hit_hard: TileHit::Nothing }),
        Tile::LockBlock(LockColor::White) => ("White Lock Block", Some(TileTexture { render: TileTextureRenderType::Fixed(52), connection: TileTextureConnection::Unconnected, above: false }), TileCollision::Solid { hit_soft: TileHit::Nothing, hit_hard: TileHit::Nothing }),
        Tile::Lock(LockColor::Black) => ("Black Lock", Some(TileTexture { render: TileTextureRenderType::Fixed(37), connection: TileTextureConnection::Unconnected, above: false }), TileCollision::Solid { hit_soft: TileHit::Nothing, hit_hard: TileHit::Nothing }),
        Tile::LockBlock(LockColor::Black) => ("Black Lock Block", Some(TileTexture { render: TileTextureRenderType::Fixed(53), connection: TileTextureConnection::Unconnected, above: false }), TileCollision::Solid { hit_soft: TileHit::Nothing, hit_hard: TileHit::Nothing }),
        Tile::Lock(LockColor::Rainbow) => ("Rainbow Lock", Some(TileTexture { render: TileTextureRenderType::Animated(frames(32, 1, 4)), connection: TileTextureConnection::Unconnected, above: false }), TileCollision::Solid { hit_soft: TileHit::Nothing, hit_hard: TileHit::Nothing }),
        Tile::LockBlock(LockColor::Rainbow) => ("Rainbow Lock Block", Some(TileTexture { render: TileTextureRenderType::Animated(frames(48, 1, 4)), connection: TileTextureConnection::Unconnected, above: false }), TileCollision::Solid { hit_soft: TileHit::Nothing, hit_hard: TileHit::Nothing }),
    };
    TileData { name: name.to_owned(), texture, collision }
}

} // verus!
