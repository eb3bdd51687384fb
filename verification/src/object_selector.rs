//! The objects the editor lets a player place: tiles, entities and other things, in the order
//! the object selector shows them, with their names.
use vstd::prelude::*;

use crate::entity::{entity_kind_is_canonical, CrateKind, EntityKind};
use crate::player_kinds::{FeetPowerup, HeadPowerup, PowerupKind};
use crate::things::DoorKind;
use crate::tile::{tile_is_canonical, BrickColor, CheckerBlockColor, LockColor, Tile, TileDir};

verus! {

/// Things that are placed in a level but are neither tiles nor entities.
#[derive(PartialEq, Eq, Structural, Clone, Copy, Debug)]
pub enum ObjectOtherKind {
    Sign,
    Door(DoorKind),
    Spawn,
    Finish,
    Checkpoint,
}

/// The kinds of other thing a level view can place: doors and signs.
#[derive(PartialEq, Eq, Structural, Clone, Copy, Debug)]
pub enum OtherKind {
    Door,
    Sign,
}

/// Something the editor places in a level.
#[derive(PartialEq, Eq, Structural, Clone, Copy, Debug)]
pub enum Object {
    Tile(Tile),
    Entity(EntityKind),
    Other(ObjectOtherKind),
}

/// The tiles the selector offers, in order: the plain tiles, then a lock and a lock block of
/// each colour.
pub open spec fn spec_placeable_tiles() -> Seq<Tile> {
    seq![
        Tile::Grass,
        Tile::Dirt,
        Tile::Stone,
        Tile::BrightStone,
        Tile::Sand,
        Tile::Cloud,
        Tile::Metal,
        Tile::Bricks(BrickColor::Gray),
        Tile::Bricks(BrickColor::Tan),
        Tile::Bricks(BrickColor::Blue),
        Tile::Bricks(BrickColor::Green),
        Tile::Checker,
        Tile::CheckerBlock(CheckerBlockColor::Cyan),
        Tile::CheckerBlock(CheckerBlockColor::Orange),
        Tile::CheckerBlock(CheckerBlockColor::Purple),
        Tile::WoodenPlatform,
        Tile::MetalPlatform,
        Tile::Bridge,
        Tile::Rope,
        Tile::ShortGrass,
        Tile::TallGrass,
        Tile::DeadShortGrass,
        Tile::DeadTallGrass,
        Tile::Bush,
        Tile::Door,
        Tile::Ladder,
        Tile::Vine,
        Tile::StoneBlock,
        Tile::Glass,
        Tile::Block,
        Tile::Spikes(TileDir::Bottom),
        Tile::Spikes(TileDir::Left),
        Tile::Spikes(TileDir::Top),
        Tile::Spikes(TileDir::Right),
        Tile::Switch(false),
        Tile::SwitchBlockOff(true),
        Tile::SwitchBlockOn(false),
        Tile::Lava,
        Tile::Lock(LockColor::Red),
        Tile::LockBlock(LockColor::Red),
        Tile::Lock(LockColor::Green),
        Tile::LockBlock(LockColor::Green),
        Tile::Lock(LockColor::Blue),
        Tile::LockBlock(LockColor::Blue),
        Tile::Lock(LockColor::Yellow),
        Tile::LockBlock(LockColor::Yellow),
        Tile::Lock(LockColor::White),
        Tile::LockBlock(LockColor::White),
        Tile::Lock(LockColor::Black),
        Tile::LockBlock(LockColor::Black),
        Tile::Lock(LockColor::Rainbow),
        Tile::LockBlock(LockColor::Rainbow),
    ]
}

/// The entities the selector offers, in order: pickups, crates and enemies, then a key of each
/// colour, then a key crate of each colour.
pub open spec fn spec_placeable_entities() -> Seq<EntityKind> {
    seq![
        EntityKind::Chip(false),
        EntityKind::Crate(CrateKind::Chip(false)),
        EntityKind::Crate(CrateKind::Chip(true)),
        EntityKind::Life(false),
        EntityKind::Crate(CrateKind::Life),
        EntityKind::Powerup(PowerupKind::Head(HeadPowerup::Helmet), false, false),
        EntityKind::Powerup(PowerupKind::Head(HeadPowerup::XrayGoggles), false, false),
        EntityKind::Powerup(PowerupKind::Feet(FeetPowerup::Boots), false, false),
        EntityKind::Powerup(PowerupKind::Feet(FeetPowerup::MoonShoes), false, false),
        EntityKind::Powerup(PowerupKind::Feet(FeetPowerup::Skirt), false, false),
        EntityKind::Crate(CrateKind::Powerup(PowerupKind::Head(HeadPowerup::Helmet))),
        EntityKind::Crate(CrateKind::Powerup(PowerupKind::Head(HeadPowerup::XrayGoggles))),
        EntityKind::Crate(CrateKind::Powerup(PowerupKind::Feet(FeetPowerup::Boots))),
        EntityKind::Crate(CrateKind::Powerup(PowerupKind::Feet(FeetPowerup::MoonShoes))),
        EntityKind::Crate(CrateKind::Powerup(PowerupKind::Feet(FeetPowerup::Skirt))),
        EntityKind::Frog(false),
        EntityKind::Crate(CrateKind::Frog(false)),
        EntityKind::Crate(CrateKind::Frog(true)),
        EntityKind::Crate(CrateKind::Explosive),
        EntityKind::Goat,
        EntityKind::Armadillo(false, false),
        EntityKind::Armadillo(false, true),
        EntityKind::Key(LockColor::Red),
        EntityKind::Key(LockColor::Green),
        EntityKind::Key(LockColor::Blue),
        EntityKind::Key(LockColor::Yellow),
        EntityKind::Key(LockColor::White),
        EntityKind::Key(LockColor::Black),
        EntityKind::Key(LockColor::Rainbow),
        EntityKind::Crate(CrateKind::Key(LockColor::Red)),
        EntityKind::Crate(CrateKind::Key(LockColor::Green)),
        EntityKind::Crate(CrateKind::Key(LockColor::Blue)),
        EntityKind::Crate(CrateKind::Key(LockColor::Yellow)),
        EntityKind::Crate(CrateKind::Key(LockColor::White)),
        EntityKind::Crate(CrateKind::Key(LockColor::Black)),
        EntityKind::Crate(CrateKind::Key(LockColor::Rainbow)),
    ]
}

/// The names the selector shows for its entities.
pub open spec fn spec_placeable_entity_names() -> Seq<Seq<char>> {
    seq![
        "Chip"@,
        "Chip crate"@,
        "Large chip crate"@,
        "Life"@,
        "Life crate"@,
        "Helmet"@,
        "X-Ray Goggles"@,
        "Boots"@,
        "Moon Shoes"@,
        "Skirt"@,
        "Helmet crate"@,
        "X-Ray Goggles crate"@,
        "Boots crate"@,
        "Moon Shoes crate"@,
        "Skirt crate"@,
        "Frog"@,
        "Single-frog crate"@,
        "Multi-frog crate"@,
        "Explosive crate"@,
        "Aerosol Kid"@,
        "Armadillo"@,
        "Spinning Armadillo"@,
        "Red key"@,
        "Green key"@,
        "Blue key"@,
        "Yellow key"@,
        "White key"@,
        "Black key"@,
        "Rainbow key"@,
        "Red key crate"@,
        "Green key crate"@,
        "Blue key crate"@,
        "Yellow key crate"@,
        "White key crate"@,
        "Black key crate"@,
        "Rainbow key crate"@,
    ]
}

/// The other things the selector offers, in order.
pub open spec fn spec_placeable_others() -> Seq<ObjectOtherKind> {
    seq![
        ObjectOtherKind::Sign,
        ObjectOtherKind::Door(DoorKind::Door),
        ObjectOtherKind::Door(DoorKind::Teleporter),
        ObjectOtherKind::Door(DoorKind::SeamlessTeleporter),
        ObjectOtherKind::Spawn,
        ObjectOtherKind::Finish,
        ObjectOtherKind::Checkpoint,
    ]
}

/// The names the selector shows for the other things.
pub open spec fn spec_placeable_other_names() -> Seq<Seq<char>> {
    seq![
        "Sign"@,
        "Door"@,
        "Teleporter"@,
        "Seamless Teleporter"@,
        "Spawn"@,
        "Finish"@,
        "Checkpoint"@,
    ]
}

/// The tiles the selector offers (see `spec_placeable_tiles`).
pub fn placeable_tiles() -> (res: Vec<Tile>)
    ensures
        res@ == spec_placeable_tiles(),
{
    let v = vec![
            Tile::Grass,
            Tile::Dirt,
            Tile::Stone,
            Tile::BrightStone,
            Tile::Sand,
            Tile::Cloud,
            Tile::Metal,
            Tile::Bricks(BrickColor::Gray),
            Tile::Bricks(BrickColor::Tan),
            Tile::Bricks(BrickColor::Blue),
            Tile::Bricks(BrickColor::Green),
            Tile::Checker,
            Tile::CheckerBlock(CheckerBlockColor::Cyan),
            Tile::CheckerBlock(CheckerBlockColor::Orange),
            Tile::CheckerBlock(CheckerBlockColor::Purple),
            Tile::WoodenPlatform,
            Tile::MetalPlatform,
            Tile::Bridge,
            Tile::Rope,
            Tile::ShortGrass,
            Tile::TallGrass,
            Tile::DeadShortGrass,
            Tile::DeadTallGrass,
            Tile::Bush,
            Tile::Door,
            Tile::Ladder,
            Tile::Vine,
            Tile::StoneBlock,
            Tile::Glass,
            Tile::Block,
            Tile::Spikes(TileDir::Bottom),
            Tile::Spikes(TileDir::Left),
            Tile::Spikes(TileDir::Top),
            Tile::Spikes(TileDir::Right),
            Tile::Switch(false),
            Tile::SwitchBlockOff(true),
            Tile::SwitchBlockOn(false),
            Tile::Lava,
            Tile::Lock(LockColor::Red),
            Tile::LockBlock(LockColor::Red),
            Tile::Lock(LockColor::Green),
            Tile::LockBlock(LockColor::Green),
            Tile::Lock(LockColor::Blue),
            Tile::LockBlock(LockColor::Blue),
            Tile::Lock(LockColor::Yellow),
            Tile::LockBlock(LockColor::Yellow),
            Tile::Lock(LockColor::White),
            Tile::LockBlock(LockColor::White),
            Tile::Lock(LockColor::Black),
            Tile::LockBlock(LockColor::Black),
            Tile::Lock(LockColor::Rainbow),
            Tile::LockBlock(LockColor::Rainbow),
        ];
    assert(v@ =~= spec_placeable_tiles());
    v
}

/// The entities the selector offers and their names (see `spec_placeable_entities`).
pub fn placeable_entities() -> (res: Vec<(EntityKind, String)>)
    ensures
        res@.map_values(|e: (EntityKind, String)| e.0) == spec_placeable_entities(),
        res@.map_values(|e: (EntityKind, String)| e.1@) == spec_placeable_entity_names(),
{
    let mut v: Vec<(EntityKind, String)> = Vec::new();
    v.push((EntityKind::Chip(false), "Chip".to_owned()));
    v.push((EntityKind::Crate(CrateKind::Chip(false)), "Chip crate".to_owned()));
    v.push((EntityKind::Crate(CrateKind::Chip(true)), "Large chip crate".to_owned()));
    v.push((EntityKind::Life(false), "Life".to_owned()));
    v.push((EntityKind::Crate(CrateKind::Life), "Life crate".to_owned()));
    v.push((EntityKind::Powerup(PowerupKind::Head(HeadPowerup::Helmet), false, false), "Helmet".to_owned()));
    v.push((EntityKind::Powerup(PowerupKind::Head(HeadPowerup::XrayGoggles), false, false), "X-Ray Goggles".to_owned()));
    v.push((EntityKind::Powerup(PowerupKind::Feet(FeetPowerup::Boots), false, false), "Boots".to_owned()));
    v.push((EntityKind::Powerup(PowerupKind::Feet(FeetPowerup::MoonShoes), false, false), "Moon Shoes".to_owned()));
    v.push((EntityKind::Powerup(PowerupKind::Feet(FeetPowerup::Skirt), false, false), "Skirt".to_owned()));
    v.push((EntityKind::Crate(CrateKind::Powerup(PowerupKind::Head(HeadPowerup::Helmet))), "Helmet crate".to_owned()));
    v.push((EntityKind::Crate(CrateKind::Powerup(PowerupKind::Head(HeadPowerup::XrayGoggles))), "X-Ray Goggles crate".to_owned()));
    v.push((EntityKind::Crate(CrateKind::Powerup(PowerupKind::Feet(FeetPowerup::Boots))), "Boots crate".to_owned()));
    v.push((EntityKind::Crate(CrateKind::Powerup(PowerupKind::Feet(FeetPowerup::MoonShoes))), "Moon Shoes crate".to_owned()));
    v.push((EntityKind::Crate(CrateKind::Powerup(PowerupKind::Feet(FeetPowerup::Skirt))), "Skirt crate".to_owned()));
    v.push((EntityKind::Frog(false), "Frog".to_owned()));
    v.push((EntityKind::Crate(CrateKind::Frog(false)), "Single-frog crate".to_owned()));
    v.push((EntityKind::Crate(CrateKind::Frog(true)), "Multi-frog crate".to_owned()));
    v.push((EntityKind::Crate(CrateKind::Explosive), "Explosive crate".to_owned()));
    v.push((EntityKind::Goat, "Aerosol Kid".to_owned()));
    v.push((EntityKind::Armadillo(false, false), "Armadillo".to_owned()));
    v.push((EntityKind::Armadillo(false, true), "Spinning Armadillo".to_owned()));
    v.push((EntityKind::Key(LockColor::Red), "Red key".to_owned()));
    v.push((EntityKind::Key(LockColor::Green), "Green key".to_owned()));
    v.push((EntityKind::Key(LockColor::Blue), "Blue key".to_owned()));
    v.push((EntityKind::Key(LockColor::Yellow), "Yellow key".to_owned()));
    v.push((EntityKind::Key(LockColor::White), "White key".to_owned()));
    v.push((EntityKind::Key(LockColor::Black), "Black key".to_owned()));
    v.push((EntityKind::Key(LockColor::Rainbow), "Rainbow key".to_owned()));
    v.push((EntityKind::Crate(CrateKind::Key(LockColor::Red)), "Red key crate".to_owned()));
    v.push((EntityKind::Crate(CrateKind::Key(LockColor::Green)), "Green key crate".to_owned()));
    v.push((EntityKind::Crate(CrateKind::Key(LockColor::Blue)), "Blue key crate".to_owned()));
    v.push((EntityKind::Crate(CrateKind::Key(LockColor::Yellow)), "Yellow key crate".to_owned()));
    v.push((EntityKind::Crate(CrateKind::Key(LockColor::White)), "White key crate".to_owned()));
    v.push((EntityKind::Crate(CrateKind::Key(LockColor::Black)), "Black key crate".to_owned()));
    v.push((EntityKind::Crate(CrateKind::Key(LockColor::Rainbow)), "Rainbow key crate".to_owned()));
    assert(v@.map_values(|e: (EntityKind, String)| e.0) =~= spec_placeable_entities());
    assert(v@.map_values(|e: (EntityKind, String)| e.1@) =~= spec_placeable_entity_names());
    v
}

/// The other things the selector offers and their names (see `spec_placeable_others`).
pub fn placeable_others() -> (res: Vec<(ObjectOtherKind, String)>)
    ensures
        res@.map_values(|e: (ObjectOtherKind, String)| e.0) == spec_placeable_others(),
        res@.map_values(|e: (ObjectOtherKind, String)| e.1@) == spec_placeable_other_names(),
{
    let mut v: Vec<(ObjectOtherKind, String)> = Vec::new();
    v.push((ObjectOtherKind::Sign, "Sign".to_owned()));
    v.push((ObjectOtherKind::Door(DoorKind::Door), "Door".to_owned()));
    v.push((ObjectOtherKind::Door(DoorKind::Teleporter), "Teleporter".to_owned()));
    v.push((ObjectOtherKind::Door(DoorKind::SeamlessTeleporter), "Seamless Teleporter".to_owned()));
    v.push((ObjectOtherKind::Spawn, "Spawn".to_owned()));
    v.push((ObjectOtherKind::Finish, "Finish".to_owned()));
    v.push((ObjectOtherKind::Checkpoint, "Checkpoint".to_owned()));
    assert(v@.map_values(|e: (ObjectOtherKind, String)| e.0) =~= spec_placeable_others());
    assert(v@.map_values(|e: (ObjectOtherKind, String)| e.1@) =~= spec_placeable_other_names());
    v
}

/// Everything the editor lets a player place is saved and loaded unchanged: each tile and each
/// entity kind it offers survives the file format.
pub proof fn lemma_placeable_objects_saved_unchanged()
    ensures
        forall|i: int| 0 <= i < spec_placeable_tiles().len() ==> tile_is_canonical(#[trigger] spec_placeable_tiles()[i]),
        forall|i: int| 0 <= i < spec_placeable_entities().len() ==> entity_kind_is_canonical(#[trigger] spec_placeable_entities()[i]),
{
}

} // verus!
