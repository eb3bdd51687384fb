use vstd::prelude::*;

use crate::level_pack_data::LevelPosition;
use crate::player_kinds::{FeetPowerup, HeadPowerup, PowerupKind};
use crate::tile::{lock_index, lock_of_index, LockColor, TileDir};

verus! {

/// What a crate holds.
#[derive(Clone, Copy, PartialEq, Eq, Structural, Debug, Hash)]
pub enum CrateKind {
    /// false for a single frog, true for many
    Frog(bool),
    /// false for a single chip, true for many
    Chip(bool),
    Powerup(PowerupKind),
    Life,
    Key(LockColor),
    Explosive,
}

/// How an entity is identified: by the level position it was placed at, or by a spawn counter.
#[derive(Clone, Copy, PartialEq, Eq, Debug, Hash)]
pub enum Id {
    Level(LevelPosition),
    Spawned(u32),
}

/// The kinds of entity.
#[derive(Clone, Copy, PartialEq, Eq, Structural, Debug, Hash)]
pub enum EntityKind {
    Crate(CrateKind),
    Key(LockColor),
    /// gravity, invulnerable
    Powerup(PowerupKind, bool, bool),
    Chip(bool),
    Life(bool),
    Frog(bool),
    Goat,
    /// invulnerable, spinning
    Armadillo(bool, bool),
    DangerCloud,
    Explosion,
}

pub open spec fn powerup_index(p: PowerupKind) -> u8 {
    match p {
        PowerupKind::Head(HeadPowerup::Helmet) => 0,
        PowerupKind::Head(HeadPowerup::XrayGoggles) => 1,
        PowerupKind::Feet(FeetPowerup::Boots) => 2,
        PowerupKind::Feet(FeetPowerup::MoonShoes) => 3,
        PowerupKind::Feet(FeetPowerup::Skirt) => 4,
    }
}

pub open spec fn powerup_of_index(i: u8) -> PowerupKind {
    if i == 0 {
        PowerupKind::Head(HeadPowerup::Helmet)
    } else if i == 1 {
        PowerupKind::Head(HeadPowerup::XrayGoggles)
    } else if i == 2 {
        PowerupKind::Feet(FeetPowerup::Boots)
    } else if i == 3 {
        PowerupKind::Feet(FeetPowerup::MoonShoes)
    } else {
        PowerupKind::Feet(FeetPowerup::Skirt)
    }
}

/// The byte an entity kind is saved as. Danger clouds and explosions cannot be placed and
/// are saved as 0, the byte of a red key.
pub open spec fn entity_kind_to_byte(k: EntityKind) -> u8 {
    match k {
        EntityKind::Crate(CrateKind::Frog(false)) => 20,
        EntityKind::Crate(CrateKind::Frog(true)) => 21,
        EntityKind::Crate(CrateKind::Chip(false)) => 15,
        EntityKind::Crate(CrateKind::Chip(true)) => 16,
        EntityKind::Crate(CrateKind::Explosive) => 23,
        EntityKind::Crate(CrateKind::Life) => 18,
        EntityKind::Crate(CrateKind::Key(c)) => (7 + lock_index(c)) as u8,
        EntityKind::Key(c) => lock_index(c),
        EntityKind::Powerup(p, _, _) => (26 + powerup_index(p)) as u8,
        EntityKind::Crate(CrateKind::Powerup(p)) => (31 + powerup_index(p)) as u8,
        EntityKind::Chip(_) => 14,
        EntityKind::Life(_) => 17,
        EntityKind::Frog(_) => 19,
        EntityKind::Goat => 22,
        EntityKind::Armadillo(_, false) => 24,
        EntityKind::Armadillo(_, true) => 25,
        EntityKind::DangerCloud => 0,
        EntityKind::Explosion => 0,
    }
}

/// The entity kind a byte is read as, if it names one.
pub open spec fn entity_kind_from_byte(b: u8) -> Option<EntityKind> {
    if b <= 6 {
        Some(EntityKind::Key(lock_of_index(b)))
    } else if b <= 13 {
        Some(EntityKind::Crate(CrateKind::Key(lock_of_index((b - 7) as u8))))
    } else if b == 14 {
        Some(EntityKind::Chip(false))
    } else if b == 15 {
        Some(EntityKind::Crate(CrateKind::Chip(false)))
    } else if b == 16 {
        Some(EntityKind::Crate(CrateKind::Chip(true)))
    } else if b == 17 {
        Some(EntityKind::Life(false))
    } else if b == 18 {
        Some(EntityKind::Crate(CrateKind::Life))
    } else if b == 19 {
        Some(EntityKind::Frog(false))
    } else if b == 20 {
        Some(EntityKind::Crate(CrateKind::Frog(false)))
    } else if b == 21 {
        Some(EntityKind::Crate(CrateKind::Frog(true)))
    } else if b == 22 {
        Some(EntityKind::Goat)
    } else if b == 23 {
        Some(EntityKind::Crate(CrateKind::Explosive))
    } else if b == 24 {
        Some(EntityKind::Armadillo(false, false))
    } else if b == 25 {
        Some(EntityKind::Armadillo(false, true))
    } else if b <= 30 {
        Some(EntityKind::Powerup(powerup_of_index((b - 26) as u8), false, false))
    } else if b <= 35 {
        Some(EntityKind::Crate(CrateKind::Powerup(powerup_of_index((b - 31) as u8))))
    } else {
        None
    }
}

/// The entity kind that saving and loading turns `k` into: the run-time flags (gravity,
/// invulnerability) are cleared.
pub open spec fn canonical_entity_kind(k: EntityKind) -> EntityKind {
    match k {
        EntityKind::Powerup(p, _, _) => EntityKind::Powerup(p, false, false),
        EntityKind::Chip(_) => EntityKind::Chip(false),
        EntityKind::Life(_) => EntityKind::Life(false),
        EntityKind::Frog(_) => EntityKind::Frog(false),
        EntityKind::Armadillo(_, s) => EntityKind::Armadillo(false, s),
        _ => k,
    }
}

/// An entity kind that can be placed in a level and survives saving and loading unchanged.
pub open spec fn entity_kind_is_canonical(k: EntityKind) -> bool {
    &&& k != EntityKind::DangerCloud
    &&& k != EntityKind::Explosion
    &&& canonical_entity_kind(k) == k
}

/// The position of a kind in the order entities are updated in: explosions first, then
/// danger clouds, crates, chips, lives, enemies, keys and powerups.
pub open spec fn entity_kind_rank(k: EntityKind) -> u8 {
    match k {
        EntityKind::Explosion => 0,
        EntityKind::DangerCloud => 1,
        EntityKind::Crate(_) => 2,
        EntityKind::Chip(_) => 3,
        EntityKind::Life(_) => 4,
        EntityKind::Goat | EntityKind::Armadillo(..) | EntityKind::Frog(_) => 5,
        EntityKind::Key(_) => 6,
        EntityKind::Powerup(..) => 7,
    }
}

impl EntityKind {
    /// The position of this kind in the update order.
    pub fn rank(&self) -> (res: u8)
        ensures
            res == entity_kind_rank(*self),
    {
        match self {
            EntityKind::Explosion => 0,
            EntityKind::DangerCloud => 1,
            EntityKind::Crate(_) => 2,
            EntityKind::Chip(_) => 3,
            EntityKind::Life(_) => 4,
            EntityKind::Goat | EntityKind::Armadillo(..) | EntityKind::Frog(_) => 5,
            EntityKind::Key(_) => 6,
            EntityKind::Powerup(..) => 7,
        }
    }

    /// Compares two kinds by their position in the update order.
    pub fn cmp(&self, other: &Self) -> (res: std::cmp::Ordering)
        ensures
            (res == std::cmp::Ordering::Less) == (entity_kind_rank(*self) < entity_kind_rank(*other)),
            (res == std::cmp::Ordering::Equal) == (entity_kind_rank(*self) == entity_kind_rank(*other)),
            (res == std::cmp::Ordering::Greater) == (entity_kind_rank(*self) > entity_kind_rank(*other)),
    {
        let a = self.rank();
        let b = other.rank();
        if a < b {
            std::cmp::Ordering::Less
        } else if a == b {
            std::cmp::Ordering::Equal
        } else {
            std::cmp::Ordering::Greater
        }
    }
}

impl From<EntityKind> for u8 {
    fn from(value: EntityKind) -> (res: u8) {
        match value {
            EntityKind::Crate(CrateKind::Frog(false)) => 20,
            EntityKind::Crate(CrateKind::Frog(true)) => 21,
            EntityKind::Crate(CrateKind::Chip(false)) => 15,
            EntityKind::Crate(CrateKind::Chip(true)) => 16,
            EntityKind::Crate(CrateKind::Explosive) => 23,
            EntityKind::Crate(CrateKind::Life) => 18,
            EntityKind::Crate(CrateKind::Key(LockColor::Red)) => 7,
            EntityKind::Crate(CrateKind::Key(LockColor::Green)) => 8,
            EntityKind::Crate(CrateKind::Key(LockColor::Blue)) => 9,
            EntityKind::Crate(CrateKind::Key(LockColor::Yellow)) => 10,
            EntityKind::Crate(CrateKind::Key(LockColor::White)) => 11,
            EntityKind::Crate(CrateKind::Key(LockColor::Black)) => 12,
            EntityKind::Crate(CrateKind::Key(LockColor::Rainbow)) => 13,
            EntityKind::Key(LockColor::Red) => 0,
            EntityKind::Key(LockColor::Green) => 1,
            EntityKind::Key(LockColor::Blue) => 2,
            EntityKind::Key(LockColor::Yellow) => 3,
            EntityKind::Key(LockColor::White) => 4,
            EntityKind::Key(LockColor::Black) => 5,
            EntityKind::Key(LockColor::Rainbow) => 6,
            EntityKind::Powerup(PowerupKind::Head(HeadPowerup::Helmet), ..) => 26,
            EntityKind::Powerup(PowerupKind::Head(HeadPowerup::XrayGoggles), ..) => 27,
            EntityKind::Powerup(PowerupKind::Feet(FeetPowerup::Boots), ..) => 28,
            EntityKind::Powerup(PowerupKind::Feet(FeetPowerup::MoonShoes), ..) => 29,
            EntityKind::Powerup(PowerupKind::Feet(FeetPowerup::Skirt), ..) => 30,
            EntityKind::Crate(CrateKind::Powerup(PowerupKind::Head(HeadPowerup::Helmet))) => 31,
            EntityKind::Crate(CrateKind::Powerup(PowerupKind::Head(HeadPowerup::XrayGoggles))) => 32,
            EntityKind::Crate(CrateKind::Powerup(PowerupKind::Feet(FeetPowerup::Boots))) => 33,
            EntityKind::Crate(CrateKind::Powerup(PowerupKind::Feet(FeetPowerup::MoonShoes))) => 34,
            EntityKind::Crate(CrateKind::Powerup(PowerupKind::Feet(FeetPowerup::Skirt))) => 35,
            EntityKind::Chip(_) => 14,
            EntityKind::Life(_) => 17,
            EntityKind::Frog(_) => 19,
            EntityKind::Goat => 22,
            EntityKind::Armadillo(_, false) => 24,
            EntityKind::Armadillo(_, true) => 25,
            EntityKind::DangerCloud | EntityKind::Explosion => 0,
        }
    }
}

impl vstd::std_specs::convert::FromSpecImpl<EntityKind> for u8 {
    open spec fn obeys_from_spec() -> bool {
        true
    }

    open spec fn from_spec(v: EntityKind) -> u8 {
        entity_kind_to_byte(v)
    }
}

impl TryFrom<u8> for EntityKind {
    type Error = ();

    fn try_from(value: u8) -> (res: Result<EntityKind, ()>) {
        match value {
            20 => Ok(EntityKind::Crate(CrateKind::Frog(false))),
            21 => Ok(EntityKind::Crate(CrateKind::Frog(true))),
            15 => Ok(EntityKind::Crate(CrateKind::Chip(false))),
            16 => Ok(EntityKind::Crate(CrateKind::Chip(true))),
            18 => Ok(EntityKind::Crate(CrateKind::Life)),
            23 => Ok(EntityKind::Crate(CrateKind::Explosive)),
            7 => Ok(EntityKind::Crate(CrateKind::Key(LockColor::Red))),
            8 => Ok(EntityKind::Crate(CrateKind::Key(LockColor::Green))),
            9 => Ok(EntityKind::Crate(CrateKind::Key(LockColor::Blue))),
            10 => Ok(EntityKind::Crate(CrateKind::Key(LockColor::Yellow))),
            11 => Ok(EntityKind::Crate(CrateKind::Key(LockColor::White))),
            12 => Ok(EntityKind::Crate(CrateKind::Key(LockColor::Black))),
            13 => Ok(EntityKind::Crate(CrateKind::Key(LockColor::Rainbow))),
            0 => Ok(EntityKind::Key(LockColor::Red)),
            1 => Ok(EntityKind::Key(LockColor::Green)),
            2 => Ok(EntityKind::Key(LockColor::Blue)),
            3 => Ok(EntityKind::Key(LockColor::Yellow)),
            4 => Ok(EntityKind::Key(LockColor::White)),
            5 => Ok(EntityKind::Key(LockColor::Black)),
            6 => Ok(EntityKind::Key(LockColor::Rainbow)),
            26 => Ok(EntityKind::Powerup(PowerupKind::Head(HeadPowerup::Helmet), false, false)),
            27 => Ok(EntityKind::Powerup(PowerupKind::Head(HeadPowerup::XrayGoggles), false, false)),
            28 => Ok(EntityKind::Powerup(PowerupKind::Feet(FeetPowerup::Boots), false, false)),
            29 => Ok(EntityKind::Powerup(PowerupKind::Feet(FeetPowerup::MoonShoes), false, false)),
            30 => Ok(EntityKind::Powerup(PowerupKind::Feet(FeetPowerup::Skirt), false, false)),
            31 => Ok(EntityKind::Crate(CrateKind::Powerup(PowerupKind::Head(HeadPowerup::Helmet)))),
            32 => Ok(EntityKind::Crate(CrateKind::Powerup(PowerupKind::Head(HeadPowerup::XrayGoggles)))),
            33 => Ok(EntityKind::Crate(CrateKind::Powerup(PowerupKind::Feet(FeetPowerup::Boots)))),
            34 => Ok(EntityKind::Crate(CrateKind::Powerup(PowerupKind::Feet(FeetPowerup::MoonShoes)))),
            35 => Ok(EntityKind::Crate(CrateKind::Powerup(PowerupKind::Feet(FeetPowerup::Skirt)))),
            14 => Ok(EntityKind::Chip(false)),
            17 => Ok(EntityKind::Life(false)),
            19 => Ok(EntityKind::Frog(false)),
            22 => Ok(EntityKind::Goat),
            24 => Ok(EntityKind::Armadillo(false, false)),
            25 => Ok(EntityKind::Armadillo(false, true)),
            _ => Err(()),
        }
    }
}

impl vstd::std_specs::convert::TryFromSpecImpl<u8> for EntityKind {
    open spec fn obeys_try_from_spec() -> bool {
        true
    }

    open spec fn try_from_spec(v: u8) -> Result<EntityKind, ()> {
        match entity_kind_from_byte(v) {
            Some(k) => Ok(k),
            None => Err(()),
        }
    }
}

/// Loading a saved entity kind gives back the kind without its run-time flags; danger clouds
/// and explosions, which are never saved, come back as red keys.
pub proof fn lemma_entity_kind_roundtrip(k: EntityKind)
    ensures
        k != EntityKind::DangerCloud && k != EntityKind::Explosion ==> entity_kind_from_byte(
            entity_kind_to_byte(k),
        ) == Some(canonical_entity_kind(k)),
        k == EntityKind::DangerCloud || k == EntityKind::Explosion ==> entity_kind_from_byte(
            entity_kind_to_byte(k),
        ) == Some(EntityKind::Key(LockColor::Red)),
{
}

/// A byte that loads as an entity kind is saved back as the same byte.
pub proof fn lemma_entity_kind_inverse(b: u8)
    ensures
        entity_kind_from_byte(b) matches Some(k) ==> entity_kind_to_byte(k) == b
            && entity_kind_is_canonical(k),
{
}

/// What a launcher fires: cannonballs in a direction, or fireballs.
#[derive(Clone, Copy, PartialEq, Eq, Structural, Debug)]
pub enum LauncherKind {
    Cannonball(TileDir),
    Fireball,
}

/// The pieces a broken crate flies apart into.
#[derive(Clone, Copy, PartialEq, Eq, Structural, Debug)]
pub enum CrateParticleKind {
    Tl,
    Tr,
    Bl,
    Br,
    Straight1,
    Straight2,
    Diag1,
    Diag2,
}

/// Where a crate piece is in the particle atlas, in pixels.
pub open spec fn spec_crate_particle_atlas_pos(k: CrateParticleKind) -> (u32, u32) {
    match k {
        CrateParticleKind::Tl => (0, 0),
        CrateParticleKind::Tr => (12, 0),
        CrateParticleKind::Bl => (24, 0),
        CrateParticleKind::Br => (36, 0),
        CrateParticleKind::Straight1 => (0, 12),
        CrateParticleKind::Straight2 => (8, 12),
        CrateParticleKind::Diag1 => (0, 16),
        CrateParticleKind::Diag2 => (9, 16),
    }
}

/// Where a crate piece is in the particle atlas, in pixels (see
/// `spec_crate_particle_atlas_pos`).
pub fn crate_particle_atlas_pos(k: CrateParticleKind) -> (res: (u32, u32))
    ensures
        res == spec_crate_particle_atlas_pos(k),
{
    match k {
        CrateParticleKind::Tl => (0, 0),
        CrateParticleKind::Tr => (12, 0),
        CrateParticleKind::Bl => (24, 0),
        CrateParticleKind::Br => (36, 0),
        CrateParticleKind::Straight1 => (0, 12),
        CrateParticleKind::Straight2 => (8, 12),
        CrateParticleKind::Diag1 => (0, 16),
        CrateParticleKind::Diag2 => (9, 16),
    }
}

} // verus!
