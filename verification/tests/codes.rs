use foxgame::entity::{CrateKind, EntityKind};
use foxgame::player_kinds::{Dir, FeetPowerup, HeadPowerup, PowerupKind};
use foxgame::things::DoorKind;
use foxgame::tile::{BrickColor, CheckerBlockColor, LockColor, Tile, TileDir};

#[test]
fn tile_bytes_roundtrip_for_every_valid_byte() {
    for b in 0u8..=52 {
        let t = Tile::try_from(b).expect("every byte up to 52 is a tile");
        let back: u8 = t.into();
        assert_eq!(back, b);
    }
}

#[test]
fn tile_bytes_past_52_are_refused() {
    for b in 53u8..=255 {
        assert!(Tile::try_from(b).is_err());
    }
}

#[test]
fn tile_byte_values() {
    assert_eq!(u8::from(Tile::Empty), 0);
    assert_eq!(u8::from(Tile::Door), 1);
    assert_eq!(u8::from(Tile::Grass), 2);
    assert_eq!(u8::from(Tile::CheckerBlock(CheckerBlockColor::Purple)), 10);
    assert_eq!(u8::from(Tile::Spikes(TileDir::Bottom)), 18);
    assert_eq!(u8::from(Tile::Spikes(TileDir::Left)), 49);
    assert_eq!(u8::from(Tile::Spikes(TileDir::Top)), 50);
    assert_eq!(u8::from(Tile::Spikes(TileDir::Right)), 51);
    assert_eq!(u8::from(Tile::Lock(LockColor::Red)), 22);
    assert_eq!(u8::from(Tile::LockBlock(LockColor::Rainbow)), 35);
    assert_eq!(u8::from(Tile::Bricks(BrickColor::Green)), 48);
    assert_eq!(u8::from(Tile::Bush), 52);
}

#[test]
fn switch_tiles_save_their_starting_state() {
    assert_eq!(u8::from(Tile::Switch(true)), 19);
    assert_eq!(u8::from(Tile::Switch(false)), 19);
    assert_eq!(Tile::try_from(19u8), Ok(Tile::Switch(false)));
    assert_eq!(Tile::try_from(20u8), Ok(Tile::SwitchBlockOff(true)));
    assert_eq!(Tile::try_from(21u8), Ok(Tile::SwitchBlockOn(false)));
}

#[test]
fn door_kind_bytes() {
    for (k, b) in [(DoorKind::Door, 0u8), (DoorKind::Teleporter, 1), (DoorKind::SeamlessTeleporter, 2)] {
        assert_eq!(u8::from(k), b);
        assert_eq!(DoorKind::try_from(b), Ok(k));
    }
    assert!(DoorKind::try_from(3u8).is_err());
}

#[test]
fn entity_kind_bytes_roundtrip() {
    let mut n = 0;
    for b in 0u8..=255 {
        if let Ok(k) = EntityKind::try_from(b) {
            assert_eq!(u8::from(k), b);
            n += 1;
        }
    }
    assert_eq!(n, 36);
}

#[test]
fn entity_kind_byte_values() {
    assert_eq!(u8::from(EntityKind::Key(LockColor::Red)), 0);
    assert_eq!(u8::from(EntityKind::Crate(CrateKind::Key(LockColor::Rainbow))), 13);
    assert_eq!(u8::from(EntityKind::Chip(true)), 14);
    assert_eq!(u8::from(EntityKind::Goat), 22);
    assert_eq!(u8::from(EntityKind::Armadillo(true, true)), 25);
    assert_eq!(u8::from(EntityKind::Powerup(PowerupKind::Feet(FeetPowerup::Skirt), true, false)), 30);
    assert_eq!(
        u8::from(EntityKind::Crate(CrateKind::Powerup(PowerupKind::Head(HeadPowerup::Helmet)))),
        31
    );
    assert_eq!(EntityKind::try_from(19u8), Ok(EntityKind::Frog(false)));
}

#[test]
fn entity_update_order() {
    assert!(EntityKind::Explosion.cmp(&EntityKind::Goat) == std::cmp::Ordering::Less);
    assert!(EntityKind::Key(LockColor::Red).cmp(&EntityKind::Crate(CrateKind::Life)) == std::cmp::Ordering::Greater);
    assert!(EntityKind::Frog(false).cmp(&EntityKind::Goat) == std::cmp::Ordering::Equal);
    assert_eq!(EntityKind::DangerCloud.rank(), 1);
}

#[test]
fn lock_colors_and_names() {
    let cs = LockColor::colors();
    assert_eq!(cs.len(), 7);
    assert_eq!(cs[0], LockColor::Red);
    assert_eq!(cs[6], LockColor::Rainbow);
    assert_eq!(LockColor::Red.str(), "Red");
    assert_eq!(LockColor::Rainbow.str(), "Rainbow");
    assert_eq!(LockColor::Black.str(), "Black");
}

#[test]
fn dir_flips() {
    assert_eq!(Dir::Left.flipped(), Dir::Right);
    assert_eq!(Dir::Right.flipped(), Dir::Left);
}
