use foxgame::crate_entity::{crate_contents, roll_crate_contents};
use foxgame::entity::{CrateKind, EntityKind};
use foxgame::player_kinds::{HeadPowerup, PowerupKind};
use foxgame::tile::LockColor;

#[test]
fn crate_contents_by_kind() {
    assert_eq!(crate_contents(CrateKind::Key(LockColor::Red), 3), vec![EntityKind::Key(LockColor::Red)]);
    assert_eq!(crate_contents(CrateKind::Frog(false), 3), vec![EntityKind::Frog(true)]);
    assert_eq!(crate_contents(CrateKind::Frog(true), 2), vec![EntityKind::Frog(true); 2]);
    assert_eq!(crate_contents(CrateKind::Chip(false), 3), vec![EntityKind::Chip(true)]);
    assert_eq!(crate_contents(CrateKind::Chip(true), 3), vec![EntityKind::Chip(true); 3]);
    assert_eq!(
        crate_contents(CrateKind::Life, 2),
        vec![EntityKind::Life(true), EntityKind::Chip(true), EntityKind::Chip(true)]
    );
    let helmet = PowerupKind::Head(HeadPowerup::Helmet);
    assert_eq!(
        crate_contents(CrateKind::Powerup(helmet), 2),
        vec![EntityKind::Chip(true), EntityKind::Chip(true), EntityKind::Powerup(helmet, true, false)]
    );
    assert!(crate_contents(CrateKind::Explosive, 3).is_empty());
}

#[test]
fn rolled_crates_hold_two_or_three_chips() {
    let mut seen = [false; 5];
    for _ in 0..200 {
        let v = roll_crate_contents(CrateKind::Chip(true));
        assert!(v.len() == 2 || v.len() == 3);
        assert!(v.iter().all(|e| *e == EntityKind::Chip(true)));
        seen[v.len()] = true;
    }
    assert!(seen[2] && seen[3]);
    for _ in 0..20 {
        assert_eq!(roll_crate_contents(CrateKind::Frog(true)).len(), 2);
    }
}
