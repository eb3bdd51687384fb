use foxgame::editor_level::EditorLevel;
use foxgame::entity::EntityKind;
use foxgame::level::{update_tile_render_data, Level, TileDrawKind, TileHitOutcome, TileRenderData};
use foxgame::level_pack_data::LevelData;
use foxgame::things::DoorKind;
use foxgame::tile::{LockColor, Tile};
use foxgame::tile_data::{tile_data, TileCollision, TileHit, TileHitKind, TileTexture, TileTextureConnection, TileTextureRenderType};

fn grid(w: usize, h: usize, fill: Tile) -> Vec<Tile> {
    vec![fill; w * h]
}

fn level(w: usize, h: usize, tiles: Vec<Tile>, bg: Vec<Tile>) -> Level {
    Level::new((0, 0, 0), w, h, tiles, bg, (0, 0), (0, 0), vec![], vec![], vec![], vec![])
}

#[test]
fn locks_of_one_colour_are_removed() {
    let mut tiles = grid(3, 2, Tile::Empty);
    tiles[0] = Tile::Lock(LockColor::Red);
    tiles[1] = Tile::LockBlock(LockColor::Red);
    tiles[2] = Tile::Lock(LockColor::Blue);
    let mut bg = grid(3, 2, Tile::Empty);
    bg[5] = Tile::LockBlock(LockColor::Red);
    let mut l = level(3, 2, tiles, bg);
    l.update_if_should(&mut Vec::new(), &mut Vec::new(), &mut Vec::new(), &Vec::new());
    assert!(!l.should_update_render_data());
    l.remove_lock_blocks(LockColor::Red);
    assert_eq!(l.tiles()[0], Tile::Empty);
    assert_eq!(l.tiles()[1], Tile::Empty);
    assert_eq!(l.tiles()[2], Tile::Lock(LockColor::Blue));
    assert_eq!(l.tiles_bg()[5], Tile::Empty);
    assert!(l.should_update_render_data());
}

#[test]
fn removing_absent_locks_changes_nothing() {
    let mut l = level(2, 1, vec![Tile::Grass, Tile::Empty], grid(2, 1, Tile::Empty));
    l.update_if_should(&mut Vec::new(), &mut Vec::new(), &mut Vec::new(), &Vec::new());
    l.remove_lock_blocks(LockColor::Green);
    assert!(!l.should_update_render_data());
    assert_eq!(l.tiles(), &vec![Tile::Grass, Tile::Empty]);
}

#[test]
fn tiles_beside_are_solid_and_above_below_empty() {
    let l = level(2, 2, vec![Tile::Grass, Tile::Dirt, Tile::Stone, Tile::Sand], grid(2, 2, Tile::Empty));
    assert_eq!(l.tile_at_pos(1, 0), Tile::Dirt);
    assert_eq!(l.tile_at_pos(0, 1), Tile::Stone);
    // left and right of the level is a solid wall
    assert_eq!(l.tile_at_pos(-1, 0), Tile::Block);
    assert_eq!(l.tile_at_pos(2, 0), Tile::Block);
    assert_eq!(l.tile_at_pos(0, 5), Tile::Empty);
}

#[test]
fn hitting_a_switch_flips_all_switches_at_the_next_fixed_update() {
    let tiles = vec![Tile::Switch(false), Tile::SwitchBlockOn(false), Tile::SwitchBlockOff(true), Tile::Switch(false)];
    let bg = vec![Tile::SwitchBlockOn(false), Tile::Empty, Tile::Empty, Tile::Empty];
    let mut l = level(4, 1, tiles, bg);
    let out = l.hit_tile_at_pos(0, 0, TileHitKind::Soft);
    assert_eq!(out, TileHitOutcome::Bumped { index: 0, tile: Tile::Switch(true) });
    assert_eq!(l.tiles()[0], Tile::Switch(false));
    l.fixed_update();
    assert_eq!(
        l.tiles(),
        &vec![Tile::Switch(true), Tile::SwitchBlockOn(true), Tile::SwitchBlockOff(false), Tile::Switch(true)]
    );
    assert_eq!(l.tiles_bg()[0], Tile::SwitchBlockOn(true));
    let before = l.tiles().clone();
    l.fixed_update();
    assert_eq!(l.tiles(), &before);
}

#[test]
fn hitting_other_tiles() {
    let mut l = level(3, 1, vec![Tile::Stone, Tile::Empty, Tile::Bridge], grid(3, 1, Tile::Empty));
    l.update_if_should(&mut Vec::new(), &mut Vec::new(), &mut Vec::new(), &Vec::new());
    assert_eq!(l.hit_tile_at_pos(0, 0, TileHitKind::Hard), TileHitOutcome::Nothing);
    assert_eq!(l.hit_tile_at_pos(1, 0, TileHitKind::Soft), TileHitOutcome::Nothing);
    assert_eq!(l.hit_tile_at_pos(2, 0, TileHitKind::Soft), TileHitOutcome::Nothing);
    assert_eq!(l.hit_tile_at_pos(9, 0, TileHitKind::Soft), TileHitOutcome::Nothing);
    assert!(!l.should_update_render_data());
}

#[test]
fn checkpoints_are_remembered() {
    let mut l = level(1, 1, vec![Tile::Empty], vec![Tile::Empty]);
    assert_eq!(l.checkpoint(), None);
    l.set_checkpoint(2);
    assert_eq!(l.checkpoint(), Some(2));
}

#[test]
fn tile_table() {
    let g = tile_data(Tile::Grass);
    assert_eq!(g.name(), "Grass");
    assert_eq!(g.collision(), TileCollision::Solid { hit_soft: TileHit::Nothing, hit_hard: TileHit::Nothing });
    let s = tile_data(Tile::Switch(true));
    assert_eq!(s.collision(), TileCollision::Solid { hit_soft: TileHit::Bump, hit_hard: TileHit::Bump });
    assert!(tile_data(Tile::Empty).texture().is_none());
    assert!(tile_data(Tile::Ladder).collision().is_ladder());
    assert!(tile_data(Tile::WoodenPlatform).collision().is_platform());
    assert!(!tile_data(Tile::Lava).collision().is_solid());
    assert_eq!(tile_data(Tile::Bricks(foxgame::tile::BrickColor::Tan)).name(), "Tan bricks");
    assert_eq!(tile_data(Tile::LockBlock(LockColor::Yellow)).name(), "Yellow Lock Block");
    match &tile_data(Tile::Lock(LockColor::Rainbow)).texture().as_ref().unwrap().render {
        TileTextureRenderType::Animated(frames) => assert_eq!(frames, &vec![32, 33, 34, 35]),
        TileTextureRenderType::Fixed(_) => panic!("rainbow locks are animated"),
    }
    match &tile_data(Tile::Lava).texture().as_ref().unwrap().render {
        TileTextureRenderType::Animated(frames) => assert_eq!(frames, &vec![82, 98, 114, 130, 146, 162, 178, 194]),
        TileTextureRenderType::Fixed(_) => panic!("lava is animated"),
    }
    match &tile_data(Tile::Lock(LockColor::Black)).texture().as_ref().unwrap().render {
        TileTextureRenderType::Fixed(n) => assert_eq!(*n, 37),
        TileTextureRenderType::Animated(_) => panic!("black locks are fixed"),
    }
}

#[test]
fn connected_textures() {
    // a row of three bridges, then grass over dirt
    let w = 3;
    let h = 3;
    let tiles = vec![
        Tile::Bridge, Tile::Bridge, Tile::Bridge,
        Tile::Grass, Tile::Grass, Tile::Empty,
        Tile::Dirt, Tile::Stone, Tile::Empty,
    ];
    let mut below = Vec::new();
    let mut above = Vec::new();
    let mut back = Vec::new();
    update_tile_render_data(&mut below, &mut above, &mut back, &vec![4], &tiles, &grid(w, h, Tile::Empty), w, h);
    assert!(back.is_empty());
    assert_eq!(
        above,
        vec![
            TileRenderData { tile: Tile::Bridge, draw_kind: TileDrawKind::Single(2), index: 0 },
            TileRenderData { tile: Tile::Bridge, draw_kind: TileDrawKind::Single(2), index: 1 },
            TileRenderData { tile: Tile::Bridge, draw_kind: TileDrawKind::Single(2), index: 2 },
        ]
    );
    // the grass at 4 is being bumped and left out
    assert_eq!(below.len(), 3);
    assert_eq!(below[0].index, 3);
    // grass at 3: above it a bridge, to its left the edge, to its right grass, below it dirt
    assert_eq!(below[0].draw_kind, TileDrawKind::Quarters(1, 1, 4, 3));
    assert_eq!(below[1].index, 6);
    assert_eq!(below[2].index, 7);
}

#[test]
fn tile_positions() {
    assert_eq!(Level::tile_pos(0, 22), (0, 0));
    assert_eq!(Level::tile_pos(23, 22), (1, 1));
}

#[test]
fn saved_level_is_played_with_its_things() {
    let mut e = EditorLevel::new_default();
    e.try_add_entity((4, 4), EntityKind::Goat);
    e.try_add_entity((6, 4), EntityKind::Chip(false));
    e.try_add_sign((1, 2), ["a".to_string(), String::new(), String::new(), String::new()]);
    e.try_add_door(DoorKind::Door, (1, 1), (2, 2));
    e.try_add_checkpoint((9, 7));
    let mut l = LevelData::from_editor_level(&e, 0).to_level();
    assert_eq!(l.bg_col(), (109, 202, 255));
    assert_eq!(l.spawn(), (3, 7));
    assert_eq!(l.finish(), (18, 7));
    assert_eq!(l.checkpoints(), &vec![(9, 7)]);
    assert_eq!(l.entity_spawns(), &vec![((4, 4), EntityKind::Goat), ((6, 4), EntityKind::Chip(false))]);
    assert_eq!(l.doors()[0].dest(), (2, 2));
    assert!(!l.signs()[0].read());
    l.signs_mut()[0].set_read(true);
    assert!(l.signs()[0].read());
    assert_eq!(l.signs()[0].lines()[0], "a");
    l.remove_entity_spawn((4, 4));
    assert_eq!(l.entity_spawns(), &vec![((6, 4), EntityKind::Chip(false))]);
    assert_eq!(l.tiles(), e.tiles());
}

#[test]
fn tile_collision_and_texture_constructors() {
    assert_eq!(TileCollision::solid_default(true), TileCollision::Solid { hit_soft: TileHit::Bump, hit_hard: TileHit::Bump });
    assert_eq!(TileCollision::solid_default(false), TileCollision::solid(TileHit::Nothing, TileHit::Nothing));
    assert!(TileCollision::platform().is_platform());
    let t = TileTexture::fixed(6, TileTextureConnection::Unconnected, true);
    assert!(t.above);
    let a = TileTexture::animated(vec![1, 2], TileTextureConnection::Unconnected, false);
    match a.render {
        TileTextureRenderType::Animated(f) => assert_eq!(f, vec![1, 2]),
        TileTextureRenderType::Fixed(_) => panic!("animated"),
    }
}
