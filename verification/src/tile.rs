use vstd::prelude::*;

verus! {

/// A direction a tile faces (used by spikes).
#[derive(PartialEq, Eq, Structural, Clone, Copy, Hash, Debug)]
pub enum TileDir {
    Top,
    Bottom,
    Left,
    Right,
}

/// The colour of a lock, lock block or key.
#[derive(PartialEq, Eq, Structural, Clone, Copy, Hash, Debug)]
pub enum LockColor {
    Red,
    Green,
    Blue,
    Yellow,
    White,
    Black,
    Rainbow,
}

#[derive(PartialEq, Eq, Structural, Clone, Copy, Hash, Debug)]
pub enum CheckerBlockColor {
    Cyan,
    Orange,
    Purple,
}

#[derive(PartialEq, Eq, Structural, Clone, Copy, Hash, Debug)]
pub enum BrickColor {
    Gray,
    Tan,
    Blue,
    Green,
}

#[derive(PartialEq, Eq, Structural, Clone, Copy, Hash, Debug)]
pub enum Tile {
    Empty,
    Door,
    Grass,
    Dirt,
    Stone,
    Cloud,
    Metal,
    Checker,
    CheckerBlock(CheckerBlockColor),
    Bridge,
    Rope,
    Ladder,
    Vine,
    StoneBlock,
    Glass,
    Block,
    Spikes(TileDir),
    Switch(bool),
    SwitchBlockOff(bool),
    SwitchBlockOn(bool),
    Lock(LockColor),
    LockBlock(LockColor),
    WoodenPlatform,
    MetalPlatform,
    BrightStone,
    Lava,
    Sand,
    ShortGrass,
    TallGrass,
    DeadShortGrass,
    DeadTallGrass,
    Bush,
    Bricks(BrickColor),
}

/// The seven lock colours, in the order the game lists them.
pub open spec fn spec_lock_colors() -> Seq<LockColor> {
    seq![
        LockColor::Red,
        LockColor::Green,
        LockColor::Blue,
        LockColor::Yellow,
        LockColor::White,
        LockColor::Black,
        LockColor::Rainbow,
    ]
}

impl LockColor {
    /// Every lock colour, in order.
    pub fn colors() -> (res: Vec<LockColor>)
        ensures
            res@ == spec_lock_colors(),
    {
        vec![
            LockColor::Red,
            LockColor::Green,
            LockColor::Blue,
            LockColor::Yellow,
            LockColor::White,
            LockColor::Black,
            LockColor::Rainbow,
        ]
    }

    /// The name of the colour ("Red", "Green", ...).
    pub fn str(&self) -> (res: &'static str)
        ensures
            res@ == lock_color_name(*self),
    {
        match self {
            LockColor::Red => "Red",
            LockColor::Green => "Green",
            LockColor::Blue => "Blue",
            LockColor::Yellow => "Yellow",
            LockColor::White => "White",
            LockColor::Black => "Black",
            LockColor::Rainbow => "Rainbow",
        }
    }
}

/// The name of a lock colour.
pub open spec fn lock_color_name(c: LockColor) -> Seq<char> {
    match c {
        LockColor::Red => "Red"@,
        LockColor::Green => "Green"@,
        LockColor::Blue => "Blue"@,
        LockColor::Yellow => "Yellow"@,
        LockColor::White => "White"@,
        LockColor::Black => "Black"@,
        LockColor::Rainbow => "Rainbow"@,
    }
}

/// The index of a lock colour in the saved byte of a lock (red is 0, rainbow is 6).
pub open spec fn lock_index(c: LockColor) -> u8 {
    match c {
        LockColor::Red => 0,
        LockColor::Green => 1,
        LockColor::Blue => 2,
        LockColor::Yellow => 3,
        LockColor::White => 4,
        LockColor::Black => 5,
        LockColor::Rainbow => 6,
    }
}

/// The byte a tile is saved as.
pub open spec fn tile_to_byte(t: Tile) -> u8 {
    match t {
        Tile::Empty => 0,
        Tile::Door => 1,
        Tile::Grass => 2,
        Tile::Dirt => 3,
        Tile::Stone => 4,
        Tile::Cloud => 5,
        Tile::Metal => 6,
        Tile::Checker => 7,
        Tile::CheckerBlock(CheckerBlockColor::Cyan) => 8,
        Tile::CheckerBlock(CheckerBlockColor::Orange) => 9,
        Tile::CheckerBlock(CheckerBlockColor::Purple) => 10,
        Tile::Bridge => 11,
        Tile::Rope => 12,
        Tile::Ladder => 13,
        Tile::Vine => 14,
        Tile::StoneBlock => 15,
        Tile::Glass => 16,
        Tile::Block => 17,
        Tile::Spikes(TileDir::Bottom) => 18,
        Tile::Spikes(TileDir::Left) => 49,
        Tile::Spikes(TileDir::Top) => 50,
        Tile::Spikes(TileDir::Right) => 51,
        Tile::Switch(_) => 19,
        Tile::SwitchBlockOff(_) => 20,
        Tile::SwitchBlockOn(_) => 21,
        Tile::Lock(c) => (22 + 2 * lock_index(c)) as u8,
        Tile::LockBlock(c) => (23 + 2 * lock_index(c)) as u8,
        Tile::WoodenPlatform => 36,
        Tile::MetalPlatform => 37,
        Tile::BrightStone => 38,
        Tile::Lava => 39,
        Tile::Sand => 40,
        Tile::ShortGrass => 41,
        Tile::TallGrass => 42,
        Tile::DeadShortGrass => 43,
        Tile::DeadTallGrass => 44,
        Tile::Bricks(BrickColor::Gray) => 45,
        Tile::Bricks(BrickColor::Tan) => 46,
        Tile::Bricks(BrickColor::Blue) => 47,
        Tile::Bricks(BrickColor::Green) => 48,
        Tile::Bush => 52,
    }
}

/// The lock colour with a given index (0 to 6).
pub open spec fn lock_of_index(i: u8) -> LockColor {
    if i == 0 {
        LockColor::Red
    } else if i == 1 {
        LockColor::Green
    } else if i == 2 {
        LockColor::Blue
    } else if i == 3 {
        LockColor::Yellow
    } else if i == 4 {
        LockColor::White
    } else if i == 5 {
        LockColor::Black
    } else {
        LockColor::Rainbow
    }
}

/// The tile a byte is read as, if it names one.
pub open spec fn tile_from_byte(b: u8) -> Option<Tile> {
    if b == 0 {
        Some(Tile::Empty)
    } else if b == 1 {
        Some(Tile::Door)
    } else if b == 2 {
        Some(Tile::Grass)
    } else if b == 3 {
        Some(Tile::Dirt)
    } else if b == 4 {
        Some(Tile::Stone)
    } else if b == 5 {
        Some(Tile::Cloud)
    } else if b == 6 {
        Some(Tile::Metal)
    } else if b == 7 {
        Some(Tile::Checker)
    } else if b == 8 {
        Some(Tile::CheckerBlock(CheckerBlockColor::Cyan))
    } else if b == 9 {
        Some(Tile::CheckerBlock(CheckerBlockColor::Orange))
    } else if b == 10 {
        Some(Tile::CheckerBlock(CheckerBlockColor::Purple))
    } else if b == 11 {
        Some(Tile::Bridge)
    } else if b == 12 {
        Some(Tile::Rope)
    } else if b == 13 {
        Some(Tile::Ladder)
    } else if b == 14 {
        Some(Tile::Vine)
    } else if b == 15 {
        Some(Tile::StoneBlock)
    } else if b == 16 {
        Some(Tile::Glass)
    } else if b == 17 {
        Some(Tile::Block)
    } else if b == 18 {
        Some(Tile::Spikes(TileDir::Bottom))
    } else if b == 19 {
        Some(Tile::Switch(false))
    } else if b == 20 {
        Some(Tile::SwitchBlockOff(true))
    } else if b == 21 {
        Some(Tile::SwitchBlockOn(false))
    } else if 22 <= b <= 35 && b % 2 == 0 {
        Some(Tile::Lock(lock_of_index(((b - 22) / 2) as u8)))
    } else if 22 <= b <= 35 {
        Some(Tile::LockBlock(lock_of_index(((b - 23) / 2) as u8)))
    } else if b == 36 {
        Some(Tile::WoodenPlatform)
    } else if b == 37 {
        Some(Tile::MetalPlatform)
    } else if b == 38 {
        Some(Tile::BrightStone)
    } else if b == 39 {
        Some(Tile::Lava)
    } else if b == 40 {
        Some(Tile::Sand)
    } else if b == 41 {
        Some(Tile::ShortGrass)
    } else if b == 42 {
        Some(Tile::TallGrass)
    } else if b == 43 {
        Some(Tile::DeadShortGrass)
    } else if b == 44 {
        Some(Tile::DeadTallGrass)
    } else if b == 45 {
        Some(Tile::Bricks(BrickColor::Gray))
    } else if b == 46 {
        Some(Tile::Bricks(BrickColor::Tan))
    } else if b == 47 {
        Some(Tile::Bricks(BrickColor::Blue))
    } else if b == 48 {
        Some(Tile::Bricks(BrickColor::Green))
    } else if b == 49 {
        Some(Tile::Spikes(TileDir::Left))
    } else if b == 50 {
        Some(Tile::Spikes(TileDir::Top))
    } else if b == 51 {
        Some(Tile::Spikes(TileDir::Right))
    } else if b == 52 {
        Some(Tile::Bush)
    } else {
        None
    }
}

/// The tile that saving and loading turns `t` into: switch tiles lose their state
/// (a switch loads as off, an "off" switch block loads as solid, an "on" one as passable).
pub open spec fn canonical_tile(t: Tile) -> Tile {
    match t {
        Tile::Switch(_) => Tile::Switch(false),
        Tile::SwitchBlockOff(_) => Tile::SwitchBlockOff(true),
        Tile::SwitchBlockOn(_) => Tile::SwitchBlockOn(false),
        _ => t,
    }
}

/// A tile that survives saving and loading unchanged.
pub open spec fn tile_is_canonical(t: Tile) -> bool {
    canonical_tile(t) == t
}

impl From<Tile> for u8 {
    fn from(value: Tile) -> (res: u8) {
        match value {
            Tile::Empty => 0,
            Tile::Door => 1,
            Tile::Grass => 2,
            Tile::Dirt => 3,
            Tile::Stone => 4,
            Tile::Cloud => 5,
            Tile::Metal => 6,
            Tile::Checker => 7,
            Tile::CheckerBlock(CheckerBlockColor::Cyan) => 8,
            Tile::CheckerBlock(CheckerBlockColor::Orange) => 9,
            Tile::CheckerBlock(CheckerBlockColor::Purple) => 10,
            Tile::Bridge => 11,
            Tile::Rope => 12,
            Tile::Ladder => 13,
            Tile::Vine => 14,
            Tile::StoneBlock => 15,
            Tile::Glass => 16,
            Tile::Block => 17,
            Tile::Spikes(TileDir::Bottom) => 18,
            Tile::Spikes(TileDir::Left) => 49,
            Tile::Spikes(TileDir::Top) => 50,
            Tile::Spikes(TileDir::Right) => 51,
            Tile::Switch(_) => 19,
            Tile::SwitchBlockOff(_) => 20,
            Tile::SwitchBlockOn(_) => 21,
            Tile::Lock(LockColor::Red) => 22,
            Tile::LockBlock(LockColor::Red) => 23,
            Tile::Lock(LockColor::Green) => 24,
            Tile::LockBlock(LockColor::Green) => 25,
            Tile::Lock(LockColor::Blue) => 26,
            Tile::LockBlock(LockColor::Blue) => 27,
            Tile::Lock(LockColor::Yellow) => 28,
            Tile::LockBlock(LockColor::Yellow) => 29,
            Tile::Lock(LockColor::White) => 30,
            Tile::LockBlock(LockColor::White) => 31,
            Tile::Lock(LockColor::Black) => 32,
            Tile::LockBlock(LockColor::Black) => 33,
            Tile::Lock(LockColor::Rainbow) => 34,
            Tile::LockBlock(LockColor::Rainbow) => 35,
            Tile::WoodenPlatform => 36,
            Tile::MetalPlatform => 37,
            Tile::BrightStone => 38,
            Tile::Lava => 39,
            Tile::Sand => 40,
            Tile::ShortGrass => 41,
            Tile::TallGrass => 42,
            Tile::DeadShortGrass => 43,
            Tile::DeadTallGrass => 44,
            Tile::Bricks(BrickColor::Gray) => 45,
            Tile::Bricks(BrickColor::Tan) => 46,
            Tile::Bricks(BrickColor::Blue) => 47,
            Tile::Bricks(BrickColor::Green) => 48,
            Tile::Bush => 52,
        }
    }
}

impl vstd::std_specs::convert::FromSpecImpl<Tile> for u8 {
    open spec fn obeys_from_spec() -> bool {
        true
    }

    open spec fn from_spec(v: Tile) -> u8 {
        tile_to_byte(v)
    }
}

impl TryFrom<u8> for Tile {
    type Error = ();

    fn try_from(value: u8) -> (res: Result<Tile, ()>) {
        match value {
            0 => Ok(Tile::Empty),
            1 => Ok(Tile::Door),
            2 => Ok(Tile::Grass),
            3 => Ok(Tile::Dirt),
            4 => Ok(Tile::Stone),
            5 => Ok(Tile::Cloud),
            6 => Ok(Tile::Metal),
            7 => Ok(Tile::Checker),
            8 => Ok(Tile::CheckerBlock(CheckerBlockColor::Cyan)),
            9 => Ok(Tile::CheckerBlock(CheckerBlockColor::Orange)),
            10 => Ok(Tile::CheckerBlock(CheckerBlockColor::Purple)),
            11 => Ok(Tile::Bridge),
            12 => Ok(Tile::Rope),
            13 => Ok(Tile::Ladder),
            14 => Ok(Tile::Vine),
            15 => Ok(Tile::StoneBlock),
            16 => Ok(Tile::Glass),
            17 => Ok(Tile::Block),
            18 => Ok(Tile::Spikes(TileDir::Bottom)),
            49 => Ok(Tile::Spikes(TileDir::Left)),
            50 => Ok(Tile::Spikes(TileDir::Top)),
            51 => Ok(Tile::Spikes(TileDir::Right)),
            19 => Ok(Tile::Switch(false)),
            20 => Ok(Tile::SwitchBlockOff(true)),
            21 => Ok(Tile::SwitchBlockOn(false)),
            22 => Ok(Tile::Lock(LockColor::Red)),
            23 => Ok(Tile::LockBlock(LockColor::Red)),
            24 => Ok(Tile::Lock(LockColor::Green)),
            25 => Ok(Tile::LockBlock(LockColor::Green)),
            26 => Ok(Tile::Lock(LockColor::Blue)),
            27 => Ok(Tile::LockBlock(LockColor::Blue)),
            28 => Ok(Tile::Lock(LockColor::Yellow)),
            29 => Ok(Tile::LockBlock(LockColor::Yellow)),
            30 => Ok(Tile::Lock(LockColor::White)),
            31 => Ok(Tile::LockBlock(LockColor::White)),
            32 => Ok(Tile::Lock(LockColor::Black)),
            33 => Ok(Tile::LockBlock(LockColor::Black)),
            34 => Ok(Tile::Lock(LockColor::Rainbow)),
            35 => Ok(Tile::LockBlock(LockColor::Rainbow)),
            36 => Ok(Tile::WoodenPlatform),
            37 => Ok(Tile::MetalPlatform),
            38 => Ok(Tile::BrightStone),
            39 => Ok(Tile::Lava),
            40 => Ok(Tile::Sand),
            41 => Ok(Tile::ShortGrass),
            42 => Ok(Tile::TallGrass),
            43 => Ok(Tile::DeadShortGrass),
            44 => Ok(Tile::DeadTallGrass),
            45 => Ok(Tile::Bricks(BrickColor::Gray)),
            46 => Ok(Tile::Bricks(BrickColor::Tan)),
            47 => Ok(Tile::Bricks(BrickColor::Blue)),
            48 => Ok(Tile::Bricks(BrickColor::Green)),
            52 => Ok(Tile::Bush),
            _ => Err(()),
        }
    }
}

impl vstd::std_specs::convert::TryFromSpecImpl<u8> for Tile {
    open spec fn obeys_try_from_spec() -> bool {
        true
    }

    open spec fn try_from_spec(v: u8) -> Result<Tile, ()> {
        match tile_from_byte(v) {
            Some(t) => Ok(t),
            None => Err(()),
        }
    }
}

/// Loading a saved tile gives back the tile, up to the state of switch tiles.
pub proof fn lemma_tile_byte_roundtrip(t: Tile)
    ensures
        tile_from_byte(tile_to_byte(t)) == Some(canonical_tile(t)),
{
}

/// A byte that loads as a tile is saved back as the same byte.
pub proof fn lemma_tile_byte_inverse(b: u8)
    ensures
        tile_from_byte(b) matches Some(t) ==> tile_to_byte(t) == b,
{
}

/// The bytes that name a tile are exactly 0 to 52.
pub proof fn lemma_tile_byte_range(b: u8)
    ensures
        tile_from_byte(b) is Some <==> b <= 52,
{
}

} // verus!
