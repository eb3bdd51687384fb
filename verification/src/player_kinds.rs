use vstd::prelude::*;

verus! {

/// A horizontal direction.
#[derive(Clone, Copy, PartialEq, Eq, Structural, Debug, Hash)]
pub enum Dir {
    Left,
    Right,
}

impl Dir {
    /// The opposite direction.
    pub fn flipped(self) -> (res: Dir)
        ensures
            res != self,
    {
        match self {
            Dir::Left => Dir::Right,
            Dir::Right => Dir::Left,
        }
    }
}

/// The player's movement state.
#[derive(Clone, Copy, PartialEq, Eq, Structural, Debug, Hash)]
pub enum State {
    Standing,
    Moving,
    Jumping,
    Falling,
    Climbing,
}

/// A powerup worn on the head.
#[derive(Clone, Copy, PartialEq, Eq, Structural, Debug, Hash)]
pub enum HeadPowerup {
    Helmet,
    XrayGoggles,
}

/// A powerup worn on the feet.
#[derive(Clone, Copy, PartialEq, Eq, Structural, Debug, Hash)]
pub enum FeetPowerup {
    Boots,
    MoonShoes,
    Skirt,
}

/// Any powerup.
#[derive(Clone, Copy, PartialEq, Eq, Structural, Debug, Hash)]
pub enum PowerupKind {
    Head(HeadPowerup),
    Feet(FeetPowerup),
}

/// The pose of one of the player's arms.
#[derive(Clone, Copy, PartialEq, Eq, Structural, Debug, Hash)]
pub enum PlayerArmKind {
    Normal,
    Tilted,
    Holding,
    HoldingBack,
    Jump,
    Ladder,
}

/// A part of the player's sprite.
#[allow(inconsistent_fields)]
#[derive(Clone, Copy, PartialEq, Eq, Structural, Debug, Hash)]
pub enum PlayerPart {
    Head { powerup: Option<HeadPowerup>, ladder: bool },
    Body { ladder: bool },
    Arm { kind: PlayerArmKind },
    Feet { powerup: Option<FeetPowerup>, run: bool, ladder: bool },
}

pub open spec fn head_index(p: HeadPowerup) -> int {
    match p {
        HeadPowerup::Helmet => 0,
        HeadPowerup::XrayGoggles => 1,
    }
}

pub open spec fn feet_index(p: FeetPowerup) -> int {
    match p {
        FeetPowerup::Boots => 0,
        FeetPowerup::MoonShoes => 1,
        FeetPowerup::Skirt => 2,
    }
}

pub open spec fn arm_index(k: PlayerArmKind) -> int {
    match k {
        PlayerArmKind::Normal => 0,
        PlayerArmKind::Tilted => 1,
        PlayerArmKind::Holding => 2,
        PlayerArmKind::HoldingBack => 3,
        PlayerArmKind::Jump => 4,
        PlayerArmKind::Ladder => 5,
    }
}

/// The rectangle (x, y, width, height) of a part in the player sprite atlas, in pixels.
pub open spec fn spec_part_rect(part: PlayerPart) -> (u32, u32, u32, u32) {
    match part {
        PlayerPart::Head { powerup, ladder } => {
            let x = (if ladder { 16int } else { 0 }) + match powerup {
                None => 0int,
                Some(p) => 32 * (head_index(p) + 1),
            };
            (x as u32, 0, 16, 15)
        },
        PlayerPart::Body { ladder } => ((if ladder { 16u32 } else { 0 }), 16, 16, 7),
        PlayerPart::Arm { kind } => ((16 * arm_index(kind)) as u32, 24, 16, 19),
        PlayerPart::Feet { powerup, run, ladder } => {
            let x = (if ladder { 32int } else if run { 16 } else { 0 }) + match powerup {
                None => 0int,
                Some(p) => 48 * (feet_index(p) + 1),
            };
            (x as u32, 44, 16, 8)
        },
    }
}

/// Where a part of the player is drawn from in the sprite atlas.
pub fn part_rect(part: PlayerPart) -> (res: (u32, u32, u32, u32))
    ensures
        res == spec_part_rect(part),
{
    match part {
        PlayerPart::Head { powerup, ladder } => {
            let ladder_offset: u32 = if ladder { 16 } else { 0 };
            let p: u32 = match powerup {
                None => 0,
                Some(HeadPowerup::Helmet) => 32,
                Some(HeadPowerup::XrayGoggles) => 64,
            };
            (ladder_offset + p, 0, 16, 15)
        },
        PlayerPart::Body { ladder } => (if ladder { 16 } else { 0 }, 16, 16, 7),
        PlayerPart::Arm { kind } => {
            let x: u32 = match kind {
                PlayerArmKind::Normal => 0,
                PlayerArmKind::Tilted => 16,
                PlayerArmKind::Holding => 32,
                PlayerArmKind::HoldingBack => 48,
                PlayerArmKind::Jump => 64,
                PlayerArmKind::Ladder => 80,
            };
            (x, 24, 16, 19)
        },
        PlayerPart::Feet { powerup, run, ladder } => {
            let offset: u32 = if ladder { 32 } else if run { 16 } else { 0 };
            let p: u32 = match powerup {
                None => 0,
                Some(FeetPowerup::Boots) => 48,
                Some(FeetPowerup::MoonShoes) => 96,
                Some(FeetPowerup::Skirt) => 144,
            };
            (offset + p, 44, 16, 8)
        },
    }
}

/// The head powerup after the debug key that cycles it: none, helmet, none.
pub fn next_debug_head_powerup(p: Option<HeadPowerup>) -> (res: Option<HeadPowerup>)
    ensures
        res == (match p {
            None => Some(HeadPowerup::Helmet),
            Some(_) => None::<HeadPowerup>,
        }),
{
    match p {
        None => Some(HeadPowerup::Helmet),
        Some(_) => None,
    }
}

/// The feet powerup after the debug key that cycles it: none, boots, moon shoes, none.
pub fn next_debug_feet_powerup(p: Option<FeetPowerup>) -> (res: Option<FeetPowerup>)
    ensures
        res == (match p {
            None => Some(FeetPowerup::Boots),
            Some(FeetPowerup::Boots) => Some(FeetPowerup::MoonShoes),
            Some(_) => None::<FeetPowerup>,
        }),
{
    match p {
        None => Some(FeetPowerup::Boots),
        Some(FeetPowerup::Boots) => Some(FeetPowerup::MoonShoes),
        Some(_) => None,
    }
}

/// The direction the player moves in after this frame's keys are pressed: the key pressed
/// last this frame wins (right over left), otherwise it is the direction before.
pub open spec fn pressed_move_dir(prev: Option<Dir>, left_pressed: bool, right_pressed: bool) -> Option<Dir> {
    if right_pressed {
        Some(Dir::Right)
    } else if left_pressed {
        Some(Dir::Left)
    } else {
        prev
    }
}

/// The direction after checking the keys held: moving one way without holding that key while
/// holding the other turns round; holding neither stops.
pub open spec fn held_move_dir(d: Option<Dir>, left_down: bool, right_down: bool) -> Option<Dir> {
    match (left_down, right_down, d) {
        (false, true, Some(Dir::Left)) => Some(Dir::Right),
        (true, false, Some(Dir::Right)) => Some(Dir::Left),
        (false, false, _) => None,
        _ => d,
    }
}

/// The direction the player moves in after a frame of the left and right keys (pressed this
/// frame, held down), and whether it turned to a new direction (which counts as turning in
/// mid-air).
pub fn next_move_dir(prev: Option<Dir>, left_pressed: bool, right_pressed: bool, left_down: bool, right_down: bool) -> (res: (
    Option<Dir>,
    bool,
))
    ensures
        res.0 == held_move_dir(pressed_move_dir(prev, left_pressed, right_pressed), left_down, right_down),
        res.1 == (res.0 != prev && res.0 is Some),
{
    let mut d = prev;
    if left_pressed {
        d = Some(Dir::Left);
    }
    if right_pressed {
        d = Some(Dir::Right);
    }
    d = match (left_down, right_down, d) {
        (false, true, Some(Dir::Left)) => Some(Dir::Right),
        (true, false, Some(Dir::Right)) => Some(Dir::Left),
        (false, false, _) => None,
        _ => d,
    };
    let turned = match (d, prev) {
        (None, _) => false,
        (Some(Dir::Left), Some(Dir::Left)) => false,
        (Some(Dir::Right), Some(Dir::Right)) => false,
        _ => true,
    };
    (d, turned)
}

} // verus!
