//! Playing through a level pack: which level is next, the lives and chips carried between
//! levels, and the powerups the player keeps.
use vstd::prelude::*;

use crate::level_pack_data::LevelPackData;
use crate::player_kinds::{FeetPowerup, HeadPowerup};

verus! {

/// What a finished transition leads to.
#[derive(PartialEq, Eq, Structural, Clone, Copy, Debug)]
pub enum TransitionAction {
    Finish,
    Intro,
    Death,
    GameOver,
}

/// What the game does after a frame of a level: a completed level is finished; the player
/// never dies from it here, so nothing else happens.
pub open spec fn spec_next_action(completed: bool) -> Option<TransitionAction> {
    if completed {
        Some(TransitionAction::Finish)
    } else {
        None
    }
}

/// What the game does after a frame of a level (see `spec_next_action`).
pub fn next_action(completed: bool) -> (res: Option<TransitionAction>)
    ensures
        res == spec_next_action(completed),
{
    if completed {
        Some(TransitionAction::Finish)
    } else {
        None
    }
}

/// How far the player is through a pack.
pub struct GameProgress {
    current_level: usize,
    lives: usize,
    chips: usize,
    prev_chips: usize,
    next_head: Option<HeadPowerup>,
    next_feet: Option<FeetPowerup>,
}

/// How far the player is through a pack, as a model.
pub struct GameProgressModel {
    /// the index of the level being played or next to play
    pub current_level: int,
    pub lives: int,
    /// the chips collected in finished levels
    pub chips: int,
    /// the chips collected in the level just finished, counted at the next level's start
    pub prev_chips: int,
    /// the powerups the player starts the next level with
    pub next_head: Option<HeadPowerup>,
    pub next_feet: Option<FeetPowerup>,
}

impl View for GameProgress {
    type V = GameProgressModel;

    closed spec fn view(&self) -> GameProgressModel {
        GameProgressModel {
            current_level: self.current_level as int,
            lives: self.lives as int,
            chips: self.chips as int,
            prev_chips: self.prev_chips as int,
            next_head: self.next_head,
            next_feet: self.next_feet,
        }
    }
}

/// The index of the first level in world `world`, or 0 when none is.
pub open spec fn first_level_of_world(worlds: Seq<u8>, world: u8) -> int {
    if exists|i: int| 0 <= i < worlds.len() && worlds[i] == world {
        choose|i: int| 0 <= i < worlds.len() && worlds[i] == world && forall|j: int| 0 <= j < i ==> worlds[j] != world
    } else {
        0
    }
}

impl GameProgress {
    /// The first level, three lives, no chips and no powerups.
    pub fn new() -> (res: GameProgress)
        ensures
            res@ == (GameProgressModel {
                current_level: 0,
                lives: 3,
                chips: 0,
                prev_chips: 0,
                next_head: None,
                next_feet: None,
            }),
    {
        GameProgress { current_level: 0, lives: 3, chips: 0, prev_chips: 0, next_head: None, next_feet: None }
    }

    pub fn current_level(&self) -> (res: usize)
        ensures
            res == self@.current_level,
    {
        self.current_level
    }

    pub fn lives(&self) -> (res: usize)
        ensures
            res == self@.lives,
    {
        self.lives
    }

    /// The lives, to be changed while a level is played.
    pub fn lives_mut(&mut self) -> (res: &mut usize)
        ensures
            *res == old(self)@.lives,
            final(self)@ == (GameProgressModel { lives: *final(res) as int, ..old(self)@ }),
    {
        &mut self.lives
    }

    pub fn chips(&self) -> (res: usize)
        ensures
            res == self@.chips,
    {
        self.chips
    }

    /// Starts the next level: the chips of the level just finished are counted, and the
    /// powerups kept are handed over to the new level (and forgotten here).
    pub fn intro(&mut self) -> (res: (Option<HeadPowerup>, Option<FeetPowerup>))
        requires
            old(self)@.chips + old(self)@.prev_chips <= usize::MAX,
        ensures
            res == (old(self)@.next_head, old(self)@.next_feet),
            final(self)@ == (GameProgressModel {
                chips: old(self)@.chips + old(self)@.prev_chips,
                prev_chips: 0,
                next_head: None,
                next_feet: None,
                ..old(self)@
            }),
    {
        self.chips = self.chips + self.prev_chips;
        self.prev_chips = 0;
        let head = self.next_head.take();
        let feet = self.next_feet.take();
        (head, feet)
    }

    /// Finishes the level: the next one comes, with the powerups the player wore and the chips
    /// the player collected.
    pub fn finish(&mut self, head: Option<HeadPowerup>, feet: Option<FeetPowerup>, level_chips: usize)
        requires
            old(self)@.current_level < usize::MAX,
        ensures
            final(self)@ == (GameProgressModel {
                current_level: old(self)@.current_level + 1,
                next_head: head,
                next_feet: feet,
                prev_chips: level_chips as int,
                ..old(self)@
            }),
    {
        self.current_level = self.current_level + 1;
        self.next_head = head;
        self.next_feet = feet;
        self.prev_chips = level_chips;
    }

    /// Goes back to the first level of the world of the level being played (when there is
    /// one).
    pub fn game_over(&mut self, pack: &LevelPackData)
        ensures
            ({
                let worlds = pack@.levels.map_values(|l: crate::codec::LevelModel| l.world);
                final(self)@ == (GameProgressModel {
                    current_level: if old(self)@.current_level < pack@.levels.len() {
                        first_level_of_world(worlds, pack@.levels[old(self)@.current_level].world)
                    } else {
                        old(self)@.current_level
                    },
                    ..old(self)@
                })
            }),
    {
        let ghost worlds = pack@.levels.map_values(|l: crate::codec::LevelModel| l.world);
        let levels = pack.levels();
        if self.current_level < levels.len() {
            let world = levels[self.current_level].world();
            assert(pack@.levels[self.current_level as int] == levels@[self.current_level as int]@);
            let first = pack.first_level_in_world(world);
            proof {
                let w = pack@.levels[self.current_level as int].world;
                assert(worlds[self.current_level as int] == w);
                assert(exists|i: int| 0 <= i < worlds.len() && worlds[i] == w);
                assert(exists|i: int| 0 <= i < pack@.levels.len() && pack@.levels[i].world == w) by {
                    assert(pack@.levels[self.current_level as int].world == w);
                }
                let c = choose|i: int| 0 <= i < worlds.len() && worlds[i] == w && forall|j: int| 0 <= j < i ==> worlds[j] != w;
                assert(0 <= first < worlds.len() && worlds[first as int] == w && forall|j: int| 0 <= j < first ==> worlds[j] != w) by {
                    assert(worlds[first as int] == pack@.levels[first as int].world);
                    assert forall|j: int| 0 <= j < first implies worlds[j] != w by {
                        assert(worlds[j] == pack@.levels[j].world);
                    }
                }
                assert(exists|i: int| 0 <= i < worlds.len() && worlds[i] == w && forall|j: int| 0 <= j < i ==> worlds[j] != w);
                assert(0 <= c < worlds.len() && worlds[c] == w && forall|j: int| 0 <= j < c ==> worlds[j] != w);
                if c < first {
                    assert(worlds[c] != w);
                } else if first < c {
                    assert(worlds[first as int] != w);
                }
            }
            self.current_level = first;
        }
    }

    /// Whether every level of the pack has been played.
    pub fn pack_completed(&self, pack: &LevelPackData) -> (res: bool)
        ensures
            res == (self@.current_level >= pack@.levels.len()),
    {
        self.current_level >= pack.levels().len()
    }
}

} // verus!
