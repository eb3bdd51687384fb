//! What things collide with: the sides of a box, the entities a thing hits, and what touching
//! an entity on each side does.
use vstd::prelude::*;

verus! {

/// A side of a box.
#[derive(PartialEq, Eq, Structural, Clone, Copy, Debug)]
pub enum Side {
    Top,
    Bot,
    Left,
    Right,
}

/// Which entities a moving thing hits.
#[derive(PartialEq, Eq, Structural, Clone, Copy, Debug)]
pub enum EntityHitKind {
    All,
    AllButCrates,
    AllButCratesNoDamage,
}

/// What touching an entity on one side does: nothing, squishing it (with boots or not), or
/// damage.
#[derive(PartialEq, Eq, Structural, Clone, Copy, Debug)]
pub enum EntityCollision {
    Nothing,
    Squish { boots: bool },
    Damage,
}

/// What touching an entity does on each of its sides.
#[derive(PartialEq, Eq, Structural, Clone, Copy, Debug)]
pub struct EntityCollisionSides {
    pub top: EntityCollision,
    pub bottom: EntityCollision,
    pub left: EntityCollision,
    pub right: EntityCollision,
}

impl EntityCollisionSides {
    /// Touching the entity does nothing on any side.
    pub fn none() -> (res: EntityCollisionSides)
        ensures
            res.top == EntityCollision::Nothing,
            res.bottom == EntityCollision::Nothing,
            res.left == EntityCollision::Nothing,
            res.right == EntityCollision::Nothing,
    {
        EntityCollisionSides {
            top: EntityCollision::Nothing,
            bottom: EntityCollision::Nothing,
            left: EntityCollision::Nothing,
            right: EntityCollision::Nothing,
        }
    }
}

} // verus!
