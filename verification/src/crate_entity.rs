//! What a crate holds: the entities that fly out when it breaks.
use vstd::prelude::*;

use crate::entity::{CrateKind, EntityKind};

verus! {

/// A random number from `low` up to but not including `high`
/// (`macroquad::rand::gen_range` on `usize`: a random `u32` `k` gives
/// `low + (high - low) * k / 2^32` in `f64`, cut to a whole number). Only that the number lies
/// in the range is claimed, and only for `high` at most 2^16: there the sum needs at most 48
/// bits and `f64` holds it exactly, so it stays below `high`.
#[verifier::external_body]
fn gen_range_usize(low: usize, high: usize) -> (res: usize)
    requires
        low < high,
        high <= 0x10000,
    ensures
        low <= res < high,
{
    macroquad::rand::gen_range::<usize>(low, high)
}

/// `n` copies of an entity kind.
pub open spec fn copies(k: EntityKind, n: nat) -> Seq<EntityKind> {
    Seq::new(n, |i: int| k)
}

/// The entities a crate of `kind` holds, with `n` the number of chips or frogs that a crate
/// holding several of them gives: a key crate its key; a single-frog crate one frog; a
/// multi-frog crate `n` frogs; a powerup crate `n` chips and then its powerup; a chip crate one
/// chip; a large chip crate `n` chips; a life crate a life and then `n` chips; an explosive
/// crate nothing. What flies out is dropped, so falls, and can be hurt.
pub open spec fn spec_crate_contents(kind: CrateKind, n: nat) -> Seq<EntityKind> {
    match kind {
        CrateKind::Key(c) => seq![EntityKind::Key(c)],
        CrateKind::Frog(false) => seq![EntityKind::Frog(true)],
        CrateKind::Frog(true) => copies(EntityKind::Frog(true), n),
        CrateKind::Powerup(p) => copies(EntityKind::Chip(true), n).push(EntityKind::Powerup(p, true, false)),
        CrateKind::Chip(false) => seq![EntityKind::Chip(true)],
        CrateKind::Chip(true) => copies(EntityKind::Chip(true), n),
        CrateKind::Life => seq![EntityKind::Life(true)] + copies(EntityKind::Chip(true), n),
        CrateKind::Explosive => Seq::empty(),
    }
}

/// The range the number of chips or frogs of a crate is drawn from: 2 frogs for a multi-frog
/// crate, and 2 or 3 chips for the others.
pub open spec fn count_range(kind: CrateKind) -> (usize, usize) {
    match kind {
        CrateKind::Frog(true) => (2, 3),
        _ => (2, 4),
    }
}

/// Pushes `n` copies of `k`.
fn push_copies(v: &mut Vec<EntityKind>, k: EntityKind, n: usize)
    ensures
        final(v)@ == old(v)@ + copies(k, n as nat),
{
    let ghost start = v@;
    let mut i: usize = 0;
    while i < n
        invariant
            i <= n,
            v@ == start + copies(k, i as nat),
        decreases n - i,
    {
        v.push(k);
        i += 1;
        assert(v@ =~= start + copies(k, i as nat));
    }
}

/// The entities a crate of `kind` holds, given the number `n` of chips or frogs (see
/// `spec_crate_contents`).
pub fn crate_contents(kind: CrateKind, n: usize) -> (res: Vec<EntityKind>)
    ensures
        res@ == spec_crate_contents(kind, n as nat),
{
    let mut v: Vec<EntityKind> = Vec::new();
    match kind {
        CrateKind::Key(c) => v.push(EntityKind::Key(c)),
        CrateKind::Frog(false) => v.push(EntityKind::Frog(true)),
        CrateKind::Frog(true) => push_copies(&mut v, EntityKind::Frog(true), n),
        CrateKind::Powerup(p) => {
            push_copies(&mut v, EntityKind::Chip(true), n);
            v.push(EntityKind::Powerup(p, true, false));
        },
        CrateKind::Chip(false) => v.push(EntityKind::Chip(true)),
        CrateKind::Chip(true) => push_copies(&mut v, EntityKind::Chip(true), n),
        CrateKind::Life => {
            v.push(EntityKind::Life(true));
            push_copies(&mut v, EntityKind::Chip(true), n);
        },
        CrateKind::Explosive => {},
    }
    proof {
        if kind is Key || kind == CrateKind::Frog(false) || kind == CrateKind::Chip(false) || kind is Explosive {
            assert(v@ =~= spec_crate_contents(kind, n as nat));
        }
        assert(v@ =~= spec_crate_contents(kind, n as nat));
    }
    v
}

/// The entities a breaking crate of `kind` lets out, the number of chips or frogs drawn at
/// random from its range (see `count_range`).
pub fn roll_crate_contents(kind: CrateKind) -> (res: Vec<EntityKind>)
    ensures
        exists|n: nat| count_range(kind).0 <= n < count_range(kind).1 && res@ == spec_crate_contents(kind, n),
{
    let (low, high) = match kind {
        CrateKind::Frog(true) => (2usize, 3usize),
        _ => (2usize, 4usize),
    };
    let n = gen_range_usize(low, high);
    let res = crate_contents(kind, n);
    assert(count_range(kind).0 <= n as nat && (n as nat) < count_range(kind).1 && res@ == spec_crate_contents(kind, n as nat));
    res
}

} // verus!
