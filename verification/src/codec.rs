//! The level pack file format, as mathematical functions on byte sequences: what a pack is
//! saved as, and what a sequence of bytes is read as.
use vstd::prelude::*;

use crate::entity::{entity_kind_from_byte, entity_kind_to_byte, EntityKind};
use crate::font::font_typable_char;
use crate::things::{door_kind_from_byte, door_kind_to_byte, DoorKind};
use crate::tile::{tile_from_byte, tile_to_byte, Tile};

verus! {

/// A tile position in a level.
pub type LevelPosition = (u8, u8);

/// The contents of a level: what a level is saved and loaded as.
pub struct LevelModel {
    pub name: Seq<char>,
    pub world: u8,
    pub bg_col: (u8, u8, u8),
    pub width: u8,
    pub height: u8,
    pub tiles: Seq<Tile>,
    pub tiles_bg: Seq<Tile>,
    pub spawn: LevelPosition,
    pub finish: LevelPosition,
    pub checkpoints: Seq<LevelPosition>,
    /// position and four lines
    pub signs: Seq<(LevelPosition, Seq<Seq<char>>)>,
    /// kind, position, destination
    pub doors: Seq<(DoorKind, LevelPosition, LevelPosition)>,
    pub entities: Seq<(LevelPosition, EntityKind)>,
}

/// The contents of a level pack that its file holds.
pub struct PackModel {
    pub name: Seq<char>,
    pub author: Seq<char>,
    pub worlds: Seq<Seq<char>>,
    pub levels: Seq<LevelModel>,
}

/// The bytes every pack file starts with ("jumbledFox rules!").
pub open spec fn checksum_bytes() -> Seq<u8> {
    seq![
        0x6Au8, 0x75, 0x6D, 0x62, 0x6C, 0x65, 0x64, 0x46, 0x6F, 0x78, 0x20, 0x72, 0x75, 0x6C,
        0x65, 0x73, 0x21,
    ]
}

// ---------------------------------------------------------------------------------------
// Saving

/// A text field: 24 bytes, one per character; characters past the 24th are dropped, and a
/// character the font cannot type is written as 255 (which is no character), as is every
/// byte past the end of the text.
pub open spec fn field_bytes(s: Seq<char>, atlas: Seq<char>) -> Seq<u8> {
    Seq::new(
        24,
        |i: int|
            if i < s.len() && font_typable_char(atlas, s[i]) {
                s[i] as u8
            } else {
                255u8
            },
    )
}

pub open spec fn pos_bytes(p: LevelPosition) -> Seq<u8> {
    seq![p.0, p.1]
}

pub open spec fn tiles_bytes(ts: Seq<Tile>) -> Seq<u8>
    decreases ts.len(),
{
    if ts.len() == 0 {
        Seq::empty()
    } else {
        tiles_bytes(ts.drop_last()).push(tile_to_byte(ts.last()))
    }
}

pub open spec fn sign_bytes(s: (LevelPosition, Seq<Seq<char>>), atlas: Seq<char>) -> Seq<u8> {
    field_bytes(s.1[0], atlas) + field_bytes(s.1[1], atlas) + field_bytes(s.1[2], atlas)
        + field_bytes(s.1[3], atlas) + pos_bytes(s.0)
}

pub open spec fn door_bytes(d: (DoorKind, LevelPosition, LevelPosition)) -> Seq<u8> {
    seq![door_kind_to_byte(d.0), d.1.0, d.1.1, d.2.0, d.2.1]
}

pub open spec fn entity_bytes(e: (LevelPosition, EntityKind)) -> Seq<u8> {
    seq![entity_kind_to_byte(e.1), e.0.0, e.0.1]
}

pub open spec fn checkpoints_bytes(cs: Seq<LevelPosition>) -> Seq<u8>
    decreases cs.len(),
{
    if cs.len() == 0 {
        Seq::empty()
    } else {
        checkpoints_bytes(cs.drop_last()) + pos_bytes(cs.last())
    }
}

pub open spec fn signs_bytes(ss: Seq<(LevelPosition, Seq<Seq<char>>)>, atlas: Seq<char>) -> Seq<u8>
    decreases ss.len(),
{
    if ss.len() == 0 {
        Seq::empty()
    } else {
        signs_bytes(ss.drop_last(), atlas) + sign_bytes(ss.last(), atlas)
    }
}

pub open spec fn doors_bytes(ds: Seq<(DoorKind, LevelPosition, LevelPosition)>) -> Seq<u8>
    decreases ds.len(),
{
    if ds.len() == 0 {
        Seq::empty()
    } else {
        doors_bytes(ds.drop_last()) + door_bytes(ds.last())
    }
}

pub open spec fn entities_bytes(es: Seq<(LevelPosition, EntityKind)>) -> Seq<u8>
    decreases es.len(),
{
    if es.len() == 0 {
        Seq::empty()
    } else {
        entities_bytes(es.drop_last()) + entity_bytes(es.last())
    }
}

/// What a level is saved as. The counts of checkpoints, signs, doors and entities are saved
/// as single bytes (their lengths modulo 256).
pub open spec fn level_bytes(l: LevelModel, atlas: Seq<char>) -> Seq<u8> {
    field_bytes(l.name, atlas)
    + seq![l.world, l.bg_col.0, l.bg_col.1, l.bg_col.2, l.width, l.height]
    + tiles_bytes(l.tiles) + tiles_bytes(l.tiles_bg)
    + pos_bytes(l.spawn) + pos_bytes(l.finish)
    + seq![l.checkpoints.len() as u8] + checkpoints_bytes(l.checkpoints)
    + seq![l.signs.len() as u8] + signs_bytes(l.signs, atlas)
    + seq![l.doors.len() as u8] + doors_bytes(l.doors)
    + seq![l.entities.len() as u8] + entities_bytes(l.entities)
}

pub open spec fn worlds_bytes(ws: Seq<Seq<char>>, atlas: Seq<char>) -> Seq<u8>
    decreases ws.len(),
{
    if ws.len() == 0 {
        Seq::empty()
    } else {
        worlds_bytes(ws.drop_last(), atlas) + field_bytes(ws.last(), atlas)
    }
}

pub open spec fn levels_bytes(ls: Seq<LevelModel>, atlas: Seq<char>) -> Seq<u8>
    decreases ls.len(),
{
    if ls.len() == 0 {
        Seq::empty()
    } else {
        levels_bytes(ls.drop_last(), atlas) + level_bytes(ls.last(), atlas)
    }
}

/// What a level pack is saved as.
pub open spec fn pack_bytes(p: PackModel, atlas: Seq<char>) -> Seq<u8> {
    checksum_bytes() + field_bytes(p.name, atlas) + field_bytes(p.author, atlas)
        + seq![p.worlds.len() as u8] + worlds_bytes(p.worlds, atlas)
        + levels_bytes(p.levels, atlas)
}

// ---------------------------------------------------------------------------------------
// Loading

pub open spec fn byte_at(b: Seq<u8>, i: int) -> Option<u8> {
    if 0 <= i < b.len() {
        Some(b[i])
    } else {
        None
    }
}

/// Reading a text field of at most `max` characters starting at `i`: it ends at a 255 byte or
/// after `max` characters; it fails if a byte is missing or names a character the font
/// cannot type.
pub open spec fn parse_field(b: Seq<u8>, i: int, max: nat, atlas: Seq<char>) -> Option<Seq<char>>
    decreases max,
{
    if max == 0 {
        Some(Seq::empty())
    } else {
        match byte_at(b, i) {
            None => None,
            Some(x) => if x == 255 {
                Some(Seq::empty())
            } else if !font_typable_char(atlas, x as char) {
                None
            } else {
                match parse_field(b, i + 1, (max - 1) as nat, atlas) {
                    Some(rest) => Some(seq![x as char] + rest),
                    None => None,
                }
            },
        }
    }
}

/// Reading `n` records of `size` bytes each, the first at `start`, with `f` reading one
/// record at a position; fails as soon as one record fails.
pub open spec fn parse_records<T>(start: int, n: nat, size: int, f: spec_fn(int) -> Option<T>) -> Option<Seq<T>>
    decreases n,
{
    if n == 0 {
        Some(Seq::empty())
    } else {
        match parse_records(start, (n - 1) as nat, size, f) {
            None => None,
            Some(xs) => match f(start + (n - 1) * size) {
                None => None,
                Some(x) => Some(xs.push(x)),
            },
        }
    }
}

/// Once reading some records fails, reading more of them fails too.
pub proof fn lemma_parse_records_stays_none<T>(start: int, i: nat, n: nat, size: int, f: spec_fn(int) -> Option<T>)
    requires
        i <= n,
        parse_records(start, i, size, f) is None,
    ensures
        parse_records(start, n, size, f) is None,
    decreases n,
{
    if n > i {
        lemma_parse_records_stays_none(start, i, (n - 1) as nat, size, f);
    }
}

/// If the record after the first `i` cannot be read, then no more than `i` records can be.
pub proof fn lemma_parse_records_fails_at<T>(start: int, i: nat, n: nat, size: int, f: spec_fn(int) -> Option<T>)
    requires
        i < n,
        parse_records(start, i, size, f) is Some,
        f(start + i * size) is None,
    ensures
        parse_records(start, n, size, f) is None,
{
    let j = (i + 1) as nat;
    assert((j - 1) as nat == i);
    assert(parse_records(start, j, size, f) is None);
    lemma_parse_records_stays_none(start, j, n, size, f);
}

pub open spec fn tile_at(b: Seq<u8>, i: int) -> Option<Tile> {
    match byte_at(b, i) {
        Some(x) => tile_from_byte(x),
        None => None,
    }
}

pub open spec fn pos_at(b: Seq<u8>, i: int) -> Option<LevelPosition> {
    match (byte_at(b, i), byte_at(b, i + 1)) {
        (Some(x), Some(y)) => Some((x, y)),
        _ => None,
    }
}

/// A sign: four text fields of up to 24 characters, then its position.
pub open spec fn sign_at(b: Seq<u8>, i: int, atlas: Seq<char>) -> Option<(LevelPosition, Seq<Seq<char>>)> {
    match (
        parse_field(b, i, 24, atlas),
        parse_field(b, i + 24, 24, atlas),
        parse_field(b, i + 48, 24, atlas),
        parse_field(b, i + 72, 24, atlas),
        pos_at(b, i + 96),
    ) {
        (Some(l0), Some(l1), Some(l2), Some(l3), Some(p)) => Some((p, seq![l0, l1, l2, l3])),
        _ => None,
    }
}

/// A door: its kind, position and destination.
pub open spec fn door_at(b: Seq<u8>, i: int) -> Option<(DoorKind, LevelPosition, LevelPosition)> {
    match (byte_at(b, i), pos_at(b, i + 1), pos_at(b, i + 3)) {
        (Some(k), Some(p), Some(d)) => match door_kind_from_byte(k) {
            Some(kind) => Some((kind, p, d)),
            None => None,
        },
        _ => None,
    }
}

/// An entity: its kind, then its position.
pub open spec fn entity_at(b: Seq<u8>, i: int) -> Option<(LevelPosition, EntityKind)> {
    match (byte_at(b, i), pos_at(b, i + 1)) {
        (Some(k), Some(p)) => match entity_kind_from_byte(k) {
            Some(kind) => Some((p, kind)),
            None => None,
        },
        _ => None,
    }
}

pub open spec fn tile_reader(b: Seq<u8>) -> spec_fn(int) -> Option<Tile> {
    |i: int| tile_at(b, i)
}

pub open spec fn pos_reader(b: Seq<u8>) -> spec_fn(int) -> Option<LevelPosition> {
    |i: int| pos_at(b, i)
}

pub open spec fn sign_reader(b: Seq<u8>, atlas: Seq<char>) -> spec_fn(int) -> Option<(LevelPosition, Seq<Seq<char>>)> {
    |i: int| sign_at(b, i, atlas)
}

pub open spec fn door_reader(b: Seq<u8>) -> spec_fn(int) -> Option<(DoorKind, LevelPosition, LevelPosition)> {
    |i: int| door_at(b, i)
}

pub open spec fn entity_reader(b: Seq<u8>) -> spec_fn(int) -> Option<(LevelPosition, EntityKind)> {
    |i: int| entity_at(b, i)
}

pub open spec fn world_reader(b: Seq<u8>, atlas: Seq<char>) -> spec_fn(int) -> Option<Seq<char>> {
    |i: int| parse_field(b, i, 22, atlas)
}

/// The most signs a level may hold.
pub open spec fn spec_max_signs() -> nat {
    64
}

/// The part of a level after its tiles and spawn and finish: checkpoints, signs, doors and
/// entities, each preceded by its count; `c` is the position of the checkpoint count.
pub open spec fn parse_level_things(b: Seq<u8>, c: int, atlas: Seq<char>) -> Option<
    (Seq<LevelPosition>, Seq<(LevelPosition, Seq<Seq<char>>)>, Seq<(DoorKind, LevelPosition, LevelPosition)>, Seq<(LevelPosition, EntityKind)>, int),
> {
    match byte_at(b, c) {
        None => None,
        Some(ncp) => {
            let c1 = c + 1;
            match (parse_records(c1, ncp as nat, 2, pos_reader(b)), byte_at(b, c1 + 2 * ncp)) {
                (Some(cps), Some(ns)) => if ns > spec_max_signs() {
                    None
                } else {
                    let c2 = c1 + 2 * ncp + 1;
                    match (
                        parse_records(c2, ns as nat, 98, sign_reader(b, atlas)),
                        byte_at(b, c2 + 98 * ns),
                    ) {
                        (Some(signs), Some(nd)) => {
                            let c3 = c2 + 98 * ns + 1;
                            match (parse_records(c3, nd as nat, 5, door_reader(b)), byte_at(b, c3 + 5 * nd)) {
                                (Some(doors), Some(ne)) => {
                                    let c4 = c3 + 5 * nd + 1;
                                    match parse_records(c4, ne as nat, 3, entity_reader(b)) {
                                        Some(ents) => Some((cps, signs, doors, ents, c4 + 3 * ne)),
                                        None => None,
                                    }
                                },
                                _ => None,
                            }
                        },
                        _ => None,
                    }
                },
                _ => None,
            }
        },
    }
}

/// Reading a level that starts at `c`: the level and the position just after it.
pub open spec fn parse_level(b: Seq<u8>, c: int, atlas: Seq<char>) -> Option<(LevelModel, int)> {
    let h = c + 24;
    match (
        parse_field(b, c, 22, atlas),
        byte_at(b, h),
        byte_at(b, h + 1),
        byte_at(b, h + 2),
        byte_at(b, h + 3),
        byte_at(b, h + 4),
        byte_at(b, h + 5),
    ) {
        (Some(name), Some(world), Some(r), Some(g), Some(bl), Some(w), Some(ht)) => {
            let n = (w as nat) * (ht as nat);
            let t = h + 6;
            match (
                parse_records(t, n, 1, tile_reader(b)),
                parse_records(t + n, n, 1, tile_reader(b)),
                pos_at(b, t + 2 * n),
                pos_at(b, t + 2 * n + 2),
            ) {
                (Some(tiles), Some(tiles_bg), Some(spawn), Some(finish)) => match parse_level_things(
                    b,
                    t + 2 * n + 4,
                    atlas,
                ) {
                    Some((checkpoints, signs, doors, entities, e)) => Some(
                        (
                            LevelModel {
                                name,
                                world,
                                bg_col: (r, g, bl),
                                width: w,
                                height: ht,
                                tiles,
                                tiles_bg,
                                spawn,
                                finish,
                                checkpoints,
                                signs,
                                doors,
                                entities,
                            },
                            e,
                        ),
                    ),
                    None => None,
                },
                _ => None,
            }
        },
        _ => None,
    }
}

/// Reading levels one after another from `c` until the end of the bytes, stopping at the
/// first one that cannot be read.
pub open spec fn parse_levels(b: Seq<u8>, c: int, atlas: Seq<char>) -> Seq<LevelModel>
    decreases b.len() - c,
{
    if c < 0 || c >= b.len() {
        Seq::empty()
    } else {
        match parse_level(b, c, atlas) {
            None => Seq::empty(),
            Some((l, e)) => if c < e {
                seq![l] + parse_levels(b, e, atlas)
            } else {
                seq![l]
            },
        }
    }
}

/// When some records are read, the last of them is.
pub proof fn lemma_parse_records_last<T>(start: int, n: nat, size: int, f: spec_fn(int) -> Option<T>)
    requires
        n > 0,
        parse_records(start, n, size, f) is Some,
    ensures
        f(start + (n - 1) * size) is Some,
{
}

/// A level that can be read ends after it starts and within the bytes.
pub proof fn lemma_parse_level_advances(b: Seq<u8>, c: int, atlas: Seq<char>)
    requires
        c >= 0,
        parse_level(b, c, atlas) is Some,
    ensures
        c < parse_level(b, c, atlas).unwrap().1 <= b.len(),
{
    let h = c + 24;
    let w = b[h + 4];
    let ht = b[h + 5];
    let n = (w as nat) * (ht as nat);
    let t = h + 6;
    let c0 = t + 2 * n + 4;
    let ncp = b[c0];
    let c1 = c0 + 1;
    let ns = b[c1 + 2 * ncp];
    let c2 = c1 + 2 * ncp + 1;
    let nd = b[c2 + 98 * ns];
    let c3 = c2 + 98 * ns + 1;
    let ne = b[c3 + 5 * nd];
    let c4 = c3 + 5 * nd + 1;
    assert(parse_level_things(b, c0, atlas) is Some);
    assert(byte_at(b, c3 + 5 * nd) is Some);
    if ne > 0 {
        lemma_parse_records_last(c4, ne as nat, 3, entity_reader(b));
        assert(entity_at(b, c4 + (ne - 1) * 3) is Some);
        assert(pos_at(b, c4 + (ne - 1) * 3 + 1) is Some);
        assert(byte_at(b, c4 + (ne - 1) * 3 + 2) is Some);
    }
}

/// The most levels a pack may hold.
pub open spec fn spec_max_levels() -> nat {
    99
}

/// Reading a whole pack file.
pub open spec fn parse_pack(b: Seq<u8>, atlas: Seq<char>) -> Option<PackModel> {
    if b.len() < 17 || b.subrange(0, 17) != checksum_bytes() {
        None
    } else {
        match (parse_field(b, 17, 22, atlas), parse_field(b, 41, 22, atlas), byte_at(b, 65)) {
            (Some(name), Some(author), Some(wc)) => match parse_records(66, wc as nat, 24, world_reader(b, atlas)) {
                Some(worlds) => {
                    let levels = parse_levels(b, 66 + 24 * wc, atlas);
                    if levels.len() == 0 || levels.len() > spec_max_levels() {
                        None
                    } else {
                        Some(PackModel { name, author, worlds, levels })
                    }
                },
                None => None,
            },
            _ => None,
        }
    }
}

/// The two tile grids of a level hold `width * height` tiles each.
pub open spec fn level_grids_ok(l: LevelModel) -> bool {
    &&& l.tiles.len() == (l.width as int) * (l.height as int)
    &&& l.tiles_bg.len() == (l.width as int) * (l.height as int)
}

/// The tile grids of every level of a pack hold `width * height` tiles each.
pub open spec fn pack_grids_ok(p: PackModel) -> bool {
    forall|i: int| 0 <= i < p.levels.len() ==> level_grids_ok(#[trigger] p.levels[i])
}

/// Reading `n` records gives `n` records.
pub proof fn lemma_parse_records_len<T>(start: int, n: nat, size: int, f: spec_fn(int) -> Option<T>)
    requires
        parse_records(start, n, size, f) is Some,
    ensures
        parse_records(start, n, size, f).unwrap().len() == n,
    decreases n,
{
    if n > 0 {
        lemma_parse_records_len(start, (n - 1) as nat, size, f);
    }
}

/// A level that is read has full tile grids.
pub proof fn lemma_parse_level_grids(b: Seq<u8>, c: int, atlas: Seq<char>)
    requires
        parse_level(b, c, atlas) is Some,
    ensures
        level_grids_ok(parse_level(b, c, atlas).unwrap().0),
{
    let h = c + 24;
    let w = b[h + 4];
    let ht = b[h + 5];
    let n = (w as nat) * (ht as nat);
    let t = h + 6;
    lemma_parse_records_len(t, n, 1, tile_reader(b));
    lemma_parse_records_len(t + n, n, 1, tile_reader(b));
}

/// Every level read one after another has full tile grids.
pub proof fn lemma_parse_levels_grids(b: Seq<u8>, c: int, atlas: Seq<char>)
    ensures
        forall|i: int| 0 <= i < parse_levels(b, c, atlas).len() ==> level_grids_ok(#[trigger] parse_levels(b, c, atlas)[i]),
    decreases b.len() - c,
{
    if c < 0 || c >= b.len() {
    } else {
        match parse_level(b, c, atlas) {
            None => {},
            Some((l, e)) => {
                lemma_parse_level_grids(b, c, atlas);
                if c < e {
                    lemma_parse_level_advances(b, c, atlas);
                    lemma_parse_levels_grids(b, e, atlas);
                    let rest = parse_levels(b, e, atlas);
                    assert forall|i: int| 0 <= i < parse_levels(b, c, atlas).len() implies level_grids_ok(
                        #[trigger] parse_levels(b, c, atlas)[i],
                    ) by {
                        if i > 0 {
                            assert(parse_levels(b, c, atlas)[i] == rest[i - 1]);
                        }
                    }
                }
            },
        }
    }
}

/// Every level of a pack that is read has full tile grids.
pub proof fn lemma_parse_pack_grids(b: Seq<u8>, atlas: Seq<char>)
    requires
        parse_pack(b, atlas) is Some,
    ensures
        pack_grids_ok(parse_pack(b, atlas).unwrap()),
{
    let wc = b[65];
    lemma_parse_levels_grids(b, 66 + 24 * wc, atlas);
}

} // verus!
