//! Saving a well-formed level pack and loading the bytes gives the pack back.
use vstd::prelude::*;

use crate::codec::{
    byte_at, checkpoints_bytes, checksum_bytes, door_at, door_bytes, door_reader, doors_bytes,
    entities_bytes, entity_at, entity_bytes, entity_reader, field_bytes, level_bytes,
    levels_bytes, pack_bytes, parse_field, parse_level, parse_level_things, parse_levels,
    parse_pack, parse_records, pos_at, pos_bytes, pos_reader, sign_at, sign_bytes, sign_reader,
    signs_bytes, tile_at, tile_reader, tiles_bytes, world_reader, worlds_bytes, LevelModel,
    LevelPosition, PackModel,
};
use crate::entity::{
    entity_kind_from_byte, entity_kind_is_canonical, entity_kind_to_byte, lemma_entity_kind_roundtrip,
    EntityKind,
};
use crate::font::font_typable_char;
use crate::things::{door_kind_from_byte, door_kind_to_byte, lemma_door_kind_roundtrip, DoorKind};
use crate::tile::{lemma_tile_byte_roundtrip, tile_from_byte, tile_is_canonical, tile_to_byte, Tile};

verus! {

/// A text that is saved and loaded unchanged from a field read with at most `max`
/// characters: no longer than `max`, and made of characters the font can type, none of them
/// the null character.
pub open spec fn text_ok(s: Seq<char>, max: nat, atlas: Seq<char>) -> bool {
    &&& s.len() <= max
    &&& forall|i: int| 0 <= i < s.len() ==> font_typable_char(atlas, #[trigger] s[i]) && s[i] != '\0'
}

/// A sign whose four lines are saved and loaded unchanged.
pub open spec fn sign_ok(s: (LevelPosition, Seq<Seq<char>>), atlas: Seq<char>) -> bool {
    &&& s.1.len() == 4
    &&& forall|i: int| 0 <= i < 4 ==> text_ok(#[trigger] s.1[i], 24, atlas)
}

/// A level that is saved and loaded unchanged: a name of at most 22 typable characters,
/// `width * height` tiles in each layer, tiles and entity kinds that survive saving, at most
/// 255 checkpoints, doors and entities and at most 64 signs, whose lines are typable and at most
/// 24 characters long.
pub open spec fn level_ok(l: LevelModel, atlas: Seq<char>) -> bool {
    &&& text_ok(l.name, 22, atlas)
    &&& l.tiles.len() == (l.width as nat) * (l.height as nat)
    &&& l.tiles_bg.len() == (l.width as nat) * (l.height as nat)
    &&& forall|i: int| 0 <= i < l.tiles.len() ==> tile_is_canonical(#[trigger] l.tiles[i])
    &&& forall|i: int| 0 <= i < l.tiles_bg.len() ==> tile_is_canonical(#[trigger] l.tiles_bg[i])
    &&& l.checkpoints.len() <= 255
    &&& l.signs.len() <= 64
    &&& forall|i: int| 0 <= i < l.signs.len() ==> sign_ok(#[trigger] l.signs[i], atlas)
    &&& l.doors.len() <= 255
    &&& l.entities.len() <= 255
    &&& forall|i: int| 0 <= i < l.entities.len() ==> entity_kind_is_canonical(#[trigger] l.entities[i].1)
}

/// A pack that is saved and loaded unchanged: a name and author of at most 22 typable
/// characters, at most 255 worlds named likewise, and from 1 to 99 such levels.
pub open spec fn pack_ok(p: PackModel, atlas: Seq<char>) -> bool {
    &&& text_ok(p.name, 22, atlas)
    &&& text_ok(p.author, 22, atlas)
    &&& p.worlds.len() <= 255
    &&& forall|i: int| 0 <= i < p.worlds.len() ==> text_ok(#[trigger] p.worlds[i], 22, atlas)
    &&& 1 <= p.levels.len() <= 99
    &&& forall|i: int| 0 <= i < p.levels.len() ==> level_ok(#[trigger] p.levels[i], atlas)
}

/// `e` stands in `b` from position `i` on.
pub open spec fn occurs_at(b: Seq<u8>, i: int, e: Seq<u8>) -> bool {
    &&& 0 <= i
    &&& i + e.len() <= b.len()
    &&& b.subrange(i, i + e.len()) == e
}

proof fn lemma_occurs_split(b: Seq<u8>, i: int, x: Seq<u8>, y: Seq<u8>)
    requires
        occurs_at(b, i, x + y),
    ensures
        occurs_at(b, i, x),
        occurs_at(b, i + x.len(), y),
{
    let whole = b.subrange(i, i + (x + y).len());
    assert forall|k: int| 0 <= k < x.len() implies #[trigger] b.subrange(i, i + x.len())[k] == x[k] by {
        assert(whole[k] == b[i + k]);
        assert((x + y)[k] == x[k]);
    }
    assert(b.subrange(i, i + x.len()) =~= x);
    assert forall|k: int| 0 <= k < y.len() implies #[trigger] b.subrange(i + x.len(), i + x.len() + y.len())[k] == y[k] by {
        assert(whole[x.len() + k] == b[i + x.len() + k]);
        assert((x + y)[x.len() + k] == y[k]);
    }
    assert(b.subrange(i + x.len(), i + x.len() + y.len()) =~= y);
}

proof fn lemma_occurs_byte(b: Seq<u8>, i: int, e: Seq<u8>, k: int)
    requires
        occurs_at(b, i, e),
        0 <= k < e.len(),
    ensures
        byte_at(b, i + k) == Some(e[k]),
{
    assert(b.subrange(i, i + e.len())[k] == b[i + k]);
}

proof fn lemma_ascii_char_byte(c: char)
    requires
        (c as u32) < 128,
    ensures
        (c as u8) as char == c,
        (c as u8) as u32 == c as u32,
{
}

/// Reading a field that holds `s` from its `k`-th character on gives the rest of `s`.
proof fn lemma_field_rest(b: Seq<u8>, i: int, s: Seq<char>, max: nat, k: int, atlas: Seq<char>)
    requires
        occurs_at(b, i, field_bytes(s, atlas)),
        text_ok(s, max, atlas),
        max <= 24,
        0 <= k <= s.len(),
    ensures
        parse_field(b, i + k, (max - k) as nat, atlas) == Some(s.subrange(k, s.len() as int)),
    decreases s.len() - k,
{
    let f = field_bytes(s, atlas);
    if k == s.len() {
        assert(s.subrange(k, s.len() as int) =~= Seq::<char>::empty());
        if max - k > 0 {
            lemma_occurs_byte(b, i, f, k);
        }
    } else {
        lemma_field_rest(b, i, s, max, k + 1, atlas);
        lemma_occurs_byte(b, i, f, k);
        let c = s[k];
        assert(font_typable_char(atlas, c) && c != '\0');
        lemma_ascii_char_byte(c);
        assert(f[k] == c as u8);
        assert(((max - k) - 1) as nat == (max - (k + 1)) as nat);
        assert(seq![c] + s.subrange(k + 1, s.len() as int) =~= s.subrange(k, s.len() as int));
    }
}

/// A saved text field is read back as the text.
pub proof fn lemma_field_roundtrip(b: Seq<u8>, i: int, s: Seq<char>, max: nat, atlas: Seq<char>)
    requires
        occurs_at(b, i, field_bytes(s, atlas)),
        text_ok(s, max, atlas),
        max <= 24,
    ensures
        parse_field(b, i, max, atlas) == Some(s),
{
    lemma_field_rest(b, i, s, max, 0, atlas);
    assert(s.subrange(0, s.len() as int) =~= s);
}

proof fn lemma_tiles_roundtrip(b: Seq<u8>, start: int, ts: Seq<Tile>)
    requires
        occurs_at(b, start, tiles_bytes(ts)),
        forall|i: int| 0 <= i < ts.len() ==> tile_is_canonical(#[trigger] ts[i]),
    ensures
        tiles_bytes(ts).len() == ts.len(),
        parse_records(start, ts.len(), 1, tile_reader(b)) == Some(ts),
    decreases ts.len(),
{
    if ts.len() > 0 {
        let init = ts.drop_last();
        let t = ts.last();
        assert(tiles_bytes(ts) =~= tiles_bytes(init) + seq![tile_to_byte(t)]);
        lemma_occurs_split(b, start, tiles_bytes(init), seq![tile_to_byte(t)]);
        assert forall|i: int| 0 <= i < init.len() implies tile_is_canonical(#[trigger] init[i]) by {
            assert(init[i] == ts[i]);
        }
        lemma_tiles_roundtrip(b, start, init);
        lemma_occurs_byte(b, start + init.len(), seq![tile_to_byte(t)], 0);
        lemma_tile_byte_roundtrip(t);
        assert(tile_is_canonical(ts[ts.len() - 1]));
        assert(tile_at(b, start + init.len()) == Some(t));
        assert((ts.len() - 1) as nat == init.len());
        assert(init.push(t) =~= ts);
    } else {
        assert(tiles_bytes(ts) =~= Seq::<u8>::empty());
    }
}

proof fn lemma_pos_roundtrip(b: Seq<u8>, i: int, p: LevelPosition)
    requires
        occurs_at(b, i, pos_bytes(p)),
    ensures
        pos_at(b, i) == Some(p),
{
    lemma_occurs_byte(b, i, pos_bytes(p), 0);
    lemma_occurs_byte(b, i, pos_bytes(p), 1);
}

proof fn lemma_checkpoints_roundtrip(b: Seq<u8>, start: int, cs: Seq<LevelPosition>)
    requires
        occurs_at(b, start, checkpoints_bytes(cs)),
    ensures
        checkpoints_bytes(cs).len() == 2 * cs.len(),
        parse_records(start, cs.len(), 2, pos_reader(b)) == Some(cs),
    decreases cs.len(),
{
    if cs.len() > 0 {
        let init = cs.drop_last();
        let p = cs.last();
        lemma_occurs_split(b, start, checkpoints_bytes(init), pos_bytes(p));
        lemma_checkpoints_roundtrip(b, start, init);
        lemma_pos_roundtrip(b, start + 2 * init.len(), p);
        assert((cs.len() - 1) as nat == init.len());
        assert(init.push(p) =~= cs);
    }
}

proof fn lemma_sign_roundtrip(b: Seq<u8>, i: int, s: (LevelPosition, Seq<Seq<char>>), atlas: Seq<char>)
    requires
        occurs_at(b, i, sign_bytes(s, atlas)),
        sign_ok(s, atlas),
    ensures
        sign_bytes(s, atlas).len() == 98,
        sign_at(b, i, atlas) == Some(s),
{
    let f0 = field_bytes(s.1[0], atlas);
    let f1 = field_bytes(s.1[1], atlas);
    let f2 = field_bytes(s.1[2], atlas);
    let f3 = field_bytes(s.1[3], atlas);
    lemma_occurs_split(b, i, f0 + f1 + f2 + f3, pos_bytes(s.0));
    lemma_occurs_split(b, i, f0 + f1 + f2, f3);
    lemma_occurs_split(b, i, f0 + f1, f2);
    lemma_occurs_split(b, i, f0, f1);
    assert(text_ok(s.1[0], 24, atlas));
    assert(text_ok(s.1[1], 24, atlas));
    assert(text_ok(s.1[2], 24, atlas));
    assert(text_ok(s.1[3], 24, atlas));
    lemma_field_roundtrip(b, i, s.1[0], 24, atlas);
    lemma_field_roundtrip(b, i + 24, s.1[1], 24, atlas);
    lemma_field_roundtrip(b, i + 48, s.1[2], 24, atlas);
    lemma_field_roundtrip(b, i + 72, s.1[3], 24, atlas);
    lemma_pos_roundtrip(b, i + 96, s.0);
    assert(seq![s.1[0], s.1[1], s.1[2], s.1[3]] =~= s.1);
}

proof fn lemma_signs_roundtrip(b: Seq<u8>, start: int, ss: Seq<(LevelPosition, Seq<Seq<char>>)>, atlas: Seq<char>)
    requires
        occurs_at(b, start, signs_bytes(ss, atlas)),
        forall|i: int| 0 <= i < ss.len() ==> sign_ok(#[trigger] ss[i], atlas),
    ensures
        signs_bytes(ss, atlas).len() == 98 * ss.len(),
        parse_records(start, ss.len(), 98, sign_reader(b, atlas)) == Some(ss),
    decreases ss.len(),
{
    if ss.len() > 0 {
        let init = ss.drop_last();
        let s = ss.last();
        lemma_occurs_split(b, start, signs_bytes(init, atlas), sign_bytes(s, atlas));
        assert forall|i: int| 0 <= i < init.len() implies sign_ok(#[trigger] init[i], atlas) by {
            assert(init[i] == ss[i]);
        }
        lemma_signs_roundtrip(b, start, init, atlas);
        assert(sign_ok(ss[ss.len() - 1], atlas));
        lemma_sign_roundtrip(b, start + 98 * init.len(), s, atlas);
        assert((ss.len() - 1) as nat == init.len());
        assert(init.push(s) =~= ss);
    }
}

proof fn lemma_doors_roundtrip(b: Seq<u8>, start: int, ds: Seq<(DoorKind, LevelPosition, LevelPosition)>)
    requires
        occurs_at(b, start, doors_bytes(ds)),
    ensures
        doors_bytes(ds).len() == 5 * ds.len(),
        parse_records(start, ds.len(), 5, door_reader(b)) == Some(ds),
    decreases ds.len(),
{
    if ds.len() > 0 {
        let init = ds.drop_last();
        let d = ds.last();
        lemma_occurs_split(b, start, doors_bytes(init), door_bytes(d));
        lemma_doors_roundtrip(b, start, init);
        let i = start + 5 * init.len();
        lemma_occurs_byte(b, i, door_bytes(d), 0);
        lemma_occurs_byte(b, i, door_bytes(d), 1);
        lemma_occurs_byte(b, i, door_bytes(d), 2);
        lemma_occurs_byte(b, i, door_bytes(d), 3);
        lemma_occurs_byte(b, i, door_bytes(d), 4);
        lemma_door_kind_roundtrip(d.0);
        assert(door_at(b, i) == Some(d));
        assert((ds.len() - 1) as nat == init.len());
        assert(init.push(d) =~= ds);
    }
}

proof fn lemma_entities_roundtrip(b: Seq<u8>, start: int, es: Seq<(LevelPosition, EntityKind)>)
    requires
        occurs_at(b, start, entities_bytes(es)),
        forall|i: int| 0 <= i < es.len() ==> entity_kind_is_canonical(#[trigger] es[i].1),
    ensures
        entities_bytes(es).len() == 3 * es.len(),
        parse_records(start, es.len(), 3, entity_reader(b)) == Some(es),
    decreases es.len(),
{
    if es.len() > 0 {
        let init = es.drop_last();
        let e = es.last();
        lemma_occurs_split(b, start, entities_bytes(init), entity_bytes(e));
        assert forall|i: int| 0 <= i < init.len() implies entity_kind_is_canonical(#[trigger] init[i].1) by {
            assert(init[i] == es[i]);
        }
        lemma_entities_roundtrip(b, start, init);
        let i = start + 3 * init.len();
        lemma_occurs_byte(b, i, entity_bytes(e), 0);
        lemma_occurs_byte(b, i, entity_bytes(e), 1);
        lemma_occurs_byte(b, i, entity_bytes(e), 2);
        assert(entity_kind_is_canonical(es[es.len() - 1].1));
        lemma_entity_kind_roundtrip(e.1);
        assert(entity_at(b, i) == Some(e));
        assert((es.len() - 1) as nat == init.len());
        assert(init.push(e) =~= es);
    }
}

proof fn lemma_worlds_roundtrip(b: Seq<u8>, start: int, ws: Seq<Seq<char>>, atlas: Seq<char>)
    requires
        occurs_at(b, start, worlds_bytes(ws, atlas)),
        forall|i: int| 0 <= i < ws.len() ==> text_ok(#[trigger] ws[i], 22, atlas),
    ensures
        worlds_bytes(ws, atlas).len() == 24 * ws.len(),
        parse_records(start, ws.len(), 24, world_reader(b, atlas)) == Some(ws),
    decreases ws.len(),
{
    if ws.len() > 0 {
        let init = ws.drop_last();
        let w = ws.last();
        lemma_occurs_split(b, start, worlds_bytes(init, atlas), field_bytes(w, atlas));
        assert forall|i: int| 0 <= i < init.len() implies text_ok(#[trigger] init[i], 22, atlas) by {
            assert(init[i] == ws[i]);
        }
        lemma_worlds_roundtrip(b, start, init, atlas);
        assert(text_ok(ws[ws.len() - 1], 22, atlas));
        lemma_field_roundtrip(b, start + 24 * init.len(), w, 22, atlas);
        assert((ws.len() - 1) as nat == init.len());
        assert(init.push(w) =~= ws);
    }
}

spec fn things_bytes(l: LevelModel, atlas: Seq<char>) -> Seq<u8> {
    seq![l.checkpoints.len() as u8] + checkpoints_bytes(l.checkpoints)
    + seq![l.signs.len() as u8] + signs_bytes(l.signs, atlas)
    + seq![l.doors.len() as u8] + doors_bytes(l.doors)
    + seq![l.entities.len() as u8] + entities_bytes(l.entities)
}

spec fn head_bytes(l: LevelModel, atlas: Seq<char>) -> Seq<u8> {
    field_bytes(l.name, atlas)
    + seq![l.world, l.bg_col.0, l.bg_col.1, l.bg_col.2, l.width, l.height]
    + tiles_bytes(l.tiles) + tiles_bytes(l.tiles_bg)
    + pos_bytes(l.spawn) + pos_bytes(l.finish)
}

proof fn lemma_things_roundtrip(b: Seq<u8>, c: int, l: LevelModel, atlas: Seq<char>)
    requires
        occurs_at(b, c, things_bytes(l, atlas)),
        level_ok(l, atlas),
    ensures
        parse_level_things(b, c, atlas) == Some(
            (l.checkpoints, l.signs, l.doors, l.entities, c + things_bytes(l, atlas).len()),
        ),
{
    let ncp = seq![l.checkpoints.len() as u8];
    let cp = checkpoints_bytes(l.checkpoints);
    let ns = seq![l.signs.len() as u8];
    let sg = signs_bytes(l.signs, atlas);
    let nd = seq![l.doors.len() as u8];
    let dd = doors_bytes(l.doors);
    let ne = seq![l.entities.len() as u8];
    let ee = entities_bytes(l.entities);
    lemma_occurs_split(b, c, ncp + cp + ns + sg + nd + dd + ne, ee);
    lemma_occurs_split(b, c, ncp + cp + ns + sg + nd + dd, ne);
    lemma_occurs_split(b, c, ncp + cp + ns + sg + nd, dd);
    lemma_occurs_split(b, c, ncp + cp + ns + sg, nd);
    lemma_occurs_split(b, c, ncp + cp + ns, sg);
    lemma_occurs_split(b, c, ncp + cp, ns);
    lemma_occurs_split(b, c, ncp, cp);
    lemma_occurs_byte(b, c, ncp, 0);
    lemma_checkpoints_roundtrip(b, c + 1, l.checkpoints);
    let c1 = c + 1 + 2 * l.checkpoints.len();
    lemma_occurs_byte(b, c1, ns, 0);
    lemma_signs_roundtrip(b, c1 + 1, l.signs, atlas);
    let c2 = c1 + 1 + 98 * l.signs.len();
    lemma_occurs_byte(b, c2, nd, 0);
    lemma_doors_roundtrip(b, c2 + 1, l.doors);
    let c3 = c2 + 1 + 5 * l.doors.len();
    lemma_occurs_byte(b, c3, ne, 0);
    lemma_entities_roundtrip(b, c3 + 1, l.entities);
    assert((l.checkpoints.len() as u8) as nat == l.checkpoints.len());
    assert((l.signs.len() as u8) as nat == l.signs.len());
    assert((l.doors.len() as u8) as nat == l.doors.len());
    assert((l.entities.len() as u8) as nat == l.entities.len());
}

/// A saved well-formed level, wherever it stands in the bytes, is read back as the level, and
/// reading ends just after it.
pub proof fn lemma_level_roundtrip(b: Seq<u8>, c: int, l: LevelModel, atlas: Seq<char>)
    requires
        occurs_at(b, c, level_bytes(l, atlas)),
        level_ok(l, atlas),
    ensures
        parse_level(b, c, atlas) == Some((l, c + level_bytes(l, atlas).len())),
{
    let hd = head_bytes(l, atlas);
    let th = things_bytes(l, atlas);
    assert(level_bytes(l, atlas) =~= hd + th);
    lemma_occurs_split(b, c, hd, th);
    let f = field_bytes(l.name, atlas);
    let h6 = seq![l.world, l.bg_col.0, l.bg_col.1, l.bg_col.2, l.width, l.height];
    let t = tiles_bytes(l.tiles);
    let tb = tiles_bytes(l.tiles_bg);
    let sp = pos_bytes(l.spawn);
    let fi = pos_bytes(l.finish);
    lemma_occurs_split(b, c, f + h6 + t + tb + sp, fi);
    lemma_occurs_split(b, c, f + h6 + t + tb, sp);
    lemma_occurs_split(b, c, f + h6 + t, tb);
    lemma_occurs_split(b, c, f + h6, t);
    lemma_occurs_split(b, c, f, h6);
    lemma_field_roundtrip(b, c, l.name, 22, atlas);
    let h = c + 24;
    lemma_occurs_byte(b, h, h6, 0);
    lemma_occurs_byte(b, h, h6, 1);
    lemma_occurs_byte(b, h, h6, 2);
    lemma_occurs_byte(b, h, h6, 3);
    lemma_occurs_byte(b, h, h6, 4);
    lemma_occurs_byte(b, h, h6, 5);
    let n = (l.width as nat) * (l.height as nat);
    lemma_tiles_roundtrip(b, h + 6, l.tiles);
    lemma_tiles_roundtrip(b, h + 6 + n, l.tiles_bg);
    lemma_pos_roundtrip(b, h + 6 + 2 * n, l.spawn);
    lemma_pos_roundtrip(b, h + 6 + 2 * n + 2, l.finish);
    lemma_things_roundtrip(b, h + 6 + 2 * n + 4, l, atlas);
    let m = parse_level(b, c, atlas).unwrap().0;
    assert(m == l);
}

proof fn lemma_level_bytes_len(l: LevelModel, atlas: Seq<char>)
    ensures
        level_bytes(l, atlas).len() >= 24,
{
}

proof fn lemma_levels_bytes_front(ls: Seq<LevelModel>, atlas: Seq<char>)
    requires
        ls.len() > 0,
    ensures
        levels_bytes(ls, atlas) == level_bytes(ls[0], atlas) + levels_bytes(ls.drop_first(), atlas),
    decreases ls.len(),
{
    if ls.len() == 1 {
        assert(ls.drop_last() =~= Seq::<LevelModel>::empty());
        assert(ls.drop_first() =~= Seq::<LevelModel>::empty());
        assert(levels_bytes(ls, atlas) =~= level_bytes(ls[0], atlas) + levels_bytes(ls.drop_first(), atlas));
    } else {
        let init = ls.drop_last();
        lemma_levels_bytes_front(init, atlas);
        assert(init.drop_first() =~= ls.drop_first().drop_last());
        assert(ls.drop_first().last() == ls.last());
        assert(levels_bytes(ls, atlas) =~= level_bytes(ls[0], atlas) + levels_bytes(ls.drop_first(), atlas));
    }
}

/// Fewer than 38 bytes (a name, six bytes, two positions and four counts) hold no level.
proof fn lemma_short_tail_no_level(b: Seq<u8>, c: int, atlas: Seq<char>)
    requires
        0 <= c,
        b.len() < c + 38,
    ensures
        parse_level(b, c, atlas) is None,
{
    let h = c + 24;
    match (
        parse_field(b, c, 22, atlas),
        byte_at(b, h),
        byte_at(b, h + 1),
        byte_at(b, h + 2),
        byte_at(b, h + 3),
        byte_at(b, h + 4),
        byte_at(b, h + 5),
    ) {
        (Some(name), Some(world), Some(r), Some(g), Some(bl), Some(w), Some(ht)) => {
            let n = (w as nat) * (ht as nat);
            let t = h + 6;
            let k = t + 2 * n + 4;
            assert(k >= c + 34);
            match byte_at(b, k) {
                None => {},
                Some(ncp) => {
                    let c1 = k + 1;
                    match byte_at(b, c1 + 2 * ncp) {
                        None => {},
                        Some(ns) => {
                            let c2 = c1 + 2 * ncp + 1;
                            match byte_at(b, c2 + 98 * ns) {
                                None => {},
                                Some(nd) => {
                                    let c3 = c2 + 98 * ns + 1;
                                    assert(c3 + 5 * nd >= c + 37);
                                    assert(byte_at(b, c3 + 5 * nd) is None);
                                },
                            }
                        },
                    }
                },
            }
        },
        _ => {},
    }
}

/// Saved well-formed levels followed by fewer than 38 other bytes are read back as the levels.
proof fn lemma_levels_roundtrip(b: Seq<u8>, c: int, ls: Seq<LevelModel>, atlas: Seq<char>)
    requires
        occurs_at(b, c, levels_bytes(ls, atlas)),
        b.len() < c + levels_bytes(ls, atlas).len() + 38,
        forall|i: int| 0 <= i < ls.len() ==> level_ok(#[trigger] ls[i], atlas),
    ensures
        parse_levels(b, c, atlas) == ls,
    decreases ls.len(),
{
    if ls.len() == 0 {
        if c < b.len() {
            lemma_short_tail_no_level(b, c, atlas);
        }
        assert(parse_levels(b, c, atlas) =~= ls);
    } else {
        lemma_levels_bytes_front(ls, atlas);
        let first = level_bytes(ls[0], atlas);
        let rest = ls.drop_first();
        lemma_occurs_split(b, c, first, levels_bytes(rest, atlas));
        assert(level_ok(ls[0], atlas));
        lemma_level_roundtrip(b, c, ls[0], atlas);
        lemma_level_bytes_len(ls[0], atlas);
        assert forall|i: int| 0 <= i < rest.len() implies level_ok(#[trigger] rest[i], atlas) by {
            assert(rest[i] == ls[i + 1]);
        }
        lemma_levels_roundtrip(b, c + first.len(), rest, atlas);
        assert(seq![ls[0]] + rest =~= ls);
    }
}

/// Saving a well-formed level pack and reading the bytes back gives the same pack.
pub proof fn lemma_pack_roundtrip(p: PackModel, atlas: Seq<char>)
    requires
        pack_ok(p, atlas),
    ensures
        parse_pack(pack_bytes(p, atlas), atlas) == Some(p),
{
    assert(pack_bytes(p, atlas) + Seq::<u8>::empty() =~= pack_bytes(p, atlas));
    lemma_pack_with_trailing_bytes(p, atlas, Seq::empty());
}

/// A saved well-formed level pack followed by fewer than 38 other bytes (too few to hold a
/// level) is read back as the same pack: the bytes after the last level are dropped.
pub proof fn lemma_pack_with_trailing_bytes(p: PackModel, atlas: Seq<char>, rest: Seq<u8>)
    requires
        pack_ok(p, atlas),
        rest.len() < 38,
    ensures
        parse_pack(pack_bytes(p, atlas) + rest, atlas) == Some(p),
{
    let pb = pack_bytes(p, atlas);
    let b = pb + rest;
    let chk = checksum_bytes();
    let fname = field_bytes(p.name, atlas);
    let fauthor = field_bytes(p.author, atlas);
    let wc = seq![p.worlds.len() as u8];
    let ws = worlds_bytes(p.worlds, atlas);
    let ls = levels_bytes(p.levels, atlas);
    assert(b.subrange(0, pb.len() as int) =~= pb);
    assert(occurs_at(b, 0, pb));
    assert(pb =~= chk + fname + fauthor + wc + ws + ls);
    lemma_occurs_split(b, 0, chk + fname + fauthor + wc + ws, ls);
    lemma_occurs_split(b, 0, chk + fname + fauthor + wc, ws);
    lemma_occurs_split(b, 0, chk + fname + fauthor, wc);
    lemma_occurs_split(b, 0, chk + fname, fauthor);
    lemma_occurs_split(b, 0, chk, fname);
    assert(b.subrange(0, 17) == chk);
    lemma_field_roundtrip(b, 17, p.name, 22, atlas);
    lemma_field_roundtrip(b, 41, p.author, 22, atlas);
    lemma_occurs_byte(b, 65, wc, 0);
    lemma_worlds_roundtrip(b, 66, p.worlds, atlas);
    assert((p.worlds.len() as u8) as nat == p.worlds.len());
    lemma_levels_roundtrip(b, (66 + 24 * p.worlds.len()) as int, p.levels, atlas);
}

} // verus!
