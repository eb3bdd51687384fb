//! The data saved to a level pack file, and turning it into bytes and back.
use vstd::prelude::*;
use vstd::string::StrSliceExecFns;

use crate::codec::{
    byte_at, checkpoints_bytes, door_at, doors_bytes, entities_bytes, level_bytes, pos_bytes, sign_bytes,
    signs_bytes, tiles_bytes, door_reader, entity_at, entity_reader, field_bytes, lemma_parse_records_fails_at,
    parse_field, parse_level, parse_level_things, parse_records, pos_at, pos_reader, sign_at, sign_reader,
    spec_max_signs, tile_reader, LevelModel, checksum_bytes, pack_bytes, parse_pack, PackModel, worlds_bytes,
    levels_bytes, world_reader, parse_levels, lemma_parse_level_advances,
};
use crate::entity::EntityKind;
use crate::font::FontData;
use crate::things::DoorKind;
use crate::tile::Tile;
use crate::editor_level::{editor_sign_model, editor_signs_model, EditorLevel, EditorLevelModel, TilePos};
use crate::editor_level_pack::{editor_level_models, EditorLevelPack, EditorLevelPackModel};
use crate::codec::{level_grids_ok, pack_grids_ok, lemma_parse_pack_grids};
use crate::level::{door_view, insert_spawn, keys_distinct, sign_view, spawns_from, Level, PlayedLevelModel};
use crate::things::{Door, Sign};

pub use crate::codec::LevelPosition;

verus! {

/// The length of a text field in a file: pack names and authors, world names, level names and
/// sign lines.
pub const MAX_FIELD_LEN: usize = 24;

/// The most signs a level may hold.
pub const MAX_SIGNS: usize = 64;

/// Appends a character to a string (`String::push`): the string then ends with it.
#[verifier::external_body]
pub(crate) fn string_push(s: &mut String, c: char)
    ensures
        final(s)@ == old(s)@.push(c),
{
    s.push(c)
}

/// The 24 bytes a text field is saved as.
fn string_to_bytes(s: &String, font: &FontData) -> (res: Vec<u8>)
    ensures
        res@ == field_bytes(s@, font@),
{
    let len = s.as_str().unicode_len();
    let mut bytes: Vec<u8> = Vec::new();
    let mut i: usize = 0;
    while i < MAX_FIELD_LEN
        invariant
            i <= MAX_FIELD_LEN,
            len == s@.len(),
            bytes@.len() == i,
            forall|j: int| 0 <= j < i ==> bytes@[j] == #[trigger] field_bytes(s@, font@)[j],
        decreases MAX_FIELD_LEN - i,
    {
        let mut b: u8 = 255;
        if i < len {
            let c = s.as_str().get_char(i);
            if font.typable_char(c) {
                b = c as u8;
            }
        }
        bytes.push(b);
        i += 1;
    }
    assert(bytes@ == field_bytes(s@, font@));
    bytes
}

/// Reads a text field of at most `max_len` characters starting at `begin` (see
/// `parse_field`).
fn bytes_to_string(begin: usize, bytes: &[u8], max_len: usize, font: &FontData) -> (res: Option<String>)
    requires
        begin + max_len <= usize::MAX,
    ensures
        match parse_field(bytes@, begin as int, max_len as nat, font@) {
            Some(s) => res matches Some(r) && r@ == s,
            None => res is None,
        },
{
    let mut s = String::new();
    let mut i: usize = 0;
    while i < max_len
        invariant_except_break
            i <= max_len,
            begin + max_len <= usize::MAX,
            match parse_field(bytes@, begin + i, (max_len - i) as nat, font@) {
                Some(rest) => parse_field(bytes@, begin as int, max_len as nat, font@) == Some(s@ + rest),
                None => parse_field(bytes@, begin as int, max_len as nat, font@) is None,
            },
        ensures
            parse_field(bytes@, begin as int, max_len as nat, font@) == Some(s@),
        decreases max_len - i,
    {
        if begin + i >= bytes.len() {
            return None;
        }
        let b = bytes[begin + i];
        if b == 255 {
            assert(s@ + Seq::<char>::empty() == s@);
            break;
        }
        let c = b as char;
        if !font.typable_char(c) {
            return None;
        }
        let ghost old_s = s@;
        string_push(&mut s, c);
        proof {
            match parse_field(bytes@, begin + i + 1, (max_len - i - 1) as nat, font@) {
                Some(rest) => {
                    assert(old_s + (seq![c] + rest) == s@ + rest);
                },
                None => {},
            }
        }
        i += 1;
    }
    proof {
        if i == max_len {
            assert(s@ + Seq::<char>::empty() == s@);
        }
    }
    Some(s)
}


/// The position and four lines of a sign, as a model.
pub open spec fn sign_model(s: (LevelPosition, [String; 4])) -> (LevelPosition, Seq<Seq<char>>) {
    (s.0, s.1@.map_values(|l: String| l@))
}

/// A level as it is saved to a file.
pub struct LevelData {
    name: String,
    world: u8,
    bg_col: (u8, u8, u8),
    width: u8,
    height: u8,
    tiles: Vec<Tile>,
    tiles_bg: Vec<Tile>,
    spawn: LevelPosition,
    finish: LevelPosition,
    checkpoints: Vec<LevelPosition>,
    signs: Vec<(LevelPosition, [String; 4])>,
    doors: Vec<(DoorKind, LevelPosition, LevelPosition)>,
    entities: Vec<(LevelPosition, EntityKind)>,
}

impl View for LevelData {
    type V = LevelModel;

    closed spec fn view(&self) -> LevelModel {
        LevelModel {
            name: self.name@,
            world: self.world,
            bg_col: self.bg_col,
            width: self.width,
            height: self.height,
            tiles: self.tiles@,
            tiles_bg: self.tiles_bg@,
            spawn: self.spawn,
            finish: self.finish,
            checkpoints: self.checkpoints@,
            signs: self.signs@.map_values(|s: (LevelPosition, [String; 4])| sign_model(s)),
            doors: self.doors@,
            entities: self.entities@,
        }
    }
}

/// The byte at `i`, if there is one.
fn get_byte(bytes: &[u8], i: usize) -> (res: Option<u8>)
    ensures
        res == byte_at(bytes@, i as int),
{
    if i < bytes.len() {
        Some(bytes[i])
    } else {
        None
    }
}

/// Reads `n` tiles, one byte each, from the cursor on, moving the cursor past them.
fn read_tiles(bytes: &[u8], cursor: &mut usize, n: usize) -> (res: Option<Vec<Tile>>)
    requires
        bytes@.len() <= isize::MAX,
        *old(cursor) <= bytes@.len() + 64,
    ensures
        match parse_records(*old(cursor) as int, n as nat, 1, tile_reader(bytes@)) {
            Some(ts) => res matches Some(v) && v@ == ts && *final(cursor) == *old(cursor) + n,
            None => res is None,
        },
        *final(cursor) <= bytes@.len() + 64,
{
    let ghost start = *cursor as int;
    let mut tiles: Vec<Tile> = Vec::new();
    let mut i: usize = 0;
    while i < n
        invariant
            i <= n,
            bytes@.len() <= isize::MAX,
            start == *old(cursor) as int,
            *cursor == start + i,
            *cursor <= bytes@.len() + 64,
            parse_records(start, i as nat, 1, tile_reader(bytes@)) == Some(tiles@),
        decreases n - i,
    {
        let tile = match get_byte(bytes, *cursor) {
            Some(byte) => match Tile::try_from(byte) {
                Ok(t) => Some(t),
                Err(_) => None,
            },
            None => None,
        };
        assert(tile == tile_reader(bytes@)(start + i * 1));
        match tile {
            Some(t) => {
                tiles.push(t);
                *cursor += 1;
                i += 1;
            },
            None => {
                proof {
                    lemma_parse_records_fails_at(start, i as nat, n as nat, 1, tile_reader(bytes@));
                }
                return None;
            },
        }
    }
    Some(tiles)
}

/// The position whose two bytes start at `c`.
fn read_pos(bytes: &[u8], c: usize) -> (res: Option<LevelPosition>)
    requires
        c < usize::MAX,
    ensures
        res == pos_at(bytes@, c as int),
{
    let x = match get_byte(bytes, c) {
        Some(b) => b,
        None => return None,
    };
    let y = match get_byte(bytes, c + 1) {
        Some(b) => b,
        None => return None,
    };
    Some((x, y))
}

/// Reads `n` positions, two bytes each, from the cursor on, moving the cursor past them.
fn read_positions(bytes: &[u8], cursor: &mut usize, n: u8) -> (res: Option<Vec<LevelPosition>>)
    requires
        bytes@.len() <= isize::MAX,
        *old(cursor) <= bytes@.len() + 64,
    ensures
        match parse_records(*old(cursor) as int, n as nat, 2, pos_reader(bytes@)) {
            Some(ps) => res matches Some(v) && v@ == ps && *final(cursor) == *old(cursor) + 2 * n,
            None => res is None,
        },
        *final(cursor) <= bytes@.len() + 64,
{
    let ghost start = *cursor as int;
    let mut ps: Vec<LevelPosition> = Vec::new();
    let mut i: u8 = 0;
    while i < n
        invariant
            i <= n,
            bytes@.len() <= isize::MAX,
            start == *old(cursor) as int,
            *cursor == start + 2 * i,
            *cursor <= bytes@.len() + 64,
            parse_records(start, i as nat, 2, pos_reader(bytes@)) == Some(ps@),
        decreases n - i,
    {
        let p = read_pos(bytes, *cursor);
        assert(p == pos_reader(bytes@)(start + i * 2));
        match p {
            Some(p) => {
                ps.push(p);
                *cursor += 2;
                i += 1;
            },
            None => {
                proof {
                    lemma_parse_records_fails_at(start, i as nat, n as nat, 2, pos_reader(bytes@));
                }
                return None;
            },
        }
    }
    Some(ps)
}

/// Reads the sign that starts at the cursor, moving the cursor past each part as it goes.
fn read_sign(bytes: &[u8], cursor: &mut usize, font: &FontData) -> (res: Option<(LevelPosition, [String; 4])>)
    requires
        bytes@.len() <= isize::MAX,
        *old(cursor) <= bytes@.len() + 64,
    ensures
        match sign_at(bytes@, *old(cursor) as int, font@) {
            Some(s) => res matches Some(r) && sign_model(r) == s && *final(cursor) == *old(cursor) + 98,
            None => res is None,
        },
        *final(cursor) <= bytes@.len() + 64,
{
    let c = *cursor;
    let l0 = match bytes_to_string(c, bytes, MAX_FIELD_LEN, font) {
        Some(s) => s,
        None => return None,
    };
    *cursor = c + MAX_FIELD_LEN;
    let l1 = match bytes_to_string(c + 24, bytes, MAX_FIELD_LEN, font) {
        Some(s) => s,
        None => return None,
    };
    *cursor = c + 48;
    let l2 = match bytes_to_string(c + 48, bytes, MAX_FIELD_LEN, font) {
        Some(s) => s,
        None => return None,
    };
    *cursor = c + 72;
    let l3 = match bytes_to_string(c + 72, bytes, MAX_FIELD_LEN, font) {
        Some(s) => s,
        None => return None,
    };
    *cursor = c + 96;
    let p = match read_pos(bytes, c + 96) {
        Some(p) => p,
        None => return None,
    };
    let lines: [String; 4] = [l0, l1, l2, l3];
    let sign = (p, lines);
    assert(sign_model(sign).1 =~= seq![l0@, l1@, l2@, l3@]);
    *cursor = c + 98;
    Some(sign)
}

/// Reads `n` signs from the cursor on, moving the cursor past them.
fn read_signs(bytes: &[u8], cursor: &mut usize, n: u8, font: &FontData) -> (res: Option<Vec<(LevelPosition, [String; 4])>>)
    requires
        bytes@.len() <= isize::MAX,
        *old(cursor) <= bytes@.len() + 64,
    ensures
        match parse_records(*old(cursor) as int, n as nat, 98, sign_reader(bytes@, font@)) {
            Some(ss) => res matches Some(v) && v@.map_values(|s: (LevelPosition, [String; 4])| sign_model(s)) == ss
                && *final(cursor) == *old(cursor) + 98 * n,
            None => res is None,
        },
        *final(cursor) <= bytes@.len() + 64,
{
    let ghost start = *cursor as int;
    let mut signs: Vec<(LevelPosition, [String; 4])> = Vec::new();
    let mut i: u8 = 0;
    while i < n
        invariant
            i <= n,
            bytes@.len() <= isize::MAX,
            start == *old(cursor) as int,
            *cursor == start + 98 * i,
            *cursor <= bytes@.len() + 64,
            parse_records(start, i as nat, 98, sign_reader(bytes@, font@)) == Some(
                signs@.map_values(|s: (LevelPosition, [String; 4])| sign_model(s)),
            ),
        decreases n - i,
    {
        let ghost c = *cursor;
        let sign = read_sign(bytes, cursor, font);
        assert(sign_at(bytes@, c as int, font@) == sign_reader(bytes@, font@)(start + i * 98));
        match sign {
            Some(sign) => {
                let ghost before = signs@;
                signs.push(sign);
                assert(signs@.map_values(|s: (LevelPosition, [String; 4])| sign_model(s)) =~= before.map_values(
                    |s: (LevelPosition, [String; 4])| sign_model(s),
                ).push(sign_model(sign)));
                i += 1;
            },
            None => {
                proof {
                    lemma_parse_records_fails_at(start, i as nat, n as nat, 98, sign_reader(bytes@, font@));
                }
                return None;
            },
        }
    }
    Some(signs)
}

/// The door whose five bytes start at `c`.
fn read_door(bytes: &[u8], c: usize) -> (res: Option<(DoorKind, LevelPosition, LevelPosition)>)
    requires
        c + 5 <= usize::MAX,
    ensures
        res == door_at(bytes@, c as int),
{
    let k = match get_byte(bytes, c) {
        Some(b) => b,
        None => return None,
    };
    let kind = match DoorKind::try_from(k) {
        Ok(kind) => kind,
        Err(_) => return None,
    };
    let p = match read_pos(bytes, c + 1) {
        Some(p) => p,
        None => return None,
    };
    let d = match read_pos(bytes, c + 3) {
        Some(p) => p,
        None => return None,
    };
    Some((kind, p, d))
}

/// Reads `n` doors, five bytes each, from the cursor on, moving the cursor past them.
fn read_doors(bytes: &[u8], cursor: &mut usize, n: u8) -> (res: Option<Vec<(DoorKind, LevelPosition, LevelPosition)>>)
    requires
        bytes@.len() <= isize::MAX,
        *old(cursor) <= bytes@.len() + 64,
    ensures
        match parse_records(*old(cursor) as int, n as nat, 5, door_reader(bytes@)) {
            Some(ds) => res matches Some(v) && v@ == ds && *final(cursor) == *old(cursor) + 5 * n,
            None => res is None,
        },
        *final(cursor) <= bytes@.len() + 64,
{
    let ghost start = *cursor as int;
    let mut doors: Vec<(DoorKind, LevelPosition, LevelPosition)> = Vec::new();
    let mut i: u8 = 0;
    while i < n
        invariant
            i <= n,
            bytes@.len() <= isize::MAX,
            start == *old(cursor) as int,
            *cursor == start + 5 * i,
            *cursor <= bytes@.len() + 64,
            parse_records(start, i as nat, 5, door_reader(bytes@)) == Some(doors@),
        decreases n - i,
    {
        let d = read_door(bytes, *cursor);
        assert(d == door_reader(bytes@)(start + i * 5));
        match d {
            Some(d) => {
                doors.push(d);
                *cursor += 5;
                i += 1;
            },
            None => {
                proof {
                    lemma_parse_records_fails_at(start, i as nat, n as nat, 5, door_reader(bytes@));
                }
                return None;
            },
        }
    }
    Some(doors)
}

/// The entity whose three bytes start at `c`.
fn read_entity(bytes: &[u8], c: usize) -> (res: Option<(LevelPosition, EntityKind)>)
    requires
        c + 3 <= usize::MAX,
    ensures
        res == entity_at(bytes@, c as int),
{
    let k = match get_byte(bytes, c) {
        Some(b) => b,
        None => return None,
    };
    let p = match read_pos(bytes, c + 1) {
        Some(p) => p,
        None => return None,
    };
    let kind = match EntityKind::try_from(k) {
        Ok(kind) => kind,
        Err(_) => return None,
    };
    Some((p, kind))
}

/// Reads `n` entities, three bytes each, from the cursor on, moving the cursor past them.
fn read_entities(bytes: &[u8], cursor: &mut usize, n: u8) -> (res: Option<Vec<(LevelPosition, EntityKind)>>)
    requires
        bytes@.len() <= isize::MAX,
        *old(cursor) <= bytes@.len() + 64,
    ensures
        match parse_records(*old(cursor) as int, n as nat, 3, entity_reader(bytes@)) {
            Some(es) => res matches Some(v) && v@ == es && *final(cursor) == *old(cursor) + 3 * n,
            None => res is None,
        },
        *final(cursor) <= bytes@.len() + 64,
{
    let ghost start = *cursor as int;
    let mut ents: Vec<(LevelPosition, EntityKind)> = Vec::new();
    let mut i: u8 = 0;
    while i < n
        invariant
            i <= n,
            bytes@.len() <= isize::MAX,
            start == *old(cursor) as int,
            *cursor == start + 3 * i,
            *cursor <= bytes@.len() + 64,
            parse_records(start, i as nat, 3, entity_reader(bytes@)) == Some(ents@),
        decreases n - i,
    {
        let e = read_entity(bytes, *cursor);
        assert(e == entity_reader(bytes@)(start + i * 3));
        match e {
            Some(e) => {
                ents.push(e);
                *cursor += 3;
                i += 1;
            },
            None => {
                proof {
                    lemma_parse_records_fails_at(start, i as nat, n as nat, 3, entity_reader(bytes@));
                }
                return None;
            },
        }
    }
    Some(ents)
}

/// Reads the checkpoints, signs, doors and entities of a level, each preceded by its count,
/// from the cursor on, moving the cursor as it reads.
fn read_level_things(bytes: &[u8], cursor: &mut usize, font: &FontData) -> (res: Option<
    (
        Vec<LevelPosition>,
        Vec<(LevelPosition, [String; 4])>,
        Vec<(DoorKind, LevelPosition, LevelPosition)>,
        Vec<(LevelPosition, EntityKind)>,
    ),
>)
    requires
        bytes@.len() <= isize::MAX,
        *old(cursor) <= bytes@.len() + 64,
    ensures
        match parse_level_things(bytes@, *old(cursor) as int, font@) {
            Some((cps, ss, ds, es, e)) => res matches Some(r) && r.0@ == cps
                && r.1@.map_values(|s: (LevelPosition, [String; 4])| sign_model(s)) == ss && r.2@ == ds
                && r.3@ == es && *final(cursor) == e,
            None => res is None,
        },
        *final(cursor) <= bytes@.len() + 64,
{
    let checkpoints_len = match get_byte(bytes, *cursor) {
        Some(b) => b,
        None => return None,
    };
    *cursor += 1;
    let checkpoints = match read_positions(bytes, cursor, checkpoints_len) {
        Some(v) => v,
        None => return None,
    };
    let signs_len = match get_byte(bytes, *cursor) {
        Some(b) => b,
        None => return None,
    };
    *cursor += 1;
    if signs_len as usize > MAX_SIGNS {
        return None;
    }
    let signs = match read_signs(bytes, cursor, signs_len, font) {
        Some(v) => v,
        None => return None,
    };
    let doors_len = match get_byte(bytes, *cursor) {
        Some(b) => b,
        None => return None,
    };
    *cursor += 1;
    let doors = match read_doors(bytes, cursor, doors_len) {
        Some(v) => v,
        None => return None,
    };
    let entities_len = match get_byte(bytes, *cursor) {
        Some(b) => b,
        None => return None,
    };
    *cursor += 1;
    let entities = match read_entities(bytes, cursor, entities_len) {
        Some(v) => v,
        None => return None,
    };
    Some((checkpoints, signs, doors, entities))
}

impl LevelData {
    /// The level's name.
    pub fn name(&self) -> (res: &String)
        ensures
            res@ == self@.name,
    {
        &self.name
    }

    /// The number of the world the level is in (0 when it is in none).
    pub fn world(&self) -> (res: u8)
        ensures
            res == self@.world,
    {
        self.world
    }

    /// Reads a level from `bytes`, starting at the cursor, with the characters `font` can type.
    /// When it can be read, the cursor is moved to just after it.
    #[verifier::spinoff_prover]
    #[verifier::rlimit(40)]
    pub fn from_bytes(bytes: &[u8], cursor: &mut usize, font: &FontData) -> (res: Option<LevelData>)
        requires
            bytes@.len() <= isize::MAX,
            *old(cursor) <= bytes@.len(),
        ensures
            match parse_level(bytes@, *old(cursor) as int, font@) {
                Some((l, e)) => res matches Some(r) && r@ == l && *final(cursor) == e,
                None => res is None,
            },
    {
        let ghost c = *cursor as int;
        // The name and the world number
        let name = match bytes_to_string(*cursor, bytes, 22, font) {
            Some(s) => s,
            None => return None,
        };
        *cursor += MAX_FIELD_LEN;
        let world = match get_byte(bytes, *cursor) {
            Some(b) => b,
            None => return None,
        };
        *cursor += 1;
        // The background colour, width and height
        let r = match get_byte(bytes, *cursor) {
            Some(b) => b,
            None => return None,
        };
        let g = match get_byte(bytes, *cursor + 1) {
            Some(b) => b,
            None => return None,
        };
        let b = match get_byte(bytes, *cursor + 2) {
            Some(b) => b,
            None => return None,
        };
        let width = match get_byte(bytes, *cursor + 3) {
            Some(b) => b,
            None => return None,
        };
        let height = match get_byte(bytes, *cursor + 4) {
            Some(b) => b,
            None => return None,
        };
        *cursor += 5;
        // The tiles and the background tiles
        assert((width as int) * (height as int) <= 255 * 255) by (nonlinear_arith)
            requires
                width <= 255,
                height <= 255,
        ;
        let n = width as usize * height as usize;
        let tiles = match read_tiles(bytes, cursor, n) {
            Some(v) => v,
            None => return None,
        };
        let tiles_bg = match read_tiles(bytes, cursor, n) {
            Some(v) => v,
            None => return None,
        };
        // The spawn and the finish
        let spawn = match read_pos(bytes, *cursor) {
            Some(p) => p,
            None => return None,
        };
        let finish = match read_pos(bytes, *cursor + 2) {
            Some(p) => p,
            None => return None,
        };
        *cursor += 4;
        // The checkpoints, signs, doors and entities
        let (checkpoints, signs, doors, entities) = match read_level_things(bytes, cursor, font) {
            Some(t) => t,
            None => return None,
        };
        let level = LevelData {
            name,
            world,
            bg_col: (r, g, b),
            width,
            height,
            tiles,
            tiles_bg,
            spawn,
            finish,
            checkpoints,
            signs,
            doors,
            entities,
        };
        Some(level)
    }
}

/// Appends the bytes of some tiles.
fn push_tiles(bytes: &mut Vec<u8>, tiles: &Vec<Tile>)
    ensures
        final(bytes)@ == old(bytes)@ + tiles_bytes(tiles@),
{
    let ghost b0 = bytes@;
    let mut i: usize = 0;
    while i < tiles.len()
        invariant
            i <= tiles@.len(),
            bytes@ == b0 + tiles_bytes(tiles@.take(i as int)),
        decreases tiles@.len() - i,
    {
        let t = tiles[i];
        bytes.push(t.into());
        assert(tiles@.take(i + 1).drop_last() =~= tiles@.take(i as int));
        i += 1;
    }
    assert(tiles@.take(tiles@.len() as int) =~= tiles@);
}

/// Appends the bytes of some positions.
fn push_positions(bytes: &mut Vec<u8>, ps: &Vec<LevelPosition>)
    ensures
        final(bytes)@ == old(bytes)@ + checkpoints_bytes(ps@),
{
    let ghost b0 = bytes@;
    let mut i: usize = 0;
    while i < ps.len()
        invariant
            i <= ps@.len(),
            bytes@ == b0 + checkpoints_bytes(ps@.take(i as int)),
        decreases ps@.len() - i,
    {
        let p = ps[i];
        bytes.push(p.0);
        bytes.push(p.1);
        assert(ps@.take(i + 1).drop_last() =~= ps@.take(i as int));
        assert(bytes@ =~= b0 + checkpoints_bytes(ps@.take(i + 1)));
        i += 1;
    }
    assert(ps@.take(ps@.len() as int) =~= ps@);
}

/// Appends the bytes of a text field.
fn push_field(bytes: &mut Vec<u8>, s: &String, font: &FontData)
    ensures
        final(bytes)@ == old(bytes)@ + field_bytes(s@, font@),
{
    let mut f = string_to_bytes(s, font);
    bytes.append(&mut f);
}

/// Appends the bytes of some signs.
fn push_signs(bytes: &mut Vec<u8>, signs: &Vec<(LevelPosition, [String; 4])>, font: &FontData)
    ensures
        final(bytes)@ == old(bytes)@ + signs_bytes(
            signs@.map_values(|s: (LevelPosition, [String; 4])| sign_model(s)),
            font@,
        ),
{
    let ghost b0 = bytes@;
    let ghost models = signs@.map_values(|s: (LevelPosition, [String; 4])| sign_model(s));
    let mut i: usize = 0;
    while i < signs.len()
        invariant
            i <= signs@.len(),
            models == signs@.map_values(|s: (LevelPosition, [String; 4])| sign_model(s)),
            bytes@ == b0 + signs_bytes(models.take(i as int), font@),
        decreases signs@.len() - i,
    {
        let sign = &signs[i];
        let ghost before = bytes@;
        push_field(bytes, &sign.1[0], font);
        push_field(bytes, &sign.1[1], font);
        push_field(bytes, &sign.1[2], font);
        push_field(bytes, &sign.1[3], font);
        bytes.push((sign.0).0);
        bytes.push((sign.0).1);
        assert(models[i as int] == sign_model(*sign));
        assert(models.take(i + 1).drop_last() =~= models.take(i as int));
        assert(bytes@ =~= before + sign_bytes(sign_model(*sign), font@));
        assert(bytes@ =~= b0 + signs_bytes(models.take(i + 1), font@));
        i += 1;
    }
    assert(models.take(signs@.len() as int) =~= models);
}

/// Appends the bytes of some doors.
fn push_doors(bytes: &mut Vec<u8>, doors: &Vec<(DoorKind, LevelPosition, LevelPosition)>)
    ensures
        final(bytes)@ == old(bytes)@ + doors_bytes(doors@),
{
    let ghost b0 = bytes@;
    let mut i: usize = 0;
    while i < doors.len()
        invariant
            i <= doors@.len(),
            bytes@ == b0 + doors_bytes(doors@.take(i as int)),
        decreases doors@.len() - i,
    {
        let d = doors[i];
        bytes.push(d.0.into());
        bytes.push((d.1).0);
        bytes.push((d.1).1);
        bytes.push((d.2).0);
        bytes.push((d.2).1);
        assert(doors@.take(i + 1).drop_last() =~= doors@.take(i as int));
        assert(bytes@ =~= b0 + doors_bytes(doors@.take(i + 1)));
        i += 1;
    }
    assert(doors@.take(doors@.len() as int) =~= doors@);
}

/// Appends the bytes of some entities.
fn push_entities(bytes: &mut Vec<u8>, entities: &Vec<(LevelPosition, EntityKind)>)
    ensures
        final(bytes)@ == old(bytes)@ + entities_bytes(entities@),
{
    let ghost b0 = bytes@;
    let mut i: usize = 0;
    while i < entities.len()
        invariant
            i <= entities@.len(),
            bytes@ == b0 + entities_bytes(entities@.take(i as int)),
        decreases entities@.len() - i,
    {
        let e = entities[i];
        bytes.push(e.1.into());
        bytes.push((e.0).0);
        bytes.push((e.0).1);
        assert(entities@.take(i + 1).drop_last() =~= entities@.take(i as int));
        assert(bytes@ =~= b0 + entities_bytes(entities@.take(i + 1)));
        i += 1;
    }
    assert(entities@.take(entities@.len() as int) =~= entities@);
}

impl LevelData {
    /// The bytes the level is saved as, writing only the characters `font` can type.
    pub fn to_bytes(&self, font: &FontData) -> (res: Vec<u8>)
        ensures
            res@ == level_bytes(self@, font@),
    {
        let mut bytes: Vec<u8> = Vec::new();
        // The name, world number, background colour, width and height
        push_field(&mut bytes, &self.name, font);
        bytes.push(self.world);
        bytes.push(self.bg_col.0);
        bytes.push(self.bg_col.1);
        bytes.push(self.bg_col.2);
        bytes.push(self.width);
        bytes.push(self.height);
        let ghost head = bytes@;
        // The tiles and the background tiles
        push_tiles(&mut bytes, &self.tiles);
        push_tiles(&mut bytes, &self.tiles_bg);
        // The spawn and the finish
        bytes.push(self.spawn.0);
        bytes.push(self.spawn.1);
        bytes.push(self.finish.0);
        bytes.push(self.finish.1);
        let ghost body = bytes@;
        // The checkpoints, signs, doors and entities, each preceded by its count (each count
        // is below 256 for levels made in the editor)
        bytes.push(self.checkpoints.len() as u8);
        push_positions(&mut bytes, &self.checkpoints);
        bytes.push(self.signs.len() as u8);
        push_signs(&mut bytes, &self.signs, font);
        bytes.push(self.doors.len() as u8);
        push_doors(&mut bytes, &self.doors);
        bytes.push(self.entities.len() as u8);
        push_entities(&mut bytes, &self.entities);
        let ghost l = self@;
        assert(head =~= field_bytes(l.name, font@) + seq![l.world, l.bg_col.0, l.bg_col.1, l.bg_col.2, l.width, l.height]);
        assert(body =~= head + tiles_bytes(l.tiles) + tiles_bytes(l.tiles_bg) + pos_bytes(l.spawn) + pos_bytes(l.finish));
        assert(bytes@ =~= level_bytes(l, font@));
        bytes
    }
}

/// The most levels a pack may hold.
pub const MAX_LEVELS: usize = 99;

/// A level pack as it is saved to a file: its file name (not saved in the file), name,
/// author, the names of its worlds, and its levels.
pub struct LevelPackData {
    file_name: String,
    name: String,
    author: String,
    worlds: Vec<String>,
    levels: Vec<LevelData>,
}

/// The models of some levels.
pub open spec fn level_models(ls: Seq<LevelData>) -> Seq<LevelModel> {
    ls.map_values(|l: LevelData| l@)
}

/// The contents of some strings.
pub open spec fn string_models(ss: Seq<String>) -> Seq<Seq<char>> {
    ss.map_values(|s: String| s@)
}

impl View for LevelPackData {
    type V = PackModel;

    closed spec fn view(&self) -> PackModel {
        PackModel {
            name: self.name@,
            author: self.author@,
            worlds: string_models(self.worlds@),
            levels: level_models(self.levels@),
        }
    }
}

/// The bytes every pack file starts with.
fn checksum() -> (res: Vec<u8>)
    ensures
        res@ == checksum_bytes(),
{
    let v = vec![
        0x6Au8, 0x75, 0x6D, 0x62, 0x6C, 0x65, 0x64, 0x46, 0x6F, 0x78, 0x20, 0x72, 0x75, 0x6C,
        0x65, 0x73, 0x21,
    ];
    assert(v@ =~= checksum_bytes());
    v
}

/// Whether the bytes start with the checksum.
fn has_checksum(bytes: &[u8]) -> (res: bool)
    ensures
        res == (bytes@.len() >= 17 && bytes@.subrange(0, 17) == checksum_bytes()),
{
    let chk = checksum();
    let mut i: usize = 0;
    while i < 17
        invariant
            i <= 17,
            chk@ == checksum_bytes(),
            i <= bytes@.len(),
            bytes@.subrange(0, i as int) == checksum_bytes().take(i as int),
        decreases 17 - i,
    {
        if i == bytes.len() {
            return false;
        }
        if bytes[i] != chk[i] {
            assert(bytes@.len() >= 17 ==> bytes@.subrange(0, 17)[i as int] == bytes@[i as int]);
            return false;
        }
        assert(bytes@.subrange(0, i + 1) =~= checksum_bytes().take(i + 1));
        i += 1;
    }
    assert(bytes@.subrange(0, 17) =~= checksum_bytes());
    true
}

/// Reads the names of `n` worlds, 24 bytes each, starting at `start`.
fn read_worlds(bytes: &[u8], start: usize, n: u8, font: &FontData) -> (res: Option<Vec<String>>)
    requires
        bytes@.len() <= isize::MAX,
        start <= bytes@.len() + 64,
    ensures
        match parse_records(start as int, n as nat, 24, world_reader(bytes@, font@)) {
            Some(ws) => res matches Some(v) && string_models(v@) == ws,
            None => res is None,
        },
{
    let mut worlds: Vec<String> = Vec::new();
    let mut cursor = start;
    let mut k: u8 = 0;
    while k < n
        invariant
            k <= n,
            bytes@.len() <= isize::MAX,
            start <= bytes@.len() + 64,
            cursor == start + 24 * k,
            parse_records(start as int, k as nat, 24, world_reader(bytes@, font@)) == Some(string_models(worlds@)),
        decreases n - k,
    {
        let w = bytes_to_string(cursor, bytes, 22, font);
        assert(parse_field(bytes@, cursor as int, 22, font@) == world_reader(bytes@, font@)(start + k * 24));
        match w {
            Some(w) => {
                let ghost before = worlds@;
                worlds.push(w);
                assert(string_models(worlds@) =~= string_models(before).push(w@));
                cursor += MAX_FIELD_LEN;
                k += 1;
            },
            None => {
                proof {
                    lemma_parse_records_fails_at(start as int, k as nat, n as nat, 24, world_reader(bytes@, font@));
                }
                return None;
            },
        }
    }
    Some(worlds)
}

/// Reads levels one after another from `start` until the end of the bytes, stopping at the
/// first one that cannot be read.
fn read_levels(bytes: &[u8], start: usize, font: &FontData) -> (res: Vec<LevelData>)
    requires
        bytes@.len() <= isize::MAX,
    ensures
        level_models(res@) == parse_levels(bytes@, start as int, font@),
{
    let mut cursor = start;
    let mut levels: Vec<LevelData> = Vec::new();
    while cursor < bytes.len()
        invariant_except_break
            bytes@.len() <= isize::MAX,
            level_models(levels@) + parse_levels(bytes@, cursor as int, font@) == parse_levels(bytes@, start as int, font@),
        ensures
            level_models(levels@) == parse_levels(bytes@, start as int, font@),
        decreases bytes@.len() - cursor,
    {
        let ghost c = cursor as int;
        let level_data = LevelData::from_bytes(bytes, &mut cursor, font);
        match level_data {
            Some(l) => {
                proof {
                    lemma_parse_level_advances(bytes@, c, font@);
                }
                let ghost before = levels@;
                levels.push(l);
                assert(level_models(levels@) =~= level_models(before).push(l@));
                assert(parse_levels(bytes@, c, font@) == seq![l@] + parse_levels(bytes@, cursor as int, font@));
                assert(level_models(levels@) + parse_levels(bytes@, cursor as int, font@) =~= level_models(before)
                    + parse_levels(bytes@, c, font@));
            },
            None => {
                assert(parse_levels(bytes@, c, font@) =~= Seq::<LevelModel>::empty());
                assert(level_models(levels@) =~= level_models(levels@) + parse_levels(bytes@, c, font@));
                break;
            },
        }
    }
    proof {
        if cursor >= bytes.len() {
            assert(parse_levels(bytes@, cursor as int, font@) =~= Seq::<LevelModel>::empty());
            assert(level_models(levels@) =~= level_models(levels@) + parse_levels(bytes@, cursor as int, font@));
        }
    }
    levels
}

impl LevelPackData {
    pub closed spec fn spec_file_name(&self) -> Seq<char> {
        self.file_name@
    }

    /// The name of the file the pack is kept in, without its extension.
    pub fn file_name(&self) -> (res: &String)
        ensures
            res@ == self.spec_file_name(),
    {
        &self.file_name
    }

    pub fn name(&self) -> (res: &String)
        ensures
            res@ == self@.name,
    {
        &self.name
    }

    pub fn author(&self) -> (res: &String)
        ensures
            res@ == self@.author,
    {
        &self.author
    }

    /// The names of the worlds, in order.
    pub fn worlds(&self) -> (res: &Vec<String>)
        ensures
            string_models(res@) == self@.worlds,
    {
        &self.worlds
    }

    /// The levels, in order.
    pub fn levels(&self) -> (res: &Vec<LevelData>)
        ensures
            level_models(res@) == self@.levels,
    {
        &self.levels
    }

    /// The bytes the pack is saved as, writing only the characters `font` can type.
    pub fn to_bytes(&self, font: &FontData) -> (res: Vec<u8>)
        ensures
            res@ == pack_bytes(self@, font@),
    {
        let mut bytes = checksum();
        push_field(&mut bytes, &self.name, font);
        push_field(&mut bytes, &self.author, font);
        // The worlds (there are fewer than 256 in packs made in the editor)
        bytes.push(self.worlds.len() as u8);
        let ghost b0 = bytes@;
        let ghost ws = string_models(self.worlds@);
        let mut i: usize = 0;
        while i < self.worlds.len()
            invariant
                i <= self.worlds@.len(),
                ws == string_models(self.worlds@),
                bytes@ == b0 + worlds_bytes(ws.take(i as int), font@),
            decreases self.worlds@.len() - i,
        {
            push_field(&mut bytes, &self.worlds[i], font);
            assert(ws.take(i + 1).drop_last() =~= ws.take(i as int));
            assert(bytes@ =~= b0 + worlds_bytes(ws.take(i + 1), font@));
            i += 1;
        }
        assert(ws.take(self.worlds@.len() as int) =~= ws);
        // Each level
        let ghost b1 = bytes@;
        let ghost ls = level_models(self.levels@);
        let mut i: usize = 0;
        while i < self.levels.len()
            invariant
                i <= self.levels@.len(),
                ls == level_models(self.levels@),
                bytes@ == b1 + levels_bytes(ls.take(i as int), font@),
            decreases self.levels@.len() - i,
        {
            let mut level_bytes = self.levels[i].to_bytes(font);
            bytes.append(&mut level_bytes);
            assert(ls.take(i + 1).drop_last() =~= ls.take(i as int));
            assert(bytes@ =~= b1 + levels_bytes(ls.take(i + 1), font@));
            i += 1;
        }
        assert(ls.take(self.levels@.len() as int) =~= ls);
        assert(bytes@ =~= pack_bytes(self@, font@));
        bytes
    }

    /// Reads a pack from the bytes of its file, with the characters `font` can type: the
    /// checksum, the name and author, the worlds, then levels up to the end of the bytes (or up
    /// to the first that cannot be read). A pack needs from 1 to 99 levels.
    pub fn from_bytes(file_name: String, bytes: &[u8], font: &FontData) -> (res: Option<LevelPackData>)
        requires
            bytes@.len() <= isize::MAX,
        ensures
            match parse_pack(bytes@, font@) {
                Some(p) => res matches Some(r) && r@ == p && r.spec_file_name() == file_name@,
                None => res is None,
            },
    {
        // The checksum
        if !has_checksum(bytes) {
            return None;
        }
        let mut cursor: usize = 17;
        // The name and the author
        let name = match bytes_to_string(cursor, bytes, 22, font) {
            Some(s) => s,
            None => return None,
        };
        cursor += MAX_FIELD_LEN;
        let author = match bytes_to_string(cursor, bytes, 22, font) {
            Some(s) => s,
            None => return None,
        };
        cursor += MAX_FIELD_LEN;
        // The worlds
        let world_count = match get_byte(bytes, cursor) {
            Some(b) => b,
            None => return None,
        };
        cursor += 1;
        let worlds = match read_worlds(bytes, cursor, world_count, font) {
            Some(w) => w,
            None => return None,
        };
        cursor += 24 * world_count as usize;
        // Each level, until the end of the bytes
        let levels = read_levels(bytes, cursor, font);
        if levels.len() == 0 || levels.len() > MAX_LEVELS {
            return None;
        }
        let pack = LevelPackData { file_name, name, author, worlds, levels };
        Some(pack)
    }

    /// The name of world `world` (numbered from 1); world 0, and a world the pack does not
    /// name, have an empty name.
    pub fn world_name(&self, world: u8) -> (res: String)
        ensures
            res@ == (if 1 <= world <= self@.worlds.len() {
                self@.worlds[world - 1]
            } else {
                Seq::<char>::empty()
            }),
    {
        if world == 0 {
            return String::new();
        }
        let w = (world - 1) as usize;
        if w < self.worlds.len() {
            self.worlds[w].clone()
        } else {
            String::new()
        }
    }

    /// The index of the first level in world `world`, or 0 when no level is in it.
    pub fn first_level_in_world(&self, world: u8) -> (res: usize)
        ensures
            (exists|i: int| 0 <= i < self@.levels.len() && self@.levels[i].world == world) ==> {
                &&& res < self@.levels.len()
                &&& self@.levels[res as int].world == world
                &&& forall|i: int| 0 <= i < res ==> self@.levels[i].world != world
            },
            !(exists|i: int| 0 <= i < self@.levels.len() && self@.levels[i].world == world) ==> res == 0,
    {
        let mut i: usize = 0;
        while i < self.levels.len()
            invariant
                i <= self.levels@.len(),
                forall|j: int| 0 <= j < i ==> self@.levels[j].world != world,
            decreases self.levels@.len() - i,
        {
            assert(self@.levels[i as int] == self.levels@[i as int]@);
            if self.levels[i].world() == world {
                return i;
            }
            i += 1;
        }
        0
    }
}

// ---------------------------------------------------------------------------------------
// Levels being edited

/// A coordinate of a tile position, clamped to what a byte holds.
pub open spec fn byte_coord(v: i32) -> u8 {
    if v < 0 {
        0
    } else if v > 255 {
        255
    } else {
        v as u8
    }
}

/// The position a tile position is saved as: each coordinate clamped to 0..=255.
pub open spec fn spec_level_pos(p: TilePos) -> LevelPosition {
    (byte_coord(p.0), byte_coord(p.1))
}

/// The tile position of a saved position.
pub open spec fn spec_tile_pos(p: LevelPosition) -> TilePos {
    (p.0 as i32, p.1 as i32)
}

/// The position a tile position is saved as (see `spec_level_pos`).
pub fn pos_to_level_pos(pos: TilePos) -> (res: LevelPosition)
    ensures
        res == spec_level_pos(pos),
{
    let x: u8 = if pos.0 < 0 {
        0
    } else if pos.0 > 255 {
        255
    } else {
        pos.0 as u8
    };
    let y: u8 = if pos.1 < 0 {
        0
    } else if pos.1 > 255 {
        255
    } else {
        pos.1 as u8
    };
    (x, y)
}

/// The tile position of a saved position.
pub fn level_pos_to_pos(level_pos: LevelPosition) -> (res: TilePos)
    ensures
        res == spec_tile_pos(level_pos),
{
    (level_pos.0 as i32, level_pos.1 as i32)
}

/// A size clamped to what a byte holds.
pub open spec fn byte_size(v: int) -> u8 {
    if v > 255 {
        255
    } else {
        v as u8
    }
}

/// The level a level being edited is saved as, in world `world`.
pub open spec fn level_from_editor(m: EditorLevelModel, world: u8) -> LevelModel {
    LevelModel {
        name: m.name,
        world,
        bg_col: m.bg_col,
        width: byte_size(m.width),
        height: byte_size(m.height),
        tiles: m.tiles,
        tiles_bg: m.tiles_bg,
        spawn: spec_level_pos(m.spawn),
        finish: spec_level_pos(m.finish),
        checkpoints: m.checkpoints.map_values(|p: TilePos| spec_level_pos(p)),
        signs: m.signs.map_values(|s: (TilePos, Seq<Seq<char>>)| (spec_level_pos(s.0), s.1)),
        doors: m.doors.map_values(|d: (DoorKind, TilePos, TilePos)| (d.0, spec_level_pos(d.1), spec_level_pos(d.2))),
        entities: m.entities.map_values(|e: (TilePos, EntityKind)| (spec_level_pos(e.0), e.1)),
    }
}

/// The level being edited that a saved level is opened as, starting the world `world_name`
/// (or none, when it is empty).
pub open spec fn editor_from_level(l: LevelModel, world_name: Seq<char>) -> EditorLevelModel {
    EditorLevelModel {
        world: world_name,
        name: l.name,
        bg_col: l.bg_col,
        width: l.width as int,
        height: l.height as int,
        tiles: l.tiles,
        tiles_bg: l.tiles_bg,
        signs: l.signs.map_values(|s: (LevelPosition, Seq<Seq<char>>)| (spec_tile_pos(s.0), s.1)),
        door_start: None,
        doors: l.doors.map_values(|d: (DoorKind, LevelPosition, LevelPosition)| (d.0, spec_tile_pos(d.1), spec_tile_pos(d.2))),
        spawn: spec_tile_pos(l.spawn),
        finish: spec_tile_pos(l.finish),
        checkpoints: l.checkpoints.map_values(|p: LevelPosition| spec_tile_pos(p)),
        entities: l.entities.map_values(|e: (LevelPosition, EntityKind)| (spec_tile_pos(e.0), e.1)),
        should_update_render_data: true,
    }
}

/// A copy of some tiles.
fn copy_tiles(ts: &Vec<Tile>) -> (res: Vec<Tile>)
    ensures
        res@ == ts@,
{
    let mut v: Vec<Tile> = Vec::new();
    let mut i: usize = 0;
    while i < ts.len()
        invariant
            i <= ts@.len(),
            v@ == ts@.take(i as int),
        decreases ts@.len() - i,
    {
        v.push(ts[i]);
        i += 1;
        assert(v@ =~= ts@.take(i as int));
    }
    assert(ts@.take(ts@.len() as int) =~= ts@);
    v
}

/// A copy of the four lines of a sign.
fn copy_lines(lines: &[String; 4]) -> (res: [String; 4])
    ensures
        res@.map_values(|l: String| l@) == lines@.map_values(|l: String| l@),
{
    let res = [lines[0].clone(), lines[1].clone(), lines[2].clone(), lines[3].clone()];
    assert(res@.map_values(|l: String| l@) =~= lines@.map_values(|l: String| l@));
    res
}

impl LevelData {
    /// The level that the level being edited is saved as, in world `world` (see
    /// `level_from_editor`).
    pub fn from_editor_level(editor_level: &EditorLevel, world: u8) -> (res: LevelData)
        ensures
            res@ == level_from_editor(editor_level@, world),
    {
        let ghost m = editor_level@;
        let w = editor_level.width();
        let h = editor_level.height();
        let width: u8 = if w > 255 { 255 } else { w as u8 };
        let height: u8 = if h > 255 { 255 } else { h as u8 };
        // checkpoints
        let ecps = editor_level.checkpoints();
        let mut checkpoints: Vec<LevelPosition> = Vec::new();
        let mut i: usize = 0;
        while i < ecps.len()
            invariant
                i <= ecps@.len(),
                checkpoints@ == ecps@.take(i as int).map_values(|p: TilePos| spec_level_pos(p)),
            decreases ecps@.len() - i,
        {
            checkpoints.push(pos_to_level_pos(ecps[i]));
            i += 1;
            assert(checkpoints@ =~= ecps@.take(i as int).map_values(|p: TilePos| spec_level_pos(p)));
        }
        assert(ecps@.take(ecps@.len() as int) =~= ecps@);
        // signs
        let esigns = editor_level.signs();
        let mut signs: Vec<(LevelPosition, [String; 4])> = Vec::new();
        let mut i: usize = 0;
        while i < esigns.len()
            invariant
                i <= esigns@.len(),
                signs@.len() == i,
                forall|j: int| 0 <= j < i ==> #[trigger] sign_model(signs@[j]) == (
                    spec_level_pos(esigns@[j].0),
                    editor_sign_model(esigns@[j]).1,
                ),
            decreases esigns@.len() - i,
        {
            let lines = copy_lines(&esigns[i].1);
            signs.push((pos_to_level_pos(esigns[i].0), lines));
            i += 1;
        }
        // doors
        let edoors = editor_level.doors();
        let mut doors: Vec<(DoorKind, LevelPosition, LevelPosition)> = Vec::new();
        let mut i: usize = 0;
        while i < edoors.len()
            invariant
                i <= edoors@.len(),
                doors@ == edoors@.take(i as int).map_values(
                    |d: (DoorKind, TilePos, TilePos)| (d.0, spec_level_pos(d.1), spec_level_pos(d.2)),
                ),
            decreases edoors@.len() - i,
        {
            let d = edoors[i];
            doors.push((d.0, pos_to_level_pos(d.1), pos_to_level_pos(d.2)));
            i += 1;
            assert(doors@ =~= edoors@.take(i as int).map_values(
                |d: (DoorKind, TilePos, TilePos)| (d.0, spec_level_pos(d.1), spec_level_pos(d.2)),
            ));
        }
        assert(edoors@.take(edoors@.len() as int) =~= edoors@);
        // entities
        let eents = editor_level.entities();
        let mut entities: Vec<(LevelPosition, EntityKind)> = Vec::new();
        let mut i: usize = 0;
        while i < eents.len()
            invariant
                i <= eents@.len(),
                entities@ == eents@.take(i as int).map_values(|e: (TilePos, EntityKind)| (spec_level_pos(e.0), e.1)),
            decreases eents@.len() - i,
        {
            let e = eents[i];
            entities.push((pos_to_level_pos(e.0), e.1));
            i += 1;
            assert(entities@ =~= eents@.take(i as int).map_values(
                |e: (TilePos, EntityKind)| (spec_level_pos(e.0), e.1),
            ));
        }
        assert(eents@.take(eents@.len() as int) =~= eents@);
        let level = LevelData {
            name: editor_level.name().clone(),
            world,
            bg_col: editor_level.bg_col(),
            width,
            height,
            tiles: copy_tiles(editor_level.tiles()),
            tiles_bg: copy_tiles(editor_level.tiles_bg()),
            spawn: pos_to_level_pos(editor_level.spawn()),
            finish: pos_to_level_pos(editor_level.finish()),
            checkpoints,
            signs,
            doors,
            entities,
        };
        assert(level@.signs =~= m.signs.map_values(|s: (TilePos, Seq<Seq<char>>)| (spec_level_pos(s.0), s.1)));
        assert(level@ == level_from_editor(m, world));
        level
    }
}

impl LevelData {
    /// The level being edited that this level is opened as, starting the world `world_name`
    /// (see `editor_from_level`).
    pub fn to_editor_level(&self, world_name: String) -> (res: EditorLevel)
        requires
            level_grids_ok(self@),
        ensures
            res@ == editor_from_level(self@, world_name@),
            res@.wf(),
    {
        let ghost l = self@;
        // signs
        let mut signs: Vec<(TilePos, [String; 4])> = Vec::new();
        let mut i: usize = 0;
        while i < self.signs.len()
            invariant
                i <= self.signs@.len(),
                l == self@,
                signs@.len() == i,
                forall|j: int| 0 <= j < i ==> #[trigger] editor_sign_model(signs@[j]) == (
                    spec_tile_pos(self.signs@[j].0),
                    sign_model(self.signs@[j]).1,
                ),
            decreases self.signs@.len() - i,
        {
            let lines = copy_lines(&self.signs[i].1);
            signs.push((level_pos_to_pos(self.signs[i].0), lines));
            i += 1;
        }
        assert(editor_signs_model(signs@) =~= l.signs.map_values(
            |s: (LevelPosition, Seq<Seq<char>>)| (spec_tile_pos(s.0), s.1),
        ));
        // doors
        let mut doors: Vec<(DoorKind, TilePos, TilePos)> = Vec::new();
        let mut i: usize = 0;
        while i < self.doors.len()
            invariant
                i <= self.doors@.len(),
                doors@ == self.doors@.take(i as int).map_values(
                    |d: (DoorKind, LevelPosition, LevelPosition)| (d.0, spec_tile_pos(d.1), spec_tile_pos(d.2)),
                ),
            decreases self.doors@.len() - i,
        {
            let d = self.doors[i];
            doors.push((d.0, level_pos_to_pos(d.1), level_pos_to_pos(d.2)));
            i += 1;
            assert(doors@ =~= self.doors@.take(i as int).map_values(
                |d: (DoorKind, LevelPosition, LevelPosition)| (d.0, spec_tile_pos(d.1), spec_tile_pos(d.2)),
            ));
        }
        assert(self.doors@.take(self.doors@.len() as int) =~= self.doors@);
        // checkpoints
        let mut checkpoints: Vec<TilePos> = Vec::new();
        let mut i: usize = 0;
        while i < self.checkpoints.len()
            invariant
                i <= self.checkpoints@.len(),
                checkpoints@ == self.checkpoints@.take(i as int).map_values(|p: LevelPosition| spec_tile_pos(p)),
            decreases self.checkpoints@.len() - i,
        {
            checkpoints.push(level_pos_to_pos(self.checkpoints[i]));
            i += 1;
            assert(checkpoints@ =~= self.checkpoints@.take(i as int).map_values(|p: LevelPosition| spec_tile_pos(p)));
        }
        assert(self.checkpoints@.take(self.checkpoints@.len() as int) =~= self.checkpoints@);
        // entities
        let mut entities: Vec<(TilePos, EntityKind)> = Vec::new();
        let mut i: usize = 0;
        while i < self.entities.len()
            invariant
                i <= self.entities@.len(),
                entities@ == self.entities@.take(i as int).map_values(
                    |e: (LevelPosition, EntityKind)| (spec_tile_pos(e.0), e.1),
                ),
            decreases self.entities@.len() - i,
        {
            let e = self.entities[i];
            entities.push((level_pos_to_pos(e.0), e.1));
            i += 1;
            assert(entities@ =~= self.entities@.take(i as int).map_values(
                |e: (LevelPosition, EntityKind)| (spec_tile_pos(e.0), e.1),
            ));
        }
        assert(self.entities@.take(self.entities@.len() as int) =~= self.entities@);
        let level = EditorLevel::new(
            world_name,
            self.name.clone(),
            self.bg_col,
            self.width as usize,
            self.height as usize,
            copy_tiles(&self.tiles),
            copy_tiles(&self.tiles_bg),
            signs,
            doors,
            level_pos_to_pos(self.spawn),
            level_pos_to_pos(self.finish),
            checkpoints,
            entities,
        );
        level
    }
}

/// The names of the worlds that the first `n` levels being edited start, in order.
pub open spec fn worlds_upto(ls: Seq<EditorLevelModel>, n: int) -> Seq<Seq<char>>
    decreases n,
{
    if n <= 0 {
        Seq::empty()
    } else if ls[n - 1].world.len() > 0 {
        worlds_upto(ls, n - 1).push(ls[n - 1].world)
    } else {
        worlds_upto(ls, n - 1)
    }
}

/// The pack that a pack being edited is saved as: each level that names a world starts a new
/// world, numbered from 1, and the other levels are in the world of the level before them
/// (world 0 before the first world).
pub open spec fn pack_from_editor(p: EditorLevelPackModel) -> PackModel {
    PackModel {
        name: p.name,
        author: p.author,
        worlds: worlds_upto(p.levels, p.levels.len() as int),
        levels: Seq::new(
            p.levels.len(),
            |i: int| level_from_editor(p.levels[i], worlds_upto(p.levels, i + 1).len() as u8),
        ),
    }
}

/// The world name a saved level is opened with: the name of its world when it is the first
/// level of that world, and empty otherwise.
pub open spec fn opened_world_name(p: PackModel, i: int) -> Seq<char> {
    let prev: u8 = if i == 0 {
        0
    } else {
        p.levels[i - 1].world
    };
    let w = p.levels[i].world;
    if w != prev && 1 <= w <= p.worlds.len() {
        p.worlds[w - 1]
    } else {
        Seq::empty()
    }
}

/// The pack being edited that a saved pack is opened as, with its first level open.
pub open spec fn editor_pack_from(p: PackModel, file_name: Seq<char>) -> EditorLevelPackModel {
    EditorLevelPackModel {
        file_name,
        name: p.name,
        author: p.author,
        levels: Seq::new(p.levels.len(), |i: int| editor_from_level(p.levels[i], opened_world_name(p, i))),
        current: 0,
    }
}

/// No level is in world 0 after a level in another world.
pub open spec fn worlds_in_order(p: PackModel) -> bool {
    forall|i: int| 0 < i < p.levels.len() && #[trigger] p.levels[i].world == 0 ==> p.levels[i - 1].world == 0
}

impl LevelPackData {
    /// The pack that a pack being edited is saved as (see `pack_from_editor`).
    pub fn from_editor_level_pack(value: &EditorLevelPack) -> (res: LevelPackData)
        requires
            worlds_upto(value@.levels, value@.levels.len() as int).len() <= 255,
        ensures
            res@ == pack_from_editor(value@),
            res.spec_file_name() == value@.file_name,
    {
        let ghost p = value@;
        let elevels = value.levels();
        let mut levels: Vec<LevelData> = Vec::new();
        let mut worlds: Vec<String> = Vec::new();
        let mut current_world: u8 = 0;
        let mut i: usize = 0;
        while i < elevels.len()
            invariant
                i <= elevels@.len(),
                editor_level_models(elevels@) == p.levels,
                worlds_upto(p.levels, p.levels.len() as int).len() <= 255,
                string_models(worlds@) == worlds_upto(p.levels, i as int),
                current_world == worlds@.len(),
                levels@.len() == i,
                forall|j: int| 0 <= j < i ==> (#[trigger] levels@[j])@ == level_from_editor(
                    p.levels[j],
                    worlds_upto(p.levels, j + 1).len() as u8,
                ),
            decreases elevels@.len() - i,
        {
            assert(elevels@[i as int]@ == p.levels[i as int]);
            proof {
                lemma_worlds_upto_grows(p.levels, i as int + 1, p.levels.len() as int);
            }
            let world = elevels[i].world();
            if world.as_str().unicode_len() > 0 {
                let ghost before = worlds@;
                worlds.push(world.clone());
                assert(string_models(worlds@) =~= string_models(before).push(world@));
                current_world += 1;
            }
            levels.push(LevelData::from_editor_level(&elevels[i], current_world));
            i += 1;
        }
        let pack = LevelPackData {
            file_name: value.file_name().clone(),
            name: value.name().clone(),
            author: value.author().clone(),
            worlds,
            levels,
        };
        assert(pack@.levels =~= pack_from_editor(p).levels);
        pack
    }

    /// The pack being edited that this pack is opened as, with its first level open (see
    /// `editor_pack_from`).
    pub fn to_editor_level_pack(&self) -> (res: EditorLevelPack)
        requires
            self@.levels.len() >= 1,
            pack_grids_ok(self@),
            worlds_in_order(self@),
        ensures
            res@ == editor_pack_from(self@, self.spec_file_name()),
            res@.wf(),
    {
        let ghost p = self@;
        let mut levels: Vec<EditorLevel> = Vec::new();
        let mut prev_world: u8 = 0;
        let mut i: usize = 0;
        while i < self.levels.len()
            invariant
                i <= self.levels@.len(),
                p == self@,
                pack_grids_ok(p),
                worlds_in_order(p),
                prev_world == (if i == 0 { 0u8 } else { p.levels[i - 1].world }),
                levels@.len() == i,
                forall|j: int| 0 <= j < i ==> (#[trigger] levels@[j])@ == editor_from_level(
                    p.levels[j],
                    opened_world_name(p, j),
                ),
            decreases self.levels@.len() - i,
        {
            let level = &self.levels[i];
            assert(level@ == p.levels[i as int]);
            let w = level.world();
            let world_name = if w != prev_world {
                assert(w != 0);
                let k = (w - 1) as usize;
                if k < self.worlds.len() {
                    self.worlds[k].clone()
                } else {
                    String::new()
                }
            } else {
                String::new()
            };
            assert(world_name@ == opened_world_name(p, i as int));
            prev_world = w;
            levels.push(level.to_editor_level(world_name));
            i += 1;
        }
        let pack = EditorLevelPack::new(self.file_name.clone(), self.name.clone(), self.author.clone(), levels);
        assert(pack@.levels =~= editor_pack_from(p, self.spec_file_name()).levels);
        pack
    }
}

/// The number of worlds the first levels start grows with the number of levels.
proof fn lemma_worlds_upto_grows(ls: Seq<EditorLevelModel>, i: int, n: int)
    requires
        0 <= i <= n,
    ensures
        worlds_upto(ls, i).len() <= worlds_upto(ls, n).len(),
    decreases n - i,
{
    if i < n {
        lemma_worlds_upto_grows(ls, i, n - 1);
    }
}

/// A position that a byte can hold each coordinate of.
pub open spec fn pos_in_bytes(p: TilePos) -> bool {
    0 <= p.0 <= 255 && 0 <= p.1 <= 255
}

/// A level being edited that is saved without loss: it is well formed, no door is being
/// placed, it is to be prepared for drawing, and everything in it is at a position that
/// bytes can hold.
pub open spec fn saved_without_loss(l: EditorLevelModel) -> bool {
    &&& l.wf()
    &&& l.door_start is None
    &&& l.should_update_render_data
    &&& pos_in_bytes(l.spawn)
    &&& pos_in_bytes(l.finish)
    &&& forall|i: int| 0 <= i < l.checkpoints.len() ==> pos_in_bytes(#[trigger] l.checkpoints[i])
    &&& forall|i: int| 0 <= i < l.signs.len() ==> pos_in_bytes(#[trigger] l.signs[i].0)
    &&& forall|i: int| 0 <= i < l.doors.len() ==> pos_in_bytes(#[trigger] l.doors[i].1) && pos_in_bytes(l.doors[i].2)
    &&& forall|i: int| 0 <= i < l.entities.len() ==> pos_in_bytes(#[trigger] l.entities[i].0)
}

proof fn lemma_pos_roundtrip(p: TilePos)
    requires
        pos_in_bytes(p),
    ensures
        spec_tile_pos(spec_level_pos(p)) == p,
{
}

/// Saving a level being edited and opening it again gives it back, with the world name it
/// is opened with.
pub proof fn lemma_level_editor_roundtrip(l: EditorLevelModel, world: u8, world_name: Seq<char>)
    requires
        saved_without_loss(l),
    ensures
        editor_from_level(level_from_editor(l, world), world_name) == (EditorLevelModel { world: world_name, ..l }),
{
    let s = level_from_editor(l, world);
    let e = editor_from_level(s, world_name);
    assert(e.checkpoints =~= l.checkpoints) by {
        assert forall|i: int| 0 <= i < l.checkpoints.len() implies e.checkpoints[i] == l.checkpoints[i] by {
            lemma_pos_roundtrip(l.checkpoints[i]);
        }
    }
    assert(e.signs =~= l.signs) by {
        assert forall|i: int| 0 <= i < l.signs.len() implies e.signs[i] == l.signs[i] by {
            lemma_pos_roundtrip(l.signs[i].0);
        }
    }
    assert(e.doors =~= l.doors) by {
        assert forall|i: int| 0 <= i < l.doors.len() implies e.doors[i] == l.doors[i] by {
            lemma_pos_roundtrip(l.doors[i].1);
            lemma_pos_roundtrip(l.doors[i].2);
        }
    }
    assert(e.entities =~= l.entities) by {
        assert forall|i: int| 0 <= i < l.entities.len() implies e.entities[i] == l.entities[i] by {
            lemma_pos_roundtrip(l.entities[i].0);
        }
    }
    lemma_pos_roundtrip(l.spawn);
    lemma_pos_roundtrip(l.finish);
}

/// The worlds the first levels start are the first of the worlds that more levels start.
proof fn lemma_worlds_upto_prefix(ls: Seq<EditorLevelModel>, i: int, n: int, k: int)
    requires
        0 <= i <= n <= ls.len(),
        0 <= k < worlds_upto(ls, i).len(),
    ensures
        worlds_upto(ls, n)[k] == worlds_upto(ls, i)[k],
    decreases n - i,
{
    if i < n {
        lemma_worlds_upto_grows(ls, i, n - 1);
        lemma_worlds_upto_prefix(ls, i, n - 1, k);
    }
}

/// Each level of a saved pack is opened with the world name it was saved with.
proof fn lemma_opened_world_name(p: EditorLevelPackModel, i: int)
    requires
        0 <= i < p.levels.len(),
        worlds_upto(p.levels, p.levels.len() as int).len() <= 255,
    ensures
        opened_world_name(pack_from_editor(p), i) == p.levels[i].world,
{
    let ls = p.levels;
    let n = ls.len() as int;
    let sp = pack_from_editor(p);
    lemma_worlds_upto_grows(ls, i + 1, n);
    lemma_worlds_upto_grows(ls, i, n);
    let w = worlds_upto(ls, i + 1).len();
    assert(sp.levels[i].world == w as u8);
    let prev = worlds_upto(ls, i).len();
    if i > 0 {
        assert(sp.levels[i - 1].world == prev as u8);
    }
    if ls[i].world.len() > 0 {
        assert(w == prev + 1);
        lemma_worlds_upto_prefix(ls, i + 1, n, w - 1);
        assert(worlds_upto(ls, i + 1)[w - 1] == ls[i].world);
    } else {
        assert(w == prev);
        assert(ls[i].world =~= Seq::<char>::empty());
    }
}

/// Saving a pack being edited and opening it again gives it back with its first level open,
/// when its levels are saved without loss and it starts at most 255 worlds.
pub proof fn lemma_editor_pack_roundtrip(p: EditorLevelPackModel)
    requires
        p.wf(),
        worlds_upto(p.levels, p.levels.len() as int).len() <= 255,
        forall|i: int| 0 <= i < p.levels.len() ==> saved_without_loss(#[trigger] p.levels[i]),
    ensures
        editor_pack_from(pack_from_editor(p), p.file_name) == (EditorLevelPackModel { current: 0, ..p }),
{
    let sp = pack_from_editor(p);
    let e = editor_pack_from(sp, p.file_name);
    assert forall|i: int| 0 <= i < p.levels.len() implies e.levels[i] == p.levels[i] by {
        lemma_opened_world_name(p, i);
        let l = p.levels[i];
        lemma_level_editor_roundtrip(l, worlds_upto(p.levels, i + 1).len() as u8, l.world);
        assert((EditorLevelModel { world: l.world, ..l }) == l);
    }
    assert(e.levels =~= p.levels);
}

/// Saving any pack being edited that starts at most 255 worlds and opening it again keeps its
/// file name, name, author and number of levels, and gives every level the world name it had;
/// the first level is open.
pub proof fn lemma_world_names_roundtrip(p: EditorLevelPackModel)
    requires
        worlds_upto(p.levels, p.levels.len() as int).len() <= 255,
    ensures
        ({
            let e = editor_pack_from(pack_from_editor(p), p.file_name);
            &&& e.file_name == p.file_name
            &&& e.name == p.name
            &&& e.author == p.author
            &&& e.current == 0
            &&& e.levels.len() == p.levels.len()
            &&& forall|i: int| 0 <= i < p.levels.len() ==> #[trigger] e.levels[i].world == p.levels[i].world
        }),
{
    let e = editor_pack_from(pack_from_editor(p), p.file_name);
    assert forall|i: int| 0 <= i < p.levels.len() implies #[trigger] e.levels[i].world == p.levels[i].world by {
        lemma_opened_world_name(p, i);
    }
}

/// The levels of a saved pack have full tile grids, and their worlds come in order.
pub proof fn lemma_pack_from_editor_ok(p: EditorLevelPackModel)
    requires
        worlds_upto(p.levels, p.levels.len() as int).len() <= 255,
        forall|i: int| 0 <= i < p.levels.len() ==> (#[trigger] p.levels[i]).wf(),
    ensures
        pack_grids_ok(pack_from_editor(p)),
        worlds_in_order(pack_from_editor(p)),
{
    let sp = pack_from_editor(p);
    assert forall|i: int| 0 < i < sp.levels.len() && #[trigger] sp.levels[i].world == 0 implies sp.levels[i - 1].world == 0 by {
        lemma_worlds_upto_grows(p.levels, i, i + 1);
        lemma_worlds_upto_grows(p.levels, i + 1, p.levels.len() as int);
    }
}

/// The level played from a saved level: nothing pending, no checkpoint touched, and the
/// entities listed by position, a later entity at a position replacing an earlier one.
pub open spec fn played_from_level(l: LevelModel) -> PlayedLevelModel {
    PlayedLevelModel {
        bg_col: l.bg_col,
        width: l.width as int,
        height: l.height as int,
        tiles: l.tiles,
        tiles_bg: l.tiles_bg,
        new_on_off_state: None,
        checkpoint: None,
        should_update_render_data: true,
        spawn: spec_tile_pos(l.spawn),
        finish: spec_tile_pos(l.finish),
        checkpoints: l.checkpoints.map_values(|p: LevelPosition| spec_tile_pos(p)),
        signs: l.signs.map_values(|s: (LevelPosition, Seq<Seq<char>>)| (spec_tile_pos(s.0), s.1, false)),
        doors: l.doors.map_values(|d: (DoorKind, LevelPosition, LevelPosition)| (d.0, spec_tile_pos(d.1), spec_tile_pos(d.2))),
        entity_spawns: spawns_from(l.entities),
    }
}

/// Adding an entity keeps the positions of the spawns distinct.
proof fn lemma_insert_spawn_distinct(m: Seq<(LevelPosition, EntityKind)>, e: (LevelPosition, EntityKind))
    requires
        keys_distinct(m),
    ensures
        keys_distinct(insert_spawn(m, e)),
{
    let r = insert_spawn(m, e);
    if exists|k: int| 0 <= k < m.len() && m[k].0 == e.0 {
        let k = choose|k: int| 0 <= k < m.len() && m[k].0 == e.0;
        assert forall|i: int, j: int| 0 <= i < j < r.len() implies #[trigger] r[i].0 != #[trigger] r[j].0 by {
            if i != k && j != k {
                assert(r[i] == m[i] && r[j] == m[j]);
            } else if i == k {
                assert(r[j] == m[j]);
            } else {
                assert(r[i] == m[i]);
            }
        }
    } else {
        assert forall|i: int, j: int| 0 <= i < j < r.len() implies #[trigger] r[i].0 != #[trigger] r[j].0 by {
            if j < m.len() {
                assert(r[i] == m[i] && r[j] == m[j]);
            } else {
                assert(r[i] == m[i]);
            }
        }
    }
}

impl LevelData {
    /// The level played from this level (see `played_from_level`).
    pub fn to_level(&self) -> (res: Level)
        requires
            level_grids_ok(self@),
        ensures
            res@ == played_from_level(self@),
            res@.wf(),
    {
        let ghost l = self@;
        // checkpoints
        let mut checkpoints: Vec<TilePos> = Vec::new();
        let mut i: usize = 0;
        while i < self.checkpoints.len()
            invariant
                i <= self.checkpoints@.len(),
                checkpoints@ == self.checkpoints@.take(i as int).map_values(|p: LevelPosition| spec_tile_pos(p)),
            decreases self.checkpoints@.len() - i,
        {
            checkpoints.push(level_pos_to_pos(self.checkpoints[i]));
            i += 1;
            assert(checkpoints@ =~= self.checkpoints@.take(i as int).map_values(|p: LevelPosition| spec_tile_pos(p)));
        }
        assert(self.checkpoints@.take(self.checkpoints@.len() as int) =~= self.checkpoints@);
        // signs
        let mut signs: Vec<Sign> = Vec::new();
        let mut i: usize = 0;
        while i < self.signs.len()
            invariant
                i <= self.signs@.len(),
                l == self@,
                signs@.len() == i,
                forall|j: int| 0 <= j < i ==> #[trigger] sign_view(signs@[j]) == (
                    spec_tile_pos(self.signs@[j].0),
                    sign_model(self.signs@[j]).1,
                    false,
                ),
            decreases self.signs@.len() - i,
        {
            let lines = copy_lines(&self.signs[i].1);
            signs.push(Sign::new(level_pos_to_pos(self.signs[i].0), lines));
            i += 1;
        }
        assert(signs@.map_values(|s: Sign| sign_view(s)) =~= l.signs.map_values(
            |s: (LevelPosition, Seq<Seq<char>>)| (spec_tile_pos(s.0), s.1, false),
        ));
        // doors
        let mut doors: Vec<Door> = Vec::new();
        let mut i: usize = 0;
        while i < self.doors.len()
            invariant
                i <= self.doors@.len(),
                doors@.len() == i,
                forall|j: int| 0 <= j < i ==> #[trigger] door_view(doors@[j]) == (
                    self.doors@[j].0,
                    spec_tile_pos(self.doors@[j].1),
                    spec_tile_pos(self.doors@[j].2),
                ),
            decreases self.doors@.len() - i,
        {
            let d = self.doors[i];
            doors.push(Door::new(d.0, level_pos_to_pos(d.1), level_pos_to_pos(d.2)));
            i += 1;
        }
        assert(doors@.map_values(|d: Door| door_view(d)) =~= self.doors@.map_values(
            |d: (DoorKind, LevelPosition, LevelPosition)| (d.0, spec_tile_pos(d.1), spec_tile_pos(d.2)),
        ));
        // entity spawns
        let mut spawns: Vec<(LevelPosition, EntityKind)> = Vec::new();
        let mut i: usize = 0;
        while i < self.entities.len()
            invariant
                i <= self.entities@.len(),
                spawns@ == spawns_from(self.entities@.take(i as int)),
                keys_distinct(spawns@),
            decreases self.entities@.len() - i,
        {
            let e = self.entities[i];
            let ghost before = spawns@;
            assert(self.entities@.take(i + 1).drop_last() =~= self.entities@.take(i as int));
            assert(self.entities@.take(i + 1).last() == e);
            proof {
                lemma_insert_spawn_distinct(before, e);
            }
            let mut k: usize = 0;
            let mut found = false;
            while !found && k < spawns.len()
                invariant
                    k <= spawns@.len(),
                    spawns@ == before,
                    found ==> k < before.len() && before[k as int].0 == e.0,
                    !found ==> forall|j: int| 0 <= j < k ==> before[j].0 != e.0,
                decreases spawns@.len() - k + (if found { 0int } else { 1int }),
            {
                if spawns[k].0.0 == e.0.0 && spawns[k].0.1 == e.0.1 {
                    found = true;
                } else {
                    k += 1;
                }
            }
            if found {
                proof {
                    let c = choose|c: int| 0 <= c < before.len() && before[c].0 == e.0;
                    if c != k {
                        assert(before[c].0 == before[k as int].0);
                    }
                }
                spawns.set(k, e);
            } else {
                spawns.push(e);
            }
            i += 1;
        }
        assert(self.entities@.take(self.entities@.len() as int) =~= self.entities@);
        let level = Level::new(
            self.bg_col,
            self.width as usize,
            self.height as usize,
            copy_tiles(&self.tiles),
            copy_tiles(&self.tiles_bg),
            level_pos_to_pos(self.spawn),
            level_pos_to_pos(self.finish),
            checkpoints,
            signs,
            doors,
            spawns,
        );
        level
    }
}

} // verus!
