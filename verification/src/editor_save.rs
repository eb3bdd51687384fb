//! Saving a pack in the editor and opening the file again gives back the pack.
use vstd::prelude::*;

use crate::codec::{pack_bytes, parse_pack};
use crate::editor_level::EditorLevelModel;
use crate::editor_level_pack::EditorLevelPackModel;
use crate::entity::entity_kind_is_canonical;
use crate::level_pack_data::{
    editor_pack_from, lemma_editor_pack_roundtrip, level_from_editor, pack_from_editor, saved_without_loss, worlds_upto,
};
use crate::roundtrip::{lemma_pack_roundtrip, level_ok, pack_ok, sign_ok, text_ok};
use crate::tile::tile_is_canonical;

verus! {

/// A level being edited that its file holds exactly: its name and world name are at most 22
/// characters the font can type, its tiles and entities survive the file format, it has at
/// most 255 checkpoints, doors and entities and at most 64 signs of four lines of at most 24
/// typable characters, and it is saved without loss (see `saved_without_loss`).
pub open spec fn level_saveable(l: EditorLevelModel, atlas: Seq<char>) -> bool {
    &&& saved_without_loss(l)
    &&& text_ok(l.name, 22, atlas)
    &&& text_ok(l.world, 22, atlas)
    &&& forall|i: int| 0 <= i < l.tiles.len() ==> tile_is_canonical(#[trigger] l.tiles[i])
    &&& forall|i: int| 0 <= i < l.tiles_bg.len() ==> tile_is_canonical(#[trigger] l.tiles_bg[i])
    &&& l.checkpoints.len() <= 255
    &&& l.signs.len() <= 64
    &&& forall|i: int| 0 <= i < l.signs.len() ==> #[trigger] l.signs[i].1.len() == 4 && forall|j: int|
        0 <= j < 4 ==> text_ok(#[trigger] l.signs[i].1[j], 24, atlas)
    &&& l.doors.len() <= 255
    &&& l.entities.len() <= 255
    &&& forall|i: int| 0 <= i < l.entities.len() ==> entity_kind_is_canonical(#[trigger] l.entities[i].1)
}

/// A pack being edited that its file holds exactly: its name and author are at most 22
/// characters the font can type, it holds from 1 to 99 levels that are saved exactly, and they
/// start at most 255 worlds.
pub open spec fn pack_saveable(p: EditorLevelPackModel, atlas: Seq<char>) -> bool {
    &&& p.wf()
    &&& text_ok(p.name, 22, atlas)
    &&& text_ok(p.author, 22, atlas)
    &&& p.levels.len() <= 99
    &&& worlds_upto(p.levels, p.levels.len() as int).len() <= 255
    &&& forall|i: int| 0 <= i < p.levels.len() ==> level_saveable(#[trigger] p.levels[i], atlas)
}

/// Each world that the first levels start is the world name of one of them.
proof fn lemma_worlds_upto_names(ls: Seq<EditorLevelModel>, n: int, k: int)
    requires
        0 <= n <= ls.len(),
        0 <= k < worlds_upto(ls, n).len(),
    ensures
        exists|i: int| 0 <= i < n && ls[i].world == #[trigger] worlds_upto(ls, n)[k],
    decreases n,
{
    if n > 0 {
        let prev = worlds_upto(ls, n - 1);
        if ls[n - 1].world.len() > 0 {
            if k < prev.len() {
                lemma_worlds_upto_names(ls, n - 1, k);
                let i = choose|i: int| 0 <= i < n - 1 && ls[i].world == prev[k];
                assert(ls[i].world == worlds_upto(ls, n)[k]);
            } else {
                assert(ls[n - 1].world == worlds_upto(ls, n)[k]);
            }
        } else {
            lemma_worlds_upto_names(ls, n - 1, k);
        }
    }
}

/// A level saved exactly is read back unchanged.
proof fn lemma_level_saveable_ok(l: EditorLevelModel, world: u8, atlas: Seq<char>)
    requires
        level_saveable(l, atlas),
    ensures
        level_ok(level_from_editor(l, world), atlas),
{
    let s = level_from_editor(l, world);
    assert(s.width as int == l.width && s.height as int == l.height);
    assert forall|i: int| 0 <= i < s.signs.len() implies sign_ok(#[trigger] s.signs[i], atlas) by {
        assert(s.signs[i].1 == l.signs[i].1);
    }
    assert forall|i: int| 0 <= i < s.entities.len() implies entity_kind_is_canonical(#[trigger] s.entities[i].1) by {
        assert(s.entities[i].1 == l.entities[i].1);
    }
}

/// A pack saved exactly is read back unchanged.
proof fn lemma_pack_saveable_ok(p: EditorLevelPackModel, atlas: Seq<char>)
    requires
        pack_saveable(p, atlas),
    ensures
        pack_ok(pack_from_editor(p), atlas),
{
    let s = pack_from_editor(p);
    let n = p.levels.len() as int;
    assert forall|k: int| 0 <= k < s.worlds.len() implies text_ok(#[trigger] s.worlds[k], 22, atlas) by {
        lemma_worlds_upto_names(p.levels, n, k);
        let i = choose|i: int| 0 <= i < n && p.levels[i].world == worlds_upto(p.levels, n)[k];
        assert(level_saveable(p.levels[i], atlas));
    }
    assert forall|i: int| 0 <= i < s.levels.len() implies level_ok(#[trigger] s.levels[i], atlas) by {
        lemma_level_saveable_ok(p.levels[i], worlds_upto(p.levels, i + 1).len() as u8, atlas);
    }
}

/// Saving a pack being edited to bytes, reading the bytes and opening the pack read gives
/// back the pack, with its first level open, when its file holds it exactly (see
/// `pack_saveable`).
pub proof fn lemma_editor_save_then_open(p: EditorLevelPackModel, atlas: Seq<char>)
    requires
        pack_saveable(p, atlas),
    ensures
        parse_pack(pack_bytes(pack_from_editor(p), atlas), atlas) == Some(pack_from_editor(p)),
        editor_pack_from(parse_pack(pack_bytes(pack_from_editor(p), atlas), atlas).unwrap(), p.file_name)
            == (EditorLevelPackModel { current: 0, ..p }),
{
    lemma_pack_saveable_ok(p, atlas);
    lemma_pack_roundtrip(pack_from_editor(p), atlas);
    lemma_editor_pack_roundtrip(p);
}

} // verus!
