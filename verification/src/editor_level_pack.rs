//! A level pack being edited: its levels in order, and which of them is open.
use vstd::prelude::*;

use crate::editor_level::{default_level, EditorLevel, EditorLevelModel};

verus! {

/// The most levels a pack being edited may hold.
pub const MAX_LEVELS: usize = 99;

/// The contents of a level pack being edited.
pub struct EditorLevelPackModel {
    pub file_name: Seq<char>,
    pub name: Seq<char>,
    pub author: Seq<char>,
    pub levels: Seq<EditorLevelModel>,
    /// the index of the level that is open
    pub current: int,
}

impl EditorLevelPackModel {
    /// The pack holds at least one level, and the open level is one of them.
    pub open spec fn wf(self) -> bool {
        &&& 1 <= self.levels.len()
        &&& 0 <= self.current < self.levels.len()
    }
}

/// The models of some levels being edited.
pub open spec fn editor_level_models(ls: Seq<EditorLevel>) -> Seq<EditorLevelModel> {
    ls.map_values(|l: EditorLevel| l@)
}

/// The pack with another open level.
pub open spec fn with_current(p: EditorLevelPackModel, current: int) -> EditorLevelPackModel {
    EditorLevelPackModel { current, ..p }
}

/// The pack with other levels and another open level.
pub open spec fn with_levels(p: EditorLevelPackModel, levels: Seq<EditorLevelModel>, current: int) -> EditorLevelPackModel {
    EditorLevelPackModel { levels, current, ..p }
}

/// The levels with the ones at `i` and `i + 1` swapped.
pub open spec fn swap_adjacent(ls: Seq<EditorLevelModel>, i: int) -> Seq<EditorLevelModel> {
    ls.update(i, ls[i + 1]).update(i + 1, ls[i])
}


/// The pack after a new level is added just after the open one, which it then becomes; a pack
/// that holds `MAX_LEVELS` levels stays as it is.
pub open spec fn added_level(p: EditorLevelPackModel) -> EditorLevelPackModel {
    if p.levels.len() < MAX_LEVELS {
        with_levels(p, p.levels.insert(p.current + 1, default_level()), p.current + 1)
    } else {
        p
    }
}

/// The pack with the next level open, if there is one.
pub open spec fn went_next(p: EditorLevelPackModel) -> EditorLevelPackModel {
    if p.current < p.levels.len() - 1 {
        with_current(p, p.current + 1)
    } else {
        p
    }
}

/// The pack with the previous level open, if there is one.
pub open spec fn went_prev(p: EditorLevelPackModel) -> EditorLevelPackModel {
    if p.current > 0 {
        with_current(p, p.current - 1)
    } else {
        p
    }
}

/// The pack with the open level moved one place later, if it is not the last.
pub open spec fn shifted_next(p: EditorLevelPackModel) -> EditorLevelPackModel {
    if p.current < p.levels.len() - 1 {
        with_levels(p, swap_adjacent(p.levels, p.current), p.current + 1)
    } else {
        p
    }
}

/// The pack with the open level moved one place earlier, if it is not the first.
pub open spec fn shifted_prev(p: EditorLevelPackModel) -> EditorLevelPackModel {
    if p.current > 0 {
        with_levels(p, swap_adjacent(p.levels, p.current - 1), p.current - 1)
    } else {
        p
    }
}

/// The pack without its open level; the level after it is opened, or the new last level when
/// it was the last. The only level of a pack is replaced by a new one.
pub open spec fn deleted_level(p: EditorLevelPackModel) -> EditorLevelPackModel {
    if p.levels.len() == 1 {
        with_levels(p, seq![default_level()], 0)
    } else {
        let levels = p.levels.remove(p.current);
        with_levels(p, levels, if p.current < levels.len() { p.current } else { levels.len() - 1 })
    }
}

/// A level pack being edited.
pub struct EditorLevelPack {
    file_name: String,
    name: String,
    author: String,
    levels: Vec<EditorLevel>,
    current: usize,
}

impl View for EditorLevelPack {
    type V = EditorLevelPackModel;

    closed spec fn view(&self) -> EditorLevelPackModel {
        EditorLevelPackModel {
            file_name: self.file_name@,
            name: self.name@,
            author: self.author@,
            levels: editor_level_models(self.levels@),
            current: self.current as int,
        }
    }
}

proof fn lemma_models_insert(ls: Seq<EditorLevel>, i: int, l: EditorLevel)
    requires
        0 <= i <= ls.len(),
    ensures
        editor_level_models(ls.insert(i, l)) == editor_level_models(ls).insert(i, l@),
{
    assert(editor_level_models(ls.insert(i, l)) =~= editor_level_models(ls).insert(i, l@));
}

proof fn lemma_models_remove(ls: Seq<EditorLevel>, i: int)
    requires
        0 <= i < ls.len(),
    ensures
        editor_level_models(ls.remove(i)) == editor_level_models(ls).remove(i),
{
    assert(editor_level_models(ls.remove(i)) =~= editor_level_models(ls).remove(i));
}

proof fn lemma_models_update(ls: Seq<EditorLevel>, i: int, l: EditorLevel)
    requires
        0 <= i < ls.len(),
    ensures
        editor_level_models(ls.update(i, l)) == editor_level_models(ls).update(i, l@),
{
    assert(editor_level_models(ls.update(i, l)) =~= editor_level_models(ls).update(i, l@));
}

impl EditorLevelPack {
    /// A pack with one new level, open, and no file name, name or author.
    pub fn new_default() -> (res: EditorLevelPack)
        ensures
            res@.wf(),
            res@.file_name == Seq::<char>::empty(),
            res@.name == Seq::<char>::empty(),
            res@.author == Seq::<char>::empty(),
            res@.levels.len() == 1,
            res@.levels[0] == default_level(),
            res@.current == 0,
    {
        let level = EditorLevel::new_default();
        let mut levels: Vec<EditorLevel> = Vec::new();
        levels.push(level);
        let pack = EditorLevelPack {
            file_name: String::new(),
            name: String::new(),
            author: String::new(),
            levels,
            current: 0,
        };
        assert(pack@.levels[0] == level@);
        pack
    }

    /// A pack with the given names and levels, with its first level open.
    pub fn new(file_name: String, name: String, author: String, levels: Vec<EditorLevel>) -> (res: EditorLevelPack)
        requires
            levels@.len() >= 1,
        ensures
            res@.wf(),
            res@.file_name == file_name@,
            res@.name == name@,
            res@.author == author@,
            res@.levels == editor_level_models(levels@),
            res@.current == 0,
    {
        EditorLevelPack { file_name, name, author, levels, current: 0 }
    }

    /// The name of the file the pack is saved to.
    pub fn file_name(&self) -> (res: &String)
        ensures
            res@ == self@.file_name,
    {
        &self.file_name
    }

    /// The name of the pack.
    pub fn name(&self) -> (res: &String)
        ensures
            res@ == self@.name,
    {
        &self.name
    }

    /// The author of the pack.
    pub fn author(&self) -> (res: &String)
        ensures
            res@ == self@.author,
    {
        &self.author
    }

    /// The levels of the pack, in order.
    pub fn levels(&self) -> (res: &Vec<EditorLevel>)
        ensures
            editor_level_models(res@) == self@.levels,
    {
        &self.levels
    }

    /// The index of the open level.
    pub fn current(&self) -> (res: usize)
        ensures
            res == self@.current,
    {
        self.current
    }

    /// How many levels the pack holds.
    pub fn level_count(&self) -> (res: usize)
        ensures
            res == self@.levels.len(),
    {
        self.levels.len()
    }

    /// The open level.
    pub fn editor_level(&self) -> (res: &EditorLevel)
        requires
            self@.wf(),
        ensures
            res@ == self@.levels[self@.current],
    {
        &self.levels[self.current]
    }

    /// Whether another level can be added.
    pub fn can_add(&self) -> (res: bool)
        ensures
            res == (self@.levels.len() < MAX_LEVELS),
    {
        self.levels.len() < MAX_LEVELS
    }

    /// Whether a level follows the open one.
    pub fn can_next(&self) -> (res: bool)
        requires
            self@.wf(),
        ensures
            res == (self@.current < self@.levels.len() - 1),
    {
        self.current < self.levels.len() - 1
    }

    /// Whether a level comes before the open one.
    pub fn can_prev(&self) -> (res: bool)
        ensures
            res == (self@.current > 0),
    {
        self.current > 0
    }

    /// Whether the open level can move one place later.
    pub fn can_shift_next(&self) -> (res: bool)
        requires
            self@.wf(),
        ensures
            res == (self@.current < self@.levels.len() - 1),
    {
        self.current < self.levels.len() - 1
    }

    /// Whether the open level can move one place earlier.
    pub fn can_shift_prev(&self) -> (res: bool)
        ensures
            res == (self@.current > 0),
    {
        self.current > 0
    }

    /// Adds a new level after the open one and opens it (see `added_level`).
    pub fn add_level(&mut self)
        requires
            old(self)@.wf(),
        ensures
            final(self)@ == added_level(old(self)@),
            final(self)@.wf(),
    {
        let n = self.levels.len();
        if self.can_add() {
            assert(self.current < n);
            self.current += 1;
            let level = EditorLevel::new_default();
            proof {
                lemma_models_insert(self.levels@, self.current as int, level);
            }
            self.levels.insert(self.current, level);
        }
    }

    /// Opens the next level (see `went_next`).
    pub fn next(&mut self)
        requires
            old(self)@.wf(),
        ensures
            final(self)@ == went_next(old(self)@),
            final(self)@.wf(),
    {
        let n = self.levels.len();
        if self.can_next() {
            assert(self.current + 1 < n);
            self.current += 1;
        }
    }

    /// Opens the previous level (see `went_prev`).
    pub fn prev(&mut self)
        requires
            old(self)@.wf(),
        ensures
            final(self)@ == went_prev(old(self)@),
            final(self)@.wf(),
    {
        if self.can_prev() {
            self.current -= 1;
        }
    }

    /// Swaps the levels at `i` and `i + 1`.
    fn swap_levels(&mut self, i: usize)
        requires
            i + 1 < old(self).levels@.len(),
        ensures
            final(self).levels@.len() == old(self).levels@.len(),
            editor_level_models(final(self).levels@) == swap_adjacent(editor_level_models(old(self).levels@), i as int),
            final(self).current == old(self).current,
            final(self).file_name == old(self).file_name,
            final(self).name == old(self).name,
            final(self).author == old(self).author,
    {
        let ghost before = self.levels@;
        let n = self.levels.len();
        assert(i + 1 < n);
        let later = self.levels.remove(i + 1);
        proof {
            lemma_models_remove(before, i + 1);
        }
        let ghost mid = self.levels@;
        self.levels.insert(i, later);
        proof {
            lemma_models_insert(mid, i as int, later);
            assert(editor_level_models(self.levels@) =~= swap_adjacent(editor_level_models(before), i as int));
        }
    }

    /// Moves the open level one place later (see `shifted_next`).
    pub fn shift_next(&mut self)
        requires
            old(self)@.wf(),
        ensures
            final(self)@ == shifted_next(old(self)@),
            final(self)@.wf(),
    {
        let n = self.levels.len();
        if self.can_shift_next() {
            assert(self.current + 1 < n);
            self.swap_levels(self.current);
            self.current += 1;
        }
    }

    /// Moves the open level one place earlier (see `shifted_prev`).
    pub fn shift_prev(&mut self)
        requires
            old(self)@.wf(),
        ensures
            final(self)@ == shifted_prev(old(self)@),
            final(self)@.wf(),
    {
        if self.can_shift_prev() {
            self.swap_levels(self.current - 1);
            self.current -= 1;
        }
    }

    /// Deletes the open level (see `deleted_level`).
    pub fn delete_level(&mut self)
        requires
            old(self)@.wf(),
        ensures
            final(self)@ == deleted_level(old(self)@),
            final(self)@.wf(),
    {
        if self.levels.len() == 1 {
            self.current = 0;
            self.levels.clear();
            let level = EditorLevel::new_default();
            self.levels.push(level);
            assert(editor_level_models(self.levels@) =~= seq![default_level()]);
            return;
        }
        proof {
            lemma_models_remove(self.levels@, self.current as int);
        }
        self.levels.remove(self.current);
        if self.current > self.levels.len() - 1 {
            self.current = self.levels.len() - 1;
        }
    }

    /// The name of the file the pack is saved to, to be edited.
    pub fn file_name_mut(&mut self) -> (res: &mut String)
        ensures
            res@ == old(self)@.file_name,
            final(self)@ == (EditorLevelPackModel { file_name: final(res)@, ..old(self)@ }),
    {
        &mut self.file_name
    }

    /// The name of the pack, to be edited.
    pub fn name_mut(&mut self) -> (res: &mut String)
        ensures
            res@ == old(self)@.name,
            final(self)@ == (EditorLevelPackModel { name: final(res)@, ..old(self)@ }),
    {
        &mut self.name
    }

    /// The author of the pack, to be edited.
    pub fn author_mut(&mut self) -> (res: &mut String)
        ensures
            res@ == old(self)@.author,
            final(self)@ == (EditorLevelPackModel { author: final(res)@, ..old(self)@ }),
    {
        &mut self.author
    }

    /// The open level, to be edited.
    pub fn editor_level_mut(&mut self) -> (res: &mut EditorLevel)
        requires
            old(self)@.wf(),
        ensures
            res@ == old(self)@.levels[old(self)@.current],
            final(self)@ == with_levels(
                old(self)@,
                old(self)@.levels.update(old(self)@.current, final(res)@),
                old(self)@.current,
            ),
    {
        let cur = self.current;
        let r = &mut self.levels[cur];
        proof {
            lemma_models_update(old(self).levels@, cur as int, *final(r));
        }
        r
    }
}

impl Default for EditorLevelPack {
    /// A pack with one new level (see `new_default`).
    fn default() -> (res: EditorLevelPack)
        ensures
            res@.wf(),
            res@.file_name == Seq::<char>::empty(),
            res@.name == Seq::<char>::empty(),
            res@.author == Seq::<char>::empty(),
            res@.levels == seq![default_level()],
            res@.current == 0,
    {
        let p = EditorLevelPack::new_default();
        assert(p@.levels =~= seq![default_level()]);
        p
    }
}

/// Moving the open level one place later and then one place earlier gives back the pack.
pub proof fn lemma_shift_next_then_prev(p: EditorLevelPackModel)
    requires
        p.wf(),
        p.current < p.levels.len() - 1,
    ensures
        shifted_prev(shifted_next(p)) == p,
{
    assert(swap_adjacent(swap_adjacent(p.levels, p.current), p.current) =~= p.levels);
}

/// Moving the open level one place earlier and then one place later gives back the pack.
pub proof fn lemma_shift_prev_then_next(p: EditorLevelPackModel)
    requires
        p.wf(),
        p.current > 0,
    ensures
        shifted_next(shifted_prev(p)) == p,
{
    assert(swap_adjacent(swap_adjacent(p.levels, p.current - 1), p.current - 1) =~= p.levels);
}

/// Opening the next level and then the previous one gives back the pack, and so does the
/// reverse.
pub proof fn lemma_next_prev(p: EditorLevelPackModel)
    requires
        p.wf(),
    ensures
        p.current < p.levels.len() - 1 ==> went_prev(went_next(p)) == p,
        p.current > 0 ==> went_next(went_prev(p)) == p,
{
}

/// Moving the open level keeps the levels of the pack, in another order, and keeps it open.
pub proof fn lemma_shift_keeps_levels(p: EditorLevelPackModel)
    requires
        p.wf(),
    ensures
        shifted_next(p).levels.to_multiset() == p.levels.to_multiset(),
        shifted_prev(p).levels.to_multiset() == p.levels.to_multiset(),
        shifted_next(p).levels[shifted_next(p).current] == p.levels[p.current],
        shifted_prev(p).levels[shifted_prev(p).current] == p.levels[p.current],
{
    lemma_swap_multiset(p.levels, p.current);
    lemma_swap_multiset(p.levels, p.current - 1);
}

proof fn lemma_swap_multiset(ls: Seq<EditorLevelModel>, i: int)
    ensures
        0 <= i < ls.len() - 1 ==> swap_adjacent(ls, i).to_multiset() == ls.to_multiset(),
{
    if 0 <= i < ls.len() - 1 {
        let a = ls[i];
        let b = ls[i + 1];
        let s1 = ls.update(i, b);
        vstd::seq_lib::to_multiset_update(ls, i, b);
        vstd::seq_lib::to_multiset_update(s1, i + 1, a);
        vstd::seq_lib::to_multiset_contains(ls, a);
        assert(ls.to_multiset().count(a) > 0);
        broadcast use vstd::multiset::group_multiset_axioms;
        assert(ls.to_multiset().insert(b).remove(a).insert(a).remove(b) =~= ls.to_multiset());
    }
}

/// Deleting the level that was just added gives back the levels of the pack, and adding a
/// level to a pack that has room makes it one level longer.
pub proof fn lemma_add_then_delete(p: EditorLevelPackModel)
    requires
        p.wf(),
        p.levels.len() < MAX_LEVELS,
    ensures
        added_level(p).levels.len() == p.levels.len() + 1,
        added_level(p).levels[added_level(p).current] == default_level(),
        deleted_level(added_level(p)).levels == p.levels,
{
    assert(p.levels.insert(p.current + 1, default_level()).remove(p.current + 1) =~= p.levels);
}

/// Deleting a level of a pack that holds more than one makes it one level shorter; deleting
/// the only level leaves one new level.
pub proof fn lemma_delete_count(p: EditorLevelPackModel)
    requires
        p.wf(),
    ensures
        p.levels.len() > 1 ==> deleted_level(p).levels.len() == p.levels.len() - 1,
        p.levels.len() == 1 ==> deleted_level(p).levels == seq![default_level()],
{
}

/// Deleting the open level of a pack with more than one level removes just that level and
/// opens the level that followed it, or the new last level when the deleted one was the last.
pub proof fn lemma_delete_opens_next(p: EditorLevelPackModel)
    requires
        p.wf(),
        p.levels.len() > 1,
    ensures
        ({
            let d = deleted_level(p);
            &&& d.levels == p.levels.remove(p.current)
            &&& d.levels.len() == p.levels.len() - 1
            &&& (p.current < p.levels.len() - 1 ==> d.current == p.current && d.levels[d.current] == p.levels[p.current
                + 1])
            &&& (p.current == p.levels.len() - 1 ==> d.current == p.current - 1 && d.levels[d.current]
                == p.levels[p.current - 1])
        }),
{
}

/// Going to the next or previous level keeps the levels and moves the open index by one,
/// unless there is no such level, when nothing changes; adding a level puts a new level just
/// after the open one, keeping the others in order, and opens it; shifting the open level swaps
/// it with its neighbour and keeps it open. None of them touches the names of the pack.
pub proof fn lemma_pack_moves(p: EditorLevelPackModel)
    requires
        p.wf(),
    ensures
        went_next(p).levels == p.levels,
        went_prev(p).levels == p.levels,
        went_next(p).current == (if p.current + 1 < p.levels.len() { p.current + 1 } else { p.current }),
        went_prev(p).current == (if p.current > 0 { p.current - 1 } else { p.current }),
        p.levels.len() < MAX_LEVELS ==> {
            let a = added_level(p);
            &&& a.current == p.current + 1
            &&& a.levels.len() == p.levels.len() + 1
            &&& a.levels[a.current] == default_level()
            &&& forall|j: int| 0 <= j <= p.current ==> #[trigger] a.levels[j] == p.levels[j]
            &&& forall|j: int| p.current < j < p.levels.len() ==> #[trigger] a.levels[j + 1] == p.levels[j]
        },
        p.levels.len() >= MAX_LEVELS ==> added_level(p) == p,
        p.current + 1 < p.levels.len() ==> {
            let q = shifted_next(p);
            &&& q.current == p.current + 1
            &&& q.levels.len() == p.levels.len()
            &&& q.levels[p.current + 1] == p.levels[p.current]
            &&& q.levels[p.current] == p.levels[p.current + 1]
            &&& forall|j: int| 0 <= j < p.levels.len() && j != p.current && j != p.current + 1 ==> #[trigger] q.levels[j]
                == p.levels[j]
        },
        p.current > 0 ==> {
            let q = shifted_prev(p);
            &&& q.current == p.current - 1
            &&& q.levels.len() == p.levels.len()
            &&& q.levels[p.current - 1] == p.levels[p.current]
            &&& q.levels[p.current] == p.levels[p.current - 1]
            &&& forall|j: int| 0 <= j < p.levels.len() && j != p.current && j != p.current - 1 ==> #[trigger] q.levels[j]
                == p.levels[j]
        },
        ({
            let d = deleted_level(p);
            &&& d.name == p.name && d.author == p.author && d.file_name == p.file_name
            &&& added_level(p).name == p.name && shifted_next(p).name == p.name && went_next(p).name == p.name
        }),
{
}

} // verus!
