//! The main menu: its submenus, and where a pack goes in the list of packs.
use vstd::prelude::*;
use vstd::string::StrSliceExecFns;

verus! {

/// The submenu shown over the main menu, if any.
#[derive(PartialEq, Eq, Structural, Clone, Copy, Debug)]
pub enum SubmenuState {
    Closed,
    Help,
    Credits,
}

/// A submenu of the main menu, closed with its back button.
pub struct Submenu {
    state: SubmenuState,
}

impl Submenu {
    /// No submenu shown.
    pub fn new() -> (res: Submenu)
        ensures
            res.spec_state() == SubmenuState::Closed,
    {
        Submenu { state: SubmenuState::Closed }
    }

    pub closed spec fn spec_state(&self) -> SubmenuState {
        self.state
    }

    /// The submenu shown.
    pub fn state(&self) -> (res: SubmenuState)
        ensures
            res == self.spec_state(),
    {
        self.state
    }

    /// Whether a submenu is shown.
    pub fn is_some(&self) -> (res: bool)
        ensures
            res == (self.spec_state() != SubmenuState::Closed),
    {
        self.state != SubmenuState::Closed
    }

    /// Shows a submenu (or none).
    pub fn set_submenu_state(&mut self, state: SubmenuState)
        ensures
            final(self).spec_state() == state,
    {
        self.state = state;
    }

    /// Updates a frame: a shown submenu closes when its back button was released.
    pub fn update(&mut self, back_released: bool)
        ensures
            final(self).spec_state() == (if back_released { SubmenuState::Closed } else { old(self).spec_state() }),
    {
        if self.state != SubmenuState::Closed {
            if back_released {
                self.state = SubmenuState::Closed;
            }
        }
    }
}

impl Default for Submenu {
    /// See `new`.
    fn default() -> (res: Submenu)
        ensures
            res.spec_state() == SubmenuState::Closed,
    {
        Submenu::new()
    }
}

/// Whether `a` comes before `b` in alphabetical order: character by character, a shorter text
/// before a longer one that starts with it. (This is also the order of their UTF-8 bytes.)
pub open spec fn chars_lt(a: Seq<char>, b: Seq<char>) -> bool
    decreases a.len(),
{
    if b.len() == 0 {
        false
    } else if a.len() == 0 {
        true
    } else if a[0] != b[0] {
        (a[0] as u32) < (b[0] as u32)
    } else {
        chars_lt(a.drop_first(), b.drop_first())
    }
}

/// How many of the first `k` names come before `name`.
pub open spec fn count_before(list: Seq<Seq<char>>, name: Seq<char>, k: int) -> nat
    decreases k,
{
    if k <= 0 {
        0
    } else {
        count_before(list, name, k - 1) + if chars_lt(list[k - 1], name) { 1nat } else { 0nat }
    }
}

/// Whether `a` comes before `b` (see `chars_lt`).
fn str_lt(a: &String, b: &String) -> (res: bool)
    ensures
        res == chars_lt(a@, b@),
{
    let la = a.as_str().unicode_len();
    let lb = b.as_str().unicode_len();
    let mut i: usize = 0;
    assert(a@.skip(0) =~= a@);
    assert(b@.skip(0) =~= b@);
    while i < la && i < lb
        invariant
            la == a@.len(),
            lb == b@.len(),
            i <= la,
            i <= lb,
            chars_lt(a@, b@) == chars_lt(a@.skip(i as int), b@.skip(i as int)),
        decreases la - i,
    {
        let ca = a.as_str().get_char(i);
        let cb = b.as_str().get_char(i);
        assert(a@.skip(i as int)[0] == ca);
        assert(b@.skip(i as int)[0] == cb);
        if ca != cb {
            return (ca as u32) < (cb as u32);
        }
        assert(a@.skip(i as int).drop_first() =~= a@.skip(i + 1));
        assert(b@.skip(i as int).drop_first() =~= b@.skip(i + 1));
        i += 1;
    }
    i < lb
}

/// The pack to select in the list of packs: the first (0) without a name; the place of the
/// pack with that name; otherwise the one just before where it would go in alphabetical order
/// (the number of packs before it, less one, and at least 0).
pub fn index_in_pack(pack_name: Option<String>, pack_list: &Vec<String>) -> (res: usize)
    ensures
        pack_name is None ==> res == 0,
        pack_name matches Some(n) ==> {
            let names = pack_list@.map_values(|s: String| s@);
            if exists|i: int| 0 <= i < names.len() && names[i] == n@ {
                &&& res < names.len()
                &&& names[res as int] == n@
                &&& forall|j: int| 0 <= j < res ==> names[j] != n@
            } else {
                res == (if count_before(names, n@, names.len() as int) == 0 {
                    0
                } else {
                    count_before(names, n@, names.len() as int) - 1
                })
            }
        },
{
    let name = match pack_name {
        Some(p) => p,
        None => return 0,
    };
    let ghost names = pack_list@.map_values(|s: String| s@);
    let mut i: usize = 0;
    while i < pack_list.len()
        invariant
            i <= pack_list@.len(),
            pack_name == Some(name),
            names == pack_list@.map_values(|s: String| s@),
            forall|j: int| 0 <= j < i ==> names[j] != name@,
        decreases pack_list@.len() - i,
    {
        assert(names[i as int] == pack_list@[i as int]@);
        if name == pack_list[i] {
            return i;
        }
        i += 1;
    }
    let mut count: usize = 0;
    let mut k: usize = 0;
    while k < pack_list.len()
        invariant
            k <= pack_list@.len(),
            pack_name == Some(name),
            forall|j: int| 0 <= j < pack_list@.len() ==> names[j] != name@,
            names == pack_list@.map_values(|s: String| s@),
            count == count_before(names, name@, k as int),
            count <= k,
        decreases pack_list@.len() - k,
    {
        assert(names[k as int] == pack_list@[k as int]@);
        if str_lt(&pack_list[k], &name) {
            count += 1;
        }
        k += 1;
    }
    if count == 0 {
        0
    } else {
        count - 1
    }
}

} // verus!
