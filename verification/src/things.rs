use vstd::prelude::*;

use crate::editor_level::TilePos;

verus! {

/// What a door does: a plain door, a teleporter, or a teleporter without a fade.
#[derive(Clone, Copy, PartialEq, Eq, Structural, Debug, Hash)]
pub enum DoorKind {
    Door,
    Teleporter,
    SeamlessTeleporter,
}

/// The byte a door kind is saved as.
pub open spec fn door_kind_to_byte(k: DoorKind) -> u8 {
    match k {
        DoorKind::Door => 0,
        DoorKind::Teleporter => 1,
        DoorKind::SeamlessTeleporter => 2,
    }
}

/// The door kind a byte is read as, if it names one.
pub open spec fn door_kind_from_byte(b: u8) -> Option<DoorKind> {
    if b == 0 {
        Some(DoorKind::Door)
    } else if b == 1 {
        Some(DoorKind::Teleporter)
    } else if b == 2 {
        Some(DoorKind::SeamlessTeleporter)
    } else {
        None
    }
}

impl From<DoorKind> for u8 {
    fn from(value: DoorKind) -> (res: u8) {
        match value {
            DoorKind::Door => 0,
            DoorKind::Teleporter => 1,
            DoorKind::SeamlessTeleporter => 2,
        }
    }
}

impl vstd::std_specs::convert::FromSpecImpl<DoorKind> for u8 {
    open spec fn obeys_from_spec() -> bool {
        true
    }

    open spec fn from_spec(v: DoorKind) -> u8 {
        door_kind_to_byte(v)
    }
}

impl TryFrom<u8> for DoorKind {
    type Error = ();

    fn try_from(value: u8) -> (res: Result<DoorKind, ()>) {
        match value {
            0 => Ok(DoorKind::Door),
            1 => Ok(DoorKind::Teleporter),
            2 => Ok(DoorKind::SeamlessTeleporter),
            _ => Err(()),
        }
    }
}

impl vstd::std_specs::convert::TryFromSpecImpl<u8> for DoorKind {
    open spec fn obeys_try_from_spec() -> bool {
        true
    }

    open spec fn try_from_spec(v: u8) -> Result<DoorKind, ()> {
        match door_kind_from_byte(v) {
            Some(k) => Ok(k),
            None => Err(()),
        }
    }
}

/// Every door kind is read back from the byte it is saved as.
pub proof fn lemma_door_kind_roundtrip(k: DoorKind)
    ensures
        door_kind_from_byte(door_kind_to_byte(k)) == Some(k),
{
}

/// A byte that loads as a door kind is saved back as the same byte.
pub proof fn lemma_door_kind_inverse(b: u8)
    ensures
        door_kind_from_byte(b) matches Some(k) ==> door_kind_to_byte(k) == b,
{
}

/// A sign in a level being played: where it is (in tiles), its four lines, and whether the
/// player has read it.
pub struct Sign {
    pos: TilePos,
    lines: [String; 4],
    read: bool,
}

impl Sign {
    pub closed spec fn spec_pos(&self) -> TilePos {
        self.pos
    }

    pub closed spec fn spec_lines(&self) -> Seq<Seq<char>> {
        self.lines@.map_values(|l: String| l@)
    }

    pub closed spec fn spec_read(&self) -> bool {
        self.read
    }

    /// An unread sign.
    pub fn new(pos: TilePos, lines: [String; 4]) -> (res: Sign)
        ensures
            res.spec_pos() == pos,
            res.spec_lines() == lines@.map_values(|l: String| l@),
            !res.spec_read(),
    {
        Sign { pos, lines, read: false }
    }

    pub fn pos(&self) -> (res: TilePos)
        ensures
            res == self.spec_pos(),
    {
        self.pos
    }

    pub fn lines(&self) -> (res: &[String; 4])
        ensures
            res@.map_values(|l: String| l@) == self.spec_lines(),
    {
        &self.lines
    }

    pub fn read(&self) -> (res: bool)
        ensures
            res == self.spec_read(),
    {
        self.read
    }

    pub fn set_read(&mut self, read: bool)
        ensures
            final(self).spec_read() == read,
            final(self).spec_pos() == old(self).spec_pos(),
            final(self).spec_lines() == old(self).spec_lines(),
    {
        self.read = read;
    }
}

/// A door in a level being played: its kind, and where it is and leads (in tiles).
#[derive(Clone, Copy, Debug)]
pub struct Door {
    kind: DoorKind,
    pos: TilePos,
    dest: TilePos,
}

impl Door {
    pub closed spec fn spec_kind(&self) -> DoorKind {
        self.kind
    }

    pub closed spec fn spec_pos(&self) -> TilePos {
        self.pos
    }

    pub closed spec fn spec_dest(&self) -> TilePos {
        self.dest
    }

    pub fn new(kind: DoorKind, pos: TilePos, dest: TilePos) -> (res: Door)
        ensures
            res.spec_kind() == kind,
            res.spec_pos() == pos,
            res.spec_dest() == dest,
    {
        Door { kind, pos, dest }
    }

    pub fn kind(&self) -> (res: DoorKind)
        ensures
            res == self.spec_kind(),
    {
        self.kind
    }

    pub fn pos(&self) -> (res: TilePos)
        ensures
            res == self.spec_pos(),
    {
        self.pos
    }

    pub fn dest(&self) -> (res: TilePos)
        ensures
            res == self.spec_dest(),
    {
        self.dest
    }
}

} // verus!
