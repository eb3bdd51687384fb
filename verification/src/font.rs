use vstd::prelude::*;

verus! {

/// Whether a character is ASCII.
pub open spec fn is_ascii_char(c: char) -> bool {
    (c as u32) < 128
}

/// The lowercase form of an ASCII letter; every other character is unchanged.
pub open spec fn ascii_lowercase(c: char) -> char {
    if 'A' <= c <= 'Z' {
        ((c as u32) + 32) as char
    } else {
        c
    }
}

/// The lowercase form of an ASCII letter; every other character is unchanged.
pub fn to_ascii_lowercase(c: char) -> (res: char)
    ensures
        res == ascii_lowercase(c),
{
    if 'A' <= c && c <= 'Z' {
        let b: u8 = c as u8;
        ((b + 32) as char)
    } else {
        c
    }
}

/// The characters of a font: the glyphs of its atlas, in atlas order.
pub struct FontData {
    atlas_chars: Vec<char>,
}

/// The two fonts of the game.
#[derive(Clone, Copy, PartialEq, Eq, Structural, Debug)]
pub enum Font {
    Large,
    Small,
}

/// Where text is drawn from the point it is given: from its start, its middle or its end.
#[derive(Clone, Copy, PartialEq, Eq, Structural, Debug)]
pub enum Align {
    Beg,
    Mid,
    End,
}

impl View for FontData {
    type V = Seq<char>;

    open spec fn view(&self) -> Seq<char> {
        self.spec_atlas_chars()
    }
}

/// A character the font can draw: its lowercase form is in the atlas.
pub open spec fn font_valid_char(atlas: Seq<char>, c: char) -> bool {
    atlas.contains(ascii_lowercase(c))
}

/// A character that may be typed and saved to files: drawable and ASCII.
pub open spec fn font_typable_char(atlas: Seq<char>, c: char) -> bool {
    font_valid_char(atlas, c) && is_ascii_char(c)
}

impl FontData {
    pub closed spec fn spec_atlas_chars(&self) -> Seq<char> {
        self.atlas_chars@
    }

    /// A font whose atlas holds the given characters, in order.
    pub fn new(atlas_chars: Vec<char>) -> (res: FontData)
        ensures
            res@ == atlas_chars@,
    {
        FontData { atlas_chars }
    }

    /// The characters of the atlas, in order.
    pub fn atlas_chars(&self) -> (res: &Vec<char>)
        ensures
            res@ == self@,
    {
        &self.atlas_chars
    }

    /// Whether the font can draw `c` (letters in either case).
    pub fn valid_char(&self, c: char) -> (res: bool)
        ensures
            res == font_valid_char(self@, c),
    {
        let l = to_ascii_lowercase(c);
        let mut i: usize = 0;
        while i < self.atlas_chars.len()
            invariant
                i <= self.atlas_chars@.len(),
                l == ascii_lowercase(c),
                forall|j: int| 0 <= j < i ==> self.atlas_chars@[j] != l,
            decreases self.atlas_chars@.len() - i,
        {
            if self.atlas_chars[i] == l {
                assert(self.atlas_chars@[i as int] == l);
                return true;
            }
            i += 1;
        }
        false
    }

    /// Whether `c` may be typed into names and signs and saved: drawable and ASCII.
    pub fn typable_char(&self, c: char) -> (res: bool)
        ensures
            res == font_typable_char(self@, c),
    {
        let v = self.valid_char(c);
        let a: u32 = c as u32;
        v && a < 128
    }
}

/// The characters of the large font's atlas.
pub open spec fn large_atlas() -> Seq<char> {
    seq![
        ' ',
            '0',
            '1',
            '2',
            '3',
            '4',
            '5',
            '6',
            '7',
            '8',
            '9',
            '!',
            '?',
            'a',
            'b',
            'c',
            'd',
            'e',
            'f',
            'g',
            'h',
            'i',
            'j',
            'k',
            'l',
            'm',
            'n',
            'o',
            'p',
            'q',
            'r',
            's',
            't',
            'u',
            'v',
            'w',
            'x',
            'y',
            'z',
            '[',
            ']',
            '(',
            ')',
            ':',
            ';',
            '.',
            ',',
            '*',
            '+',
            '-',
            '=',
            '/'
    ]
}

/// The characters of the small font's atlas.
pub open spec fn small_atlas() -> Seq<char> {
    seq![
        ' ',
            '0',
            '1',
            '2',
            '3',
            '4',
            '5',
            '6',
            '7',
            '8',
            '9',
            ':',
            ';',
            'a',
            'b',
            'c',
            'd',
            'e',
            'f',
            'g',
            'h',
            'i',
            'j',
            'k',
            'l',
            'm',
            'n',
            'o',
            'p',
            'q',
            'r',
            's',
            't',
            'u',
            'v',
            'w',
            'x',
            'y',
            'z',
            '(',
            ')',
            '[',
            ']',
            '<',
            '>',
            '!',
            '?',
            '.',
            ',',
            '"',
            '\'',
            '|',
            '\\',
            '/',
            '+',
            '-',
            '=',
            '*',
            '_',
            '\'',
            '@',
            '\u{a3}',
            '&',
            '\u{1fba4}',
            '\u{1fba5}',
            '\u{1fba7}',
            '\u{1fba6}',
            '\u{219e}',
            '\u{21a0}',
            '\u{25aa}',
            '\u{1f504}'
    ]
}

/// The two fonts' character sets.
pub struct FontDataManager {
    large: FontData,
    small: FontData,
}

impl FontDataManager {
    pub closed spec fn spec_large(&self) -> Seq<char> {
        self.large@
    }

    pub closed spec fn spec_small(&self) -> Seq<char> {
        self.small@
    }

    /// The fonts of the game.
    pub fn new() -> (res: FontDataManager)
        ensures
            res.spec_large() == large_atlas(),
            res.spec_small() == small_atlas(),
    {
        let large = vec![
            ' ',
            '0',
            '1',
            '2',
            '3',
            '4',
            '5',
            '6',
            '7',
            '8',
            '9',
            '!',
            '?',
            'a',
            'b',
            'c',
            'd',
            'e',
            'f',
            'g',
            'h',
            'i',
            'j',
            'k',
            'l',
            'm',
            'n',
            'o',
            'p',
            'q',
            'r',
            's',
            't',
            'u',
            'v',
            'w',
            'x',
            'y',
            'z',
            '[',
            ']',
            '(',
            ')',
            ':',
            ';',
            '.',
            ',',
            '*',
            '+',
            '-',
            '=',
            '/'
        ];
        let small = vec![
            ' ',
            '0',
            '1',
            '2',
            '3',
            '4',
            '5',
            '6',
            '7',
            '8',
            '9',
            ':',
            ';',
            'a',
            'b',
            'c',
            'd',
            'e',
            'f',
            'g',
            'h',
            'i',
            'j',
            'k',
            'l',
            'm',
            'n',
            'o',
            'p',
            'q',
            'r',
            's',
            't',
            'u',
            'v',
            'w',
            'x',
            'y',
            'z',
            '(',
            ')',
            '[',
            ']',
            '<',
            '>',
            '!',
            '?',
            '.',
            ',',
            '"',
            '\'',
            '|',
            '\\',
            '/',
            '+',
            '-',
            '=',
            '*',
            '_',
            '\'',
            '@',
            '\u{a3}',
            '&',
            '\u{1fba4}',
            '\u{1fba5}',
            '\u{1fba7}',
            '\u{1fba6}',
            '\u{219e}',
            '\u{21a0}',
            '\u{25aa}',
            '\u{1f504}'
        ];
        assert(large@ == large_atlas());
        assert(small@ == small_atlas());
        FontDataManager { large: FontData { atlas_chars: large }, small: FontData { atlas_chars: small } }
    }

    /// The character set of a font.
    pub fn font_data(&self, font: Font) -> (res: &FontData)
        ensures
            res@ == (match font {
                Font::Large => self.spec_large(),
                Font::Small => self.spec_small(),
            }),
    {
        match font {
            Font::Large => &self.large,
            Font::Small => &self.small,
        }
    }
}

} // verus!
