//! Typing into a line of text: which characters are taken, how long a line may grow, and
//! deleting the last character.
use vstd::prelude::*;
use vstd::utf8::{encode_scalar, encode_utf8};

use crate::font::{ascii_lowercase, font_typable_char, font_valid_char, to_ascii_lowercase, FontData};
use crate::level_pack_data::string_push;

verus! {

/// The most bytes a name or a line typed by the player holds.
pub const MAX_USER_STRING_LEN: usize = 24;

/// The number of bytes of a text in UTF-8, as `str::len` gives it.
pub open spec fn byte_len(s: Seq<char>) -> usize {
    encode_utf8(s).len() as usize
}

/// A text after `c` is typed: it is added when it is `accepted` and the text holds fewer than
/// `max` bytes.
pub open spec fn after_typing(text: Seq<char>, c: char, accepted: bool, max: nat) -> Seq<char> {
    if accepted && byte_len(text) < max {
        text.push(c)
    } else {
        text
    }
}

/// A text after its last character is deleted (an empty text stays empty).
pub open spec fn after_delete(text: Seq<char>) -> Seq<char> {
    if text.len() > 0 {
        text.drop_last()
    } else {
        text
    }
}

/// Removes the last character of a string (`String::pop`), giving it back; an empty string is
/// left as it is.
#[verifier::external_body]
fn string_pop(s: &mut String) -> (res: Option<char>)
    ensures
        old(s)@.len() == 0 ==> res is None && final(s)@ == old(s)@,
        old(s)@.len() > 0 ==> res == Some(old(s)@.last()) && final(s)@ == old(s)@.drop_last(),
{
    s.pop()
}

/// The number of bytes of a string in UTF-8.
fn string_byte_len(s: &String) -> (res: usize)
    ensures
        res == byte_len(s@),
{
    s.as_str().len()
}

/// Types `c`, lower-cased, into a name: it is taken when the font can type it and save it, and
/// added when the name holds fewer than `max_len` bytes. Returns whether it was taken.
pub fn type_char(text: &mut String, c: char, font: &FontData, max_len: usize) -> (res: bool)
    ensures
        res == font_typable_char(font@, ascii_lowercase(c)),
        final(text)@ == after_typing(old(text)@, ascii_lowercase(c), res, max_len as nat),
{
    let c = to_ascii_lowercase(c);
    let ok = font.typable_char(c);
    if ok {
        if string_byte_len(text) < max_len {
            string_push(text, c);
        }
    }
    ok
}

/// Types `c`, lower-cased, into the line of a sign: it is taken when the font can draw it, and
/// added when the line holds fewer than `max_len` bytes. Returns whether it was taken.
pub fn type_sign_char(text: &mut String, c: char, font: &FontData, max_len: usize) -> (res: bool)
    ensures
        res == font_valid_char(font@, ascii_lowercase(c)),
        final(text)@ == after_typing(old(text)@, ascii_lowercase(c), res, max_len as nat),
{
    let c = to_ascii_lowercase(c);
    let ok = font.valid_char(c);
    if ok {
        if string_byte_len(text) < max_len {
            string_push(text, c);
        }
    }
    ok
}

/// Deletes the last character of a text, if it has one.
pub fn delete_char(text: &mut String)
    ensures
        final(text)@ == after_delete(old(text)@),
{
    let _ = string_pop(text);
}

/// Typing a character that is taken into a short text and then deleting it gives back the text.
pub proof fn lemma_type_then_delete(text: Seq<char>, c: char, max: nat)
    requires
        byte_len(text) < max,
    ensures
        after_delete(after_typing(text, c, true, max)) == text,
{
    assert(text.push(c).drop_last() =~= text);
}

/// Adding a character to a text adds its UTF-8 bytes to the text's.
proof fn lemma_encode_push(s: Seq<char>, c: char)
    ensures
        encode_utf8(s.push(c)).len() == encode_utf8(s).len() + encode_scalar(c as u32).len(),
    decreases s.len(),
{
    if s.len() == 0 {
        assert(s.push(c).drop_first() =~= Seq::<char>::empty());
        assert(encode_utf8(Seq::<char>::empty()) == Seq::<u8>::empty());
    } else {
        assert(s.push(c).drop_first() =~= s.drop_first().push(c));
        lemma_encode_push(s.drop_first(), c);
    }
}

/// Typing an ASCII character, taken or not, into a text of at most `max` bytes leaves it at
/// most `max` bytes long.
pub proof fn lemma_typing_keeps_limit(text: Seq<char>, c: char, accepted: bool, max: usize)
    requires
        encode_utf8(text).len() <= max,
        (c as u32) < 128,
    ensures
        encode_utf8(after_typing(text, c, accepted, max as nat)).len() <= max,
{
    if accepted && byte_len(text) < max {
        lemma_encode_push(text, c);
    }
}

} // verus!
