//! Borrowing a part of a string.

use vstd::prelude::*;
use vstd::utf8::*;

verus! {

/// The text is not empty and its first character is ASCII, so that the
/// character takes exactly one byte.
pub open spec fn starts_with_ascii(chars: Seq<char>) -> bool {
    chars.len() > 0 && '\0' <= chars[0] <= '\u{7f}'
}

/// The characters that UTF-8 encodes in one byte are the ASCII characters.
proof fn lemma_ascii_takes_one_byte(c: char)
    ensures
        has_width_1_encoding(c as u32) <==> '\0' <= c <= '\u{7f}',
{
}

/// A cut after the first byte of a text falls on a character boundary
/// exactly when the text starts with an ASCII character.
pub proof fn lemma_boundary_after_first_byte(chars: Seq<char>)
    ensures
        starts_with_ascii(chars) <==> is_char_boundary(encode_utf8(chars), 1),
{
    encode_utf8_valid_utf8(chars);
    reveal_with_fuel(is_char_boundary, 2);
    if chars.len() > 0 {
        encode_utf8_first_scalar(chars);
        lemma_ascii_takes_one_byte(chars[0]);
    }
}

/// The first byte of a text that starts with an ASCII character is the
/// encoding of that character alone.
proof fn lemma_first_byte_is_first_char(chars: Seq<char>)
    requires
        starts_with_ascii(chars),
    ensures
        encode_utf8(chars).subrange(0, 1) == encode_utf8(chars.subrange(0, 1)),
{
    let head = chars.subrange(0, 1);
    assert(encode_utf8(head) =~= encode_scalar(chars[0] as u32)) by {
        reveal_with_fuel(encode_utf8, 2);
    }
}

/// Borrows the first byte of the string as text.
///
/// The string has to start with an ASCII character: the cut after one
/// byte must not fall inside a character.
pub fn first_word(s: &String) -> (word: &str)
    requires
        starts_with_ascii(s@),
    ensures
        word@ == s@.subrange(0, 1),
{
    proof {
        lemma_boundary_after_first_byte(s@);
        lemma_first_byte_is_first_char(s@);
    }
    let (word, _) = s.as_str().split_at(1);
    proof {
        encode_utf8_decode_utf8(word@);
        encode_utf8_decode_utf8(s@.subrange(0, 1));
    }
    word
}

} // verus!
