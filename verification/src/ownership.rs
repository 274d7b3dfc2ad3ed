//! Moving strings into and out of functions, and lending them.

use vstd::prelude::*;
use vstd::utf8::{encode_utf8, is_ascii_chars_encode_utf8};

verus! {

/// Number of bytes that the text `chars` takes in UTF-8.
pub open spec fn byte_len(chars: Seq<char>) -> nat {
    encode_utf8(chars).len()
}

/// Makes a new string and hands it to the caller.
pub fn gives_ownership() -> (some_string: String)
    ensures
        some_string@ == "hello"@,
{
    let some_string = "hello".to_owned();
    some_string
}

/// Takes a string and hands the same string back.
pub fn takes_and_gives_back(a_string: String) -> (r: String)
    ensures
        r == a_string,
{
    a_string
}

/// Length of the borrowed string in bytes.
pub fn calculate_length(s: &String) -> (len: usize)
    ensures
        len == byte_len(s@),
{
    s.as_str().as_bytes().len()
}

/// Appends `", world"` to the string behind the reference.
pub fn change(some_string: &mut String)
    ensures
        final(some_string)@ == old(some_string)@ + ", world"@,
{
    some_string.append(", world");
}

/// Hands the string back together with its length in bytes.
pub fn calculate_length2(s: String) -> (r: (String, usize))
    ensures
        r.0 == s,
        r.1 == byte_len(s@),
{
    let len = s.as_str().as_bytes().len();
    (s, len)
}

/// Joining two texts joins their encodings, so the lengths in bytes add up.
pub proof fn lemma_byte_len_concat(a: Seq<char>, b: Seq<char>)
    ensures
        encode_utf8(a + b) == encode_utf8(a) + encode_utf8(b),
        byte_len(a + b) == byte_len(a) + byte_len(b),
    decreases a.len(),
{
    if a.len() == 0 {
        assert(a + b =~= b);
    } else {
        lemma_byte_len_concat(a.drop_first(), b);
        assert((a + b).drop_first() =~= a.drop_first() + b);
    }
}

/// After [`change`], [`calculate_length`] reports seven bytes more than
/// before.
pub proof fn lemma_change_adds_seven_bytes(before: Seq<char>)
    ensures
        byte_len(before + ", world"@) == byte_len(before) + 7,
{
    reveal_strlit(", world");
    lemma_byte_len_concat(before, ", world"@);
    is_ascii_chars_encode_utf8(", world"@);
}

} // verus!
