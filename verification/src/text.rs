//! Small helpers for reading strings as sequences of characters.

use vstd::prelude::*;
use vstd::string::StringSliceAdditionalSpecFns;
use vstd::utf8::{
    char_is_scalar, encode_scalar, encode_utf8, encode_utf8_decode_utf8, has_width_1_encoding,
    has_width_2_encoding, has_width_3_encoding,
};

verus! {

/// Whether two strings hold the same characters.
pub fn str_eq(a: &str, b: &str) -> (same: bool)
    ensures
        same == (a@ == b@),
{
    let x = a.as_bytes();
    let y = b.as_bytes();
    proof {
        // Equal encodings decode to equal texts.
        encode_utf8_decode_utf8(a@);
        encode_utf8_decode_utf8(b@);
    }
    if x.len() != y.len() {
        return false;
    }
    let mut i: usize = 0;
    while i < x.len()
        invariant
            i <= x.len(),
            x.len() == y.len(),
            x@ == a.spec_bytes(),
            y@ == b.spec_bytes(),
            forall|j: int| 0 <= j < i ==> x@[j] == y@[j],
        decreases x.len() - i,
    {
        if x[i] != y[i] {
            return false;
        }
        i += 1;
    }
    assert(x@ =~= y@);
    true
}

/// The characters of a string, in order.
pub fn chars_of(s: &str) -> (chars: Vec<char>)
    ensures
        chars@ == s@,
{
    let mut chars: Vec<char> = Vec::new();
    for c in it: s.chars()
        invariant
            chars@ == it.seq().take(it.index() as int),
            it.seq() == s@,
    {
        chars.push(c);
    }
    chars
}

/// The number of bytes that a character takes in UTF-8.
pub open spec fn utf8_width(c: char) -> nat {
    if (c as nat) < 0x80 {
        1
    } else if (c as nat) < 0x800 {
        2
    } else if (c as nat) < 0x10000 {
        3
    } else {
        4
    }
}

/// `char::len_utf8` gives the number of bytes that the character takes in
/// UTF-8: one to four, by the size of its code point.
pub assume_specification[ char::len_utf8 ](c: char) -> (width: usize)
    ensures
        width == utf8_width(c),
;

/// The byte at which the character with the given index starts in the UTF-8
/// form of `text`: the bytes that the characters before it take together.
pub open spec fn byte_offset(text: Seq<char>, index: int) -> nat
    decreases index,
{
    if index <= 0 {
        0
    } else {
        byte_offset(text, index - 1) + utf8_width(text[index - 1])
    }
}

/// Offsets grow with the index, by at least one byte for each character.
pub proof fn lemma_byte_offset_grows(text: Seq<char>, i: int, j: int)
    requires
        0 <= i <= j,
    ensures
        byte_offset(text, i) + (j - i) <= byte_offset(text, j),
    decreases j - i,
{
    if i < j {
        lemma_byte_offset_grows(text, i, j - 1);
    }
}

/// The offset of a character does not change when the first character of the
/// text is counted apart.
proof fn lemma_byte_offset_drop_first(text: Seq<char>, index: int)
    requires
        1 <= index <= text.len(),
    ensures
        byte_offset(text, index) == utf8_width(text[0]) + byte_offset(text.drop_first(), index - 1),
    decreases index,
{
    let rest = text.drop_first();
    if index > 1 {
        lemma_byte_offset_drop_first(text, index - 1);
        assert(rest[index - 2] == text[index - 1]);
        assert(byte_offset(rest, index - 1) == byte_offset(rest, index - 2) + utf8_width(
            rest[index - 2],
        ));
    } else {
        assert(byte_offset(text, 0) == 0);
        assert(byte_offset(rest, 0) == 0);
        assert(byte_offset(text, 1) == byte_offset(text, 0) + utf8_width(text[0]));
    }
}

/// The UTF-8 form of a character has as many bytes as its width says.
proof fn lemma_encoded_width(c: char)
    ensures
        encode_scalar(c as u32).len() == utf8_width(c),
{
    char_is_scalar(c);
    let scalar = c as u32;
    assert(scalar as nat == c as nat);
    if has_width_1_encoding(scalar) {
        assert(encode_scalar(scalar).len() == 1);
    } else if has_width_2_encoding(scalar) {
        assert(encode_scalar(scalar).len() == 2);
    } else if has_width_3_encoding(scalar) {
        assert(encode_scalar(scalar).len() == 3);
    } else {
        assert(encode_scalar(scalar).len() == 4);
    }
}

/// The offset behind the last character is the length of the UTF-8 form.
pub proof fn lemma_byte_offset_total(text: Seq<char>)
    ensures
        byte_offset(text, text.len() as int) == encode_utf8(text).len(),
    decreases text.len(),
{
    if text.len() > 0 {
        lemma_byte_offset_total(text.drop_first());
        lemma_byte_offset_drop_first(text, text.len() as int);
        lemma_encoded_width(text[0]);
    }
}

} // verus!
