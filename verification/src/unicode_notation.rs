//! The `U+XXXX` notation for Unicode code points.
//!
//! A code point is written as `U+` followed by one to six hexadecimal digits.
//! Reading accepts digits of either case; writing produces upper-case digits
//! without leading zeros.

use crate::text::chars_of;
use vstd::prelude::*;
use vstd::string::*;

verus! {

/// Whether `n` is a Unicode scalar value: a code point that is no surrogate.
pub open spec fn is_scalar_value(n: nat) -> bool {
    n <= 0xD7FF || 0xE000 <= n <= 0x10FFFF
}

/// `char::from_u32` gives the character with the given number when that number
/// is a Unicode scalar value, and nothing otherwise.
pub assume_specification[ char::from_u32 ](i: u32) -> (c: Option<char>)
    ensures
        c == if is_scalar_value(i as nat) {
            Some(i as char)
        } else {
            None::<char>
        },
;

/// The value of one hexadecimal digit, of either case.
pub open spec fn hex_digit_value(c: char) -> Option<nat> {
    if '0' <= c <= '9' {
        Some((c as nat - '0' as nat) as nat)
    } else if 'a' <= c <= 'f' {
        Some((c as nat - 'a' as nat + 10) as nat)
    } else if 'A' <= c <= 'F' {
        Some((c as nat - 'A' as nat + 10) as nat)
    } else {
        None
    }
}

/// Whether every character of `s` is a hexadecimal digit.
pub open spec fn is_hex_digits(s: Seq<char>) -> bool {
    forall|i: int| 0 <= i < s.len() ==> (#[trigger] hex_digit_value(s[i])) is Some
}

/// The number that the hexadecimal digits `s` denote, most significant digit
/// first.
pub open spec fn hex_value(s: Seq<char>) -> nat
    decreases s.len(),
{
    if s.len() == 0 {
        0
    } else {
        16 * hex_value(s.drop_last()) + hex_digit_value(s.last()).unwrap_or(0)
    }
}

/// The character that a text in `U+XXXX` notation denotes, if it is one.
pub open spec fn spec_unicode_notation_to_char(s: Seq<char>) -> Option<char> {
    let digits = s.skip(2);
    if s.len() >= 2 && s[0] == 'U' && s[1] == '+' && 1 <= digits.len() <= 6 && is_hex_digits(
        digits,
    ) && is_scalar_value(hex_value(digits)) {
        Some(hex_value(digits) as char)
    } else {
        None
    }
}

/// The upper-case hexadecimal digit for a value below sixteen.
pub open spec fn hex_digit_char(d: nat) -> char {
    if d < 10 {
        ('0' as nat + d) as char
    } else {
        ('A' as nat + d - 10) as char
    }
}

/// The hexadecimal digits of `n`, most significant first, without leading
/// zeros; zero is written as one digit.
pub open spec fn hex_digits(n: nat) -> Seq<char>
    decreases n,
{
    if n < 16 {
        seq![hex_digit_char(n)]
    } else {
        hex_digits(n / 16).push(hex_digit_char(n % 16))
    }
}

/// The `U+XXXX` notation of a character.
pub open spec fn spec_char_to_unicode_notation(c: char) -> Seq<char> {
    seq!['U', '+'] + hex_digits(c as nat)
}

/// Sixteen to the power of `k`.
pub open spec fn pow16(k: nat) -> nat
    decreases k,
{
    if k == 0 {
        1
    } else {
        16 * pow16((k - 1) as nat)
    }
}

/// Writing a number in hexadecimal and reading the digits back gives the
/// number again.
pub proof fn lemma_hex_digits_round_trip(n: nat)
    ensures
        is_hex_digits(hex_digits(n)),
        hex_value(hex_digits(n)) == n,
        hex_digits(n).len() >= 1,
        n < pow16(6) ==> hex_digits(n).len() <= 6,
    decreases n,
{
    reveal_with_fuel(pow16, 7);
    let digits = hex_digits(n);
    if n < 16 {
        assert(digits.drop_last() =~= Seq::<char>::empty());
        assert(hex_value(digits.drop_last()) == 0);
        assert(hex_digit_value(hex_digit_char(n)) == Some(n));
    } else {
        lemma_hex_digits_round_trip(n / 16);
        let init = hex_digits(n / 16);
        assert(digits.drop_last() =~= init);
        assert(hex_digit_value(hex_digit_char(n % 16)) == Some(n % 16));
        assert forall|i: int| 0 <= i < digits.len() implies (#[trigger] hex_digit_value(
            digits[i],
        )) is Some by {
            if i < init.len() {
                assert(digits[i] == init[i]);
            }
        }
        if n < pow16(6) {
            lemma_digit_count(n / 16, 5);
        }
    }
}

/// A number below sixteen to the `k`, for a positive `k`, has at most `k`
/// hexadecimal digits.
pub proof fn lemma_digit_count(n: nat, k: nat)
    requires
        k >= 1,
        n < pow16(k),
    ensures
        hex_digits(n).len() <= k,
    decreases n,
{
    if n >= 16 {
        assert(k >= 2) by {
            reveal_with_fuel(pow16, 2);
        }
        assert(pow16(k) == 16 * pow16((k - 1) as nat));
        lemma_digit_count(n / 16, (k - 1) as nat);
    }
}

/// The law of the notation: the text written for a character reads back as
/// that character.
pub proof fn lemma_notation_round_trip(c: char)
    ensures
        spec_unicode_notation_to_char(spec_char_to_unicode_notation(c)) == Some(c),
{
    reveal_with_fuel(pow16, 7);
    let text = spec_char_to_unicode_notation(c);
    lemma_hex_digits_round_trip(c as nat);
    assert(text.skip(2) =~= hex_digits(c as nat));
    assert(text[0] == 'U' && text[1] == '+');
}

/// The value of `c` as a hexadecimal digit.
fn hex_digit(c: char) -> (d: Option<u32>)
    ensures
        d matches Some(v) ==> hex_digit_value(c) == Some(v as nat),
        d is None ==> hex_digit_value(c) is None,
{
    let n: u32 = c as u32;
    if 0x30 <= n && n <= 0x39 {
        Some(n - 0x30)
    } else if 0x61 <= n && n <= 0x66 {
        Some(n - 0x61 + 10)
    } else if 0x41 <= n && n <= 0x46 {
        Some(n - 0x41 + 10)
    } else {
        None
    }
}

/// Reads the characters of `chars` from `start` up to `end` as a code point
/// in `U+XXXX` notation.
pub(crate) fn code_point_in(chars: &Vec<char>, start: usize, end: usize) -> (c: Option<char>)
    requires
        start <= end <= chars.len(),
    ensures
        c == spec_unicode_notation_to_char(chars@.subrange(start as int, end as int)),
{
    let ghost text = chars@.subrange(start as int, end as int);
    let ghost digits = text.skip(2);
    if end - start < 3 || end - start > 8 {
        return None;
    }
    if chars[start] != 'U' || chars[start + 1] != '+' {
        assert(text[0] == chars@[start as int]);
        assert(text[1] == chars@[start + 1]);
        return None;
    }
    assert(text[0] == 'U' && text[1] == '+');
    let mut value: u32 = 0;
    let mut i: usize = start + 2;
    while i < end
        invariant
            start + 2 <= i <= end,
            end <= chars.len(),
            end - start <= 8,
            text == chars@.subrange(start as int, end as int),
            digits == text.skip(2),
            is_hex_digits(digits.take(i - start - 2)),
            value as nat == hex_value(digits.take(i - start - 2)),
            value < pow16((i - start - 2) as nat),
        decreases end - i,
    {
        let ghost k = i - start - 2;
        proof {
            reveal_with_fuel(pow16, 7);
            assert(digits[k] == chars@[i as int]);
            assert(digits.take(k + 1).drop_last() =~= digits.take(k));
            assert(digits.take(k + 1).last() == digits[k]);
        }
        match hex_digit(chars[i]) {
            None => {
                assert(!is_hex_digits(digits));
                return None;
            },
            Some(d) => {
                assert forall|j: int| 0 <= j < k + 1 implies (#[trigger] hex_digit_value(
                    digits.take(k + 1)[j],
                )) is Some by {
                    if j < k {
                        assert(digits.take(k)[j] == digits.take(k + 1)[j]);
                    }
                }
                value = value * 16 + d;
            },
        }
        i += 1;
    }
    assert(digits.take(end - start - 2) =~= digits);
    char::from_u32(value)
}

/// Reads a code point written in `U+XXXX` notation: `U+`, then one to six
/// hexadecimal digits that give a Unicode scalar value.
pub fn unicode_notation_to_char(unicode_notation: &str) -> (c: Option<char>)
    ensures
        c == spec_unicode_notation_to_char(unicode_notation@),
{
    let chars = chars_of(unicode_notation);
    assert(chars@.subrange(0, chars@.len() as int) =~= chars@);
    code_point_in(&chars, 0, chars.len())
}

/// The text of one upper-case hexadecimal digit.
fn hex_digit_text(d: u32) -> (s: &'static str)
    requires
        d < 16,
    ensures
        s@ == seq![hex_digit_char(d as nat)],
{
    proof {
        reveal_strlit("0");
        reveal_strlit("1");
        reveal_strlit("2");
        reveal_strlit("3");
        reveal_strlit("4");
        reveal_strlit("5");
        reveal_strlit("6");
        reveal_strlit("7");
        reveal_strlit("8");
        reveal_strlit("9");
        reveal_strlit("A");
        reveal_strlit("B");
        reveal_strlit("C");
        reveal_strlit("D");
        reveal_strlit("E");
        reveal_strlit("F");
    }
    let s = if d == 0 {
        "0"
    } else if d == 1 {
        "1"
    } else if d == 2 {
        "2"
    } else if d == 3 {
        "3"
    } else if d == 4 {
        "4"
    } else if d == 5 {
        "5"
    } else if d == 6 {
        "6"
    } else if d == 7 {
        "7"
    } else if d == 8 {
        "8"
    } else if d == 9 {
        "9"
    } else if d == 10 {
        "A"
    } else if d == 11 {
        "B"
    } else if d == 12 {
        "C"
    } else if d == 13 {
        "D"
    } else if d == 14 {
        "E"
    } else {
        "F"
    };
    assert(s@ =~= seq![hex_digit_char(d as nat)]);
    s
}

/// Appends the hexadecimal digits of `n` to `out`.
fn push_hex(out: &mut String, n: u32)
    ensures
        final(out)@ == old(out)@ + hex_digits(n as nat),
    decreases n,
{
    if n >= 16 {
        push_hex(out, n / 16);
    }
    out.append(hex_digit_text(n % 16));
    assert(out@ =~= old(out)@ + hex_digits(n as nat));
}

/// Writes a character in `U+XXXX` notation, with upper-case digits and no
/// leading zeros.
pub fn char_to_unicode_notation(c: char) -> (s: String)
    ensures
        s@ == spec_char_to_unicode_notation(c),
{
    let mut s = String::from_str("U+");
    proof {
        reveal_strlit("U+");
        assert(s@ =~= seq!['U', '+']);
    }
    push_hex(&mut s, c as u32);
    s
}

} // verus!
