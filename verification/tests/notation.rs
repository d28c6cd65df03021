use unicop::unicode_notation::{char_to_unicode_notation, unicode_notation_to_char};

#[test]
fn reads_code_points() {
    assert_eq!(unicode_notation_to_char("U+41"), Some('A'));
    assert_eq!(unicode_notation_to_char("U+0041"), Some('A'));
    assert_eq!(unicode_notation_to_char("U+000041"), Some('A'));
    assert_eq!(unicode_notation_to_char("U+9000"), Some('\u{9000}'));
    assert_eq!(unicode_notation_to_char("U+0"), Some('\0'));
    assert_eq!(unicode_notation_to_char("U+10FFFF"), Some('\u{10FFFF}'));
    assert_eq!(unicode_notation_to_char("U+D7FF"), Some('\u{D7FF}'));
    assert_eq!(unicode_notation_to_char("U+E000"), Some('\u{E000}'));
}

#[test]
fn reads_digits_of_either_case() {
    assert_eq!(unicode_notation_to_char("U+202e"), Some('\u{202E}'));
    assert_eq!(unicode_notation_to_char("U+202E"), Some('\u{202E}'));
    assert_eq!(unicode_notation_to_char("U+aBcD"), Some('\u{ABCD}'));
}

#[test]
fn refuses_what_is_no_code_point() {
    assert_eq!(unicode_notation_to_char(""), None);
    assert_eq!(unicode_notation_to_char("U"), None);
    assert_eq!(unicode_notation_to_char("U+"), None);
    assert_eq!(unicode_notation_to_char("u+41"), None);
    assert_eq!(unicode_notation_to_char("41"), None);
    assert_eq!(unicode_notation_to_char("U+4G"), None);
    assert_eq!(unicode_notation_to_char("U+ 41"), None);
    assert_eq!(unicode_notation_to_char("U++41"), None);
    assert_eq!(unicode_notation_to_char("U+-41"), None);
    assert_eq!(unicode_notation_to_char(" U+41"), None);
    assert_eq!(unicode_notation_to_char("U+41 "), None);
    assert_eq!(unicode_notation_to_char("U+é"), None);
}

#[test]
fn refuses_more_than_six_digits() {
    assert_eq!(unicode_notation_to_char("U+0000041"), None);
    assert_eq!(unicode_notation_to_char("U+1234567"), None);
}

#[test]
fn refuses_what_is_no_scalar_value() {
    assert_eq!(unicode_notation_to_char("U+D800"), None);
    assert_eq!(unicode_notation_to_char("U+DFFF"), None);
    assert_eq!(unicode_notation_to_char("U+110000"), None);
    assert_eq!(unicode_notation_to_char("U+FFFFFF"), None);
}

#[test]
fn writes_code_points() {
    assert_eq!(char_to_unicode_notation('A'), "U+41");
    assert_eq!(char_to_unicode_notation('\0'), "U+0");
    assert_eq!(char_to_unicode_notation('\u{F}'), "U+F");
    assert_eq!(char_to_unicode_notation('\u{10}'), "U+10");
    assert_eq!(char_to_unicode_notation('\u{202E}'), "U+202E");
    assert_eq!(char_to_unicode_notation('\u{9000}'), "U+9000");
    assert_eq!(char_to_unicode_notation('\u{ABCDE}'), "U+ABCDE");
    assert_eq!(char_to_unicode_notation('\u{10FFFF}'), "U+10FFFF");
}

#[test]
fn written_code_points_read_back() {
    let samples = [
        '\0', '\u{1}', '\u{F}', '\u{10}', 'A', '\u{7F}', '\u{80}', '\u{FF}', '\u{100}', '\u{FFF}',
        '\u{1000}', '\u{D7FF}', '\u{E000}', '\u{FFFF}', '\u{10000}', '\u{FFFFF}', '\u{100000}',
        '\u{10FFFF}',
    ];
    for c in samples {
        let text = char_to_unicode_notation(c);
        assert_eq!(unicode_notation_to_char(&text), Some(c));
    }
}
