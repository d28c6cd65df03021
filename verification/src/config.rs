//! The configuration: which characters are allowed where, and which files
//! belong to which language.

use crate::patterns::pattern_sources;
use crate::rules::{CharacterClass, CharacterType, Decision, RuleSet, RuleSetView};
use crate::syntax::{
    c_grammar, cpp_grammar, go_grammar, grammar_kind_count, grammar_usable, javascript_grammar,
    kotlin_grammar, python_grammar, rust_grammar, swift_grammar, typescript_grammar,
};
use crate::text::{chars_of, str_eq};
use crate::unicode_blocks::{
    basic_latin, find_block, is_listed, is_name_shaped, lemma_find_block, lemma_names_shaped,
    spec_block_at, spec_find_block, BLOCK_COUNT,
};
use crate::unicode_notation::{
    char_to_unicode_notation, code_point_in, hex_digit_value, hex_digits,
    lemma_hex_digits_round_trip, lemma_notation_round_trip, spec_char_to_unicode_notation,
    spec_unicode_notation_to_char,
};
use tree_sitter::Language as Grammar;
use vstd::prelude::*;

verus! {

/// A text that was to name a character type and names none.
#[derive(Debug)]
pub struct InvalidCharacterType(String);

impl View for InvalidCharacterType {
    type V = Seq<char>;

    closed spec fn view(&self) -> Seq<char> {
        self.0@
    }
}

impl InvalidCharacterType {
    /// The text that was refused.
    pub fn text(&self) -> (text: &str)
        ensures
            text@ == self@,
    {
        self.0.as_str()
    }

    /// What to tell the user: the refused text in quotes, and that it is not
    /// a valid character type.
    pub fn message(&self) -> (message: String)
        ensures
            message@ == "'"@ + self@ + "' is not a valid character type"@,
    {
        let mut message = String::from_str("'");
        message.append(self.0.as_str());
        message.append("' is not a valid character type");
        message
    }
}

/// Whether `s` has a dot at the place `at` and another right behind it.
pub open spec fn has_dots_at(s: Seq<char>, at: int) -> bool {
    0 <= at && at + 1 < s.len() && s[at] == '.' && s[at + 1] == '.'
}

/// The first place at or behind `from` where two dots follow each other.
pub open spec fn spec_find_dots(s: Seq<char>, from: int) -> Option<int>
    decreases s.len() - from,
{
    if from < 0 || from + 1 >= s.len() {
        None
    } else if has_dots_at(s, from) {
        Some(from)
    } else {
        spec_find_dots(s, from + 1)
    }
}

impl CharacterClass {
    /// The class that a text of a configuration names, or the text that is at
    /// fault. In this order: `ascii` is the Basic Latin block, `bidi` the
    /// bidirectional formatting characters and `*` every character; the name
    /// of a Unicode block is that block; a text with two dots in a row is a
    /// range, from the code point before the first such dots to the code point
    /// behind them; any other text is a single code point. Code points are
    /// written as `U+` and hexadecimal digits. A range whose end lies before
    /// its start is refused.
    pub open spec fn parse(s: Seq<char>) -> Result<CharacterClass, Seq<char>> {
        if s == "ascii"@ {
            Ok(CharacterClass::Block(spec_block_at(0)))
        } else if s == "bidi"@ {
            Ok(CharacterClass::Bidi)
        } else if s == "*"@ {
            Ok(CharacterClass::Anything)
        } else if spec_find_block(s) is Some {
            Ok(CharacterClass::Block(spec_find_block(s)->0))
        } else if spec_find_dots(s, 0) is Some {
            let at = spec_find_dots(s, 0)->0;
            let low_text = s.take(at);
            let high_text = s.skip(at + 2);
            match spec_unicode_notation_to_char(low_text) {
                None => Err(low_text),
                Some(low) => match spec_unicode_notation_to_char(high_text) {
                    None => Err(high_text),
                    Some(high) => if low <= high {
                        Ok(CharacterClass::Range(low, high))
                    } else {
                        Err(s)
                    },
                },
            }
        } else {
            match spec_unicode_notation_to_char(s) {
                Some(c) => Ok(CharacterClass::CodePoint(c)),
                None => Err(s),
            }
        }
    }

    /// The text by which a configuration names the class.
    pub open spec fn notation(self) -> Seq<char> {
        match self {
            CharacterClass::CodePoint(c) => spec_char_to_unicode_notation(c),
            CharacterClass::Range(low, high) => spec_char_to_unicode_notation(low) + ".."@
                + spec_char_to_unicode_notation(high),
            CharacterClass::Bidi => "bidi"@,
            CharacterClass::Block(block) => block.name,
            CharacterClass::Anything => "*"@,
        }
    }

    /// Whether the class is one that a configuration can name: a range does
    /// not end before it starts, and a block is one of the table.
    pub open spec fn is_nameable(self) -> bool {
        match self {
            CharacterClass::Range(low, high) => low <= high,
            CharacterClass::Block(block) => is_listed(block),
            _ => true,
        }
    }
}

/// What the search for two dots finds: the first place at or behind `from`
/// where two dots follow each other, and nothing exactly when there is no
/// such place.
pub proof fn lemma_find_dots(s: Seq<char>, from: int)
    requires
        0 <= from,
    ensures
        match spec_find_dots(s, from) {
            Some(at) => {
                &&& from <= at
                &&& has_dots_at(s, at)
                &&& forall|i: int| from <= i < at ==> !has_dots_at(s, i)
            },
            None => forall|i: int| from <= i ==> !has_dots_at(s, i),
        },
    decreases s.len() - from,
{
    if from + 1 < s.len() && !has_dots_at(s, from) {
        lemma_find_dots(s, from + 1);
    }
}

/// A text without a dot has no two dots in a row.
proof fn lemma_no_dots(s: Seq<char>, from: int)
    requires
        0 <= from,
        forall|i: int| from <= i < s.len() ==> s[i] != '.',
    ensures
        spec_find_dots(s, from) is None,
    decreases s.len() - from,
{
    if from + 1 < s.len() {
        lemma_no_dots(s, from + 1);
    }
}

/// Where a text has no dot before the place `at` and two dots at it, the
/// first two dots in a row are at `at`.
proof fn lemma_first_dots(s: Seq<char>, at: int, from: int)
    requires
        0 <= from <= at,
        at + 1 < s.len(),
        s[at] == '.',
        s[at + 1] == '.',
        forall|i: int| from <= i < at ==> s[i] != '.',
    ensures
        spec_find_dots(s, from) == Some(at),
    decreases at - from,
{
    if from < at {
        lemma_first_dots(s, at, from + 1);
    }
}

/// The text of a code point begins with `U+`, holds no dot, and reads back as
/// the code point.
proof fn lemma_code_point_text(c: char)
    ensures
        ({
            let text = spec_char_to_unicode_notation(c);
            &&& text.len() >= 3
            &&& text[0] == 'U'
            &&& text[1] == '+'
            &&& forall|i: int| 0 <= i < text.len() ==> text[i] != '.'
            &&& spec_unicode_notation_to_char(text) == Some(c)
        }),
{
    let text = spec_char_to_unicode_notation(c);
    let digits = hex_digits(c as nat);
    lemma_notation_round_trip(c);
    lemma_hex_digits_round_trip(c as nat);
    assert forall|i: int| 0 <= i < text.len() implies text[i] != '.' by {
        if i >= 2 {
            assert(text[i] == digits[i - 2]);
            assert(hex_digit_value(digits[i - 2]) is Some);
        }
    }
}

/// A text that begins with `U+` is no keyword and no name of a block.
proof fn lemma_not_a_name(text: Seq<char>)
    requires
        text.len() >= 2,
        text[0] == 'U',
        text[1] == '+',
    ensures
        text != "ascii"@,
        text != "bidi"@,
        text != "*"@,
        spec_find_block(text) is None,
{
    reveal_strlit("ascii");
    reveal_strlit("bidi");
    reveal_strlit("*");
    lemma_names_shaped();
    lemma_find_block(text, 0);
}

/// Round trip: the text by which a configuration names a class reads back
/// as an equal class. Blocks are equal when their names are.
pub proof fn lemma_parse_notation(class: CharacterClass)
    requires
        class.is_nameable(),
    ensures
        CharacterClass::parse(class.notation()) is Ok,
        CharacterClass::parse(class.notation())->Ok_0.same_class(class),
{
    reveal_strlit("ascii");
    reveal_strlit("bidi");
    reveal_strlit("*");
    reveal_strlit("..");
    let text = class.notation();
    match class {
        CharacterClass::CodePoint(c) => {
            lemma_code_point_text(c);
            lemma_not_a_name(text);
            lemma_no_dots(text, 0);
        },
        CharacterClass::Range(low, high) => {
            let low_text = spec_char_to_unicode_notation(low);
            let high_text = spec_char_to_unicode_notation(high);
            lemma_code_point_text(low);
            lemma_code_point_text(high);
            let at = low_text.len() as int;
            assert(text[0] == low_text[0]);
            assert(text[1] == low_text[1]);
            lemma_not_a_name(text);
            assert forall|i: int| 0 <= i < at implies text[i] != '.' by {
                assert(text[i] == low_text[i]);
            }
            assert(text[at] == '.' && text[at + 1] == '.');
            lemma_first_dots(text, at, 0);
            assert(text.take(at) =~= low_text);
            assert(text.skip(at + 2) =~= high_text);
        },
        CharacterClass::Bidi => {},
        CharacterClass::Block(block) => {
            lemma_names_shaped();
            lemma_find_block(text, 0);
            let row = choose|i: int| 0 <= i < BLOCK_COUNT && #[trigger] spec_block_at(i) == block;
            assert(is_name_shaped(spec_block_at(row).name));
        },
        CharacterClass::Anything => {},
    }
}

/// What a reading of a text gave, as the model has it.
pub open spec fn parsed_view(parsed: Result<CharacterType, InvalidCharacterType>) -> Result<
    CharacterClass,
    Seq<char>,
> {
    match parsed {
        Ok(character_type) => Ok(character_type@),
        Err(error) => Err(error@),
    }
}

/// The first place in `chars` where two dots follow each other.
fn find_dots(chars: &Vec<char>) -> (at: Option<usize>)
    ensures
        match at {
            Some(i) => spec_find_dots(chars@, 0) == Some(i as int) && i + 2 <= chars.len(),
            None => spec_find_dots(chars@, 0) is None,
        },
{
    if chars.len() < 2 {
        return None;
    }
    let mut i: usize = 0;
    while i < chars.len() - 1
        invariant
            2 <= chars.len(),
            i <= chars.len() - 1,
            spec_find_dots(chars@, 0) == spec_find_dots(chars@, i as int),
        decreases chars.len() - i,
    {
        if chars[i] == '.' && chars[i + 1] == '.' {
            return Some(i);
        }
        i += 1;
    }
    None
}

impl CharacterType {
    /// Reads a character type from the text of a configuration: `ascii`,
    /// `bidi`, `*`, the name of a Unicode block, a range such as
    /// `U+1400..U+1409`, or a single code point such as `U+9000`. Any other
    /// text is refused, and the error holds the text at fault: the whole
    /// text, or the end of a range that is no code point.
    pub fn from_str(s: &str) -> (parsed: Result<CharacterType, InvalidCharacterType>)
        ensures
            parsed_view(parsed) == CharacterClass::parse(s@),
    {
        // Shorthand to the ascii unicode block
        if str_eq(s, "ascii") {
            return Ok(CharacterType::Block(basic_latin()));
        }
        if str_eq(s, "bidi") {
            return Ok(CharacterType::Bidi);
        }
        if str_eq(s, "*") {
            return Ok(CharacterType::Anything);
        }
        if let Some(block) = find_block(s) {
            return Ok(CharacterType::Block(block));
        }
        let chars = chars_of(s);
        let len = chars.len();
        match find_dots(&chars) {
            Some(at) => {
                assert(chars@.subrange(0, at as int) =~= s@.take(at as int));
                assert(chars@.subrange(at + 2, len as int) =~= s@.skip(at + 2));
                let low = match code_point_in(&chars, 0, at) {
                    Some(low) => low,
                    None => {
                        let part = s.substring_char(0, at);
                        return Err(InvalidCharacterType(part.to_owned()));
                    },
                };
                let high = match code_point_in(&chars, at + 2, len) {
                    Some(high) => high,
                    None => {
                        let part = s.substring_char(at + 2, len);
                        return Err(InvalidCharacterType(part.to_owned()));
                    },
                };
                if low <= high {
                    Ok(CharacterType::Range(low, high))
                } else {
                    Err(InvalidCharacterType(s.to_owned()))
                }
            },
            None => {
                assert(chars@.subrange(0, len as int) =~= s@);
                match code_point_in(&chars, 0, len) {
                    Some(c) => Ok(CharacterType::CodePoint(c)),
                    None => Err(InvalidCharacterType(s.to_owned())),
                }
            },
        }
    }

    /// Writes the character type as a configuration names it.
    pub fn notation(&self) -> (text: String)
        ensures
            text@ == self@.notation(),
    {
        match self {
            CharacterType::CodePoint(c) => char_to_unicode_notation(*c),
            CharacterType::Range(low, high) => {
                let mut text = char_to_unicode_notation(*low);
                text.append("..");
                let high_text = char_to_unicode_notation(*high);
                text.append(high_text.as_str());
                text
            },
            CharacterType::Bidi => String::from_str("bidi"),
            CharacterType::Block(block) => String::from_str(block.name()),
            CharacterType::Anything => String::from_str("*"),
        }
    }
}

/// All types of code that can have special rules about what is allowed or denied.
///
/// All source code not falling into one of these categories will be evaluated
/// by the `default` rules directly.
#[derive(Debug, Copy, Clone, Eq, PartialEq, Hash, Structural)]
pub enum CodeType {
    /// Code comments. This includes all types of comments. This includes line comments,
    /// block comments, etc. Depending on the language.
    Comment,
    /// String and character literals. Such as "hello", 'c' and similar, depending on
    /// the language.
    StringLiteral,
}

/// The languages whose source code can be scanned.
#[derive(Debug, Copy, Clone, Eq, PartialEq, Hash, Structural)]
pub enum Language {
    /// The C language
    C,
    /// C++
    CPlusPlus,
    Go,
    Javascript,
    Kotlin,
    Python,
    Rust,
    Swift,
    Typescript,
}

/// The number of languages.
pub const LANGUAGE_COUNT: usize = 9;

/// Every language, in the order in which a configuration is searched for the
/// language of a file.
pub const LANGUAGES: [Language; 9] = [
    Language::C,
    Language::CPlusPlus,
    Language::Go,
    Language::Javascript,
    Language::Kotlin,
    Language::Python,
    Language::Rust,
    Language::Swift,
    Language::Typescript,
];

/// The names by which a configuration file refers to the languages.
pub const LANGUAGE_NAMES: [(&'static str, Language); 9] = [
    ("c", Language::C),
    ("c-plus-plus", Language::CPlusPlus),
    ("go", Language::Go),
    ("javascript", Language::Javascript),
    ("kotlin", Language::Kotlin),
    ("python", Language::Python),
    ("rust", Language::Rust),
    ("swift", Language::Swift),
    ("typescript", Language::Typescript),
];

/// The names by which a configuration file refers to the code types.
pub const CODE_TYPE_NAMES: [(&'static str, CodeType); 2] = [
    ("comment", CodeType::Comment),
    ("string-literal", CodeType::StringLiteral),
];

pub const C_CODE_TYPES: [(&'static str, CodeType); 4] = [
    ("comment", CodeType::Comment),
    ("char_literal", CodeType::StringLiteral),
    ("string_literal", CodeType::StringLiteral),
    ("string_content", CodeType::StringLiteral),
];

pub const CPP_CODE_TYPES: [(&'static str, CodeType); 5] = [
    ("comment", CodeType::Comment),
    ("char_literal", CodeType::StringLiteral),
    ("raw_string_literal", CodeType::StringLiteral),
    ("string_literal", CodeType::StringLiteral),
    ("string_content", CodeType::StringLiteral),
];

pub const GO_CODE_TYPES: [(&'static str, CodeType); 5] = [
    ("comment", CodeType::Comment),
    ("interpreted_string_literal", CodeType::StringLiteral),
    ("interpreted_string_literal_content", CodeType::StringLiteral),
    ("raw_string_literal", CodeType::StringLiteral),
    ("raw_string_literal_content", CodeType::StringLiteral),
];

pub const JAVASCRIPT_CODE_TYPES: [(&'static str, CodeType); 3] = [
    ("comment", CodeType::Comment),
    ("block_comment", CodeType::Comment),
    ("string_fragment", CodeType::StringLiteral),
];

pub const KOTLIN_CODE_TYPES: [(&'static str, CodeType); 6] = [
    ("block_comment", CodeType::Comment),
    ("line_comment", CodeType::Comment),
    ("character_literal", CodeType::StringLiteral),
    ("string_literal", CodeType::StringLiteral),
    ("multiline_string_literal", CodeType::StringLiteral),
    ("string_content", CodeType::StringLiteral),
];

pub const PYTHON_CODE_TYPES: [(&'static str, CodeType); 2] = [
    ("comment", CodeType::Comment),
    ("string_content", CodeType::StringLiteral),
];

pub const RUST_CODE_TYPES: [(&'static str, CodeType); 5] = [
    ("doc_comment", CodeType::Comment),
    ("line_comment", CodeType::Comment),
    ("block_comment", CodeType::Comment),
    ("string_content", CodeType::StringLiteral),
    ("char_literal", CodeType::StringLiteral),
];

pub const SWIFT_CODE_TYPES: [(&'static str, CodeType); 4] = [
    ("comment", CodeType::Comment),
    ("multiline_comment", CodeType::Comment),
    ("line_str_text", CodeType::StringLiteral),
    ("multi_line_str_text", CodeType::StringLiteral),
];

pub const TYPESCRIPT_CODE_TYPES: [(&'static str, CodeType); 2] = [
    ("comment", CodeType::Comment),
    ("string_fragment", CodeType::StringLiteral),
];

/// What a table of names gives for `key`: the value of the first row, from
/// row `from` on, whose name is `key`.
pub open spec fn spec_lookup_from<T>(
    table: Seq<(&'static str, T)>,
    key: Seq<char>,
    from: int,
) -> Option<T>
    decreases table.len() - from,
{
    if from < 0 || from >= table.len() {
        None
    } else if table[from].0@ == key {
        Some(table[from].1)
    } else {
        spec_lookup_from(table, key, from + 1)
    }
}

/// What a table of names gives for `key`.
pub open spec fn spec_lookup_in<T>(table: Seq<(&'static str, T)>, key: Seq<char>) -> Option<T> {
    spec_lookup_from(table, key, 0)
}

/// A lookup finds the value of a row with the name asked for, and nothing
/// exactly when no row has that name.
pub proof fn lemma_lookup_from<T>(table: Seq<(&'static str, T)>, key: Seq<char>, from: int)
    requires
        0 <= from <= table.len(),
    ensures
        match spec_lookup_from(table, key, from) {
            Some(value) => exists|i: int|
                from <= i < table.len() && (#[trigger] table[i]).0@ == key && table[i].1 == value,
            None => forall|i: int| from <= i < table.len() ==> (#[trigger] table[i]).0@ != key,
        },
    decreases table.len() - from,
{
    if from < table.len() && table[from].0@ != key {
        lemma_lookup_from(table, key, from + 1);
    }
}

/// Looks `key` up in a table of names.
fn lookup_in<T: Copy>(table: &[(&'static str, T)], key: &str) -> (value: Option<T>)
    ensures
        value == spec_lookup_in(table@, key@),
{
    let mut i: usize = 0;
    while i < table.len()
        invariant
            i <= table.len(),
            spec_lookup_in(table@, key@) == spec_lookup_from(table@, key@, i as int),
        decreases table.len() - i,
    {
        if str_eq(key, table[i].0) {
            return Some(table[i].1);
        }
        i += 1;
    }
    None
}

impl CodeType {
    /// The code type that a configuration file calls `name`.
    pub open spec fn spec_from_name(name: Seq<char>) -> Option<CodeType> {
        spec_lookup_in(CODE_TYPE_NAMES@, name)
    }

    /// The code type that a configuration file calls `name`: `comment` or
    /// `string-literal`. Any other name is unknown.
    pub fn from_name(name: &str) -> (code_type: Option<CodeType>)
        ensures
            code_type == CodeType::spec_from_name(name@),
    {
        lookup_in(CODE_TYPE_NAMES.as_slice(), name)
    }
}

impl Language {
    /// The language that a configuration file calls `name`.
    pub open spec fn spec_from_name(name: Seq<char>) -> Option<Language> {
        spec_lookup_in(LANGUAGE_NAMES@, name)
    }

    /// The language that a configuration file calls `name`, such as `rust` or
    /// `c-plus-plus`. Any other name is unknown.
    pub fn from_name(name: &str) -> (language: Option<Language>)
        ensures
            language == Language::spec_from_name(name@),
    {
        lookup_in(LANGUAGE_NAMES.as_slice(), name)
    }

    /// The table that says, for the kinds of syntax node of this language's
    /// grammar, which are comments and which are string literals.
    pub open spec fn code_types(self) -> Seq<(&'static str, CodeType)> {
        match self {
            Language::C => C_CODE_TYPES@,
            Language::CPlusPlus => CPP_CODE_TYPES@,
            Language::Go => GO_CODE_TYPES@,
            Language::Javascript => JAVASCRIPT_CODE_TYPES@,
            Language::Kotlin => KOTLIN_CODE_TYPES@,
            Language::Python => PYTHON_CODE_TYPES@,
            Language::Rust => RUST_CODE_TYPES@,
            Language::Swift => SWIFT_CODE_TYPES@,
            Language::Typescript => TYPESCRIPT_CODE_TYPES@,
        }
    }

    /// The code type of a syntax node of the kind `kind`, if it has one.
    pub open spec fn spec_lookup_code_type(self, kind: Seq<char>) -> Option<CodeType> {
        spec_lookup_in(self.code_types(), kind)
    }

    /// The code type of a syntax node, by the kind that the language's
    /// grammar gives it. Kinds that the language's table does not list are
    /// ordinary code and have none.
    pub fn lookup_code_type(&self, tree_sitter_code_type: &str) -> (code_type: Option<CodeType>)
        ensures
            code_type == self.spec_lookup_code_type(tree_sitter_code_type@),
    {
        match self {
            Language::C => lookup_in(C_CODE_TYPES.as_slice(), tree_sitter_code_type),
            Language::CPlusPlus => lookup_in(CPP_CODE_TYPES.as_slice(), tree_sitter_code_type),
            Language::Go => lookup_in(GO_CODE_TYPES.as_slice(), tree_sitter_code_type),
            Language::Javascript => lookup_in(
                JAVASCRIPT_CODE_TYPES.as_slice(),
                tree_sitter_code_type,
            ),
            Language::Kotlin => lookup_in(KOTLIN_CODE_TYPES.as_slice(), tree_sitter_code_type),
            Language::Python => lookup_in(PYTHON_CODE_TYPES.as_slice(), tree_sitter_code_type),
            Language::Rust => lookup_in(RUST_CODE_TYPES.as_slice(), tree_sitter_code_type),
            Language::Swift => lookup_in(SWIFT_CODE_TYPES.as_slice(), tree_sitter_code_type),
            Language::Typescript => lookup_in(
                TYPESCRIPT_CODE_TYPES.as_slice(),
                tree_sitter_code_type,
            ),
        }
    }

    /// The number of node kinds that the grammar of the language has. No two
    /// languages have the same number.
    pub open spec fn spec_kind_count(self) -> nat {
        match self {
            Language::C => 363,
            Language::CPlusPlus => 543,
            Language::Go => 219,
            Language::Javascript => 265,
            Language::Kotlin => 289,
            Language::Python => 274,
            Language::Rust => 355,
            Language::Swift => 572,
            Language::Typescript => 383,
        }
    }

    /// Whether `grammar` is the grammar of this language, told by the number
    /// of its node kinds, and the parser accepts it.
    pub open spec fn has_grammar(self, grammar: Grammar) -> bool {
        grammar_usable(grammar) && grammar_kind_count(grammar) == self.spec_kind_count()
    }

    /// The grammar by which the files of this language are parsed.
    pub fn grammar(&self) -> (grammar: Grammar)
        ensures
            self.has_grammar(grammar),
    {
        match self {
            Language::C => c_grammar(),
            Language::CPlusPlus => cpp_grammar(),
            Language::Go => go_grammar(),
            Language::Javascript => javascript_grammar(),
            Language::Kotlin => kotlin_grammar(),
            Language::Python => python_grammar(),
            Language::Rust => rust_grammar(),
            Language::Swift => swift_grammar(),
            Language::Typescript => typescript_grammar(),
        }
    }
}

/// The rule sets that a section declares for single code types: at most one
/// for each.
#[derive(Debug, PartialEq, Eq)]
pub struct CodeTypeRules {
    pub comment: Option<RuleSet>,
    pub string_literal: Option<RuleSet>,
}

impl CodeTypeRules {
    /// The rule set declared for `code_type`, if there is one.
    pub open spec fn spec_get(&self, code_type: CodeType) -> Option<RuleSet> {
        match code_type {
            CodeType::Comment => self.comment,
            CodeType::StringLiteral => self.string_literal,
        }
    }

    /// No rule set for any code type.
    pub fn new() -> (rules: CodeTypeRules)
        ensures
            rules@ == Map::<CodeType, RuleSetView>::empty(),
    {
        let rules = CodeTypeRules { comment: None, string_literal: None };
        assert(rules@ =~= Map::<CodeType, RuleSetView>::empty());
        rules
    }

    /// The rule set declared for `code_type`, if there is one.
    pub fn get(&self, code_type: CodeType) -> (rules: Option<&RuleSet>)
        ensures
            rules is Some <==> self@.contains_key(code_type),
            rules matches Some(r) ==> r@ == self@[code_type],
    {
        match code_type {
            CodeType::Comment => self.comment.as_ref(),
            CodeType::StringLiteral => self.string_literal.as_ref(),
        }
    }

    /// Declares `rules` for `code_type`, in place of what was declared for it
    /// before.
    pub fn insert(&mut self, code_type: CodeType, rules: RuleSet)
        ensures
            final(self)@ == old(self)@.insert(code_type, rules@),
    {
        match code_type {
            CodeType::Comment => {
                self.comment = Some(rules);
            },
            CodeType::StringLiteral => {
                self.string_literal = Some(rules);
            },
        }
        assert(self@ =~= old(self)@.insert(code_type, rules@));
    }
}

impl View for CodeTypeRules {
    type V = Map<CodeType, RuleSetView>;

    open spec fn view(&self) -> Map<CodeType, RuleSetView> {
        Map::new(
            |code_type: CodeType| self.spec_get(code_type) is Some,
            |code_type: CodeType| self.spec_get(code_type)->0@,
        )
    }
}

/// What a section of the configuration says: one rule set for code of no
/// particular type, and rule sets for single code types.
pub struct ConfigRulesView {
    pub default: RuleSetView,
    pub code_type_rules: Map<CodeType, RuleSetView>,
}

impl ConfigRulesView {
    /// The section without any rule.
    pub open spec fn empty() -> ConfigRulesView {
        ConfigRulesView { default: RuleSetView::empty(), code_type_rules: Map::empty() }
    }

    /// The verdict of the rule set that the section declares for the code
    /// type, if a code type is given and the section declares one for it.
    pub open spec fn code_type_decision(self, c: char, code_type: Option<CodeType>) -> Option<
        Decision,
    > {
        match code_type {
            Some(ct) => if self.code_type_rules.contains_key(ct) {
                self.code_type_rules[ct].decision(c)
            } else {
                None
            },
            None => None,
        }
    }

    /// The verdict of the section on `c` in code of the given type: that of
    /// the rule set for the code type, if one is declared and has a verdict,
    /// and else that of the default rule set.
    pub open spec fn decision(self, c: char, code_type: Option<CodeType>) -> Option<Decision> {
        let specific = self.code_type_decision(c, code_type);
        if specific is Some {
            specific
        } else {
            self.default.decision(c)
        }
    }

    /// Whether any rule set of the section holds `c`.
    pub open spec fn mentions(self, c: char) -> bool {
        ||| self.default.mentions(c)
        ||| exists|code_type: CodeType| #[trigger]
            self.code_type_rules.contains_key(code_type) && self.code_type_rules[code_type].mentions(
                c,
            )
    }
}

/// One section of the configuration: the rules of the global scope or of one
/// language.
#[derive(Debug, PartialEq, Eq)]
pub struct ConfigRules {
    pub default: RuleSet,
    pub code_type_rules: CodeTypeRules,
}

impl View for ConfigRules {
    type V = ConfigRulesView;

    open spec fn view(&self) -> ConfigRulesView {
        ConfigRulesView { default: self.default@, code_type_rules: self.code_type_rules@ }
    }
}

impl Default for ConfigRules {
    /// The section without any rule.
    fn default() -> (rules: ConfigRules)
        ensures
            rules@ == ConfigRulesView::empty(),
    {
        ConfigRules { default: RuleSet::default(), code_type_rules: CodeTypeRules::new() }
    }
}

impl ConfigRules {
    /// The verdict of this section on `c` in code of the given type: the
    /// rule set for the code type is asked first, then the default rule set.
    pub fn decision(&self, c: char, code_type: Option<CodeType>) -> (verdict: Option<Decision>)
        ensures
            verdict == self@.decision(c, code_type),
    {
        if let Some(ct) = code_type {
            if let Some(code_type_rules) = self.code_type_rules.get(ct) {
                if let Some(decision) = code_type_rules.decision(c) {
                    return Some(decision);
                }
            }
        }
        self.default.decision(c)
    }
}

/// What a configuration says of one language.
pub struct LanguageRulesView {
    /// The texts of the path patterns, if any are declared.
    pub paths: Option<Seq<Seq<char>>>,
    pub rules: ConfigRulesView,
}

/// What a configuration declares for one language.
#[derive(Debug, PartialEq, Eq)]
pub struct LanguageRules {
    // None = Inherit default path globs
    // Some([]) = No paths will ever match this language
    // Some([...]) = Match every file against these glob patterns.
    //               Run this language parser if at least one matches.
    pub paths: Option<Vec<glob::Pattern>>,
    pub rules: ConfigRules,
}

impl View for LanguageRules {
    type V = LanguageRulesView;

    open spec fn view(&self) -> LanguageRulesView {
        LanguageRulesView {
            paths: match self.paths {
                Some(patterns) => Some(pattern_sources(patterns@)),
                None => None,
            },
            rules: self.rules@,
        }
    }
}

/// What a configuration declares for the languages: at most one entry for
/// each.
#[derive(Debug, PartialEq, Eq)]
pub struct LanguageTable {
    pub c: Option<LanguageRules>,
    pub c_plus_plus: Option<LanguageRules>,
    pub go: Option<LanguageRules>,
    pub javascript: Option<LanguageRules>,
    pub kotlin: Option<LanguageRules>,
    pub python: Option<LanguageRules>,
    pub rust: Option<LanguageRules>,
    pub swift: Option<LanguageRules>,
    pub typescript: Option<LanguageRules>,
}

impl LanguageTable {
    /// The entry of `language`, if there is one.
    pub open spec fn spec_get(&self, language: Language) -> Option<LanguageRules> {
        match language {
            Language::C => self.c,
            Language::CPlusPlus => self.c_plus_plus,
            Language::Go => self.go,
            Language::Javascript => self.javascript,
            Language::Kotlin => self.kotlin,
            Language::Python => self.python,
            Language::Rust => self.rust,
            Language::Swift => self.swift,
            Language::Typescript => self.typescript,
        }
    }

    /// A table without entries.
    pub fn new() -> (table: LanguageTable)
        ensures
            table@ == Map::<Language, LanguageRulesView>::empty(),
    {
        let table = LanguageTable {
            c: None,
            c_plus_plus: None,
            go: None,
            javascript: None,
            kotlin: None,
            python: None,
            rust: None,
            swift: None,
            typescript: None,
        };
        assert(table@ =~= Map::<Language, LanguageRulesView>::empty());
        table
    }

    /// The entry of `language`, if there is one.
    pub fn get(&self, language: Language) -> (rules: Option<&LanguageRules>)
        ensures
            rules is Some <==> self@.contains_key(language),
            rules matches Some(r) ==> r@ == self@[language],
            rules matches Some(r) ==> self.spec_get(language) == Some(*r),
    {
        match language {
            Language::C => self.c.as_ref(),
            Language::CPlusPlus => self.c_plus_plus.as_ref(),
            Language::Go => self.go.as_ref(),
            Language::Javascript => self.javascript.as_ref(),
            Language::Kotlin => self.kotlin.as_ref(),
            Language::Python => self.python.as_ref(),
            Language::Rust => self.rust.as_ref(),
            Language::Swift => self.swift.as_ref(),
            Language::Typescript => self.typescript.as_ref(),
        }
    }

    /// Declares `rules` for `language`, in place of what was declared for it
    /// before.
    pub fn insert(&mut self, language: Language, rules: LanguageRules)
        ensures
            final(self)@ == old(self)@.insert(language, rules@),
            final(self).spec_get(language) == Some(rules),
            forall|other: Language|
                other != language ==> final(self).spec_get(other) == old(self).spec_get(other),
    {
        match language {
            Language::C => {
                self.c = Some(rules);
            },
            Language::CPlusPlus => {
                self.c_plus_plus = Some(rules);
            },
            Language::Go => {
                self.go = Some(rules);
            },
            Language::Javascript => {
                self.javascript = Some(rules);
            },
            Language::Kotlin => {
                self.kotlin = Some(rules);
            },
            Language::Python => {
                self.python = Some(rules);
            },
            Language::Rust => {
                self.rust = Some(rules);
            },
            Language::Swift => {
                self.swift = Some(rules);
            },
            Language::Typescript => {
                self.typescript = Some(rules);
            },
        }
        assert(self@ =~= old(self)@.insert(language, rules@));
    }
}

impl View for LanguageTable {
    type V = Map<Language, LanguageRulesView>;

    open spec fn view(&self) -> Map<Language, LanguageRulesView> {
        Map::new(
            |language: Language| self.spec_get(language) is Some,
            |language: Language| self.spec_get(language)->0@,
        )
    }
}

/// What a configuration says: the rules of the global scope, and what it
/// declares for single languages.
pub struct ConfigView {
    pub global: ConfigRulesView,
    pub language: Map<Language, LanguageRulesView>,
}

impl ConfigView {
    /// The configuration that an empty file gives: no rule in any scope and
    /// no language declared.
    pub open spec fn empty() -> ConfigView {
        ConfigView { global: ConfigRulesView::empty(), language: Map::empty() }
    }
}

/// A configuration: the rules of the global scope, and what is declared for
/// single languages.
#[derive(Debug, PartialEq, Eq)]
pub struct Config {
    pub global: ConfigRules,
    pub language: LanguageTable,
}

impl View for Config {
    type V = ConfigView;

    open spec fn view(&self) -> ConfigView {
        ConfigView { global: self.global@, language: self.language@ }
    }
}

impl Default for Config {
    /// The configuration that an empty file gives: no rule anywhere and no
    /// language declared.
    fn default() -> (config: Config)
        ensures
            config@ == ConfigView::empty(),
    {
        Config { global: ConfigRules::default(), language: LanguageTable::new() }
    }
}

} // verus!
