//! The built-in configuration, which applies wherever the user's
//! configuration is silent.

use crate::config::{
    CodeType, CodeTypeRules, Config, ConfigRules, ConfigRulesView, ConfigView, Language,
    LanguageRules, LanguageRulesView, LanguageTable,
};
use crate::patterns::{
    all_valid, compile_patterns, is_valid_pattern, texts_of, InvalidPattern,
};
use crate::rules::{CharacterClass, CharacterType, RuleSet, RuleSetView};
use crate::unicode_blocks::{basic_latin, spec_block_at};
use vstd::prelude::*;

verus! {

pub const C_PATHS: [&'static str; 1] = ["**/*.c"];

// Various C++ compilers accept a myriad of file extensions.
// This list does not aim to be exhaustive, but to cover the most common ones.
// The glob patterns are case-sensitive, and some compilers include uppercase
// CPP and C in their list of recognized extensions. Header files are scanned
// too. Both C and C++ commonly use .h: it is scanned as C++, since that is a
// superset of C.
pub const CPP_PATHS: [&'static str; 8] = [
    "**/*.cpp",
    "**/*.CPP",
    "**/*.c++",
    "**/*.C",
    "**/*.cc",
    "**/*.cxx",
    "**/*.hpp",
    "**/*.h",
];

pub const GO_PATHS: [&'static str; 1] = ["**/*.go"];

pub const JAVASCRIPT_PATHS: [&'static str; 4] = ["**/*.js", "**/*.mjs", "**/*.cjs", "**/*.jsx"];

// The second pattern is for build system stuff.
pub const KOTLIN_PATHS: [&'static str; 2] = ["**/*.kt", "**/*.kts"];

pub const PYTHON_PATHS: [&'static str; 1] = ["**/*.py"];

pub const RUST_PATHS: [&'static str; 1] = ["**/*.rs"];

pub const SWIFT_PATHS: [&'static str; 1] = ["**/*.swift"];

pub const TYPESCRIPT_PATHS: [&'static str; 1] = ["**/*.ts"];

/// The path patterns by which the built-in configuration knows the files of
/// a language.
pub open spec fn default_paths(language: Language) -> Seq<Seq<char>> {
    match language {
        Language::C => texts_of(C_PATHS@),
        Language::CPlusPlus => texts_of(CPP_PATHS@),
        Language::Go => texts_of(GO_PATHS@),
        Language::Javascript => texts_of(JAVASCRIPT_PATHS@),
        Language::Kotlin => texts_of(KOTLIN_PATHS@),
        Language::Python => texts_of(PYTHON_PATHS@),
        Language::Rust => texts_of(RUST_PATHS@),
        Language::Swift => texts_of(SWIFT_PATHS@),
        Language::Typescript => texts_of(TYPESCRIPT_PATHS@),
    }
}

/// The rule set of comments and string literals: anything but the
/// bidirectional formatting characters.
pub open spec fn free_text_rules() -> RuleSetView {
    RuleSetView { allow: seq![CharacterClass::Anything], deny: seq![CharacterClass::Bidi] }
}

/// What the built-in configuration says. Code may hold the characters of the
/// Basic Latin block; comments and string literals may hold anything but the
/// bidirectional formatting characters. Every language is declared, with its
/// path patterns and no rules of its own.
pub open spec fn spec_default_config() -> ConfigView {
    ConfigView {
        global: ConfigRulesView {
            default: RuleSetView {
                allow: seq![CharacterClass::Block(spec_block_at(0))],
                deny: Seq::empty(),
            },
            code_type_rules: Map::new(
                |code_type: CodeType| true,
                |code_type: CodeType| free_text_rules(),
            ),
        },
        language: Map::new(
            |language: Language| true,
            |language: Language|
                LanguageRulesView {
                    paths: Some(default_paths(language)),
                    rules: ConfigRulesView::empty(),
                },
        ),
    }
}

/// Whether `text` is one of `texts` and is no pattern.
pub open spec fn is_refused_in(texts: Seq<Seq<char>>, text: Seq<char>) -> bool {
    exists|i: int| 0 <= i < texts.len() && #[trigger] texts[i] == text && !is_valid_pattern(text)
}

/// Whether `text` is a built-in path pattern and is no pattern.
pub open spec fn is_refused_default_path(text: Seq<char>) -> bool {
    exists|language: Language| is_refused_in(#[trigger] default_paths(language), text)
}

/// Whether every built-in path pattern is a pattern.
pub open spec fn default_paths_valid() -> bool {
    forall|language: Language| all_valid(#[trigger] default_paths(language))
}

/// What is declared for a language that brings no rules of its own.
fn language_with_paths(texts: &[&str]) -> (declared: Result<LanguageRules, InvalidPattern>)
    ensures
        declared is Ok <==> all_valid(texts_of(texts@)),
        declared matches Ok(rules) ==> rules@ == (LanguageRulesView {
            paths: Some(texts_of(texts@)),
            rules: ConfigRulesView::empty(),
        }),
        declared matches Err(error) ==> is_refused_in(texts_of(texts@), error.pattern@),
{
    match compile_patterns(texts) {
        Ok(paths) => {
            Ok(LanguageRules { paths: Some(paths), rules: ConfigRules::default() })
        },
        Err(error) => Err(error),
    }
}

/// The rule set of comments and string literals.
fn free_text() -> (rules: RuleSet)
    ensures
        rules@ == free_text_rules(),
{
    let rules = RuleSet { allow: vec![CharacterType::Anything], deny: vec![CharacterType::Bidi] };
    assert(rules@.allow =~= seq![CharacterClass::Anything]);
    assert(rules@.deny =~= seq![CharacterClass::Bidi]);
    rules
}

/// Comments and string literals allow all unicode except Bidi characters,
/// all other kinds of code allow the Basic Latin block only.
///
/// Fails only if `glob` refuses one of the built-in path patterns, and then
/// with that pattern.
pub fn get_default_config() -> (built: Result<Config, InvalidPattern>)
    ensures
        built is Ok <==> default_paths_valid(),
        built matches Ok(config) ==> config@ == spec_default_config(),
        built matches Err(error) ==> is_refused_default_path(error.pattern@),
{
    let c = match language_with_paths(C_PATHS.as_slice()) {
        Ok(rules) => rules,
        Err(error) => {
            assert(!all_valid(default_paths(Language::C)));
            assert(is_refused_in(default_paths(Language::C), error.pattern@));
            return Err(error);
        },
    };
    let c_plus_plus = match language_with_paths(CPP_PATHS.as_slice()) {
        Ok(rules) => rules,
        Err(error) => {
            assert(!all_valid(default_paths(Language::CPlusPlus)));
            assert(is_refused_in(default_paths(Language::CPlusPlus), error.pattern@));
            return Err(error);
        },
    };
    let go = match language_with_paths(GO_PATHS.as_slice()) {
        Ok(rules) => rules,
        Err(error) => {
            assert(!all_valid(default_paths(Language::Go)));
            assert(is_refused_in(default_paths(Language::Go), error.pattern@));
            return Err(error);
        },
    };
    let javascript = match language_with_paths(JAVASCRIPT_PATHS.as_slice()) {
        Ok(rules) => rules,
        Err(error) => {
            assert(!all_valid(default_paths(Language::Javascript)));
            assert(is_refused_in(default_paths(Language::Javascript), error.pattern@));
            return Err(error);
        },
    };
    let kotlin = match language_with_paths(KOTLIN_PATHS.as_slice()) {
        Ok(rules) => rules,
        Err(error) => {
            assert(!all_valid(default_paths(Language::Kotlin)));
            assert(is_refused_in(default_paths(Language::Kotlin), error.pattern@));
            return Err(error);
        },
    };
    let python = match language_with_paths(PYTHON_PATHS.as_slice()) {
        Ok(rules) => rules,
        Err(error) => {
            assert(!all_valid(default_paths(Language::Python)));
            assert(is_refused_in(default_paths(Language::Python), error.pattern@));
            return Err(error);
        },
    };
    let rust = match language_with_paths(RUST_PATHS.as_slice()) {
        Ok(rules) => rules,
        Err(error) => {
            assert(!all_valid(default_paths(Language::Rust)));
            assert(is_refused_in(default_paths(Language::Rust), error.pattern@));
            return Err(error);
        },
    };
    let swift = match language_with_paths(SWIFT_PATHS.as_slice()) {
        Ok(rules) => rules,
        Err(error) => {
            assert(!all_valid(default_paths(Language::Swift)));
            assert(is_refused_in(default_paths(Language::Swift), error.pattern@));
            return Err(error);
        },
    };
    let typescript = match language_with_paths(TYPESCRIPT_PATHS.as_slice()) {
        Ok(rules) => rules,
        Err(error) => {
            assert(!all_valid(default_paths(Language::Typescript)));
            assert(is_refused_in(default_paths(Language::Typescript), error.pattern@));
            return Err(error);
        },
    };
    assert forall|language: Language| all_valid(#[trigger] default_paths(language)) by {
        match language {
            Language::C => {},
            Language::CPlusPlus => {},
            Language::Go => {},
            Language::Javascript => {},
            Language::Kotlin => {},
            Language::Python => {},
            Language::Rust => {},
            Language::Swift => {},
            Language::Typescript => {},
        }
    }
    let config = Config {
        global: ConfigRules {
            default: RuleSet { allow: vec![CharacterType::Block(basic_latin())], deny: vec![] },
            code_type_rules: CodeTypeRules {
                comment: Some(free_text()),
                string_literal: Some(free_text()),
            },
        },
        language: LanguageTable {
            c: Some(c),
            c_plus_plus: Some(c_plus_plus),
            go: Some(go),
            javascript: Some(javascript),
            kotlin: Some(kotlin),
            python: Some(python),
            rust: Some(rust),
            swift: Some(swift),
            typescript: Some(typescript),
        },
    };
    proof {
        let wanted = spec_default_config();
        assert(config@.global.default.allow =~= wanted.global.default.allow);
        assert(config@.global.default.deny =~= wanted.global.default.deny);
        assert(config@.global.code_type_rules =~= wanted.global.code_type_rules);
        assert(config@.language =~= wanted.language);
    }
    Ok(config)
}

} // verus!
