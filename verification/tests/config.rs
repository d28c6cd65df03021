use unicop::config::CodeType::{Comment, StringLiteral};
use unicop::config::{
    CodeType, CodeTypeRules, Config, ConfigRules, Language, LanguageRules, LanguageTable,
    LANGUAGES,
};
use unicop::patterns::compile_patterns;
use unicop::rules::{CharacterType, Decision, RuleSet};
use unicop::unicode_blocks::find_block;

fn parse(text: &str) -> CharacterType {
    CharacterType::from_str(text).unwrap()
}

fn tibetan() -> CharacterType {
    CharacterType::Block(find_block("Tibetan").unwrap())
}

#[test]
fn empty_config() {
    let config = Config::default();
    let expected_config = Config {
        global: ConfigRules {
            default: RuleSet {
                allow: vec![],
                deny: vec![],
            },
            code_type_rules: CodeTypeRules::new(),
        },
        language: LanguageTable::new(),
    };
    assert_eq!(config, expected_config);
    assert_eq!(config.global.code_type_rules.get(CodeType::Comment), None);
    assert_eq!(config.global.code_type_rules.get(CodeType::StringLiteral), None);
    for language in LANGUAGES {
        assert!(config.language.get(language).is_none());
    }
}

#[test]
#[should_panic]
fn invalid_language() {
    let _language: Language = Language::from_name("nonon").unwrap();
}

#[test]
fn some_config() {
    let mut global_code_types = CodeTypeRules::new();
    global_code_types.insert(
        CodeType::Comment,
        RuleSet {
            allow: vec![parse("*")],
            deny: vec![parse("bidi")],
        },
    );
    let mut rust_code_types = CodeTypeRules::new();
    rust_code_types.insert(
        CodeType::from_name("string-literal").unwrap(),
        RuleSet {
            allow: vec![],
            deny: vec![parse("Tibetan")],
        },
    );
    let mut language = LanguageTable::new();
    language.insert(
        Language::from_name("rust").unwrap(),
        LanguageRules {
            paths: Some(compile_patterns(&["**/*.rs"]).unwrap()),
            rules: ConfigRules {
                default: RuleSet {
                    allow: vec![parse("Tibetan"), parse("U+9000")],
                    deny: vec![parse("U+5000..U+5004")],
                },
                code_type_rules: rust_code_types,
            },
        },
    );
    let config = Config {
        global: ConfigRules {
            default: RuleSet {
                allow: vec![parse("U+1234")],
                deny: vec![parse("*")],
            },
            code_type_rules: global_code_types,
        },
        language,
    };

    let expected_config = Config {
        global: ConfigRules {
            default: RuleSet {
                allow: vec![CharacterType::CodePoint('\u{1234}')],
                deny: vec![CharacterType::Anything],
            },
            code_type_rules: CodeTypeRules {
                comment: Some(RuleSet {
                    allow: vec![CharacterType::Anything],
                    deny: vec![CharacterType::Bidi],
                }),
                string_literal: None,
            },
        },
        language: LanguageTable {
            c: None,
            c_plus_plus: None,
            go: None,
            javascript: None,
            kotlin: None,
            python: None,
            rust: Some(LanguageRules {
                paths: Some(vec![glob::Pattern::new("**/*.rs").unwrap()]),
                rules: ConfigRules {
                    default: RuleSet {
                        allow: vec![tibetan(), CharacterType::CodePoint('\u{9000}')],
                        deny: vec![CharacterType::Range('\u{5000}', '\u{5004}')],
                    },
                    code_type_rules: CodeTypeRules {
                        comment: None,
                        string_literal: Some(RuleSet {
                            allow: vec![],
                            deny: vec![tibetan()],
                        }),
                    },
                },
            }),
            swift: None,
            typescript: None,
        },
    };
    assert_eq!(config, expected_config);
}

#[test]
fn reads_keywords() {
    assert_eq!(parse("*"), CharacterType::Anything);
    assert_eq!(parse("bidi"), CharacterType::Bidi);
    assert_eq!(parse("ascii"), CharacterType::Block(find_block("Basic Latin").unwrap()));
    assert_eq!(parse("ascii"), parse("Basic Latin"));
}

#[test]
fn reads_block_names() {
    assert_eq!(parse("Tibetan"), tibetan());
    match parse("Box Drawing") {
        CharacterType::Block(block) => {
            assert_eq!(block.name(), "Box Drawing");
            assert_eq!(block.first(), '\u{2500}');
            assert_eq!(block.last(), '\u{257F}');
        }
        other => panic!("not a block: {:?}", other),
    }
}

#[test]
fn reads_ranges_and_code_points() {
    assert_eq!(parse("U+5000..U+5004"), CharacterType::Range('\u{5000}', '\u{5004}'));
    assert_eq!(parse("U+1400..U+1409"), CharacterType::Range('\u{1400}', '\u{1409}'));
    assert_eq!(parse("U+41..U+41"), CharacterType::Range('A', 'A'));
    assert_eq!(parse("U+0..U+10ffff"), CharacterType::Range('\0', '\u{10FFFF}'));
    assert_eq!(parse("U+9000"), CharacterType::CodePoint('\u{9000}'));
    assert_eq!(parse("U+1234"), CharacterType::CodePoint('\u{1234}'));
}

#[test]
fn refuses_unknown_texts_with_the_whole_text() {
    for text in ["", "tibetan", "Bidi", "ASCII", "**", "U+", "9000", "U+D800", "u+9000", "."] {
        let error = CharacterType::from_str(text).unwrap_err();
        assert_eq!(error.text(), text);
    }
}

#[test]
fn refuses_ranges_with_the_part_at_fault() {
    assert_eq!(CharacterType::from_str("U+5000..xyz").unwrap_err().text(), "xyz");
    assert_eq!(CharacterType::from_str("abc..U+5004").unwrap_err().text(), "abc");
    assert_eq!(CharacterType::from_str("abc..xyz").unwrap_err().text(), "abc");
    assert_eq!(CharacterType::from_str("..").unwrap_err().text(), "");
    assert_eq!(CharacterType::from_str("U+41..").unwrap_err().text(), "");
    assert_eq!(CharacterType::from_str("..U+41").unwrap_err().text(), "");
    assert_eq!(CharacterType::from_str("U+41...U+42").unwrap_err().text(), ".U+42");
    assert_eq!(CharacterType::from_str("U+41..U+42..U+43").unwrap_err().text(), "U+42..U+43");
    assert_eq!(CharacterType::from_str("U+41..U+D800").unwrap_err().text(), "U+D800");
    assert_eq!(CharacterType::from_str("U+41..é").unwrap_err().text(), "é");
    assert_eq!(CharacterType::from_str("é..U+41").unwrap_err().text(), "é");
}

#[test]
fn refuses_ranges_that_end_before_they_start() {
    let error = CharacterType::from_str("U+5004..U+5000").unwrap_err();
    assert_eq!(error.text(), "U+5004..U+5000");
    assert!(CharacterType::from_str("U+5000..U+5000").is_ok());
}

#[test]
fn error_message_quotes_the_text() {
    let error = CharacterType::from_str("nonsense").unwrap_err();
    assert_eq!(error.message(), "'nonsense' is not a valid character type");
    let error = CharacterType::from_str("U+1..oops").unwrap_err();
    assert_eq!(error.message(), "'oops' is not a valid character type");
}

#[test]
fn notation_reads_back() {
    for text in ["U+9000", "U+5000..U+5004", "Tibetan", "bidi", "*", "Basic Latin", "U+0", "U+10FFFF"] {
        let first = parse(text);
        assert_eq!(first.notation(), text);
        assert_eq!(parse(&first.notation()), first);
    }
    assert_eq!(parse("ascii").notation(), "Basic Latin");
    assert_eq!(parse("U+00e9").notation(), "U+E9");
    assert_eq!(parse("U+00e9..U+0fff").notation(), "U+E9..U+FFF");
    assert_eq!(parse(&parse("U+00e9..U+0fff").notation()), parse("U+00e9..U+0fff"));
}

#[test]
fn language_names() {
    assert_eq!(Language::from_name("c"), Some(Language::C));
    assert_eq!(Language::from_name("c-plus-plus"), Some(Language::CPlusPlus));
    assert_eq!(Language::from_name("go"), Some(Language::Go));
    assert_eq!(Language::from_name("javascript"), Some(Language::Javascript));
    assert_eq!(Language::from_name("kotlin"), Some(Language::Kotlin));
    assert_eq!(Language::from_name("python"), Some(Language::Python));
    assert_eq!(Language::from_name("rust"), Some(Language::Rust));
    assert_eq!(Language::from_name("swift"), Some(Language::Swift));
    assert_eq!(Language::from_name("typescript"), Some(Language::Typescript));
    assert_eq!(Language::from_name("Rust"), None);
    assert_eq!(Language::from_name("cpp"), None);
    assert_eq!(Language::from_name("c_plus_plus"), None);
    assert_eq!(Language::from_name(""), None);
}

#[test]
fn code_type_names() {
    assert_eq!(CodeType::from_name("comment"), Some(CodeType::Comment));
    assert_eq!(CodeType::from_name("string-literal"), Some(CodeType::StringLiteral));
    assert_eq!(CodeType::from_name("string_literal"), None);
    assert_eq!(CodeType::from_name("default"), None);
    assert_eq!(CodeType::from_name("Comment"), None);
}

#[test]
fn node_kinds_of_each_language() {
    let cases: [(Language, &[(&str, CodeType)]); 9] = [
        (
            Language::C,
            &[
                ("comment", Comment),
                ("char_literal", StringLiteral),
                ("string_literal", StringLiteral),
                ("string_content", StringLiteral),
            ],
        ),
        (
            Language::CPlusPlus,
            &[
                ("comment", Comment),
                ("char_literal", StringLiteral),
                ("raw_string_literal", StringLiteral),
                ("string_literal", StringLiteral),
                ("string_content", StringLiteral),
            ],
        ),
        (
            Language::Go,
            &[
                ("comment", Comment),
                ("interpreted_string_literal", StringLiteral),
                ("interpreted_string_literal_content", StringLiteral),
                ("raw_string_literal", StringLiteral),
                ("raw_string_literal_content", StringLiteral),
            ],
        ),
        (
            Language::Javascript,
            &[("comment", Comment), ("block_comment", Comment), ("string_fragment", StringLiteral)],
        ),
        (
            Language::Kotlin,
            &[
                ("block_comment", Comment),
                ("line_comment", Comment),
                ("character_literal", StringLiteral),
                ("string_literal", StringLiteral),
                ("multiline_string_literal", StringLiteral),
                ("string_content", StringLiteral),
            ],
        ),
        (Language::Python, &[("comment", Comment), ("string_content", StringLiteral)]),
        (
            Language::Rust,
            &[
                ("doc_comment", Comment),
                ("line_comment", Comment),
                ("block_comment", Comment),
                ("string_content", StringLiteral),
                ("char_literal", StringLiteral),
            ],
        ),
        (
            Language::Swift,
            &[
                ("comment", Comment),
                ("multiline_comment", Comment),
                ("line_str_text", StringLiteral),
                ("multi_line_str_text", StringLiteral),
            ],
        ),
        (Language::Typescript, &[("comment", Comment), ("string_fragment", StringLiteral)]),
    ];
    let all_kinds = [
        "comment", "char_literal", "string_literal", "string_content", "raw_string_literal",
        "interpreted_string_literal", "interpreted_string_literal_content",
        "raw_string_literal_content", "block_comment", "string_fragment", "line_comment",
        "character_literal", "multiline_string_literal", "doc_comment", "multiline_comment",
        "line_str_text", "multi_line_str_text", "identifier", "source_file", "", "Comment",
    ];
    for (language, table) in cases {
        for kind in all_kinds {
            let expected = table.iter().find(|row| row.0 == kind).map(|row| row.1);
            assert_eq!(language.lookup_code_type(kind), expected, "{:?} {}", language, kind);
        }
    }
    assert_eq!(Language::Rust.lookup_code_type("line_comment"), Some(Comment));
    assert_eq!(Language::Rust.lookup_code_type("comment"), None);
    assert_eq!(Language::C.lookup_code_type("line_comment"), None);
    assert_eq!(Language::Python.lookup_code_type("string_literal"), None);
}

#[test]
fn section_asks_the_code_type_first() {
    let mut code_type_rules = CodeTypeRules::new();
    code_type_rules.insert(
        CodeType::Comment,
        RuleSet { allow: vec![CharacterType::Anything], deny: vec![CharacterType::Bidi] },
    );
    let section = ConfigRules {
        default: RuleSet { allow: vec![], deny: vec![CharacterType::Anything] },
        code_type_rules,
    };
    assert_eq!(section.decision('x', Some(CodeType::Comment)), Some(Decision::Allow));
    assert_eq!(section.decision('\u{202E}', Some(CodeType::Comment)), Some(Decision::Deny));
    assert_eq!(section.decision('x', Some(CodeType::StringLiteral)), Some(Decision::Deny));
    assert_eq!(section.decision('x', None), Some(Decision::Deny));
    assert_eq!(ConfigRules::default().decision('x', Some(CodeType::Comment)), None);
}

#[test]
fn tables_replace_on_insert() {
    let mut rules = CodeTypeRules::new();
    rules.insert(CodeType::Comment, RuleSet { allow: vec![CharacterType::Bidi], deny: vec![] });
    rules.insert(CodeType::Comment, RuleSet { allow: vec![], deny: vec![CharacterType::Bidi] });
    assert_eq!(
        rules.get(CodeType::Comment),
        Some(&RuleSet { allow: vec![], deny: vec![CharacterType::Bidi] })
    );
    assert_eq!(rules.get(CodeType::StringLiteral), None);

    let mut table = LanguageTable::new();
    for language in LANGUAGES {
        table.insert(language, LanguageRules { paths: None, rules: ConfigRules::default() });
    }
    table.insert(Language::Go, LanguageRules { paths: Some(vec![]), rules: ConfigRules::default() });
    for language in LANGUAGES {
        let expected = if language == Language::Go { Some(vec![]) } else { None };
        assert_eq!(table.get(language).unwrap().paths, expected);
    }
}
