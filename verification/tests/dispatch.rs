use unicop::builtin::get_default_config;
use unicop::config::{
    CodeType, CodeTypeRules, Config, ConfigRules, Language, LanguageRules, LanguageTable,
    LANGUAGES,
};
use unicop::dispatch::RuleDispatcher;
use unicop::patterns::compile_patterns;
use unicop::rules::{CharacterType, Decision, RuleSet};

fn rules(allow: &[&str], deny: &[&str]) -> RuleSet {
    RuleSet {
        allow: allow.iter().map(|text| CharacterType::from_str(text).unwrap()).collect(),
        deny: deny.iter().map(|text| CharacterType::from_str(text).unwrap()).collect(),
    }
}

fn section(default: RuleSet, comment: Option<RuleSet>, string_literal: Option<RuleSet>) -> ConfigRules {
    ConfigRules { default, code_type_rules: CodeTypeRules { comment, string_literal } }
}

fn with_language(language: Language, paths: Option<&[&str]>, rules: ConfigRules) -> LanguageTable {
    let mut table = LanguageTable::new();
    table.insert(
        language,
        LanguageRules { paths: paths.map(|texts| compile_patterns(texts).unwrap()), rules },
    );
    table
}

fn builtin_only() -> RuleDispatcher {
    RuleDispatcher { user_config: None, default_config: get_default_config().unwrap() }
}

fn over_builtin(user: Config) -> RuleDispatcher {
    RuleDispatcher { user_config: Some(user), default_config: get_default_config().unwrap() }
}

#[test]
fn builtin_rules() {
    let dispatcher = builtin_only();
    for language in LANGUAGES {
        assert_eq!(dispatcher.decision('a', language, None), Decision::Allow);
        assert_eq!(dispatcher.decision('\u{7F}', language, None), Decision::Allow);
        assert_eq!(dispatcher.decision('\u{80}', language, None), Decision::Deny);
        assert_eq!(dispatcher.decision('\u{4E2D}', language, None), Decision::Deny);
        assert_eq!(dispatcher.decision('\u{202E}', language, None), Decision::Deny);
        for code_type in [CodeType::Comment, CodeType::StringLiteral] {
            assert_eq!(dispatcher.decision('a', language, Some(code_type)), Decision::Allow);
            assert_eq!(dispatcher.decision('\u{4E2D}', language, Some(code_type)), Decision::Allow);
            for bidi in unicop::rules::BIDI_CHARACTERS {
                assert_eq!(dispatcher.decision(bidi, language, Some(code_type)), Decision::Deny);
            }
        }
    }
}

#[test]
fn builtin_config_value() {
    let config = get_default_config().unwrap();
    assert_eq!(config.global.default, rules(&["ascii"], &[]));
    assert_eq!(config.global.code_type_rules.get(CodeType::Comment), Some(&rules(&["*"], &["bidi"])));
    assert_eq!(
        config.global.code_type_rules.get(CodeType::StringLiteral),
        Some(&rules(&["*"], &["bidi"]))
    );
    let expected: [(Language, &[&str]); 9] = [
        (Language::C, &["**/*.c"]),
        (
            Language::CPlusPlus,
            &["**/*.cpp", "**/*.CPP", "**/*.c++", "**/*.C", "**/*.cc", "**/*.cxx", "**/*.hpp", "**/*.h"],
        ),
        (Language::Go, &["**/*.go"]),
        (Language::Javascript, &["**/*.js", "**/*.mjs", "**/*.cjs", "**/*.jsx"]),
        (Language::Kotlin, &["**/*.kt", "**/*.kts"]),
        (Language::Python, &["**/*.py"]),
        (Language::Rust, &["**/*.rs"]),
        (Language::Swift, &["**/*.swift"]),
        (Language::Typescript, &["**/*.ts"]),
    ];
    for (language, patterns) in expected {
        let declared = config.language.get(language).unwrap();
        let texts: Vec<&str> =
            declared.paths.as_ref().unwrap().iter().map(|pattern| pattern.as_str()).collect();
        assert_eq!(texts, patterns);
        assert_eq!(declared.rules, ConfigRules::default());
    }
}

#[test]
fn builtin_languages_by_path() {
    let dispatcher = builtin_only();
    assert_eq!(dispatcher.language("foo.rs"), Some(Language::Rust));
    assert_eq!(dispatcher.language("src/deep/down/foo.rs"), Some(Language::Rust));
    assert_eq!(dispatcher.language("/abs/foo.c"), Some(Language::C));
    assert_eq!(dispatcher.language("foo.C"), Some(Language::CPlusPlus));
    assert_eq!(dispatcher.language("foo.h"), Some(Language::CPlusPlus));
    assert_eq!(dispatcher.language("a/foo.c++"), Some(Language::CPlusPlus));
    assert_eq!(dispatcher.language("foo.go"), Some(Language::Go));
    assert_eq!(dispatcher.language("foo.mjs"), Some(Language::Javascript));
    assert_eq!(dispatcher.language("foo.jsx"), Some(Language::Javascript));
    assert_eq!(dispatcher.language("build.gradle.kts"), Some(Language::Kotlin));
    assert_eq!(dispatcher.language("foo.py"), Some(Language::Python));
    assert_eq!(dispatcher.language("foo.swift"), Some(Language::Swift));
    assert_eq!(dispatcher.language("foo.ts"), Some(Language::Typescript));
    assert_eq!(dispatcher.language("foo.RS"), None);
    assert_eq!(dispatcher.language("foo.txt"), None);
    assert_eq!(dispatcher.language("foo"), None);
    assert_eq!(dispatcher.language("rs"), None);
    assert_eq!(dispatcher.language(""), None);
}

#[test]
fn global_comment_rules_override_the_global_default() {
    let user = Config {
        global: section(rules(&[], &["*"]), Some(rules(&["*"], &["bidi"])), None),
        language: LanguageTable::new(),
    };
    let dispatcher = over_builtin(user);
    let comment = Some(CodeType::Comment);
    assert_eq!(dispatcher.decision('\u{202E}', Language::Rust, comment), Decision::Deny);
    assert_eq!(dispatcher.decision('\u{4E2D}', Language::Rust, comment), Decision::Allow);
    assert_eq!(dispatcher.decision('\u{4E2D}', Language::Rust, None), Decision::Deny);
}

#[test]
fn language_default_rules() {
    let user = Config {
        global: ConfigRules::default(),
        language: with_language(
            Language::Rust,
            None,
            section(rules(&["Tibetan", "U+9000"], &["U+5000..U+5004"]), None, None),
        ),
    };
    let dispatcher = RuleDispatcher { user_config: None, default_config: user };
    assert_eq!(dispatcher.decision('\u{5002}', Language::Rust, None), Decision::Deny);
    assert_eq!(dispatcher.decision('\u{0F00}', Language::Rust, None), Decision::Allow);
    assert_eq!(dispatcher.decision('\u{9000}', Language::Rust, None), Decision::Allow);
}

#[test]
fn builtin_patterns_find_rust() {
    let dispatcher = builtin_only();
    assert_eq!(dispatcher.language("foo.rs"), Some(Language::Rust));
    let builtin = get_default_config().unwrap();
    assert_eq!(RuleDispatcher::language_for_config(&builtin, "foo.rs"), Some(Language::Rust));
    let rust = builtin.language.get(Language::Rust).unwrap();
    assert_eq!(rust.paths.as_ref().unwrap()[0].as_str(), "**/*.rs");
}

#[test]
fn empty_config_denies_everything() {
    let dispatcher = RuleDispatcher { user_config: None, default_config: Config::default() };
    let also_empty_user =
        RuleDispatcher { user_config: Some(Config::default()), default_config: Config::default() };
    for c in ['\0', 'a', ' ', '\n', '\u{7F}', '\u{E9}', '\u{202E}', '\u{4E2D}', '\u{10FFFF}'] {
        for language in LANGUAGES {
            for code_type in [None, Some(CodeType::Comment), Some(CodeType::StringLiteral)] {
                assert_eq!(dispatcher.decision(c, language, code_type), Decision::Deny);
                assert_eq!(also_empty_user.decision(c, language, code_type), Decision::Deny);
                assert_eq!(
                    RuleDispatcher::decision_for_config(&Config::default(), c, language, code_type),
                    None
                );
            }
        }
    }
    assert_eq!(dispatcher.language("foo.rs"), None);
}

#[test]
fn cascade_order_within_a_config() {
    // Each scope allows one letter that the scope below denies.
    let config = Config {
        global: section(
            rules(&["U+64"], &["*"]),
            Some(rules(&["U+63"], &["U+64"])),
            None,
        ),
        language: with_language(
            Language::Rust,
            None,
            section(rules(&["U+62"], &["U+63"]), Some(rules(&["U+61"], &["U+62"])), None),
        ),
    };
    let decide = |c: char, language: Language, code_type: Option<CodeType>| {
        RuleDispatcher::decision_for_config(&config, c, language, code_type)
    };
    let comment = Some(CodeType::Comment);
    let string = Some(CodeType::StringLiteral);
    // 1. the language's rule set for the code type
    assert_eq!(decide('a', Language::Rust, comment), Some(Decision::Allow));
    assert_eq!(decide('b', Language::Rust, comment), Some(Decision::Deny));
    // 2. the language's default rule set
    assert_eq!(decide('c', Language::Rust, comment), Some(Decision::Deny));
    assert_eq!(decide('b', Language::Rust, None), Some(Decision::Allow));
    assert_eq!(decide('b', Language::Rust, string), Some(Decision::Allow));
    // 3. the global rule set for the code type
    assert_eq!(decide('d', Language::Rust, comment), Some(Decision::Deny));
    assert_eq!(decide('c', Language::Go, comment), Some(Decision::Allow));
    // 4. the global default rule set
    assert_eq!(decide('d', Language::Rust, None), Some(Decision::Allow));
    assert_eq!(decide('d', Language::Go, string), Some(Decision::Allow));
    assert_eq!(decide('e', Language::Rust, comment), Some(Decision::Deny));
    assert_eq!(decide('a', Language::Rust, None), Some(Decision::Deny));
    assert_eq!(decide('a', Language::Go, comment), Some(Decision::Deny));
}

#[test]
fn user_verdict_is_final() {
    // The user's global default denies a bidi character in comments, although
    // a more specific scope of the other configuration would allow it.
    let user = Config {
        global: section(rules(&[], &["bidi"]), None, None),
        language: LanguageTable::new(),
    };
    let default_config = Config {
        global: ConfigRules::default(),
        language: with_language(
            Language::Rust,
            None,
            section(rules(&[], &[]), Some(rules(&["U+202E"], &[])), None),
        ),
    };
    let comment = Some(CodeType::Comment);
    assert_eq!(
        RuleDispatcher::decision_for_config(&default_config, '\u{202E}', Language::Rust, comment),
        Some(Decision::Allow)
    );
    let dispatcher = RuleDispatcher { user_config: Some(user), default_config };
    assert_eq!(dispatcher.decision('\u{202E}', Language::Rust, comment), Decision::Deny);
}

#[test]
fn silent_user_config_falls_through_to_the_whole_default_cascade() {
    let user = Config {
        global: section(rules(&["Tibetan"], &[]), None, None),
        language: with_language(Language::Rust, None, section(rules(&["U+9000"], &[]), None, None)),
    };
    let dispatcher = over_builtin(user);
    let builtin = get_default_config().unwrap();
    for c in ['a', '\u{E9}', '\u{202E}', '\u{4E2D}'] {
        for language in LANGUAGES {
            for code_type in [None, Some(CodeType::Comment), Some(CodeType::StringLiteral)] {
                let expected =
                    RuleDispatcher::decision_for_config(&builtin, c, language, code_type)
                        .unwrap_or(Decision::Deny);
                assert_eq!(dispatcher.decision(c, language, code_type), expected);
            }
        }
    }
    assert_eq!(dispatcher.decision('\u{4E2D}', Language::Rust, None), Decision::Deny);
    assert_eq!(dispatcher.decision('\u{4E2D}', Language::Rust, Some(CodeType::Comment)), Decision::Allow);
    assert_eq!(dispatcher.decision('\u{F00}', Language::Rust, None), Decision::Allow);
    assert_eq!(dispatcher.decision('\u{9000}', Language::Rust, None), Decision::Allow);
    assert_eq!(dispatcher.decision('\u{9000}', Language::Go, None), Decision::Deny);
}

#[test]
fn unmentioned_character_is_denied() {
    let user = Config {
        global: section(rules(&["ascii"], &["bidi"]), Some(rules(&["Tibetan"], &[])), None),
        language: with_language(Language::Rust, None, section(rules(&["U+9000"], &[]), None, None)),
    };
    let default_config = Config {
        global: section(rules(&["U+41..U+5A"], &[]), None, Some(rules(&[], &["Thai"]))),
        language: LanguageTable::new(),
    };
    let dispatcher = RuleDispatcher { user_config: Some(user), default_config };
    for language in LANGUAGES {
        for code_type in [None, Some(CodeType::Comment), Some(CodeType::StringLiteral)] {
            assert_eq!(dispatcher.decision('\u{4E2D}', language, code_type), Decision::Deny);
        }
    }
}

#[test]
fn user_paths_come_before_builtin_paths() {
    let user = Config {
        global: ConfigRules::default(),
        language: with_language(Language::Python, Some(&["**/*.rs", "scripts/*"]), ConfigRules::default()),
    };
    let dispatcher = over_builtin(user);
    assert_eq!(dispatcher.language("foo.rs"), Some(Language::Python));
    assert_eq!(dispatcher.language("scripts/run"), Some(Language::Python));
    assert_eq!(dispatcher.language("foo.py"), Some(Language::Python));
    assert_eq!(dispatcher.language("foo.go"), Some(Language::Go));
    assert_eq!(dispatcher.language("foo.txt"), None);
}

#[test]
fn language_without_paths_inherits_and_with_empty_paths_never_matches() {
    let inherits = Config {
        global: ConfigRules::default(),
        language: with_language(Language::Rust, None, ConfigRules::default()),
    };
    assert_eq!(RuleDispatcher::language_for_config(&inherits, "foo.rs"), None);
    assert_eq!(over_builtin(inherits).language("foo.rs"), Some(Language::Rust));

    let never = Config {
        global: ConfigRules::default(),
        language: with_language(Language::Rust, Some(&[]), ConfigRules::default()),
    };
    assert_eq!(RuleDispatcher::language_for_config(&never, "foo.rs"), None);
    let alone = RuleDispatcher { user_config: Some(never), default_config: Config::default() };
    assert_eq!(alone.language("foo.rs"), None);
}

#[test]
fn overlapping_paths_go_to_the_first_language() {
    let mut language = LanguageTable::new();
    for declared in [Language::Typescript, Language::Go, Language::Kotlin] {
        language.insert(
            declared,
            LanguageRules {
                paths: Some(compile_patterns(&["**/*.x"]).unwrap()),
                rules: ConfigRules::default(),
            },
        );
    }
    let config = Config { global: ConfigRules::default(), language };
    assert_eq!(RuleDispatcher::language_for_config(&config, "a.x"), Some(Language::Go));
}

#[test]
fn patterns_match_as_glob_does() {
    let user = Config {
        global: ConfigRules::default(),
        language: with_language(
            Language::C,
            Some(&["src/*.c", "lib/**/*.h", "file?.[ch]"]),
            ConfigRules::default(),
        ),
    };
    let only = RuleDispatcher { user_config: Some(user), default_config: Config::default() };
    assert_eq!(only.language("src/a.c"), Some(Language::C));
    assert_eq!(only.language("src/a.C"), None);
    assert_eq!(only.language("lib/a.h"), Some(Language::C));
    assert_eq!(only.language("lib/x/y/a.h"), Some(Language::C));
    assert_eq!(only.language("file1.c"), Some(Language::C));
    assert_eq!(only.language("file1.h"), Some(Language::C));
    assert_eq!(only.language("file12.c"), None);
    assert_eq!(only.language("other/a.c"), None);
}

#[test]
fn wildcards_stay_within_a_path_segment() {
    let user = Config {
        global: ConfigRules::default(),
        language: with_language(
            Language::Go,
            Some(&["src/*.go", "cmd/?/main.go", "pkg/[a-z]/x.go", "**/vendor/**"]),
            ConfigRules::default(),
        ),
    };
    let only = RuleDispatcher { user_config: Some(user), default_config: Config::default() };
    assert_eq!(only.language("src/a.go"), Some(Language::Go));
    assert_eq!(only.language("src/.go"), Some(Language::Go));
    assert_eq!(only.language("src/sub/a.go"), None);
    assert_eq!(only.language("cmd/a/main.go"), Some(Language::Go));
    assert_eq!(only.language("cmd///main.go"), None);
    assert_eq!(only.language("pkg/q/x.go"), Some(Language::Go));
    assert_eq!(only.language("pkg/Q/x.go"), None);
    assert_eq!(only.language("a/b/vendor/c/d.txt"), Some(Language::Go));
    assert_eq!(only.language("vendor/d.txt"), Some(Language::Go));
    assert_eq!(only.language("avendor/d.txt"), None);
    // A dot at the start of a segment needs no literal dot.
    assert_eq!(only.language("src/.hidden.go"), Some(Language::Go));
    assert_eq!(only.language(".git/vendor/x"), Some(Language::Go));
}

#[test]
fn invalid_patterns_are_refused() {
    let error = compile_patterns(&["**/*.rs", "a**b", "["]).unwrap_err();
    assert_eq!(error.pattern, "a**b");
    assert_eq!(error.position, 0);
    assert_eq!(error.message, "recursive wildcards must form a single path component");

    let error = compile_patterns(&["***"]).unwrap_err();
    assert_eq!(error.pattern, "***");
    assert_eq!(error.position, 2);
    assert_eq!(error.message, "wildcards are either regular `*` or recursive `**`");

    let error = compile_patterns(&["a[b"]).unwrap_err();
    assert_eq!(error.pattern, "a[b");
    assert_eq!(error.position, 1);
    assert_eq!(error.message, "invalid range pattern");

    assert_eq!(compile_patterns(&[]).unwrap(), Vec::<glob::Pattern>::new());
    let compiled = compile_patterns(&["**/*.rs", "x"]).unwrap();
    assert_eq!(compiled, vec![glob::Pattern::new("**/*.rs").unwrap(), glob::Pattern::new("x").unwrap()]);
}
