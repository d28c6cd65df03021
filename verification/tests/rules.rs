use unicop::rules::{CharacterType, Decision, RuleSet, BIDI_CHARACTERS};
use unicop::unicode_blocks::find_block;

fn tibetan() -> CharacterType {
    CharacterType::Block(find_block("Tibetan").unwrap())
}

#[test]
fn code_point_matches_itself_only() {
    let rule = CharacterType::CodePoint('\u{9000}');
    assert!(rule.matches('\u{9000}'));
    assert!(!rule.matches('\u{9001}'));
    assert!(!rule.matches('\u{8FFF}'));
}

#[test]
fn range_matches_its_bounds_and_between() {
    let rule = CharacterType::Range('\u{5000}', '\u{5004}');
    assert!(rule.matches('\u{5000}'));
    assert!(rule.matches('\u{5002}'));
    assert!(rule.matches('\u{5004}'));
    assert!(!rule.matches('\u{4FFF}'));
    assert!(!rule.matches('\u{5005}'));
}

#[test]
fn bidi_matches_the_nine_controls() {
    let expected = [
        '\u{202A}', '\u{202B}', '\u{202C}', '\u{202D}', '\u{202E}', '\u{2066}', '\u{2067}',
        '\u{2068}', '\u{2069}',
    ];
    assert_eq!(BIDI_CHARACTERS, expected);
    for c in expected {
        assert!(CharacterType::Bidi.matches(c));
    }
    assert!(!CharacterType::Bidi.matches('\u{2029}'));
    assert!(!CharacterType::Bidi.matches('\u{202F}'));
    assert!(!CharacterType::Bidi.matches('\u{2065}'));
    assert!(!CharacterType::Bidi.matches('\u{206A}'));
    assert!(!CharacterType::Bidi.matches('a'));
    assert!(!CharacterType::Bidi.matches('\u{200E}'));
}

#[test]
fn block_matches_its_range() {
    let rule = tibetan();
    assert!(rule.matches('\u{F00}'));
    assert!(rule.matches('\u{FFF}'));
    assert!(!rule.matches('\u{EFF}'));
    assert!(!rule.matches('\u{1000}'));
}

#[test]
fn anything_matches_everything() {
    assert!(CharacterType::Anything.matches('\0'));
    assert!(CharacterType::Anything.matches('a'));
    assert!(CharacterType::Anything.matches('\u{202E}'));
    assert!(CharacterType::Anything.matches('\u{10FFFF}'));
}

#[test]
fn specificity_ranks() {
    assert_eq!(CharacterType::CodePoint('a').specificity(), 5);
    assert_eq!(CharacterType::Range('a', 'z').specificity(), 4);
    assert_eq!(CharacterType::Bidi.specificity(), 3);
    assert_eq!(tibetan().specificity(), 2);
    assert_eq!(CharacterType::Anything.specificity(), 1);
}

#[test]
fn character_types_compare() {
    assert_eq!(CharacterType::CodePoint('a'), CharacterType::CodePoint('a'));
    assert!(CharacterType::CodePoint('a') != CharacterType::CodePoint('b'));
    assert_eq!(CharacterType::Range('a', 'z'), CharacterType::Range('a', 'z'));
    assert!(CharacterType::Range('a', 'z') != CharacterType::Range('a', 'y'));
    assert!(CharacterType::Range('a', 'z') != CharacterType::Range('b', 'z'));
    assert_eq!(CharacterType::Bidi, CharacterType::Bidi);
    assert_eq!(CharacterType::Anything, CharacterType::Anything);
    assert_eq!(tibetan(), tibetan());
    assert!(tibetan() != CharacterType::Block(find_block("Thai").unwrap()));
    assert!(CharacterType::Bidi != CharacterType::Anything);
    assert!(CharacterType::CodePoint('a') != CharacterType::Range('a', 'a'));
}

#[test]
fn no_match_gives_no_opinion() {
    let rules = RuleSet {
        allow: vec![CharacterType::CodePoint('a'), tibetan()],
        deny: vec![CharacterType::Range('0', '9'), CharacterType::Bidi],
    };
    assert_eq!(rules.decision('b'), None);
    assert_eq!(rules.decision('\u{4E2D}'), None);
    assert_eq!(RuleSet::default().decision('a'), None);
    assert_eq!(RuleSet::default().decision('\u{202E}'), None);
}

#[test]
fn one_side_alone_decides() {
    let rules = RuleSet {
        allow: vec![CharacterType::CodePoint('a')],
        deny: vec![CharacterType::Range('0', '9')],
    };
    assert_eq!(rules.decision('a'), Some(Decision::Allow));
    assert_eq!(rules.decision('5'), Some(Decision::Deny));
}

#[test]
fn equal_specificity_denies() {
    let ranges = RuleSet {
        allow: vec![CharacterType::Range('a', 'z')],
        deny: vec![CharacterType::Range('m', 'p')],
    };
    assert_eq!(ranges.decision('n'), Some(Decision::Deny));
    assert_eq!(ranges.decision('b'), Some(Decision::Allow));

    for rule in [
        CharacterType::CodePoint('\u{202E}'),
        CharacterType::Range('\u{2000}', '\u{2100}'),
        CharacterType::Bidi,
        CharacterType::Block(find_block("General Punctuation").unwrap()),
        CharacterType::Anything,
    ] {
        let tie = RuleSet { allow: vec![rule], deny: vec![rule] };
        assert_eq!(tie.decision('\u{202E}'), Some(Decision::Deny));
    }
}

#[test]
fn more_specific_side_wins() {
    let allow_wins = RuleSet {
        allow: vec![CharacterType::CodePoint('\u{202E}')],
        deny: vec![CharacterType::Bidi],
    };
    assert_eq!(allow_wins.decision('\u{202E}'), Some(Decision::Allow));
    assert_eq!(allow_wins.decision('\u{202D}'), Some(Decision::Deny));

    let deny_wins = RuleSet {
        allow: vec![CharacterType::Anything],
        deny: vec![CharacterType::Bidi],
    };
    assert_eq!(deny_wins.decision('\u{202E}'), Some(Decision::Deny));
    assert_eq!(deny_wins.decision('a'), Some(Decision::Allow));
}

#[test]
fn a_denied_code_point_beats_an_allowed_one_beside_a_denied_bidi() {
    let rules = RuleSet {
        allow: vec![CharacterType::CodePoint('\u{202E}')],
        deny: vec![CharacterType::Bidi, CharacterType::CodePoint('\u{202E}')],
    };
    assert_eq!(rules.decision('\u{202E}'), Some(Decision::Deny));
}

#[test]
fn order_within_the_lists_does_not_matter() {
    let one = RuleSet {
        allow: vec![CharacterType::Anything, CharacterType::CodePoint('x'), tibetan()],
        deny: vec![CharacterType::Range('a', 'z'), CharacterType::Bidi],
    };
    let other = RuleSet {
        allow: vec![tibetan(), CharacterType::CodePoint('x'), CharacterType::Anything],
        deny: vec![CharacterType::Bidi, CharacterType::Range('a', 'z')],
    };
    for c in ['x', 'y', 'A', '\u{F00}', '\u{202E}', '\u{4E2D}'] {
        assert_eq!(one.decision(c), other.decision(c));
    }
    assert_eq!(one.decision('x'), Some(Decision::Allow));
    assert_eq!(one.decision('y'), Some(Decision::Deny));
    assert_eq!(one.decision('A'), Some(Decision::Allow));
    assert_eq!(one.decision('\u{202E}'), Some(Decision::Deny));
}
