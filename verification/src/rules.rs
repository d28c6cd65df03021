//! Character classes and the allow/deny rule sets built from them.

use crate::unicode_blocks::{BlockView, UnicodeBlock};
use vstd::prelude::*;
use vstd::std_specs::cmp::PartialEqSpecImpl;

verus! {

/// The bidirectional formatting characters: they reorder displayed text
/// without reordering the bytes underneath.
pub const BIDI_CHARACTERS: [char; 9] = [
    '\u{202A}',
    '\u{202B}',
    '\u{202C}',
    '\u{202D}',
    '\u{202E}',
    '\u{2066}',
    '\u{2067}',
    '\u{2068}',
    '\u{2069}',
];

/// Whether `c` is one of the bidirectional formatting characters.
pub open spec fn is_bidi_control(c: char) -> bool {
    exists|i: int| 0 <= i < 9 && #[trigger] BIDI_CHARACTERS[i] == c
}

/// The verdict of a rule set on one character.
#[derive(Debug, Clone, Copy, PartialEq, Eq, Structural)]
pub enum Decision {
    Allow,
    Deny,
}

/// What a character type stands for: a category of characters.
pub enum CharacterClass {
    /// Exactly one character.
    CodePoint(char),
    /// Every character from the first to the second, both included.
    Range(char, char),
    /// The bidirectional formatting characters.
    Bidi,
    /// The characters of a named block.
    Block(BlockView),
    /// Every character.
    Anything,
}

impl CharacterClass {
    /// Whether the class holds `c`.
    pub open spec fn matches(self, c: char) -> bool {
        match self {
            CharacterClass::CodePoint(rule_char) => rule_char == c,
            CharacterClass::Range(low, high) => low <= c <= high,
            CharacterClass::Bidi => is_bidi_control(c),
            CharacterClass::Block(block) => block.contains(c),
            CharacterClass::Anything => true,
        }
    }

    /// How specific the class is, from 1 for `Anything` to 5 for a single
    /// code point. The rank depends on the kind of class alone.
    pub open spec fn specificity(self) -> nat {
        match self {
            CharacterClass::CodePoint(_) => 5,
            CharacterClass::Range(_, _) => 4,
            CharacterClass::Bidi => 3,
            CharacterClass::Block(_) => 2,
            CharacterClass::Anything => 1,
        }
    }

    /// Whether two classes count as equal. Blocks are equal when their names
    /// are; the other kinds when they hold the same characters.
    pub open spec fn same_class(self, other: CharacterClass) -> bool {
        match (self, other) {
            (CharacterClass::CodePoint(a), CharacterClass::CodePoint(b)) => a == b,
            (CharacterClass::Range(a_low, a_high), CharacterClass::Range(b_low, b_high)) => a_low
                == b_low && a_high == b_high,
            (CharacterClass::Bidi, CharacterClass::Bidi) => true,
            (CharacterClass::Block(a), CharacterClass::Block(b)) => a.name == b.name,
            (CharacterClass::Anything, CharacterClass::Anything) => true,
            _ => false,
        }
    }
}

/// One entry of an allow or a deny list.
#[derive(Debug, Clone, Copy)]
pub enum CharacterType {
    /// Single character (eg. "U+9000")
    CodePoint(char),
    /// An inclusive range of characters (eg. "U+1400..U+1409")
    Range(char, char),
    /// All bidirectional control characters (right to left etc)
    Bidi,
    /// Named ranges of characters (eg. "Tibetan", "Box Drawing")
    Block(UnicodeBlock),
    /// Any possible character.
    Anything,
}

impl View for CharacterType {
    type V = CharacterClass;

    open spec fn view(&self) -> CharacterClass {
        match self {
            CharacterType::CodePoint(c) => CharacterClass::CodePoint(*c),
            CharacterType::Range(low, high) => CharacterClass::Range(*low, *high),
            CharacterType::Bidi => CharacterClass::Bidi,
            CharacterType::Block(block) => CharacterClass::Block(block@),
            CharacterType::Anything => CharacterClass::Anything,
        }
    }
}

/// Whether `c` is one of the bidirectional formatting characters.
fn is_bidi(c: char) -> (found: bool)
    ensures
        found == is_bidi_control(c),
{
    let mut i: usize = 0;
    while i < 9
        invariant
            i <= 9,
            forall|j: int| 0 <= j < i ==> #[trigger] BIDI_CHARACTERS[j] != c,
        decreases 9 - i,
    {
        if BIDI_CHARACTERS[i] == c {
            return true;
        }
        i += 1;
    }
    false
}

impl CharacterType {
    /// Whether the entry applies to `c`.
    pub fn matches(&self, c: char) -> (found: bool)
        ensures
            found == self@.matches(c),
    {
        match self {
            CharacterType::CodePoint(rule_char) => *rule_char == c,
            CharacterType::Range(low, high) => *low <= c && c <= *high,
            CharacterType::Bidi => is_bidi(c),
            CharacterType::Block(block) => block.contains(c),
            CharacterType::Anything => true,
        }
    }

    /// The rank that breaks ties between an allow and a deny entry.
    pub fn specificity(&self) -> (rank: u32)
        ensures
            rank == self@.specificity(),
            1 <= rank <= 5,
    {
        match self {
            CharacterType::CodePoint(_) => 5,
            CharacterType::Range(_, _) => 4,
            CharacterType::Bidi => 3,
            CharacterType::Block(_) => 2,
            CharacterType::Anything => 1,
        }
    }
}

impl PartialEq for CharacterType {
    fn eq(&self, other: &CharacterType) -> (same: bool) {
        match (self, other) {
            (CharacterType::CodePoint(self_c), CharacterType::CodePoint(other_c)) => *self_c
                == *other_c,
            (CharacterType::Range(self_low, self_high), CharacterType::Range(other_low, other_high)) => {
                *self_low == *other_low && *self_high == *other_high
            },
            (CharacterType::Bidi, CharacterType::Bidi) => true,
            (CharacterType::Block(self_block), CharacterType::Block(other_block)) => {
                self_block == other_block
            },
            (CharacterType::Anything, CharacterType::Anything) => true,
            _ => false,
        }
    }
}

impl Eq for CharacterType {

}

impl PartialEqSpecImpl for CharacterType {
    open spec fn obeys_eq_spec() -> bool {
        true
    }

    open spec fn eq_spec(&self, other: &CharacterType) -> bool {
        self@.same_class(other@)
    }
}

/// The classes that a list of entries stands for.
pub open spec fn classes(entries: Seq<CharacterType>) -> Seq<CharacterClass> {
    entries.map_values(|entry: CharacterType| entry@)
}

/// Whether some entry of `rules` holds `c` and has the rank `level`.
pub open spec fn matches_at_level(rules: Seq<CharacterClass>, c: char, level: nat) -> bool {
    exists|i: int|
        0 <= i < rules.len() && (#[trigger] rules[i]).matches(c) && rules[i].specificity() == level
}

/// The highest rank among the entries of `rules` that hold `c`, if any does.
pub open spec fn strongest_match(rules: Seq<CharacterClass>, c: char) -> Option<nat> {
    if matches_at_level(rules, c, 5) {
        Some(5)
    } else if matches_at_level(rules, c, 4) {
        Some(4)
    } else if matches_at_level(rules, c, 3) {
        Some(3)
    } else if matches_at_level(rules, c, 2) {
        Some(2)
    } else if matches_at_level(rules, c, 1) {
        Some(1)
    } else {
        None
    }
}

/// What a rule set is: the classes it allows and the classes it denies. The
/// order within each list does not matter.
pub struct RuleSetView {
    pub allow: Seq<CharacterClass>,
    pub deny: Seq<CharacterClass>,
}

impl RuleSetView {
    /// The rule set without entries.
    pub open spec fn empty() -> RuleSetView {
        RuleSetView { allow: Seq::empty(), deny: Seq::empty() }
    }

    /// The verdict of the rule set on `c`. The side with the more specific
    /// match wins, deny wins a tie, and a character that no entry matches
    /// gets no verdict.
    pub open spec fn decision(self, c: char) -> Option<Decision> {
        match (strongest_match(self.allow, c), strongest_match(self.deny, c)) {
            (None, None) => None,
            (Some(_), None) => Some(Decision::Allow),
            (None, Some(_)) => Some(Decision::Deny),
            (Some(allow_specificity), Some(deny_specificity)) => if deny_specificity
                >= allow_specificity {
                Some(Decision::Deny)
            } else {
                Some(Decision::Allow)
            },
        }
    }

    /// Whether any entry of the rule set, allowing or denying, holds `c`.
    pub open spec fn mentions(self, c: char) -> bool {
        ||| exists|i: int| 0 <= i < self.allow.len() && (#[trigger] self.allow[i]).matches(c)
        ||| exists|i: int| 0 <= i < self.deny.len() && (#[trigger] self.deny[i]).matches(c)
    }
}

/// The strongest match is the rank of an entry that holds the character,
/// and no entry that holds it ranks higher. There is none exactly when no
/// entry holds the character.
pub proof fn lemma_strongest_match(rules: Seq<CharacterClass>, c: char)
    ensures
        match strongest_match(rules, c) {
            Some(level) => {
                &&& matches_at_level(rules, c, level)
                &&& forall|i: int|
                    0 <= i < rules.len() && (#[trigger] rules[i]).matches(c)
                        ==> rules[i].specificity() <= level
            },
            None => forall|i: int| 0 <= i < rules.len() ==> !(#[trigger] rules[i]).matches(c),
        },
{
    assert forall|i: int| 0 <= i < rules.len() && (#[trigger] rules[i]).matches(c) implies (
    match strongest_match(rules, c) {
        Some(level) => rules[i].specificity() <= level,
        None => false,
    }) by {
        let rank = rules[i].specificity();
        assert(1 <= rank <= 5);
        assert(matches_at_level(rules, c, rank));
    }
}

/// Adding an entry to a list raises the strongest match to the entry's rank
/// when the entry holds the character and ranks higher, and changes nothing
/// otherwise.
pub proof fn lemma_strongest_match_push(rules: Seq<CharacterClass>, rule: CharacterClass, c: char)
    ensures
        strongest_match(rules.push(rule), c) == if rule.matches(c) {
            match strongest_match(rules, c) {
                Some(level) if level >= rule.specificity() => Some(level),
                _ => Some(rule.specificity()),
            }
        } else {
            strongest_match(rules, c)
        },
{
    let longer = rules.push(rule);
    assert forall|level: nat| #[trigger]
        matches_at_level(longer, c, level) <==> (matches_at_level(rules, c, level) || (
        rule.matches(c) && rule.specificity() == level)) by {
        if matches_at_level(rules, c, level) {
            let i = choose|i: int|
                0 <= i < rules.len() && (#[trigger] rules[i]).matches(c) && rules[i].specificity()
                    == level;
            assert(longer[i] == rules[i]);
        }
        if rule.matches(c) && rule.specificity() == level {
            assert(longer[rules.len() as int] == rule);
        }
        if matches_at_level(longer, c, level) {
            let i = choose|i: int|
                0 <= i < longer.len() && (#[trigger] longer[i]).matches(c)
                    && longer[i].specificity() == level;
            if i < rules.len() {
                assert(longer[i] == rules[i]);
            }
        }
    }
    assert(1 <= rule.specificity() <= 5);
}

/// A character that no entry of either list holds gets no verdict.
pub proof fn lemma_no_match_no_opinion(rules: RuleSetView, c: char)
    requires
        !rules.mentions(c),
    ensures
        rules.decision(c) is None,
{
    lemma_strongest_match(rules.allow, c);
    lemma_strongest_match(rules.deny, c);
    if strongest_match(rules.allow, c) is Some {
        let level = strongest_match(rules.allow, c)->0;
        assert(matches_at_level(rules.allow, c, level));
    }
    if strongest_match(rules.deny, c) is Some {
        let level = strongest_match(rules.deny, c)->0;
        assert(matches_at_level(rules.deny, c, level));
    }
}

/// A rule set has a verdict on exactly the characters that some entry holds.
pub proof fn lemma_opinion_iff_mentioned(rules: RuleSetView, c: char)
    ensures
        rules.decision(c) is Some <==> rules.mentions(c),
{
    lemma_strongest_match(rules.allow, c);
    lemma_strongest_match(rules.deny, c);
    if !rules.mentions(c) {
        lemma_no_match_no_opinion(rules, c);
    }
}

/// The order within the lists does not matter: two rule sets that allow the
/// same classes and deny the same classes give the same verdict.
pub proof fn lemma_order_does_not_matter(one: RuleSetView, other: RuleSetView, c: char)
    requires
        forall|class: CharacterClass| one.allow.contains(class) <==> other.allow.contains(class),
        forall|class: CharacterClass| one.deny.contains(class) <==> other.deny.contains(class),
    ensures
        one.decision(c) == other.decision(c),
{
    assert forall|level: nat|
        matches_at_level(one.allow, c, level) <==> matches_at_level(other.allow, c, level) by {
        lemma_same_entries_same_matches(one.allow, other.allow, c, level);
        lemma_same_entries_same_matches(other.allow, one.allow, c, level);
    }
    assert forall|level: nat|
        matches_at_level(one.deny, c, level) <==> matches_at_level(other.deny, c, level) by {
        lemma_same_entries_same_matches(one.deny, other.deny, c, level);
        lemma_same_entries_same_matches(other.deny, one.deny, c, level);
    }
}

/// A match in one list is a match in every list that holds the same classes.
proof fn lemma_same_entries_same_matches(
    one: Seq<CharacterClass>,
    other: Seq<CharacterClass>,
    c: char,
    level: nat,
)
    requires
        forall|class: CharacterClass| one.contains(class) ==> other.contains(class),
    ensures
        matches_at_level(one, c, level) ==> matches_at_level(other, c, level),
{
    if matches_at_level(one, c, level) {
        let i = choose|i: int|
            0 <= i < one.len() && (#[trigger] one[i]).matches(c) && one[i].specificity() == level;
        assert(one.contains(one[i]));
        let j = choose|j: int| 0 <= j < other.len() && other[j] == one[i];
        assert(other[j].matches(c) && other[j].specificity() == level);
    }
}

/// Deny wins ties: when a deny entry holds the character and no allow entry
/// that holds it ranks higher, the verdict is `Deny`. So an allow entry and a
/// deny entry of the same rank, with no other allow entry in play, deny.
pub proof fn lemma_deny_wins_ties(rules: RuleSetView, c: char, deny_index: int)
    requires
        0 <= deny_index < rules.deny.len(),
        rules.deny[deny_index].matches(c),
        forall|i: int|
            0 <= i < rules.allow.len() && (#[trigger] rules.allow[i]).matches(c)
                ==> rules.allow[i].specificity() <= rules.deny[deny_index].specificity(),
    ensures
        rules.decision(c) == Some(Decision::Deny),
{
    lemma_strongest_match(rules.allow, c);
    lemma_strongest_match(rules.deny, c);
    if strongest_match(rules.allow, c) is Some {
        let level = strongest_match(rules.allow, c)->0;
        let i = choose|i: int|
            0 <= i < rules.allow.len() && (#[trigger] rules.allow[i]).matches(c)
                && rules.allow[i].specificity() == level;
        assert(rules.allow[i].specificity() <= rules.deny[deny_index].specificity());
    }
}

/// The more specific side wins: when an allow entry holds the character and
/// every deny entry that holds it ranks lower, the verdict is `Allow`. So an
/// allowed code point beats a denied block, range or `bidi`.
pub proof fn lemma_more_specific_allow_wins(rules: RuleSetView, c: char, allow_index: int)
    requires
        0 <= allow_index < rules.allow.len(),
        rules.allow[allow_index].matches(c),
        forall|i: int|
            0 <= i < rules.deny.len() && (#[trigger] rules.deny[i]).matches(c)
                ==> rules.deny[i].specificity() < rules.allow[allow_index].specificity(),
    ensures
        rules.decision(c) == Some(Decision::Allow),
{
    lemma_strongest_match(rules.allow, c);
    lemma_strongest_match(rules.deny, c);
    if strongest_match(rules.deny, c) is Some {
        let level = strongest_match(rules.deny, c)->0;
        let i = choose|i: int|
            0 <= i < rules.deny.len() && (#[trigger] rules.deny[i]).matches(c)
                && rules.deny[i].specificity() == level;
        assert(rules.deny[i].specificity() < rules.allow[allow_index].specificity());
    }
}

/// The rank of the strongest match, as the model counts it.
pub open spec fn as_level(rank: Option<u32>) -> Option<nat> {
    match rank {
        Some(r) => Some(r as nat),
        None => None,
    }
}

/// The highest rank among the entries that apply to `c`.
fn strongest(entries: &Vec<CharacterType>, c: char) -> (best: Option<u32>)
    ensures
        as_level(best) == strongest_match(classes(entries@), c),
{
    let ghost all = classes(entries@);
    let mut best: Option<u32> = None;
    let mut i: usize = 0;
    assert(all.take(0) =~= Seq::<CharacterClass>::empty());
    while i < entries.len()
        invariant
            i <= entries.len(),
            all == classes(entries@),
            as_level(best) == strongest_match(all.take(i as int), c),
        decreases entries.len() - i,
    {
        proof {
            lemma_strongest_match_push(all.take(i as int), all[i as int], c);
            assert(all.take(i + 1) =~= all.take(i as int).push(all[i as int]));
        }
        if entries[i].matches(c) {
            let rank = entries[i].specificity();
            best =
            match best {
                Some(level) => if level >= rank {
                    Some(level)
                } else {
                    Some(rank)
                },
                None => Some(rank),
            };
        }
        i += 1;
    }
    assert(all.take(entries.len() as int) =~= all);
    best
}

/// The characters that one scope allows and denies.
#[derive(Debug, PartialEq, Eq)]
pub struct RuleSet {
    pub allow: Vec<CharacterType>,
    pub deny: Vec<CharacterType>,
}

impl View for RuleSet {
    type V = RuleSetView;

    open spec fn view(&self) -> RuleSetView {
        RuleSetView { allow: classes(self.allow@), deny: classes(self.deny@) }
    }
}

impl Default for RuleSet {
    /// The rule set without entries.
    fn default() -> (rules: RuleSet)
        ensures
            rules@ == RuleSetView::empty(),
    {
        let rules = RuleSet { allow: Vec::new(), deny: Vec::new() };
        assert(rules@.allow =~= Seq::empty());
        assert(rules@.deny =~= Seq::empty());
        rules
    }
}

impl RuleSet {
    /// The verdict of this rule set on `c`: `Allow` or `Deny` when an entry
    /// applies, the more specific side winning and deny winning a tie, and
    /// `None` when no entry applies.
    pub fn decision(&self, c: char) -> (verdict: Option<Decision>)
        ensures
            verdict == self@.decision(c),
    {
        let allow_specificity = strongest(&self.allow, c);
        let deny_specificity = strongest(&self.deny, c);
        match (allow_specificity, deny_specificity) {
            (Some(_), None) => Some(Decision::Allow),
            (None, Some(_)) => Some(Decision::Deny),
            (None, None) => None,
            (Some(allow_specificity), Some(deny_specificity)) => {
                if deny_specificity >= allow_specificity {
                    Some(Decision::Deny)
                } else {
                    Some(Decision::Allow)
                }
            },
        }
    }
}

} // verus!
