//! The scan of one source text: every character is judged by the rules of
//! the kind of code it stands in.

use crate::config::{CodeType, Language};
use crate::dispatch::{DispatcherView, RuleDispatcher};
use crate::rules::Decision;
use crate::syntax::{
    has_error, node_kind_at, parse_with_grammar, parsed_tree, tree_node_kinds, tree_view, TreeView,
};
use crate::text::{byte_offset, lemma_byte_offset_grows, lemma_byte_offset_total, utf8_width};
use vstd::prelude::*;
use vstd::string::StringSliceAdditionalSpecFns;

verus! {

/// Statistics about a scan.
#[derive(Debug, Clone, Copy, PartialEq, Eq)]
pub struct ScanStats {
    /// Number of unicode code points ([`char`]s) that the scan processed.
    pub num_unicode_code_points: u64,
    /// Number of rule violations encountered during the scan.
    pub num_rule_violations: u64,
    /// How many files that had parse errors.
    pub num_parse_errors: u64,
}

impl ScanStats {
    /// The sum of two statistics, count by count, where every sum fits.
    pub open spec fn spec_plus(self, other: ScanStats) -> Option<ScanStats> {
        if self.num_unicode_code_points + other.num_unicode_code_points <= u64::MAX
            && self.num_rule_violations + other.num_rule_violations <= u64::MAX
            && self.num_parse_errors + other.num_parse_errors <= u64::MAX {
            Some(
                ScanStats {
                    num_unicode_code_points: (self.num_unicode_code_points
                        + other.num_unicode_code_points) as u64,
                    num_rule_violations: (self.num_rule_violations
                        + other.num_rule_violations) as u64,
                    num_parse_errors: (self.num_parse_errors + other.num_parse_errors) as u64,
                },
            )
        } else {
            None
        }
    }

    /// Adds the statistics of another scan to these, count by count. There is
    /// no sum where a count would pass the largest number it can hold.
    pub fn plus(&self, other: &ScanStats) -> (sum: Option<ScanStats>)
        ensures
            sum == self.spec_plus(*other),
    {
        let num_unicode_code_points = match self.num_unicode_code_points.checked_add(
            other.num_unicode_code_points,
        ) {
            Some(n) => n,
            None => {
                return None;
            },
        };
        let num_rule_violations = match self.num_rule_violations.checked_add(
            other.num_rule_violations,
        ) {
            Some(n) => n,
            None => {
                return None;
            },
        };
        let num_parse_errors = match self.num_parse_errors.checked_add(other.num_parse_errors) {
            Some(n) => n,
            None => {
                return None;
            },
        };
        Some(ScanStats { num_unicode_code_points, num_rule_violations, num_parse_errors })
    }

    /// Whether a run that ended with these totals, and with `num_failed_files`
    /// files that could not be scanned, found anything to report: a rule
    /// violation, a file that failed, or, where parse errors are denied, a
    /// parse error.
    pub fn found_issue(&self, num_failed_files: u64, deny_parse_errors: bool) -> (found: bool)
        ensures
            found == (self.num_rule_violations > 0 || num_failed_files > 0 || (
            self.num_parse_errors > 0 && deny_parse_errors)),
    {
        self.num_rule_violations > 0 || num_failed_files > 0 || (self.num_parse_errors > 0
            && deny_parse_errors)
    }
}

/// What a violation is: a denied character, the bytes it takes in the text,
/// and the kind of the syntax node it was found in, if there is a node.
pub struct ViolationView {
    pub start: nat,
    pub end: nat,
    pub character: char,
    pub node_kind: Option<Seq<char>>,
}

/// A character that the rules deny.
#[derive(Debug, PartialEq, Eq)]
pub struct Violation {
    /// The byte at which the character starts.
    pub start: usize,
    /// The byte behind the character.
    pub end: usize,
    /// The character.
    pub character: char,
    /// The kind of the syntax node that the character was found in.
    pub node_kind: Option<String>,
}

impl View for Violation {
    type V = ViolationView;

    open spec fn view(&self) -> ViolationView {
        ViolationView {
            start: self.start as nat,
            end: self.end as nat,
            character: self.character,
            node_kind: match self.node_kind {
                Some(kind) => Some(kind@),
                None => None,
            },
        }
    }
}

/// The outcome of the scan of one text.
#[derive(Debug, PartialEq, Eq)]
pub struct ScanReport {
    pub stats: ScanStats,
    /// The denied characters, in the order of the text.
    pub violations: Vec<Violation>,
}

/// What a list of violations holds.
pub open spec fn violation_views(violations: Seq<Violation>) -> Seq<ViolationView> {
    violations.map_values(|violation: Violation| violation@)
}

/// The kind of the syntax node around the character with the given index,
/// if the tree has a node there.
pub open spec fn kind_at(
    text: Seq<char>,
    kinds: Map<(usize, usize), Seq<char>>,
    index: int,
) -> Option<Seq<char>> {
    let range = (byte_offset(text, index) as usize, byte_offset(text, index + 1) as usize);
    if kinds.contains_key(range) {
        Some(kinds[range])
    } else {
        None
    }
}

/// The type of the code around the character with the given index: what the
/// language's table gives for the kind of the node there. Without a node the
/// code has no type.
pub open spec fn code_type_at(
    language: Language,
    text: Seq<char>,
    kinds: Map<(usize, usize), Seq<char>>,
    index: int,
) -> Option<CodeType> {
    match kind_at(text, kinds, index) {
        Some(kind) => language.spec_lookup_code_type(kind),
        None => None,
    }
}

/// Whether the character with the given index is denied.
pub open spec fn is_denied(
    dispatcher: DispatcherView,
    language: Language,
    text: Seq<char>,
    kinds: Map<(usize, usize), Seq<char>>,
    index: int,
) -> bool {
    dispatcher.decision(text[index], language, code_type_at(language, text, kinds, index))
        == Decision::Deny
}

/// The violation that the character with the given index gives rise to, if
/// it is denied.
pub open spec fn violation_at(
    text: Seq<char>,
    kinds: Map<(usize, usize), Seq<char>>,
    index: int,
) -> ViolationView {
    ViolationView {
        start: byte_offset(text, index),
        end: byte_offset(text, index + 1),
        character: text[index],
        node_kind: kind_at(text, kinds, index),
    }
}

/// The violations among the first `upto` characters of `text`, in the order
/// of the text.
pub open spec fn spec_violations(
    dispatcher: DispatcherView,
    language: Language,
    text: Seq<char>,
    kinds: Map<(usize, usize), Seq<char>>,
    upto: int,
) -> Seq<ViolationView>
    decreases upto,
{
    if upto <= 0 {
        Seq::empty()
    } else {
        let before = spec_violations(dispatcher, language, text, kinds, upto - 1);
        if is_denied(dispatcher, language, text, kinds, upto - 1) {
            before.push(violation_at(text, kinds, upto - 1))
        } else {
            before
        }
    }
}

/// Whether `report` is the outcome of the scan of `text` with the syntax
/// tree `tree`: it counts the characters of the text, lists and counts the
/// violations among them, and counts one parse error if the tree holds a
/// syntax error.
pub open spec fn is_report_of(
    report: ScanReport,
    dispatcher: DispatcherView,
    language: Language,
    text: Seq<char>,
    tree: TreeView,
) -> bool {
    &&& report.stats.num_unicode_code_points == text.len()
    &&& report.stats.num_rule_violations == report.violations@.len()
    &&& report.stats.num_parse_errors == if tree.has_error {
        1nat
    } else {
        0nat
    }
    &&& violation_views(report.violations@) == spec_violations(
        dispatcher,
        language,
        text,
        tree.node_kinds,
        text.len() as int,
    )
}

/// Whether `tree` is what the parse of `text` with the grammar of `language`
/// gives.
pub open spec fn is_tree_of(tree: TreeView, language: Language, text: Seq<char>) -> bool {
    exists|grammar: tree_sitter::Language|
        language.has_grammar(grammar) && tree == #[trigger] parsed_tree(grammar, text)
}

/// Whether `report` is the outcome of the scan of `text` with the syntax tree
/// that the parse of `text` with the grammar of `language` gives.
pub open spec fn is_report_of_source(
    report: ScanReport,
    dispatcher: DispatcherView,
    language: Language,
    text: Seq<char>,
) -> bool {
    exists|grammar: tree_sitter::Language|
        language.has_grammar(grammar) && is_report_of(
            report,
            dispatcher,
            language,
            text,
            #[trigger] parsed_tree(grammar, text),
        )
}

/// What a list holds after one more violation.
proof fn lemma_views_push(violations: Seq<Violation>, violation: Violation)
    ensures
        violation_views(violations.push(violation)) == violation_views(violations).push(
            violation@,
        ),
{
    assert(violation_views(violations.push(violation)) =~= violation_views(violations).push(
        violation@,
    ));
}

/// The violations up to and including a character are those before it and,
/// if it is denied, the character itself.
pub proof fn lemma_violations_step(
    dispatcher: DispatcherView,
    language: Language,
    text: Seq<char>,
    kinds: Map<(usize, usize), Seq<char>>,
    index: int,
)
    requires
        0 <= index,
    ensures
        spec_violations(dispatcher, language, text, kinds, index + 1) == if is_denied(
            dispatcher,
            language,
            text,
            kinds,
            index,
        ) {
            spec_violations(dispatcher, language, text, kinds, index).push(
                violation_at(text, kinds, index),
            )
        } else {
            spec_violations(dispatcher, language, text, kinds, index)
        },
{
}

/// Why a text could not be scanned.
#[derive(Debug, Clone, Copy, PartialEq, Eq, Structural)]
pub enum ParseFailure {
    /// The parser refused the grammar of the language.
    Grammar,
    /// The parser gave no tree.
    NoTree,
}

/// Judges one character in code of the kind `node_kind`: whether the rules
/// allow it there.
pub fn judge(
    dispatcher: &RuleDispatcher,
    lang: Language,
    c: char,
    node_kind: Option<&str>,
) -> (verdict: Decision)
    ensures
        verdict == dispatcher@.decision(
            c,
            lang,
            match node_kind {
                Some(kind) => lang.spec_lookup_code_type(kind@),
                None => None,
            },
        ),
{
    let code_type = match node_kind {
        Some(kind) => lang.lookup_code_type(kind),
        None => None,
    };
    dispatcher.decision(c, lang, code_type)
}

/// Scans `src`, whose syntax tree is `tree`: evaluates each code point for
/// rule violations.
pub fn scan_tree(
    dispatcher: &RuleDispatcher,
    lang: Language,
    src: &str,
    tree: &tree_sitter::Tree,
) -> (report: ScanReport)
    ensures
        is_report_of(report, dispatcher@, lang, src@, tree_view(*tree)),
{
    let ghost kinds = tree_node_kinds(*tree);
    let size = src.as_bytes().len();
    proof {
        lemma_byte_offset_total(src@);
        assert(byte_offset(src@, src@.len() as int) == size);
    }
    let mut violations: Vec<Violation> = Vec::new();
    let mut count: u64 = 0;
    let mut off: usize = 0;
    for ch in it: src.chars()
        invariant
            it.seq() == src@,
            kinds == tree_node_kinds(*tree),
            byte_offset(src@, src@.len() as int) <= usize::MAX,
            off == byte_offset(src@, it.index() as int),
            count == it.index(),
            violation_views(violations@) == spec_violations(
                dispatcher@,
                lang,
                src@,
                kinds,
                it.index() as int,
            ),
    {
        let ghost index = it.index() as int;
        proof {
            lemma_byte_offset_grows(src@, index + 1, src@.len() as int);
            lemma_byte_offset_grows(src@, 0, index + 1);
            lemma_violations_step(dispatcher@, lang, src@, kinds, index);
            assert(ch == src@[index]);
            assert(byte_offset(src@, index + 1) == byte_offset(src@, index) + utf8_width(ch));
        }
        let end = off + ch.len_utf8();
        let node_kind = node_kind_at(tree, off, end);
        assert(match node_kind {
            Some(kind) => Some(kind@),
            None => None,
        } == kind_at(src@, kinds, index));
        if judge(dispatcher, lang, ch, node_kind) == Decision::Deny {
            let violation = Violation {
                start: off,
                end,
                character: ch,
                node_kind: match node_kind {
                    Some(kind) => Some(kind.to_owned()),
                    None => None,
                },
            };
            assert(violation@ == violation_at(src@, kinds, index));
            proof {
                lemma_views_push(violations@, violation);
            }
            violations.push(violation);
        }
        count += 1;
        off = end;
    }
    let stats = ScanStats {
        num_unicode_code_points: count,
        num_rule_violations: violations.len() as u64,
        num_parse_errors: if has_error(tree) {
            1
        } else {
            0
        },
    };
    ScanReport { stats, violations }
}

/// Parses `src` with the grammar of `lang`. The parser accepts the grammar
/// of every language and gives a tree for every text, also for one with syntax
/// errors; what it would refuse is handed on as a failure. The tree is that of
/// the parse of `src` with the grammar of `lang`.
pub fn parse_source(lang: Language, src: &str) -> (parsed: Result<tree_sitter::Tree, ParseFailure>)
    ensures
        parsed is Ok,
        is_tree_of(tree_view(parsed->Ok_0), lang, src@),
{
    let grammar = lang.grammar();
    match parse_with_grammar(&grammar, src) {
        Err(_) => Err(ParseFailure::Grammar),
        Ok(None) => Err(ParseFailure::NoTree),
        Ok(Some(tree)) => {
            assert(tree_view(tree) == parsed_tree(grammar, src@));
            Ok(tree)
        },
    }
}

/// Parses `src` with the grammar of `lang` and scans it. The report is that
/// of the scan of `src` with the tree that the parse gives.
pub fn scan_source(dispatcher: &RuleDispatcher, lang: Language, src: &str) -> (scanned: Result<
    ScanReport,
    ParseFailure,
>)
    ensures
        scanned is Ok,
        is_report_of_source(scanned->Ok_0, dispatcher@, lang, src@),
{
    match parse_source(lang, src) {
        Err(failure) => Err(failure),
        Ok(tree) => {
            let report = scan_tree(dispatcher, lang, src, &tree);
            proof {
                let grammar = choose|grammar: tree_sitter::Language|
                    lang.has_grammar(grammar) && tree_view(tree) == #[trigger] parsed_tree(
                        grammar,
                        src@,
                    );
                assert(is_report_of(report, dispatcher@, lang, src@, parsed_tree(grammar, src@)));
            }
            Ok(report)
        },
    }
}

} // verus!
