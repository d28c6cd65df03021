//! Syntax trees, from which the scan learns what kind of code a character
//! stands in.
//!
//! The trees come from the `tree-sitter` parser and the grammar crates of the
//! languages. Verus does not see into them: what this module states of them
//! is taken on trust.

use tree_sitter::Language as Grammar;
use vstd::prelude::*;

verus! {

/// A grammar in the form that the parser takes.
#[verifier::external_type_specification]
#[verifier::external_body]
pub struct ExGrammar(Grammar);

/// The error of a parser that refuses a grammar.
#[verifier::external_type_specification]
#[verifier::external_body]
pub struct ExLanguageError(tree_sitter::LanguageError);

/// A syntax tree.
#[verifier::external_type_specification]
#[verifier::external_body]
pub struct ExTree(tree_sitter::Tree);

/// What a tree says of byte ranges: for the range from a first byte up to an
/// end, the kind of the smallest named node that spans it, where the tree has
/// such a node. The tree counts bytes in 32 bits and reads larger offsets cut
/// to that size.
pub uninterp spec fn tree_node_kinds(tree: tree_sitter::Tree) -> Map<(usize, usize), Seq<char>>;

/// Whether the tree holds a syntax error anywhere.
pub uninterp spec fn tree_has_error(tree: tree_sitter::Tree) -> bool;

/// What the scan reads of a syntax tree.
pub struct TreeView {
    /// For a range of bytes, the kind of the smallest named node that spans
    /// it.
    pub node_kinds: Map<(usize, usize), Seq<char>>,
    /// Whether the tree holds a syntax error anywhere.
    pub has_error: bool,
}

/// What the scan reads of `tree`.
pub open spec fn tree_view(tree: tree_sitter::Tree) -> TreeView {
    TreeView { node_kinds: tree_node_kinds(tree), has_error: tree_has_error(tree) }
}

/// Whether `Parser::set_language` accepts the grammar: its ABI version is one
/// that this version of the parser supports, and it has a lexer.
pub uninterp spec fn grammar_usable(grammar: Grammar) -> bool;

/// The number of node kinds of the grammar, which `Language::node_kind_count`
/// hands out: its symbols and its aliases.
pub uninterp spec fn grammar_kind_count(grammar: Grammar) -> nat;

/// What the tree holds that `Parser::parse` gives for `text`, with no earlier
/// tree, on a parser that was made for the call and given `grammar`. The parse
/// reads the grammar and the text and nothing else.
pub uninterp spec fn parsed_tree(grammar: Grammar, text: Seq<char>) -> TreeView;

/// The grammar of C, from `tree_sitter_c::LANGUAGE`. The parser
/// accepts it, and it has 363 node kinds (360 symbols and 3 aliases).
#[verifier::external_body]
pub(crate) fn c_grammar() -> (grammar: Grammar)
    ensures
        grammar_usable(grammar),
        grammar_kind_count(grammar) == 363,
{
    tree_sitter_c::LANGUAGE.into()
}

/// The grammar of C++, from `tree_sitter_cpp::LANGUAGE`. The parser
/// accepts it, and it has 543 node kinds (538 symbols and 5 aliases).
#[verifier::external_body]
pub(crate) fn cpp_grammar() -> (grammar: Grammar)
    ensures
        grammar_usable(grammar),
        grammar_kind_count(grammar) == 543,
{
    tree_sitter_cpp::LANGUAGE.into()
}

/// The grammar of Go, from `tree_sitter_go::LANGUAGE`. The parser
/// accepts it, and it has 219 node kinds (214 symbols and 5 aliases).
#[verifier::external_body]
pub(crate) fn go_grammar() -> (grammar: Grammar)
    ensures
        grammar_usable(grammar),
        grammar_kind_count(grammar) == 219,
{
    tree_sitter_go::LANGUAGE.into()
}

/// The grammar of JavaScript, from `tree_sitter_javascript::LANGUAGE`. The parser
/// accepts it, and it has 265 node kinds (261 symbols and 4 aliases).
#[verifier::external_body]
pub(crate) fn javascript_grammar() -> (grammar: Grammar)
    ensures
        grammar_usable(grammar),
        grammar_kind_count(grammar) == 265,
{
    tree_sitter_javascript::LANGUAGE.into()
}

/// The grammar of Kotlin, from `tree_sitter_kotlin_ng::LANGUAGE`. The parser
/// accepts it, and it has 289 node kinds (289 symbols and 0 aliases).
#[verifier::external_body]
pub(crate) fn kotlin_grammar() -> (grammar: Grammar)
    ensures
        grammar_usable(grammar),
        grammar_kind_count(grammar) == 289,
{
    tree_sitter_kotlin_ng::LANGUAGE.into()
}

/// The grammar of Python, from `tree_sitter_python::LANGUAGE`. The parser
/// accepts it, and it has 274 node kinds (272 symbols and 2 aliases).
#[verifier::external_body]
pub(crate) fn python_grammar() -> (grammar: Grammar)
    ensures
        grammar_usable(grammar),
        grammar_kind_count(grammar) == 274,
{
    tree_sitter_python::LANGUAGE.into()
}

/// The grammar of Rust, from `tree_sitter_rust::LANGUAGE`. The parser
/// accepts it, and it has 355 node kinds (351 symbols and 4 aliases).
#[verifier::external_body]
pub(crate) fn rust_grammar() -> (grammar: Grammar)
    ensures
        grammar_usable(grammar),
        grammar_kind_count(grammar) == 355,
{
    tree_sitter_rust::LANGUAGE.into()
}

/// The grammar of Swift, from `tree_sitter_swift::LANGUAGE`. The parser
/// accepts it, and it has 572 node kinds (567 symbols and 5 aliases).
#[verifier::external_body]
pub(crate) fn swift_grammar() -> (grammar: Grammar)
    ensures
        grammar_usable(grammar),
        grammar_kind_count(grammar) == 572,
{
    tree_sitter_swift::LANGUAGE.into()
}

/// The grammar of TypeScript, from
/// `tree_sitter_typescript::LANGUAGE_TYPESCRIPT`. The parser
/// accepts it, and it has 383 node kinds (376 symbols and 7 aliases).
#[verifier::external_body]
pub(crate) fn typescript_grammar() -> (grammar: Grammar)
    ensures
        grammar_usable(grammar),
        grammar_kind_count(grammar) == 383,
{
    tree_sitter_typescript::LANGUAGE_TYPESCRIPT.into()
}

/// Makes a parser with `Parser::new`, gives it the grammar with
/// `Parser::set_language` and calls `Parser::parse` on the whole text, with no
/// earlier tree. The parser refuses the grammar or not by the grammar alone.
/// A parser that has its grammar gives a tree for every text, and what that
/// tree holds depends on the grammar and the text alone.
#[verifier::external_body]
pub(crate) fn parse_with_grammar(grammar: &Grammar, text: &str) -> (outcome: Result<
    Option<tree_sitter::Tree>,
    tree_sitter::LanguageError,
>)
    ensures
        outcome is Ok <==> grammar_usable(*grammar),
        outcome matches Ok(tree) ==> tree is Some,
        outcome matches Ok(Some(tree)) ==> tree_view(tree) == parsed_tree(*grammar, text@),
{
    let mut parser = tree_sitter::Parser::new();
    match parser.set_language(grammar) {
        Ok(()) => Ok(parser.parse(text, None)),
        Err(error) => Err(error),
    }
}

/// Calls `Node::has_error` on the root of the tree: whether the tree holds a
/// syntax error anywhere.
#[verifier::external_body]
pub(crate) fn has_error(tree: &tree_sitter::Tree) -> (damaged: bool)
    ensures
        damaged == tree_has_error(*tree),
{
    tree.root_node().has_error()
}

/// Calls `Node::named_descendant_for_byte_range` on the root of the tree and
/// hands out the kind of the node found: the smallest named node that spans
/// the bytes from `start` up to `end`. What it finds depends on the tree and
/// the range alone.
#[verifier::external_body]
pub(crate) fn node_kind_at<'a>(tree: &'a tree_sitter::Tree, start: usize, end: usize) -> (kind:
    Option<&'a str>)
    ensures
        kind is Some <==> tree_node_kinds(*tree).contains_key((start, end)),
        kind matches Some(label) ==> label@ == tree_node_kinds(*tree)[(start, end)],
{
    match tree.root_node().named_descendant_for_byte_range(start, end) {
        Some(node) => Some(node.kind()),
        None => None,
    }
}

} // verus!
