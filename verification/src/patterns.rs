//! Path patterns, by which a configuration says which files belong to a
//! language.
//!
//! Patterns are compiled and matched by the `glob` crate. Verus does not see
//! into that crate: what this module states of it is taken on trust.

use vstd::prelude::*;

verus! {

/// A compiled glob pattern. Nothing of its inside is visible here.
#[verifier::external_type_specification]
#[verifier::external_body]
pub struct ExPattern(glob::Pattern);

/// The error that `glob` gives for a text that is no pattern.
#[verifier::external_type_specification]
#[verifier::external_body]
pub struct ExPatternError(glob::PatternError);

/// The text that a pattern was compiled from, which `Pattern::as_str` hands
/// out.
pub uninterp spec fn pattern_source(pattern: glob::Pattern) -> Seq<char>;

/// Whether `glob::Pattern::new` accepts a text as a pattern. What counts as a
/// separator beside `**` is the matter of the platform the crate is built for.
pub uninterp spec fn is_valid_pattern(text: Seq<char>) -> bool;

/// Whether the pattern compiled from `source` matches `path`, as
/// `Pattern::matches_path_with` finds with the given options: whether case
/// matters, whether a separator in the path needs a literal separator in the
/// pattern, and whether a dot at the start of a path segment needs a literal
/// dot. The separator is that of the platform the crate is built for.
pub uninterp spec fn pattern_accepts(
    source: Seq<char>,
    path: Seq<char>,
    case_sensitive: bool,
    require_literal_separator: bool,
    require_literal_leading_dot: bool,
) -> bool;

/// `glob::Pattern::new` compiles a text. Whether it succeeds depends on the
/// text alone, and the pattern it gives keeps the text it came from.
pub assume_specification[ glob::Pattern::new ](pattern: &str) -> (compiled: Result<
    glob::Pattern,
    glob::PatternError,
>)
    ensures
        compiled is Ok <==> is_valid_pattern(pattern@),
        compiled matches Ok(p) ==> pattern_source(p) == pattern@,
;

/// Calls `glob::Pattern::matches_path_with` on the path with the text
/// `path`, with the options given. Whether a pattern matches depends only on
/// the text it was compiled from, on the path and on the options.
#[verifier::external_body]
pub(crate) fn matches_path_with(
    pattern: &glob::Pattern,
    path: &str,
    case_sensitive: bool,
    require_literal_separator: bool,
    require_literal_leading_dot: bool,
) -> (found: bool)
    ensures
        found == pattern_accepts(
            pattern_source(*pattern),
            path@,
            case_sensitive,
            require_literal_separator,
            require_literal_leading_dot,
        ),
{
    let options = glob::MatchOptions {
        case_sensitive,
        require_literal_separator,
        require_literal_leading_dot,
    };
    pattern.matches_path_with(std::path::Path::new(path), options)
}

/// Reads the fields of a `glob::PatternError`: the approximate position of
/// the fault in the text, counted in characters, and a message that says what
/// is wrong.
#[verifier::external_body]
pub(crate) fn error_parts(error: &glob::PatternError) -> (parts: (usize, &'static str)) {
    (error.pos, error.msg)
}

/// Whether the pattern with the text `source` matches the path `path` the way
/// a configuration matches paths: case matters, `**` matches any number of
/// path segments, `*`, `?` and brackets match within a segment, and a dot at
/// the start of a segment needs no literal dot.
pub open spec fn path_matches(source: Seq<char>, path: Seq<char>) -> bool {
    pattern_accepts(source, path, true, true, false)
}

/// Whether `pattern` matches the path with the text `path`.
pub fn matches_path(pattern: &glob::Pattern, path: &str) -> (found: bool)
    ensures
        found == path_matches(pattern_source(*pattern), path@),
{
    matches_path_with(pattern, path, true, true, false)
}

/// The texts that a list of patterns was compiled from.
pub open spec fn pattern_sources(patterns: Seq<glob::Pattern>) -> Seq<Seq<char>> {
    patterns.map_values(|pattern: glob::Pattern| pattern_source(pattern))
}

/// The characters of each text of a list.
pub open spec fn texts_of(texts: Seq<&str>) -> Seq<Seq<char>> {
    texts.map_values(|text: &str| text@)
}

/// Whether every text of a list is a pattern.
pub open spec fn all_valid(texts: Seq<Seq<char>>) -> bool {
    forall|i: int| 0 <= i < texts.len() ==> is_valid_pattern(#[trigger] texts[i])
}

/// A text that was to be a path pattern and is none.
#[derive(Debug)]
pub struct InvalidPattern {
    /// The text that was refused.
    pub pattern: String,
    /// About where in the text the fault lies, counted in characters.
    pub position: usize,
    /// What is wrong with the text.
    pub message: &'static str,
}

/// Compiles a list of path patterns. The first text that is no pattern
/// fails the whole list.
pub fn compile_patterns(texts: &[&str]) -> (compiled: Result<Vec<glob::Pattern>, InvalidPattern>)
    ensures
        match compiled {
            Ok(patterns) => all_valid(texts_of(texts@)) && pattern_sources(patterns@) == texts_of(
                texts@,
            ),
            Err(error) => exists|i: int|
                0 <= i < texts.len() && !is_valid_pattern(#[trigger] texts_of(texts@)[i])
                    && error.pattern@ == texts_of(texts@)[i] && all_valid(
                    texts_of(texts@).take(i),
                ),
        },
{
    let ghost wanted = texts_of(texts@);
    let mut patterns: Vec<glob::Pattern> = Vec::new();
    let mut i: usize = 0;
    while i < texts.len()
        invariant
            i <= texts.len(),
            wanted == texts_of(texts@),
            patterns.len() == i,
            all_valid(wanted.take(i as int)),
            pattern_sources(patterns@) == wanted.take(i as int),
        decreases texts.len() - i,
    {
        let text = texts[i];
        assert(wanted[i as int] == text@);
        match glob::Pattern::new(text) {
            Ok(pattern) => {
                assert(pattern_sources(patterns@.push(pattern)) =~= wanted.take(i + 1));
                assert forall|j: int| 0 <= j < i + 1 implies is_valid_pattern(
                    #[trigger] wanted.take(i + 1)[j],
                ) by {
                    if j < i {
                        assert(wanted.take(i as int)[j] == wanted.take(i + 1)[j]);
                    }
                }
                patterns.push(pattern);
            },
            Err(error) => {
                let (position, message) = error_parts(&error);
                return Err(InvalidPattern { pattern: text.to_owned(), position, message });
            },
        }
        i += 1;
    }
    assert(wanted.take(texts.len() as int) =~= wanted);
    Ok(patterns)
}

} // verus!
