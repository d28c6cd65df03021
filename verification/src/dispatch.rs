//! The rule dispatcher: it layers the user's configuration over the built-in
//! one, and answers for a file which language it is in, and for a character
//! in that file whether it is allowed.

use crate::config::{
    CodeType, Config, ConfigView, Language, LanguageRulesView, LANGUAGES, LANGUAGE_COUNT,
};
use crate::patterns::{matches_path, path_matches, pattern_source, pattern_sources};
use crate::rules::{lemma_no_match_no_opinion, Decision};
use vstd::prelude::*;

verus! {

impl LanguageRulesView {
    /// Whether the language claims the file at `path`: it declares patterns
    /// and one of them matches. A language that declares no patterns, or an
    /// empty list of them, claims no file.
    pub open spec fn claims(self, path: Seq<char>) -> bool {
        match self.paths {
            Some(patterns) => exists|i: int|
                0 <= i < patterns.len() && path_matches(#[trigger] patterns[i], path),
            None => false,
        }
    }
}

impl ConfigView {
    /// The verdict of the configuration on `c` in code of the given language
    /// and type. The scopes are asked in this order, and the first verdict
    /// stands: the language's rule set for the code type, the language's
    /// default rule set, the global rule set for the code type, the global
    /// default rule set.
    pub open spec fn decision(
        self,
        c: char,
        language: Language,
        code_type: Option<CodeType>,
    ) -> Option<Decision> {
        let local = if self.language.contains_key(language) {
            self.language[language].rules.decision(c, code_type)
        } else {
            None
        };
        if local is Some {
            local
        } else {
            self.global.decision(c, code_type)
        }
    }

    /// Whether any rule set of the configuration, in any scope, holds `c`.
    pub open spec fn mentions(self, c: char) -> bool {
        ||| self.global.mentions(c)
        ||| exists|language: Language| #[trigger]
            self.language.contains_key(language) && self.language[language].rules.mentions(c)
    }

    /// Whether the configuration declares `language` with a pattern that
    /// matches `path`.
    pub open spec fn claims(self, language: Language, path: Seq<char>) -> bool {
        self.language.contains_key(language) && self.language[language].claims(path)
    }

    /// The first language, from place `from` of `LANGUAGES` on, that claims
    /// the file at `path`.
    pub open spec fn language_from(self, path: Seq<char>, from: int) -> Option<Language>
        decreases LANGUAGE_COUNT - from,
    {
        if from < 0 || from >= LANGUAGE_COUNT {
            None
        } else if self.claims(LANGUAGES[from], path) {
            Some(LANGUAGES[from])
        } else {
            self.language_from(path, from + 1)
        }
    }

    /// The language of the file at `path` under this configuration: the
    /// first language, in the order of `LANGUAGES`, that claims it.
    pub open spec fn language(self, path: Seq<char>) -> Option<Language> {
        self.language_from(path, 0)
    }
}

/// The verdicts of the four scopes of a configuration, the most specific
/// scope first: the language's rule set for the code type, the language's
/// default rule set, the global rule set for the code type, the global default
/// rule set. A scope that the configuration does not declare has no verdict.
pub open spec fn scope_verdicts(
    config: ConfigView,
    c: char,
    language: Language,
    code_type: Option<CodeType>,
) -> Seq<Option<Decision>> {
    let declared = config.language.contains_key(language);
    seq![
        if declared {
            config.language[language].rules.code_type_decision(c, code_type)
        } else {
            None
        },
        if declared {
            config.language[language].rules.default.decision(c)
        } else {
            None
        },
        config.global.code_type_decision(c, code_type),
        config.global.default.decision(c),
    ]
}

/// The first verdict in a list, from the place `from` on.
pub open spec fn first_verdict(verdicts: Seq<Option<Decision>>, from: int) -> Option<Decision>
    decreases verdicts.len() - from,
{
    if from < 0 || from >= verdicts.len() {
        None
    } else if verdicts[from] is Some {
        verdicts[from]
    } else {
        first_verdict(verdicts, from + 1)
    }
}

/// The cascade: the verdict of a configuration is the first verdict among
/// its four scopes, taken in their order.
pub proof fn lemma_cascade_order(
    config: ConfigView,
    c: char,
    language: Language,
    code_type: Option<CodeType>,
)
    ensures
        config.decision(c, language, code_type) == first_verdict(
            scope_verdicts(config, c, language, code_type),
            0,
        ),
{
    reveal_with_fuel(first_verdict, 5);
}

/// The place of a language in `LANGUAGES`.
pub open spec fn language_index(language: Language) -> int {
    match language {
        Language::C => 0,
        Language::CPlusPlus => 1,
        Language::Go => 2,
        Language::Javascript => 3,
        Language::Kotlin => 4,
        Language::Python => 5,
        Language::Rust => 6,
        Language::Swift => 7,
        Language::Typescript => 8,
    }
}

/// The language that a configuration finds for a file claims the file, and
/// no language before it in `LANGUAGES` does. It finds none exactly when no
/// language claims the file.
pub proof fn lemma_language_is_first_claim(config: ConfigView, path: Seq<char>, from: int)
    requires
        0 <= from <= LANGUAGE_COUNT,
    ensures
        match config.language_from(path, from) {
            Some(found) => {
                &&& config.claims(found, path)
                &&& from <= language_index(found)
                &&& forall|other: Language|
                    from <= language_index(other) < language_index(found) ==> !config.claims(
                        other,
                        path,
                    )
            },
            None => forall|other: Language|
                from <= language_index(other) ==> !config.claims(other, path),
        },
    decreases LANGUAGE_COUNT - from,
{
    if from < LANGUAGE_COUNT {
        assert(language_index(LANGUAGES[from]) == from);
        assert forall|other: Language| language_index(other) == from implies other
            == LANGUAGES[from] by {
            assert(LANGUAGES[language_index(other)] == other);
        }
        if !config.claims(LANGUAGES[from], path) {
            lemma_language_is_first_claim(config, path, from + 1);
        }
    }
}

/// What a dispatcher works with: the user's configuration, if there is one,
/// and the built-in configuration.
pub struct DispatcherView {
    pub user_config: Option<ConfigView>,
    pub default_config: ConfigView,
}

impl DispatcherView {
    /// The final verdict on `c` in code of the given language and type. The
    /// first configuration with a verdict decides alone, the user's before
    /// the built-in one. Without any verdict the character is denied.
    pub open spec fn decision(
        self,
        c: char,
        language: Language,
        code_type: Option<CodeType>,
    ) -> Decision {
        let user = match self.user_config {
            Some(config) => config.decision(c, language, code_type),
            None => None,
        };
        match user {
            Some(verdict) => verdict,
            None => match self.default_config.decision(c, language, code_type) {
                Some(verdict) => verdict,
                None => Decision::Deny,
            },
        }
    }

    /// The language of the file at `path`: what the user's configuration
    /// finds, and else what the built-in configuration finds.
    pub open spec fn language(self, path: Seq<char>) -> Option<Language> {
        let user = match self.user_config {
            Some(config) => config.language(path),
            None => None,
        };
        if user is Some {
            user
        } else {
            self.default_config.language(path)
        }
    }
}

/// A verdict of the user's configuration is final: nothing in the built-in
/// configuration changes it, however specific.
pub proof fn lemma_user_verdict_stands(
    dispatcher: DispatcherView,
    c: char,
    language: Language,
    code_type: Option<CodeType>,
)
    requires
        dispatcher.user_config is Some,
        dispatcher.user_config->0.decision(c, language, code_type) is Some,
    ensures
        Some(dispatcher.decision(c, language, code_type)) == dispatcher.user_config->0.decision(
            c,
            language,
            code_type,
        ),
{
}

/// Where the user's configuration has no verdict, or there is none, the
/// built-in configuration decides with its whole cascade: the levels of the
/// two configurations are never mixed.
pub proof fn lemma_falls_through_to_default(
    dispatcher: DispatcherView,
    c: char,
    language: Language,
    code_type: Option<CodeType>,
)
    requires
        dispatcher.user_config matches Some(user) ==> user.decision(c, language, code_type)
            is None,
    ensures
        dispatcher.decision(c, language, code_type) == match dispatcher.default_config.decision(
            c,
            language,
            code_type,
        ) {
            Some(verdict) => verdict,
            None => Decision::Deny,
        },
{
}

/// A configuration has no verdict on a character that none of its rule sets
/// holds.
pub proof fn lemma_unmentioned_no_opinion(
    config: ConfigView,
    c: char,
    language: Language,
    code_type: Option<CodeType>,
)
    requires
        !config.mentions(c),
    ensures
        config.decision(c, language, code_type) is None,
{
    lemma_no_match_no_opinion(config.global.default, c);
    if let Some(ct) = code_type {
        if config.global.code_type_rules.contains_key(ct) {
            lemma_no_match_no_opinion(config.global.code_type_rules[ct], c);
        }
    }
    if config.language.contains_key(language) {
        let local = config.language[language].rules;
        assert(!local.mentions(c));
        lemma_no_match_no_opinion(local.default, c);
        if let Some(ct) = code_type {
            if local.code_type_rules.contains_key(ct) {
                lemma_no_match_no_opinion(local.code_type_rules[ct], c);
            }
        }
    }
}

/// Fail closed: a character that no rule set of either configuration holds
/// is denied, in every language and every type of code.
pub proof fn lemma_fail_closed(
    dispatcher: DispatcherView,
    c: char,
    language: Language,
    code_type: Option<CodeType>,
)
    requires
        !dispatcher.default_config.mentions(c),
        dispatcher.user_config matches Some(user) ==> !user.mentions(c),
    ensures
        dispatcher.decision(c, language, code_type) == Decision::Deny,
{
    lemma_unmentioned_no_opinion(dispatcher.default_config, c, language, code_type);
    if let Some(user) = dispatcher.user_config {
        lemma_unmentioned_no_opinion(user, c, language, code_type);
    }
}

/// Under configurations without any rule every character is denied.
pub proof fn lemma_empty_config_denies(
    dispatcher: DispatcherView,
    c: char,
    language: Language,
    code_type: Option<CodeType>,
)
    requires
        dispatcher.default_config == ConfigView::empty(),
        dispatcher.user_config matches Some(user) ==> user == ConfigView::empty(),
    ensures
        dispatcher.decision(c, language, code_type) == Decision::Deny,
{
    lemma_fail_closed(dispatcher, c, language, code_type);
}

/// Whether one of `patterns` matches `path`.
fn any_matches(patterns: &Vec<glob::Pattern>, path: &str) -> (found: bool)
    ensures
        found == exists|i: int|
            0 <= i < patterns.len() && path_matches(
                #[trigger] pattern_sources(patterns@)[i],
                path@,
            ),
{
    let ghost sources = pattern_sources(patterns@);
    let mut i: usize = 0;
    while i < patterns.len()
        invariant
            i <= patterns.len(),
            sources == pattern_sources(patterns@),
            forall|j: int| 0 <= j < i ==> !path_matches(#[trigger] sources[j], path@),
        decreases patterns.len() - i,
    {
        assert(sources[i as int] == pattern_source(patterns@[i as int]));
        if matches_path(&patterns[i], path) {
            return true;
        }
        i += 1;
    }
    false
}

/// Composes the user's configuration, if there is one, with the built-in
/// configuration.
#[derive(Debug, PartialEq, Eq)]
pub struct RuleDispatcher {
    pub user_config: Option<Config>,
    pub default_config: Config,
}

impl View for RuleDispatcher {
    type V = DispatcherView;

    open spec fn view(&self) -> DispatcherView {
        DispatcherView {
            user_config: match self.user_config {
                Some(config) => Some(config@),
                None => None,
            },
            default_config: self.default_config@,
        }
    }
}

impl RuleDispatcher {
    /// The language of the file at `filepath`, or `None` if no language
    /// claims it and the file is to be skipped. The user's configuration is
    /// asked first, then the built-in one.
    pub fn language(&self, filepath: &str) -> (language: Option<Language>)
        ensures
            language == self@.language(filepath@),
    {
        if let Some(userconf) = &self.user_config {
            if let Some(lang) = Self::language_for_config(userconf, filepath) {
                return Some(lang);
            }
        }
        if let Some(lang) = Self::language_for_config(&self.default_config, filepath) {
            return Some(lang);
        }
        None
    }

    /// The language of the file at `filepath` under one configuration: the
    /// first language, in the order of `LANGUAGES`, that the configuration
    /// declares with a path pattern that matches.
    pub fn language_for_config(config: &Config, filepath: &str) -> (language: Option<Language>)
        ensures
            language == config@.language(filepath@),
    {
        let mut i: usize = 0;
        while i < LANGUAGE_COUNT
            invariant
                i <= LANGUAGE_COUNT,
                config@.language(filepath@) == config@.language_from(filepath@, i as int),
            decreases LANGUAGE_COUNT - i,
        {
            let lang = LANGUAGES[i];
            if let Some(langconf) = config.language.get(lang) {
                if let Some(paths) = &langconf.paths {
                    if any_matches(paths, filepath) {
                        assert(langconf@.claims(filepath@));
                        return Some(lang);
                    }
                }
            }
            i += 1;
        }
        None
    }

    /// Whether `c` is allowed in code of the given language and type. The
    /// user's configuration decides if it has a verdict, else the built-in
    /// one; a character on which neither has a verdict is denied.
    pub fn decision(&self, c: char, language: Language, code_type: Option<CodeType>) -> (verdict:
        Decision)
        ensures
            verdict == self@.decision(c, language, code_type),
    {
        if let Some(user_config) = &self.user_config {
            if let Some(decision) = Self::decision_for_config(user_config, c, language, code_type) {
                return decision;
            }
        }
        if let Some(decision) = Self::decision_for_config(
            &self.default_config,
            c,
            language,
            code_type,
        ) {
            return decision;
        }
        Decision::Deny
    }

    /// The verdict of one configuration, or `None` if it has none. The
    /// scopes are asked in this order:
    /// 1. Code type specific ruleset for specific language
    /// 2. Default ruleset for specific language
    /// 3. Code type specific ruleset in global section
    /// 4. Default rules in global section
    pub fn decision_for_config(
        config: &Config,
        c: char,
        language: Language,
        code_type: Option<CodeType>,
    ) -> (verdict: Option<Decision>)
        ensures
            verdict == config@.decision(c, language, code_type),
    {
        if let Some(language_rules) = config.language.get(language) {
            // 1. and 2.
            if let Some(decision) = language_rules.rules.decision(c, code_type) {
                return Some(decision);
            }
        }
        // 3. and 4.
        config.global.decision(c, code_type)
    }
}

} // verus!
