//! A single substitution rule and its mathematical view.

use crate::template::{expand_newlines, expand_template};
use vstd::prelude::*;
use vstd::string::StringExecFns;

verus! {

/// The inline flag that makes the engine ignore letter case.
pub open spec fn case_insensitive_marker() -> Seq<char> {
    seq!['(', '?', 'i', ')']
}

/// One regular-expression transformation step.
#[derive(Debug, PartialEq, Eq)]
pub struct RegexRule {
    /// Source text of the regular expression. It may be empty or invalid:
    /// validity is only checked when the rule is applied.
    pub pattern: String,
    /// Substitution template.
    pub replacement: String,
    /// When `false`, matching ignores letter case.
    pub case_sensitive: bool,
}

/// The mathematical content of a [`RegexRule`].
pub struct RuleView {
    pub pattern: Seq<char>,
    pub replacement: Seq<char>,
    pub case_sensitive: bool,
}

impl RuleView {
    /// The rule every "add" action starts from.
    pub open spec fn blank() -> RuleView {
        RuleView { pattern: Seq::empty(), replacement: Seq::empty(), case_sensitive: true }
    }

    /// The pattern text that is compiled: the stored pattern as it is for a
    /// case-sensitive rule, and behind the case-insensitive marker otherwise.
    pub open spec fn effective_pattern(self) -> Seq<char> {
        if self.case_sensitive {
            self.pattern
        } else {
            case_insensitive_marker() + self.pattern
        }
    }

    /// The template that is handed to the engine.
    pub open spec fn effective_replacement(self) -> Seq<char> {
        expand_newlines(self.replacement)
    }

    /// This rule with its case-sensitivity flag flipped.
    pub open spec fn toggled(self) -> RuleView {
        RuleView { case_sensitive: !self.case_sensitive, ..self }
    }
}

impl View for RegexRule {
    type V = RuleView;

    open spec fn view(&self) -> RuleView {
        RuleView {
            pattern: self.pattern@,
            replacement: self.replacement@,
            case_sensitive: self.case_sensitive,
        }
    }
}

impl Clone for RegexRule {
    fn clone(&self) -> (copy: Self)
        ensures
            copy == *self,
    {
        RegexRule {
            pattern: self.pattern.clone(),
            replacement: self.replacement.clone(),
            case_sensitive: self.case_sensitive,
        }
    }
}

impl RegexRule {
    /// A fresh rule: empty pattern, empty replacement, case-sensitive.
    pub fn default() -> (rule: Self)
        ensures
            rule@ == RuleView::blank(),
    {
        RegexRule { pattern: String::new(), replacement: String::new(), case_sensitive: true }
    }

    /// The pattern text to compile. The stored pattern is never altered.
    pub fn effective_pattern(&self) -> (out: String)
        ensures
            out@ == self@.effective_pattern(),
    {
        if self.case_sensitive {
            self.pattern.clone()
        } else {
            proof {
                reveal_strlit("(?i)");
            }
            let marker = String::from_str("(?i)");
            assert(marker@ =~= case_insensitive_marker());
            marker.concat(self.pattern.as_str())
        }
    }

    /// The template to substitute with, line feeds expanded.
    pub fn effective_replacement(&self) -> (out: String)
        ensures
            out@ == self@.effective_replacement(),
    {
        expand_template(self.replacement.as_str())
    }
}

} // verus!
