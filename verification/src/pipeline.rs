//! The pipeline executor: runs a chain of rules over a text.
//!
//! Rules run in reverse order of their position: the rule with the highest
//! index sees the input first, and the rule at index 0 runs last, so that
//! its effect is final. The run stops at the first rule whose pattern the
//! engine rejects; the text computed up to then is discarded.

use crate::engine::{compile_failure, replace_all, substitute};
use crate::rule::{RegexRule, RuleView};
use crate::store::RuleStore;
use vstd::prelude::*;
use vstd::string::StringExecFns;

verus! {

/// The pattern of a rule could not be compiled.
#[derive(Debug, PartialEq, Eq)]
pub struct PatternCompileError {
    /// Position of the offending rule in the store, counted from 0.
    pub rule_index: usize,
    /// What the engine said about the pattern.
    pub detail: String,
}

/// The mathematical content of a [`PatternCompileError`].
pub struct CompileFailure {
    pub rule_index: int,
    pub detail: Seq<char>,
}

impl View for PatternCompileError {
    type V = CompileFailure;

    open spec fn view(&self) -> CompileFailure {
        CompileFailure { rule_index: self.rule_index as int, detail: self.detail@ }
    }
}

/// The entry that a failed run leaves in the diagnostics log.
pub open spec fn diagnostic_message(detail: Seq<char>) -> Seq<char> {
    seq!['E', 'r', 'r', 'o', 'r', ':', ' '] + detail
}

/// What one rule makes of `text`: the text with every match substituted,
/// or the engine's complaint about the rule's effective pattern.
pub open spec fn rule_outcome(rule: RuleView, text: Seq<char>) -> Result<Seq<char>, Seq<char>> {
    match compile_failure(rule.effective_pattern()) {
        Some(detail) => Err(detail),
        None => Ok(replace_all(rule.effective_pattern(), text, rule.effective_replacement())),
    }
}

/// What the whole chain makes of `input`. The last rule runs first; the
/// rules before it then run on what it produced. The first rule that fails
/// to compile ends the run, and is named by its position.
pub open spec fn chain_outcome(rules: Seq<RuleView>, input: Seq<char>) -> Result<
    Seq<char>,
    CompileFailure,
>
    decreases rules.len(),
{
    if rules.len() == 0 {
        Ok(input)
    } else {
        match rule_outcome(rules.last(), input) {
            Ok(text) => chain_outcome(rules.drop_last(), text),
            Err(detail) => Err(CompileFailure { rule_index: rules.len() - 1, detail }),
        }
    }
}

impl PatternCompileError {
    /// The human-readable entry for the diagnostics log: the word `Error`,
    /// a colon and a space, then the engine's message.
    pub fn message(&self) -> (text: String)
        ensures
            text@ == diagnostic_message(self.detail@),
    {
        proof {
            reveal_strlit("Error: ");
        }
        let head = String::from_str("Error: ");
        assert(head@ =~= seq!['E', 'r', 'r', 'o', 'r', ':', ' ']);
        head.concat(self.detail.as_str())
    }
}

/// The view of an executable outcome.
pub open spec fn outcome_view(outcome: Result<String, PatternCompileError>) -> Result<
    Seq<char>,
    CompileFailure,
> {
    match outcome {
        Ok(text) => Ok(text@),
        Err(error) => Err(error@),
    }
}

/// Applies one rule to `text`: compiles the effective pattern and replaces
/// every non-overlapping match by the effective replacement. On a pattern
/// that does not compile, returns the engine's message.
pub fn apply_rule(rule: &RegexRule, text: &str) -> (result: Result<String, String>)
    ensures
        match result {
            Ok(out) => rule_outcome(rule@, text@) == Ok::<Seq<char>, Seq<char>>(out@),
            Err(detail) => rule_outcome(rule@, text@) == Err::<Seq<char>, Seq<char>>(detail@),
        },
{
    let pattern = rule.effective_pattern();
    let template = rule.effective_replacement();
    substitute(pattern.as_str(), text, template.as_str())
}

/// Runs the chain over `input`, last rule first, and returns the final
/// text. Stops at the first rule that does not compile and reports it;
/// no rule before it in the store is then tried.
pub fn apply_rules(rules: &RuleStore, input: &str) -> (result: Result<String, PatternCompileError>)
    ensures
        outcome_view(result) == chain_outcome(rules@, input@),
{
    let mut text = input.to_owned();
    let mut remaining = rules.len();
    assert(rules@.take(remaining as int) =~= rules@);
    while remaining > 0
        invariant
            remaining <= rules@.len(),
            chain_outcome(rules@.take(remaining as int), text@) == chain_outcome(rules@, input@),
        decreases remaining,
    {
        let index = remaining - 1;
        let ghost pending = rules@.take(remaining as int);
        assert(pending.last() == rules@[index as int]);
        assert(pending.drop_last() =~= rules@.take(index as int));
        match apply_rule(rules.rule(index), text.as_str()) {
            Ok(next) => {
                text = next;
            },
            Err(detail) => {
                return Err(PatternCompileError { rule_index: index, detail });
            },
        }
        remaining = index;
    }
    assert(rules@.take(0) =~= Seq::<RuleView>::empty());
    Ok(text)
}

} // verus!
