//! Laws of the rule chain and of the rule store, stated over the
//! mathematical models and proved once for all inputs.

use crate::engine::compile_failure;
use crate::pipeline::{chain_outcome, diagnostic_message, rule_outcome, CompileFailure};
use crate::rule::RuleView;
use crate::session::{Command, SessionView};
use crate::store::{
    after_remove, after_swap_with_next, after_swap_with_previous, after_toggle, exchanged,
};
use crate::template::expand_newlines;
use vstd::prelude::*;

verus! {

/// A failure found in the lower part of a chain, named by its position in
/// the whole chain, `offset` rules further down.
pub open spec fn shifted(outcome: Result<Seq<char>, CompileFailure>, offset: int) -> Result<
    Seq<char>,
    CompileFailure,
> {
    match outcome {
        Ok(text) => Ok(text),
        Err(failure) => Err(
            CompileFailure { rule_index: failure.rule_index + offset, detail: failure.detail },
        ),
    }
}

/// An empty chain yields its input unchanged.
pub proof fn law_empty_chain_is_identity(input: Seq<char>)
    ensures
        chain_outcome(Seq::empty(), input) == Ok::<Seq<char>, CompileFailure>(input),
{
}

/// Applying a session that has no rules copies the input to the output
/// and touches nothing else.
pub proof fn law_apply_without_rules_copies_input(session: SessionView)
    requires
        session.rules.len() == 0,
    ensures
        session.applied() == (SessionView { output: session.input, ..session }),
{
}

/// A chain of one rule does what that rule does.
pub proof fn law_single_rule_chain(rule: RuleView, input: Seq<char>)
    ensures
        chain_outcome(seq![rule], input) == match rule_outcome(rule, input) {
            Ok(text) => Ok::<Seq<char>, CompileFailure>(text),
            Err(detail) => Err(CompileFailure { rule_index: 0, detail }),
        },
{
    let rules = seq![rule];
    assert(rules.last() == rule);
    assert(rules.drop_last() =~= Seq::<RuleView>::empty());
    match rule_outcome(rule, input) {
        Ok(text) => {
            assert(chain_outcome(rules.drop_last(), text) == Ok::<Seq<char>, CompileFailure>(text));
        },
        Err(_) => {},
    }
}

/// Rules run from the bottom of the list to the top. For a chain made of
/// an upper part followed by a lower part, the lower part runs on the
/// input first and the upper part then runs on what it produced. If the
/// lower part fails, the upper part is never tried, and the failure is
/// reported at its position in the whole chain.
pub proof fn law_lower_rules_run_first(
    upper: Seq<RuleView>,
    lower: Seq<RuleView>,
    input: Seq<char>,
)
    ensures
        chain_outcome(upper + lower, input) == match chain_outcome(lower, input) {
            Ok(text) => chain_outcome(upper, text),
            Err(failure) => shifted(Err(failure), upper.len() as int),
        },
    decreases lower.len(),
{
    let whole = upper + lower;
    if lower.len() == 0 {
        assert(whole =~= upper);
    } else {
        assert(whole.last() == lower.last());
        assert(whole.drop_last() =~= upper + lower.drop_last());
        match rule_outcome(lower.last(), input) {
            Ok(text) => {
                law_lower_rules_run_first(upper, lower.drop_last(), text);
            },
            Err(_) => {},
        }
    }
}

/// With two rules, the bottom one runs first and the top one runs on its
/// result.
pub proof fn law_two_rules_run_bottom_up(top: RuleView, bottom: RuleView, input: Seq<char>)
    ensures
        chain_outcome(seq![top, bottom], input) == match rule_outcome(bottom, input) {
            Ok(text) => match rule_outcome(top, text) {
                Ok(last) => Ok(last),
                Err(detail) => Err(CompileFailure { rule_index: 0, detail }),
            },
            Err(detail) => Err(CompileFailure { rule_index: 1, detail }),
        },
{
    assert(seq![top, bottom] =~= seq![top] + seq![bottom]);
    law_lower_rules_run_first(seq![top], seq![bottom], input);
    law_single_rule_chain(bottom, input);
    match rule_outcome(bottom, input) {
        Ok(text) => {
            law_single_rule_chain(top, text);
        },
        Err(_) => {},
    }
}

/// A run fails exactly when some rule has a pattern that does not compile.
/// The failure then names the last such rule, with the engine's message
/// for it: every rule behind it compiled, and no rule before it was tried.
pub proof fn law_failure_names_last_bad_rule(rules: Seq<RuleView>, input: Seq<char>)
    ensures
        match chain_outcome(rules, input) {
            Ok(_) => forall|i: int|
                0 <= i < rules.len() ==> compile_failure(
                    #[trigger] rules[i].effective_pattern(),
                ) is None,
            Err(failure) => {
                &&& 0 <= failure.rule_index < rules.len()
                &&& compile_failure(rules[failure.rule_index].effective_pattern()) == Some(
                    failure.detail,
                )
                &&& forall|i: int|
                    failure.rule_index < i < rules.len() ==> compile_failure(
                        #[trigger] rules[i].effective_pattern(),
                    ) is None
            },
        },
    decreases rules.len(),
{
    if rules.len() > 0 {
        match rule_outcome(rules.last(), input) {
            Ok(text) => {
                law_failure_names_last_bad_rule(rules.drop_last(), text);
                assert(forall|i: int|
                    0 <= i < rules.len() - 1 ==> rules.drop_last()[i] == rules[i]);
            },
            Err(_) => {},
        }
    }
}

/// Fail-fast: when the rule that runs first, the last one of the list,
/// has a pattern that does not compile, applying the session leaves the
/// output as it was and adds exactly one entry to the log, however many
/// rules stand before it.
pub proof fn law_bad_last_rule_fails_fast(session: SessionView)
    requires
        session.rules.len() > 0,
    ensures
        compile_failure(session.rules.last().effective_pattern()) matches Some(detail) ==> {
            &&& chain_outcome(session.rules, session.input) == Err::<Seq<char>, CompileFailure>(
                CompileFailure { rule_index: session.rules.len() - 1, detail },
            )
            &&& session.applied().output == session.output
            &&& session.applied().errors == session.errors.push(diagnostic_message(detail))
            &&& session.applied().errors.len() == session.errors.len() + 1
        },
{
}

/// A run is all or nothing. Either it succeeds, the output becomes the
/// transformed text and the log is untouched; or it fails, the output is
/// untouched and the log gains exactly one entry. The input and the rules
/// are never changed by a run.
pub proof fn law_apply_is_all_or_nothing(session: SessionView)
    ensures
        session.applied().input == session.input,
        session.applied().rules == session.rules,
        match chain_outcome(session.rules, session.input) {
            Ok(text) => session.applied().output == text && session.applied().errors
                == session.errors,
            Err(failure) => {
                &&& session.applied().output == session.output
                &&& session.applied().errors.len() == session.errors.len() + 1
                &&& session.applied().errors.drop_last() == session.errors
                &&& session.applied().errors.last() == diagnostic_message(failure.detail)
            },
        },
{
    match chain_outcome(session.rules, session.input) {
        Ok(_) => {},
        Err(failure) => {
            assert(session.errors.push(diagnostic_message(failure.detail)).drop_last()
                =~= session.errors);
        },
    }
}

/// Whether a backslash at the end of `head` and an `n` at the start of
/// `tail` would form a pair across the seam of `head + tail`.
pub open spec fn pair_across_seam(head: Seq<char>, tail: Seq<char>) -> bool {
    head.len() > 0 && head.last() == '\\' && tail.len() > 0 && tail[0] == 'n'
}

/// Whether `template` holds a backslash directly followed by `n`.
pub open spec fn has_pair(template: Seq<char>) -> bool {
    exists|i: int|
        0 <= i && i + 1 < template.len() && template[i] == '\\' && #[trigger] template[i + 1]
            == 'n'
}

/// The pair backslash + `n` alone expands to a single line feed.
pub proof fn law_pair_expands_to_line_feed()
    ensures
        expand_newlines(seq!['\\', 'n']) == seq!['\n'],
{
    let pair = seq!['\\', 'n'];
    assert(pair.len() == 2 && pair[0] == '\\' && pair[1] == 'n');
    assert(pair.skip(2) =~= Seq::<char>::empty());
    assert(expand_newlines(pair.skip(2)) =~= Seq::<char>::empty());
    assert(expand_newlines(pair) =~= seq!['\n']);
}

/// A template without a backslash + `n` pair passes through unchanged:
/// nothing but that pair is interpreted.
pub proof fn law_template_without_pair_is_unchanged(template: Seq<char>)
    requires
        !has_pair(template),
    ensures
        expand_newlines(template) == template,
    decreases template.len(),
{
    if template.len() > 0 {
        let rest = template.skip(1);
        if template.len() >= 2 {
            assert(!(template[0] == '\\' && template[0int + 1] == 'n'));
        }
        assert(!has_pair(rest)) by {
            if has_pair(rest) {
                let i = choose|i: int|
                    0 <= i && i + 1 < rest.len() && rest[i] == '\\' && #[trigger] rest[i + 1]
                        == 'n';
                assert(template[i + 1] == '\\' && template[(i + 1) + 1] == 'n');
            }
        }
        law_template_without_pair_is_unchanged(rest);
        assert(seq![template[0]] + rest =~= template);
    } else {
        assert(template =~= Seq::<char>::empty());
    }
}

/// Expansion works piece by piece: where no pair lies across the seam of
/// two pieces, expanding their concatenation is concatenating their
/// expansions.
pub proof fn law_expansion_distributes(head: Seq<char>, tail: Seq<char>)
    requires
        !pair_across_seam(head, tail),
    ensures
        expand_newlines(head + tail) == expand_newlines(head) + expand_newlines(tail),
    decreases head.len(),
{
    let whole = head + tail;
    if head.len() == 0 {
        assert(whole =~= tail);
        assert(expand_newlines(head) + expand_newlines(tail) =~= expand_newlines(tail));
    } else if head.len() >= 2 && head[0] == '\\' && head[1] == 'n' {
        assert(whole[0] == head[0] && whole[1] == head[1]);
        assert(whole.skip(2) =~= head.skip(2) + tail);
        if head.skip(2).len() > 0 {
            assert(head.skip(2).last() == head.last());
        }
        law_expansion_distributes(head.skip(2), tail);
        assert(expand_newlines(whole) =~= expand_newlines(head) + expand_newlines(tail));
    } else {
        assert(whole[0] == head[0]);
        if head.len() >= 2 {
            assert(whole[1] == head[1]);
        } else if tail.len() > 0 {
            assert(whole[1] == tail[0]);
            assert(head.last() == head[0]);
        }
        assert(whole.skip(1) =~= head.skip(1) + tail);
        if head.skip(1).len() > 0 {
            assert(head.skip(1).last() == head.last());
        }
        law_expansion_distributes(head.skip(1), tail);
        assert(expand_newlines(whole) =~= expand_newlines(head) + expand_newlines(tail));
    }
}

/// Every pair is replaced, wherever it stands: a template cut at a pair
/// expands to the expansion of what is before it, a line feed, and the
/// expansion of what is behind it.
pub proof fn law_every_pair_becomes_line_feed(before: Seq<char>, behind: Seq<char>)
    ensures
        expand_newlines(before + seq!['\\', 'n'] + behind) == expand_newlines(before) + seq![
            '\n',
        ] + expand_newlines(behind),
{
    let pair = seq!['\\', 'n'];
    law_pair_expands_to_line_feed();
    assert(pair[0] == '\\' && pair.last() == 'n');
    law_expansion_distributes(before, pair);
    assert((before + pair).last() == 'n');
    law_expansion_distributes(before + pair, behind);
}

/// Exchanging two places only moves rules: the length stays, the two
/// places hold each other's rule, and every other place keeps its own.
pub proof fn law_exchange_moves_two_rules(rules: Seq<RuleView>, i: int, j: int)
    requires
        0 <= i < rules.len(),
        0 <= j < rules.len(),
    ensures
        exchanged(rules, i, j).len() == rules.len(),
        exchanged(rules, i, j)[i] == rules[j],
        exchanged(rules, i, j)[j] == rules[i],
        forall|k: int|
            0 <= k < rules.len() && k != i && k != j ==> #[trigger] exchanged(rules, i, j)[k]
                == rules[k],
        exchanged(rules, i, j).to_multiset() == rules.to_multiset(),
{
    broadcast use vstd::multiset::group_multiset_axioms;

    let middle = rules.update(i, rules[j]);
    vstd::seq_lib::to_multiset_update(rules, i, rules[j]);
    vstd::seq_lib::to_multiset_update(middle, j, rules[i]);
    rules.to_multiset_ensures();
    assert(rules.contains(rules[i]) && rules.contains(rules[j]));
    assert(exchanged(rules, i, j).to_multiset() =~= rules.to_multiset());
}

/// Exchanging a rule with its successor and then doing so again restores
/// the sequence, whatever the position.
pub proof fn law_swap_with_next_twice_restores(rules: Seq<RuleView>, index: int)
    ensures
        after_swap_with_next(after_swap_with_next(rules, index), index) == rules,
{
    assert(after_swap_with_next(after_swap_with_next(rules, index), index) =~= rules);
}

/// Exchanging a rule with its predecessor and then doing so again
/// restores the sequence, whatever the position.
pub proof fn law_swap_with_previous_twice_restores(rules: Seq<RuleView>, index: int)
    ensures
        after_swap_with_previous(after_swap_with_previous(rules, index), index) == rules,
{
    assert(after_swap_with_previous(after_swap_with_previous(rules, index), index) =~= rules);
}

/// Moving a rule one place down and then moving it back up from where it
/// landed restores the sequence; so does moving it up and then back down.
pub proof fn law_swap_there_and_back(rules: Seq<RuleView>, index: int)
    ensures
        after_swap_with_previous(after_swap_with_next(rules, index), index + 1) == rules,
        after_swap_with_next(after_swap_with_previous(rules, index), index - 1) == rules,
{
    assert(after_swap_with_previous(after_swap_with_next(rules, index), index + 1) =~= rules);
    assert(after_swap_with_next(after_swap_with_previous(rules, index), index - 1) =~= rules);
}

/// At the level of commands, for two neighbouring positions: moving the
/// upper rule down and then moving it up from where it landed restores
/// the session, and so does moving the lower rule up and then down again.
pub proof fn law_swap_commands_undo_each_other(session: SessionView, upper: usize, lower: usize)
    requires
        lower == upper + 1,
        lower < session.rules.len(),
    ensures
        session.after(Command::SwapDown(upper)).after(Command::SwapUp(lower)) == session,
        session.after(Command::SwapUp(lower)).after(Command::SwapDown(upper)) == session,
{
    law_swap_there_and_back(session.rules, upper as int);
    law_swap_there_and_back(session.rules, lower as int);
}

/// Editing the rule list never touches the buffers or the log: only a
/// run writes the output, and only a failed run writes to the log.
pub proof fn law_edits_leave_buffers_alone(session: SessionView, command: Command)
    requires
        command != Command::Apply,
    ensures
        session.after(command).input == session.input,
        session.after(command).output == session.output,
        session.after(command).errors == session.errors,
{
}

/// Removing the rule at a position shortens the sequence by exactly one.
/// The rules before the position stay where they are, and each rule
/// behind it moves down by one, so that their order is kept.
pub proof fn law_remove_shifts_later_rules_down(rules: Seq<RuleView>, index: int)
    requires
        0 <= index < rules.len(),
    ensures
        after_remove(rules, index).len() == rules.len() - 1,
        forall|k: int| 0 <= k < index ==> #[trigger] after_remove(rules, index)[k] == rules[k],
        forall|k: int|
            index <= k < rules.len() - 1 ==> #[trigger] after_remove(rules, index)[k] == rules[k
                + 1],
{
}

/// Flipping the flag of a rule touches nothing but that flag, and
/// flipping it twice restores the sequence.
pub proof fn law_toggle_changes_one_flag(rules: Seq<RuleView>, index: int)
    requires
        0 <= index < rules.len(),
    ensures
        after_toggle(rules, index).len() == rules.len(),
        after_toggle(rules, index)[index].case_sensitive == !rules[index].case_sensitive,
        after_toggle(rules, index)[index].pattern == rules[index].pattern,
        after_toggle(rules, index)[index].replacement == rules[index].replacement,
        forall|k: int|
            0 <= k < rules.len() && k != index ==> #[trigger] after_toggle(rules, index)[k]
                == rules[k],
        after_toggle(after_toggle(rules, index), index) == rules,
{
    assert(after_toggle(after_toggle(rules, index), index) =~= rules);
}

} // verus!
