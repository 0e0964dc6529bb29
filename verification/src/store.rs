//! The rule store: the ordered, editable sequence of rules.
//!
//! The order is meaningful. Index 0 is the rule shown first; when the chain
//! is applied, the rule with the highest index runs first and the rule at
//! index 0 runs last.

use crate::rule::{RegexRule, RuleView};
use vstd::prelude::*;

verus! {

/// `rules` with the entries at `i` and `j` exchanged.
pub open spec fn exchanged(rules: Seq<RuleView>, i: int, j: int) -> Seq<RuleView> {
    rules.update(i, rules[j]).update(j, rules[i])
}

/// The sequence after a blank rule was appended.
pub open spec fn after_add(rules: Seq<RuleView>) -> Seq<RuleView> {
    rules.push(RuleView::blank())
}

/// The sequence after the rule at `index` was removed; unchanged where
/// there is no such rule.
pub open spec fn after_remove(rules: Seq<RuleView>, index: int) -> Seq<RuleView> {
    if 0 <= index < rules.len() {
        rules.remove(index)
    } else {
        rules
    }
}

/// The sequence after the rule at `index` changed places with its
/// successor; unchanged where the rule has no successor.
pub open spec fn after_swap_with_next(rules: Seq<RuleView>, index: int) -> Seq<RuleView> {
    if 0 <= index && index + 1 < rules.len() {
        exchanged(rules, index, index + 1)
    } else {
        rules
    }
}

/// The sequence after the rule at `index` changed places with its
/// predecessor; unchanged where the rule has no predecessor.
pub open spec fn after_swap_with_previous(rules: Seq<RuleView>, index: int) -> Seq<RuleView> {
    if 0 < index < rules.len() {
        exchanged(rules, index - 1, index)
    } else {
        rules
    }
}

/// The sequence after the case-sensitivity flag of the rule at `index` was
/// flipped; unchanged where there is no such rule.
pub open spec fn after_toggle(rules: Seq<RuleView>, index: int) -> Seq<RuleView> {
    if 0 <= index < rules.len() {
        rules.update(index, rules[index].toggled())
    } else {
        rules
    }
}

/// The sequence after the pattern of the rule at `index` was replaced by
/// `pattern`; unchanged where there is no such rule.
pub open spec fn after_set_pattern(rules: Seq<RuleView>, index: int, pattern: Seq<char>) -> Seq<
    RuleView,
> {
    if 0 <= index < rules.len() {
        rules.update(index, RuleView { pattern, ..rules[index] })
    } else {
        rules
    }
}

/// The sequence after the replacement of the rule at `index` was replaced
/// by `replacement`; unchanged where there is no such rule.
pub open spec fn after_set_replacement(
    rules: Seq<RuleView>,
    index: int,
    replacement: Seq<char>,
) -> Seq<RuleView> {
    if 0 <= index < rules.len() {
        rules.update(index, RuleView { replacement, ..rules[index] })
    } else {
        rules
    }
}

/// An operation named a position that holds no rule.
#[derive(Debug, Clone, Copy, PartialEq, Eq)]
pub struct IndexError {
    /// The position that was asked for.
    pub index: usize,
    /// The number of rules in the store at that moment.
    pub len: usize,
}

/// An ordered sequence of rules.
#[derive(Debug)]
pub struct RuleStore {
    rules: Vec<RegexRule>,
}

/// The views of the rules of a vector, in order.
pub open spec fn views_of(rules: Seq<RegexRule>) -> Seq<RuleView> {
    Seq::new(rules.len(), |i: int| rules[i]@)
}

impl View for RuleStore {
    type V = Seq<RuleView>;

    closed spec fn view(&self) -> Seq<RuleView> {
        views_of(self.rules@)
    }
}

impl RuleStore {
    /// An empty store.
    pub fn new() -> (store: Self)
        ensures
            store@ == Seq::<RuleView>::empty(),
    {
        let store = RuleStore { rules: Vec::new() };
        assert(store@ =~= Seq::<RuleView>::empty());
        store
    }

    /// A store that holds `rules` in the given order.
    pub fn from_rules(rules: Vec<RegexRule>) -> (store: Self)
        ensures
            store@ == views_of(rules@),
    {
        RuleStore { rules }
    }

    /// The number of rules.
    pub fn len(&self) -> (n: usize)
        ensures
            n == self@.len(),
    {
        self.rules.len()
    }

    /// The rule at `index`, if there is one.
    pub fn get(&self, index: usize) -> (found: Option<&RegexRule>)
        ensures
            match found {
                Some(rule) => index < self@.len() && rule@ == self@[index as int],
                None => index >= self@.len(),
            },
    {
        if index < self.rules.len() {
            Some(&self.rules[index])
        } else {
            None
        }
    }

    /// The rule at `index`, for a caller that knows the position is taken.
    pub(crate) fn rule(&self, index: usize) -> (rule: &RegexRule)
        requires
            index < self@.len(),
        ensures
            rule@ == self@[index as int],
    {
        &self.rules[index]
    }

    /// Appends a blank rule: empty pattern, empty replacement,
    /// case-sensitive.
    pub fn add_rule(&mut self)
        ensures
            final(self)@ == after_add(old(self)@),
    {
        self.rules.push(RegexRule::default());
        assert(self@ =~= after_add(old(self)@));
    }

    /// Removes the rule at `index`; the rules behind it move down by one.
    /// Fails, and changes nothing, where `index` holds no rule.
    pub fn remove_rule(&mut self, index: usize) -> (result: Result<(), IndexError>)
        ensures
            final(self)@ == after_remove(old(self)@, index as int),
            match result {
                Ok(_) => index < old(self)@.len(),
                Err(e) => index >= old(self)@.len() && e.index == index && e.len == old(self)@.len(),
            },
    {
        let len = self.rules.len();
        if index < len {
            self.rules.remove(index);
            assert(self@ =~= old(self)@.remove(index as int));
            Ok(())
        } else {
            Err(IndexError { index, len })
        }
    }

    /// Exchanges the rule at `index` with the one behind it. Nothing
    /// changes where the rule is the last one. Fails, and changes nothing,
    /// where `index` holds no rule.
    pub fn swap_with_next(&mut self, index: usize) -> (result: Result<(), IndexError>)
        ensures
            final(self)@ == after_swap_with_next(old(self)@, index as int),
            match result {
                Ok(_) => index < old(self)@.len(),
                Err(e) => index >= old(self)@.len() && e.index == index && e.len == old(self)@.len(),
            },
    {
        let len = self.rules.len();
        if index >= len {
            return Err(IndexError { index, len });
        }
        if index < len - 1 {
            let moved = self.rules.remove(index);
            self.rules.insert(index + 1, moved);
            assert(self@ =~= exchanged(old(self)@, index as int, index + 1));
        }
        Ok(())
    }

    /// Exchanges the rule at `index` with the one before it. Nothing
    /// changes where the rule is the first one. Fails, and changes nothing,
    /// where `index` holds no rule.
    pub fn swap_with_previous(&mut self, index: usize) -> (result: Result<(), IndexError>)
        ensures
            final(self)@ == after_swap_with_previous(old(self)@, index as int),
            match result {
                Ok(_) => index < old(self)@.len(),
                Err(e) => index >= old(self)@.len() && e.index == index && e.len == old(self)@.len(),
            },
    {
        let len = self.rules.len();
        if index >= len {
            return Err(IndexError { index, len });
        }
        if index > 0 {
            let moved = self.rules.remove(index);
            self.rules.insert(index - 1, moved);
            assert(self@ =~= exchanged(old(self)@, index - 1, index as int));
        }
        Ok(())
    }

    /// Flips the case-sensitivity flag of the rule at `index`. Fails, and
    /// changes nothing, where `index` holds no rule.
    pub fn toggle_case_sensitivity(&mut self, index: usize) -> (result: Result<(), IndexError>)
        ensures
            final(self)@ == after_toggle(old(self)@, index as int),
            match result {
                Ok(_) => index < old(self)@.len(),
                Err(e) => index >= old(self)@.len() && e.index == index && e.len == old(self)@.len(),
            },
    {
        let len = self.rules.len();
        if index >= len {
            return Err(IndexError { index, len });
        }
        let flag = self.rules[index].case_sensitive;
        self.rules[index].case_sensitive = !flag;
        assert(self@ =~= after_toggle(old(self)@, index as int));
        Ok(())
    }

    /// Replaces the pattern text of the rule at `index`. The text is
    /// stored as given; whether it compiles is only found out when the
    /// chain is applied. Fails, and changes nothing, where `index` holds no
    /// rule.
    pub fn set_pattern(&mut self, index: usize, pattern: String) -> (result: Result<
        (),
        IndexError,
    >)
        ensures
            final(self)@ == after_set_pattern(old(self)@, index as int, pattern@),
            match result {
                Ok(_) => index < old(self)@.len(),
                Err(e) => index >= old(self)@.len() && e.index == index && e.len == old(self)@.len(),
            },
    {
        let len = self.rules.len();
        if index >= len {
            return Err(IndexError { index, len });
        }
        self.rules[index].pattern = pattern;
        assert(self@ =~= after_set_pattern(old(self)@, index as int, pattern@));
        Ok(())
    }

    /// Replaces the substitution template of the rule at `index`. Fails,
    /// and changes nothing, where `index` holds no rule.
    pub fn set_replacement(&mut self, index: usize, replacement: String) -> (result: Result<
        (),
        IndexError,
    >)
        ensures
            final(self)@ == after_set_replacement(old(self)@, index as int, replacement@),
            match result {
                Ok(_) => index < old(self)@.len(),
                Err(e) => index >= old(self)@.len() && e.index == index && e.len == old(self)@.len(),
            },
    {
        let len = self.rules.len();
        if index >= len {
            return Err(IndexError { index, len });
        }
        self.rules[index].replacement = replacement;
        assert(self@ =~= after_set_replacement(old(self)@, index as int, replacement@));
        Ok(())
    }
}

} // verus!
