use regex_replacer::rule::RegexRule;
use regex_replacer::store::{IndexError, RuleStore};

fn rule(pattern: &str) -> RegexRule {
    RegexRule { pattern: pattern.to_string(), replacement: String::new(), case_sensitive: true }
}

fn store(patterns: &[&str]) -> RuleStore {
    RuleStore::from_rules(patterns.iter().map(|p| rule(p)).collect())
}

fn patterns(store: &RuleStore) -> Vec<String> {
    (0..store.len()).map(|i| store.get(i).unwrap().pattern.clone()).collect()
}

#[test]
fn new_store_is_empty() {
    let s = RuleStore::new();
    assert_eq!(s.len(), 0);
    assert_eq!(s.get(0), None);
}

#[test]
fn add_rule_appends_a_blank_rule() {
    let mut s = store(&["a", "b"]);
    s.add_rule();
    assert_eq!(s.len(), 3);
    assert_eq!(patterns(&s), vec!["a", "b", ""]);
    assert_eq!(s.get(2), Some(&RegexRule::default()));
    assert_eq!(
        s.get(2),
        Some(&RegexRule { pattern: String::new(), replacement: String::new(), case_sensitive: true })
    );
}

#[test]
fn get_returns_the_rule_or_none() {
    let s = store(&["a", "b"]);
    assert_eq!(s.get(1), Some(&rule("b")));
    assert_eq!(s.get(2), None);
    assert_eq!(s.get(usize::MAX), None);
}

#[test]
fn remove_shifts_later_rules_down() {
    let mut s = store(&["a", "b", "c", "d"]);
    assert_eq!(s.remove_rule(1), Ok(()));
    assert_eq!(s.len(), 3);
    assert_eq!(patterns(&s), vec!["a", "c", "d"]);
}

#[test]
fn remove_first_and_last() {
    let mut s = store(&["a", "b", "c"]);
    assert_eq!(s.remove_rule(2), Ok(()));
    assert_eq!(patterns(&s), vec!["a", "b"]);
    assert_eq!(s.remove_rule(0), Ok(()));
    assert_eq!(patterns(&s), vec!["b"]);
    assert_eq!(s.remove_rule(0), Ok(()));
    assert_eq!(s.len(), 0);
}

#[test]
fn remove_out_of_bounds_is_an_index_error() {
    let mut s = store(&["a", "b"]);
    assert_eq!(s.remove_rule(2), Err(IndexError { index: 2, len: 2 }));
    assert_eq!(s.remove_rule(usize::MAX), Err(IndexError { index: usize::MAX, len: 2 }));
    assert_eq!(patterns(&s), vec!["a", "b"]);
    let mut empty = RuleStore::new();
    assert_eq!(empty.remove_rule(0), Err(IndexError { index: 0, len: 0 }));
}

#[test]
fn swap_with_next_exchanges_neighbours() {
    let mut s = store(&["a", "b", "c"]);
    assert_eq!(s.swap_with_next(0), Ok(()));
    assert_eq!(patterns(&s), vec!["b", "a", "c"]);
    assert_eq!(s.swap_with_next(1), Ok(()));
    assert_eq!(patterns(&s), vec!["b", "c", "a"]);
}

#[test]
fn swap_with_next_on_last_rule_does_nothing() {
    let mut s = store(&["a", "b", "c"]);
    assert_eq!(s.swap_with_next(2), Ok(()));
    assert_eq!(patterns(&s), vec!["a", "b", "c"]);
    let mut single = store(&["a"]);
    assert_eq!(single.swap_with_next(0), Ok(()));
    assert_eq!(patterns(&single), vec!["a"]);
}

#[test]
fn swap_with_next_out_of_bounds_is_an_index_error() {
    let mut s = store(&["a", "b"]);
    assert_eq!(s.swap_with_next(2), Err(IndexError { index: 2, len: 2 }));
    assert_eq!(s.swap_with_next(usize::MAX), Err(IndexError { index: usize::MAX, len: 2 }));
    assert_eq!(patterns(&s), vec!["a", "b"]);
    let mut empty = RuleStore::new();
    assert_eq!(empty.swap_with_next(0), Err(IndexError { index: 0, len: 0 }));
}

#[test]
fn swap_with_previous_exchanges_neighbours() {
    let mut s = store(&["a", "b", "c"]);
    assert_eq!(s.swap_with_previous(2), Ok(()));
    assert_eq!(patterns(&s), vec!["a", "c", "b"]);
    assert_eq!(s.swap_with_previous(1), Ok(()));
    assert_eq!(patterns(&s), vec!["c", "a", "b"]);
}

#[test]
fn swap_with_previous_on_first_rule_does_nothing() {
    let mut s = store(&["a", "b", "c"]);
    assert_eq!(s.swap_with_previous(0), Ok(()));
    assert_eq!(patterns(&s), vec!["a", "b", "c"]);
}

#[test]
fn swap_with_previous_out_of_bounds_is_an_index_error() {
    let mut s = store(&["a", "b"]);
    assert_eq!(s.swap_with_previous(2), Err(IndexError { index: 2, len: 2 }));
    assert_eq!(patterns(&s), vec!["a", "b"]);
    let mut empty = RuleStore::new();
    assert_eq!(empty.swap_with_previous(0), Err(IndexError { index: 0, len: 0 }));
}

#[test]
fn swapping_twice_restores_the_sequence() {
    for i in 0..4 {
        let mut s = store(&["a", "b", "c", "d"]);
        s.swap_with_next(i).unwrap();
        s.swap_with_next(i).unwrap();
        assert_eq!(patterns(&s), vec!["a", "b", "c", "d"]);
        s.swap_with_previous(i).unwrap();
        s.swap_with_previous(i).unwrap();
        assert_eq!(patterns(&s), vec!["a", "b", "c", "d"]);
    }
}

#[test]
fn swapping_there_and_back_restores_the_sequence() {
    for i in 0..3 {
        let mut s = store(&["a", "b", "c", "d"]);
        s.swap_with_next(i).unwrap();
        s.swap_with_previous(i + 1).unwrap();
        assert_eq!(patterns(&s), vec!["a", "b", "c", "d"]);
    }
}

#[test]
fn swap_moves_whole_rules() {
    let first = RegexRule { pattern: "first".to_string(), replacement: "one".to_string(), case_sensitive: false };
    let second = RegexRule { pattern: "second".to_string(), replacement: "two".to_string(), case_sensitive: true };
    let mut s = RuleStore::from_rules(vec![first.clone(), second.clone()]);
    s.swap_with_next(0).unwrap();
    assert_eq!(s.get(0), Some(&second));
    assert_eq!(s.get(1), Some(&first));
}

#[test]
fn toggle_flips_one_flag() {
    let mut s = store(&["a", "b"]);
    assert_eq!(s.toggle_case_sensitivity(1), Ok(()));
    assert!(s.get(0).unwrap().case_sensitive);
    assert!(!s.get(1).unwrap().case_sensitive);
    assert_eq!(patterns(&s), vec!["a", "b"]);
    assert_eq!(s.toggle_case_sensitivity(1), Ok(()));
    assert!(s.get(1).unwrap().case_sensitive);
}

#[test]
fn toggle_out_of_bounds_is_an_index_error() {
    let mut s = store(&["a"]);
    assert_eq!(s.toggle_case_sensitivity(1), Err(IndexError { index: 1, len: 1 }));
    assert!(s.get(0).unwrap().case_sensitive);
}

#[test]
fn set_pattern_and_replacement_edit_one_rule() {
    let mut s = store(&["a", "b"]);
    assert_eq!(s.set_pattern(0, "(".to_string()), Ok(()));
    assert_eq!(s.set_replacement(1, "x\\ny".to_string()), Ok(()));
    assert_eq!(
        s.get(0),
        Some(&RegexRule { pattern: "(".to_string(), replacement: String::new(), case_sensitive: true })
    );
    assert_eq!(
        s.get(1),
        Some(&RegexRule { pattern: "b".to_string(), replacement: "x\\ny".to_string(), case_sensitive: true })
    );
}

#[test]
fn set_pattern_and_replacement_out_of_bounds() {
    let mut s = store(&["a"]);
    assert_eq!(s.set_pattern(1, "x".to_string()), Err(IndexError { index: 1, len: 1 }));
    assert_eq!(s.set_replacement(7, "x".to_string()), Err(IndexError { index: 7, len: 1 }));
    assert_eq!(s.get(0), Some(&rule("a")));
}

#[test]
fn from_rules_keeps_the_order() {
    let s = store(&["x", "y", "z"]);
    assert_eq!(s.len(), 3);
    assert_eq!(patterns(&s), vec!["x", "y", "z"]);
}
