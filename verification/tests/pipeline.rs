use regex_replacer::pipeline::{apply_rule, apply_rules, PatternCompileError};
use regex_replacer::rule::RegexRule;
use regex_replacer::session::Session;
use regex_replacer::store::RuleStore;

fn rule(pattern: &str, replacement: &str, case_sensitive: bool) -> RegexRule {
    RegexRule {
        pattern: pattern.to_string(),
        replacement: replacement.to_string(),
        case_sensitive,
    }
}

fn session(input: &str, rules: Vec<RegexRule>) -> Session {
    let mut session = Session::new();
    session.input_text = input.to_string();
    session.rules = RuleStore::from_rules(rules);
    session
}

#[test]
fn empty_chain_copies_input_to_output() {
    let mut s = session("any text at all", vec![]);
    assert!(s.apply().is_ok());
    assert_eq!(s.output_text, "any text at all");
    assert_eq!(s.input_text, "any text at all");
    assert!(s.errors.is_empty());
}

#[test]
fn empty_chain_on_empty_input() {
    let mut s = session("", vec![]);
    s.output_text = "stale".to_string();
    assert!(s.apply().is_ok());
    assert_eq!(s.output_text, "");
}

#[test]
fn single_rule_replaces_every_match() {
    let mut s = session("aaa", vec![rule("a", "b", true)]);
    assert!(s.apply().is_ok());
    assert_eq!(s.output_text, "bbb");
    assert_eq!(s.input_text, "aaa");
}

#[test]
fn last_rule_runs_first() {
    let mut s = session("a", vec![rule("a", "b", true), rule("b", "c", true)]);
    assert!(s.apply().is_ok());
    assert_eq!(s.output_text, "b");
}

#[test]
fn bottom_rule_does_not_see_what_top_rule_writes() {
    let mut s = session("x", vec![rule("x", "1", true), rule("1", "2", true)]);
    assert!(s.apply().is_ok());
    assert_eq!(s.output_text, "1");
}

#[test]
fn top_rule_sees_what_bottom_rule_wrote() {
    let mut s = session("a", vec![rule("b", "c", true), rule("a", "b", true)]);
    assert!(s.apply().is_ok());
    assert_eq!(s.output_text, "c");
}

#[test]
fn case_insensitive_rule_matches_both_cases() {
    let mut s = session("aAa", vec![rule("A", "_", false)]);
    assert!(s.apply().is_ok());
    assert_eq!(s.output_text, "___");
    assert_eq!(s.rules.get(0).unwrap().pattern, "A");
}

#[test]
fn case_sensitive_rule_matches_exact_case_only() {
    let mut s = session("aAa", vec![rule("A", "_", true)]);
    assert!(s.apply().is_ok());
    assert_eq!(s.output_text, "a_a");
}

#[test]
fn backslash_n_in_replacement_becomes_line_feed() {
    let mut s = session("x", vec![rule("x", "a\\nb", true)]);
    assert!(s.apply().is_ok());
    assert_eq!(s.output_text, "a\nb");
    assert_eq!(s.rules.get(0).unwrap().replacement, "a\\nb");
}

#[test]
fn capture_groups_are_expanded_by_the_engine() {
    let mut s = session("john@example", vec![rule("(\\w+)@(\\w+)", "$2 at $1", true)]);
    assert!(s.apply().is_ok());
    assert_eq!(s.output_text, "example at john");
}

#[test]
fn empty_pattern_matches_between_all_characters() {
    let mut s = session("ab", vec![rule("", "-", true)]);
    assert!(s.apply().is_ok());
    assert_eq!(s.output_text, "-a-b-");
}

#[test]
fn invalid_last_rule_fails_fast() {
    let mut s = session(
        "abc",
        vec![rule("a", "1", true), rule("b", "2", true), rule("(", "3", true)],
    );
    s.output_text = "previous".to_string();
    let error = s.apply().unwrap_err();
    assert_eq!(error.rule_index, 2);
    assert_eq!(s.output_text, "previous");
    assert_eq!(s.input_text, "abc");
    assert_eq!(s.errors.len(), 1);
    assert_eq!(s.errors[0], format!("Error: {}", error.detail));
}

#[test]
fn invalid_only_rule_fails_fast() {
    let mut s = session("abc", vec![rule("(", "3", true)]);
    let error = s.apply().unwrap_err();
    assert_eq!(error.rule_index, 0);
    assert_eq!(s.output_text, "");
    assert_eq!(s.errors.len(), 1);
}

#[test]
fn invalid_middle_rule_discards_the_text_computed_so_far() {
    let mut s = session(
        "abc",
        vec![rule("a", "1", true), rule("[", "2", true), rule("c", "3", true)],
    );
    s.output_text = "previous".to_string();
    let error = s.apply().unwrap_err();
    assert_eq!(error.rule_index, 1);
    assert_eq!(s.output_text, "previous");
    assert_eq!(s.errors.len(), 1);
}

#[test]
fn failure_names_the_last_of_several_bad_rules() {
    let rules = RuleStore::from_rules(vec![rule("(", "", true), rule("a", "", true), rule("[", "", true)]);
    let error = apply_rules(&rules, "abc").unwrap_err();
    assert_eq!(error.rule_index, 2);
}

#[test]
fn diagnostic_carries_the_engine_message() {
    let expected = regex::Regex::new("(").unwrap_err().to_string();
    let mut s = session("abc", vec![rule("(", "", true)]);
    let error = s.apply().unwrap_err();
    assert_eq!(error, PatternCompileError { rule_index: 0, detail: expected.clone() });
    assert_eq!(error.message(), format!("Error: {expected}"));
    assert_eq!(s.errors, vec![format!("Error: {expected}")]);
}

#[test]
fn diagnostic_of_case_insensitive_rule_is_about_the_effective_pattern() {
    let expected = regex::Regex::new("(?i)(").unwrap_err().to_string();
    let mut s = session("abc", vec![rule("(", "", false)]);
    let error = s.apply().unwrap_err();
    assert_eq!(error.detail, expected);
}

#[test]
fn log_keeps_entries_of_earlier_runs() {
    let mut s = session("abc", vec![rule("(", "", true)]);
    assert!(s.apply().is_err());
    assert!(s.apply().is_err());
    assert_eq!(s.errors.len(), 2);
    assert_eq!(s.errors[0], s.errors[1]);
    s.rules.set_pattern(0, "b".to_string()).unwrap();
    assert!(s.apply().is_ok());
    assert_eq!(s.output_text, "ac");
    assert_eq!(s.errors.len(), 2);
}

#[test]
fn apply_rule_substitutes_in_one_text() {
    assert_eq!(apply_rule(&rule("l+", "L", true), "hello all"), Ok("heLo aL".to_string()));
    assert_eq!(apply_rule(&rule("z", "L", true), "hello"), Ok("hello".to_string()));
}

#[test]
fn apply_rule_reports_a_bad_pattern() {
    let expected = regex::Regex::new("a{2,1}").unwrap_err().to_string();
    assert_eq!(apply_rule(&rule("a{2,1}", "L", true), "hello"), Err(expected));
}

#[test]
fn apply_rules_returns_the_final_text() {
    let rules = RuleStore::from_rules(vec![
        rule("\\s+", " ", true),
        rule("HELLO", "bye", false),
        rule("world", "hello", true),
    ]);
    assert_eq!(apply_rules(&rules, "hello   world"), Ok("bye bye".to_string()));
}

#[test]
fn rules_and_input_survive_a_run() {
    let mut s = session("aXa", vec![rule("x", "\\n", false), rule("a", "$0$0", true)]);
    assert!(s.apply().is_ok());
    assert_eq!(s.output_text, "aa\naa");
    assert_eq!(s.input_text, "aXa");
    assert_eq!(s.rules.len(), 2);
    assert_eq!(s.rules.get(0), Some(&rule("x", "\\n", false)));
    assert_eq!(s.rules.get(1), Some(&rule("a", "$0$0", true)));
}
