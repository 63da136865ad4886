use find_matchers::entry::Entry;
use find_matchers::matchers::Matcher;
use find_matchers::name_matcher::NameMatcher;
use find_matchers::printer::Printer;
use find_matchers::sink::{MatcherIO, OutputSink};

fn get_entry_for(dir: &str, name: &str) -> Entry {
    Entry::new(String::from(name), format!("{}/{}", dir, name))
}

fn new_capture_io() -> MatcherIO {
    MatcherIO::new(OutputSink::capture())
}

#[test]
fn matching_with_wrong_case_returns_false() {
    let abbbc = get_entry_for("test_data/simple", "abbbc");
    let matcher = NameMatcher::new(&"A*C".to_string()).unwrap();
    let mut io = new_capture_io();
    assert!(!matcher.matches(&abbbc, &mut io));
}

#[test]
fn matching_with_right_case_returns_true() {
    let abbbc = get_entry_for("test_data/simple", "abbbc");
    let matcher = NameMatcher::new(&"abb?c".to_string()).unwrap();
    let mut io = new_capture_io();
    assert!(matcher.matches(&abbbc, &mut io));
}

#[test]
fn not_matching_returns_false() {
    let abbbc = get_entry_for("test_data/simple", "abbbc");
    let matcher = NameMatcher::new(&"should't match".to_string()).unwrap();
    let mut io = new_capture_io();
    assert!(!matcher.matches(&abbbc, &mut io));
}

#[test]
fn cant_create_with_invalid_pattern() {
    let result = NameMatcher::new(&"a**c".to_string());
    assert!(result.is_err());
}

#[test]
fn prints() {
    let abbbc = get_entry_for("./test_data/simple", "abbbc");
    let matcher = Printer::new();
    let mut io = new_capture_io();
    assert!(matcher.matches(&abbbc, &mut io));
    assert_eq!("./test_data/simple/abbbc\n", io.output_as_string().unwrap());
}

#[test]
fn name_matcher_is_pure_across_calls() {
    let abbbc = get_entry_for("test_data/simple", "abbbc");
    let matcher = NameMatcher::new("abb?c").unwrap();
    let mut io = new_capture_io();
    let first = matcher.matches(&abbbc, &mut io);
    let second = matcher.matches(&abbbc, &mut io);
    let third = matcher.matches(&abbbc, &mut io);
    assert!(first && second && third);
    assert!(!matcher.has_side_effects());
    assert!(!io.write_failed());
    assert_eq!("", io.output_as_string().unwrap());
}

#[test]
fn printer_output_concatenates_in_call_order() {
    let first = Entry::new(String::from("a"), String::from("./d/a"));
    let second = Entry::new(String::from("b"), String::from("./d/b"));
    let matcher = Printer::new();
    let mut io = new_capture_io();
    assert!(matcher.matches(&first, &mut io));
    assert!(matcher.matches(&second, &mut io));
    assert_eq!("./d/a\n./d/b\n", io.output_as_string().unwrap());
}

#[test]
fn and_short_circuit_skips_action() {
    let abbbc = get_entry_for("test_data/simple", "abbbc");
    let false_predicate = NameMatcher::new_box("A*C").unwrap();
    let action = Printer::new_box();
    let tree = Matcher::And(false_predicate, action);
    let mut io = new_capture_io();
    assert!(!tree.matches(&abbbc, &mut io));
    assert_eq!("", io.output_as_string().unwrap());
}

#[test]
fn and_runs_action_when_left_satisfied() {
    let abbbc = get_entry_for("test_data/simple", "abbbc");
    let true_predicate = NameMatcher::new_box("abb?c").unwrap();
    let action = Printer::new_box();
    let tree = Matcher::And(true_predicate, action);
    let mut io = new_capture_io();
    assert!(tree.matches(&abbbc, &mut io));
    assert_eq!("test_data/simple/abbbc\n", io.output_as_string().unwrap());
}

#[test]
fn or_short_circuit_skips_action() {
    let abbbc = get_entry_for("test_data/simple", "abbbc");
    let true_predicate = NameMatcher::new_box("*").unwrap();
    let action = Printer::new_box();
    let tree = Matcher::Or(true_predicate, action);
    let mut io = new_capture_io();
    assert!(tree.matches(&abbbc, &mut io));
    assert_eq!("", io.output_as_string().unwrap());
}

#[test]
fn or_runs_action_when_left_not_satisfied() {
    let abbbc = get_entry_for("test_data/simple", "abbbc");
    let false_predicate = NameMatcher::new_box("A*C").unwrap();
    let action = Printer::new_box();
    let tree = Matcher::Or(false_predicate, action);
    let mut io = new_capture_io();
    assert!(tree.matches(&abbbc, &mut io));
    assert_eq!("test_data/simple/abbbc\n", io.output_as_string().unwrap());
}

#[test]
fn not_inverts_and_action_still_runs() {
    let abbbc = get_entry_for("test_data/simple", "abbbc");
    let tree = Matcher::Not(Printer::new_box());
    let mut io = new_capture_io();
    assert!(!tree.matches(&abbbc, &mut io));
    assert_eq!("test_data/simple/abbbc\n", io.output_as_string().unwrap());
}

#[test]
fn side_effect_flag_is_or_of_leaves() {
    let pure_tree = Matcher::And(
        NameMatcher::new_box("a*").unwrap(),
        Box::new(Matcher::Not(NameMatcher::new_box("b*").unwrap())),
    );
    assert!(!pure_tree.has_side_effects());
    assert!(!pure_tree.has_side_effects());

    let deep_action = Matcher::And(
        NameMatcher::new_box("a*").unwrap(),
        Box::new(Matcher::Or(NameMatcher::new_box("b*").unwrap(), Printer::new_box())),
    );
    assert!(deep_action.has_side_effects());
    assert!(deep_action.has_side_effects());

    let negated_action = Matcher::Not(Printer::new_box());
    assert!(negated_action.has_side_effects());

    let grouped = Matcher::Group(Box::new(Matcher::Not(NameMatcher::new_box("a*").unwrap())));
    assert!(!grouped.has_side_effects());
}

#[test]
fn grouping_is_transparent() {
    let abbbc = get_entry_for("test_data/simple", "abbbc");
    let tree = Matcher::Group(Box::new(Matcher::And(
        NameMatcher::new_box("abb?c").unwrap(),
        Printer::new_box(),
    )));
    let mut io = new_capture_io();
    assert!(tree.matches(&abbbc, &mut io));
    assert_eq!("test_data/simple/abbbc\n", io.output_as_string().unwrap());
}

#[test]
fn empty_pattern_matches_only_empty_name() {
    let matcher = NameMatcher::new("").unwrap();
    let mut io = new_capture_io();
    let empty = Entry::new(String::from(""), String::from("./"));
    let named = Entry::new(String::from("a"), String::from("./a"));
    assert!(matcher.matches(&empty, &mut io));
    assert!(!matcher.matches(&named, &mut io));
}

#[test]
fn standard_sink_has_no_captured_output() {
    let io = MatcherIO::new(OutputSink::standard());
    assert!(io.output_as_string().is_none());
    assert!(!io.write_failed());
}
