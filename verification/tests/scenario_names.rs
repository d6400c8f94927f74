use stylus_benchmark::scenario::{ParseError, Scenario};
use stylus_benchmark::text::same_text;

#[test]
fn canonical_names_are_fixed() {
    assert_eq!(Scenario::AddI32.canonical_name(), "add_i32");
    assert_eq!(Scenario::XorI32.canonical_name(), "xor_i32");
}

#[test]
fn parse_finds_each_scenario() {
    assert_eq!(Scenario::parse("add_i32"), Ok(Scenario::AddI32));
    assert_eq!(Scenario::parse("xor_i32"), Ok(Scenario::XorI32));
}

#[test]
fn names_round_trip() {
    for s in Scenario::all_scenarios() {
        let name = s.canonical_name();
        let again = Scenario::parse(name).unwrap();
        assert_eq!(again, s);
        assert_eq!(again.canonical_name(), name);
    }
}

#[test]
fn parse_rejects_unknown_name() {
    assert_eq!(Scenario::parse("not_a_scenario"), Err(ParseError::UnknownScenario));
}

#[test]
fn parse_is_exact_and_case_sensitive() {
    for name in [
        "", "add", "add_i3", "add_i32 ", " add_i32", "ADD_I32", "Add_i32", "AddI32", "add-i32",
        "add_i64", "xor_i32\n", "XorI32", "xor_i3", "add_i32xor_i32", "add_i32\0", "\u{e4}dd_i32",
    ] {
        assert_eq!(Scenario::parse(name), Err(ParseError::UnknownScenario), "{:?}", name);
    }
}

#[test]
fn all_scenarios_lists_both_in_declaration_order() {
    assert_eq!(Scenario::all_scenarios(), vec![Scenario::AddI32, Scenario::XorI32]);
}

#[test]
fn all_scenarios_has_no_duplicates() {
    let all = Scenario::all_scenarios();
    for i in 0..all.len() {
        for j in 0..i {
            assert_ne!(all[i], all[j]);
        }
    }
}

#[test]
fn all_scenarios_is_stable() {
    assert_eq!(Scenario::all_scenarios(), Scenario::all_scenarios());
}

#[test]
fn same_text_compares_contents() {
    assert!(same_text("", ""));
    assert!(same_text("add_i32", "add_i32"));
    assert!(!same_text("add_i32", "add_i33"));
    assert!(!same_text("add_i32", "add_i3"));
    assert!(!same_text("add_i3", "add_i32"));
    assert!(!same_text("xdd_i32", "add_i32"));
    assert!(same_text("gr\u{fc}n", "gr\u{fc}n"));
    assert!(!same_text("gr\u{fc}n", "grun"));
}
