//! Tests of the module table and its merged prelude.

use pikchr_pl::modules::PrologModules;

fn table_with_two() -> PrologModules {
    let mut modules = PrologModules::new();
    modules.insert_module(String::from("shapes"), String::from("circle --> \"circle;\"."));
    modules.insert_module(String::from("layout"), String::from("down --> \"down;\"."));
    modules
}

#[test]
fn a_fresh_table_merges_to_nothing() {
    let modules = PrologModules::new();
    assert_eq!(modules.to_merged_string(), "");
}

#[test]
fn inserted_modules_are_enabled_and_merged_in_name_order() {
    let modules = table_with_two();
    assert!(modules.knows("shapes"));
    assert!(modules.is_enabled("layout"));
    assert_eq!(
        modules.to_merged_string(),
        "down --> \"down;\".\n\ncircle --> \"circle;\"."
    );
}

#[test]
fn merge_order_does_not_depend_on_insertion_order() {
    let mut a = PrologModules::new();
    a.insert_module(String::from("b"), String::from("two."));
    a.insert_module(String::from("a"), String::from("one."));
    a.insert_module(String::from("c"), String::from("three."));
    let mut b = PrologModules::new();
    b.insert_module(String::from("c"), String::from("three."));
    b.insert_module(String::from("a"), String::from("one."));
    b.insert_module(String::from("b"), String::from("two."));
    assert_eq!(a.to_merged_string(), "one.\n\ntwo.\n\nthree.");
    assert_eq!(a.to_merged_string(), b.to_merged_string());
}

#[test]
fn inserting_a_taken_name_changes_nothing() {
    let mut modules = table_with_two();
    modules.insert_module(String::from("shapes"), String::from("other text"));
    assert_eq!(
        modules.to_merged_string(),
        "down --> \"down;\".\n\ncircle --> \"circle;\"."
    );
}

#[test]
fn a_disabled_module_is_left_out_of_the_merge() {
    let mut modules = table_with_two();
    modules.disable("shapes");
    assert!(!modules.is_enabled("shapes"));
    assert!(modules.knows("shapes"));
    assert_eq!(modules.to_merged_string(), "down --> \"down;\".");
}

#[test]
fn reenabling_restores_the_module_at_its_table_position() {
    let mut modules = table_with_two();
    modules.disable("shapes");
    modules.enable("shapes");
    assert!(modules.is_enabled("shapes"));
    assert_eq!(
        modules.to_merged_string(),
        "down --> \"down;\".\n\ncircle --> \"circle;\"."
    );
}

#[test]
fn enabling_an_unknown_or_enabled_module_changes_nothing() {
    let mut modules = table_with_two();
    modules.enable("no such module");
    modules.enable("shapes");
    assert_eq!(modules.enabled_modules.len(), 2);
}
