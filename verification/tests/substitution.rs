//! Behaviour of the variable substitution pass on edge cases: unknown
//! placeholders, empty or missing variable tables, adjacent placeholders,
//! and values that themselves look like placeholders.

use mail_filters::Filter;
use mail_filters::FilterRaw;
use mail_filters::FiltersFile;
use mail_filters::Predicate;

static EXPECT_TEST_CASE: &str = "Hard-coded by test-case";

fn one_rule_config(vars: Option<Vec<(String, String)>>, rule: &str) -> Vec<Filter> {
    let filters = vec![FilterRaw {
        name: "F".to_string(),
        mailing_lists: Some(vec![Predicate { rule: rule.to_string(), negate: true }]),
        tos: None,
        children: None,
    }];
    FiltersFile { vars, filters }.get_filters().expect(EXPECT_TEST_CASE)
}

fn first_rule(config: &[Filter]) -> &str {
    &config[0].filter.mailing_lists[0].rule
}

#[test]
fn unknown_placeholder_left_verbatim() {
    let vars = vec![("a".to_string(), "aaa".to_string())];
    let config = one_rule_config(Some(vars), "{missing}");

    assert_eq!(first_rule(&config), "{missing}");
    assert!(config[0].filter.mailing_lists[0].negate);
}

#[test]
fn known_and_unknown_placeholders_mix() {
    let vars = vec![("a".to_string(), "aaa".to_string())];
    let config = one_rule_config(Some(vars), "{missing}-{a}");

    assert_eq!(first_rule(&config), "{missing}-aaa");
}

#[test]
fn empty_table_leaves_rules_unchanged() {
    let config = one_rule_config(Some(vec![]), "keep {a} verbatim");

    assert_eq!(first_rule(&config), "keep {a} verbatim");
}

#[test]
fn missing_table_leaves_rules_unchanged() {
    let config = one_rule_config(None, "keep {a} verbatim");

    assert_eq!(first_rule(&config), "keep {a} verbatim");
}

#[test]
fn adjacent_placeholders_all_resolved() {
    let vars = vec![
        ("a".to_string(), "aaa".to_string()),
        ("b".to_string(), "bbb".to_string()),
    ];
    let config = one_rule_config(Some(vars), "{a}{b}{a}");

    assert_eq!(first_rule(&config), "aaabbbaaa");
}

#[test]
fn replacement_values_are_not_rescanned() {
    let vars = vec![
        ("a".to_string(), "{b}".to_string()),
        ("b".to_string(), "x".to_string()),
    ];
    let config = one_rule_config(Some(vars), "{a}");

    assert_eq!(first_rule(&config), "{b}");
}

#[test]
fn cooking_preserves_nesting_and_counts() {
    let node = |name: &str, children: Option<Vec<FilterRaw>>| FilterRaw {
        name: name.to_string(),
        mailing_lists: None,
        tos: None,
        children,
    };
    let filters = vec![
        node("top1", Some(vec![node("mid", Some(vec![node("leaf1", None), node("leaf2", None)]))])),
        node("top2", Some(vec![])),
    ];
    let config = FiltersFile { vars: None, filters }.get_filters().expect(EXPECT_TEST_CASE);

    assert_eq!(config.len(), 2);
    assert_eq!(config[0].filter.name, "top1");
    assert_eq!(config[0].children.len(), 1);
    assert_eq!(config[0].children[0].filter.name, "mid");
    assert_eq!(config[0].children[0].children.len(), 2);
    assert_eq!(config[0].children[0].children[0].filter.name, "leaf1");
    assert_eq!(config[0].children[0].children[1].filter.name, "leaf2");
    assert_eq!(config[0].children[0].children[0].children.len(), 0);
    assert_eq!(config[1].filter.name, "top2");
    assert_eq!(config[1].children.len(), 0);
}

#[test]
fn substitution_reaches_every_depth_in_order() {
    let vars = vec![("who".to_string(), "list@example.org".to_string())];
    let pred = |rule: &str| Predicate { rule: rule.to_string(), negate: false };
    let filters = vec![FilterRaw {
        name: "parent".to_string(),
        mailing_lists: Some(vec![pred("first {who}"), pred("second {who}")]),
        tos: Some(vec![pred("to {who}")]),
        children: Some(vec![FilterRaw {
            name: "child".to_string(),
            mailing_lists: None,
            tos: Some(vec![pred("deep {who}")]),
            children: None,
        }]),
    }];
    let config = FiltersFile { vars: Some(vars), filters }
        .get_filters()
        .expect(EXPECT_TEST_CASE);

    assert_eq!(config.len(), 1);
    let parent = &config[0];
    assert_eq!(parent.filter.name, "parent");
    assert_eq!(parent.filter.mailing_lists[0].rule, "first list@example.org");
    assert_eq!(parent.filter.mailing_lists[1].rule, "second list@example.org");
    assert_eq!(parent.filter.tos[0].rule, "to list@example.org");
    assert_eq!(parent.children.len(), 1);
    assert_eq!(parent.children[0].filter.name, "child");
    assert_eq!(parent.children[0].filter.tos[0].rule, "deep list@example.org");
}
