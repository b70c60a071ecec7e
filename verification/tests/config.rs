//! The end-to-end pipeline on a small configuration: two variables, a filter
//! with two mailing-list predicates, and a filter with two children.

use mail_filters::Filter;
use mail_filters::FilterRaw;
use mail_filters::FiltersFile;
use mail_filters::Predicate;

static EXPECT_TEST_CASE: &str = "Hard-coded by test-case";

fn leaf(name: &str) -> FilterRaw {
    FilterRaw { name: name.to_string(), mailing_lists: None, tos: None, children: None }
}

fn test_config() -> Vec<Filter> {
    let vars = vec![
        ("a".to_string(), "aaa".to_string()),
        ("b".to_string(), "bbb".to_string()),
    ];
    let filters = vec![
        FilterRaw {
            name: "F1".to_string(),
            mailing_lists: Some(vec![
                Predicate { rule: "{a}".to_string(), negate: false },
                Predicate { rule: "{b}".to_string(), negate: false },
            ]),
            tos: None,
            children: None,
        },
        FilterRaw {
            name: "F2".to_string(),
            mailing_lists: None,
            tos: None,
            children: Some(vec![leaf("F2C1"), leaf("F2C2")]),
        },
    ];
    FiltersFile { vars: Some(vars), filters }.get_filters().expect(EXPECT_TEST_CASE)
}

#[test]
fn test_inject_variables() {
    let config = test_config();
    let filter = &config.first().expect(EXPECT_TEST_CASE).filter;
    let mailing_lists: &Vec<Predicate> = filter.mailing_lists.as_ref();

    assert_eq!(mailing_lists.first().expect(EXPECT_TEST_CASE).rule, "aaa");
    assert_eq!(mailing_lists.get(1).expect(EXPECT_TEST_CASE).rule, "bbb");
}

#[test]
fn test_cook_filters() {
    let children = {
        let config = test_config();
        let filter = config.get(1).expect(EXPECT_TEST_CASE);
        filter.children.len()
    };

    assert_eq!(children, 2);
}

#[test]
fn cook_normalizes_absent_categories() {
    let config = test_config();
    let f2 = config.get(1).expect(EXPECT_TEST_CASE);

    assert_eq!(f2.filter.name, "F2");
    assert!(f2.filter.mailing_lists.is_empty());
    assert!(f2.filter.tos.is_empty());
    assert_eq!(f2.children[0].filter.name, "F2C1");
    assert_eq!(f2.children[1].filter.name, "F2C2");
    assert!(f2.children[0].children.is_empty());
}
