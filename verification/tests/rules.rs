use request_validation::node::Violation;
use request_validation::rules::{check_rule, check_scalar, describe, Rule, Scalar};
use request_validation::text::{decimal_string, join_strings};

fn codes(found: &[Violation]) -> Vec<String> {
    found.iter().map(|v| v.code.clone()).collect()
}

#[test]
fn every_failing_rule_is_reported_in_order() {
    let rules = vec![
        Rule::LengthRange { min: 5, max: 9 },
        Rule::Email,
        Rule::LengthRange { min: 1, max: 3 },
        Rule::LengthRange { min: 1, max: 2 },
    ];
    let found = check_scalar(&rules, &Scalar::Text("abc".to_string()));
    assert_eq!(codes(&found), vec!["length", "email", "length"]);
    assert_eq!(found[0].params, "min=5, max=9");
    assert_eq!(found[2].params, "min=1, max=2");
    let found = check_scalar(&rules, &Scalar::Text("a@b.c".to_string()));
    assert_eq!(codes(&found), vec!["length", "length"]);
    assert_eq!(found[0].params, "min=1, max=3");
    assert!(check_scalar(&Vec::new(), &Scalar::Number(0)).is_empty());
}

#[test]
fn numeric_range_with_and_without_upper_bound() {
    let open = Rule::NumericRange { min: 1, max: None };
    let closed = Rule::NumericRange { min: 1, max: Some(5) };
    assert!(!check_rule(&open, &Scalar::Number(0)));
    assert!(check_rule(&open, &Scalar::Number(1)));
    assert!(check_rule(&open, &Scalar::Number(u64::MAX)));
    assert!(check_rule(&closed, &Scalar::Number(5)));
    assert!(!check_rule(&closed, &Scalar::Number(6)));
    assert!(!check_rule(&closed, &Scalar::Number(0)));
}

#[test]
fn rule_on_the_wrong_kind_of_value_fails() {
    assert!(!check_rule(&Rule::Email, &Scalar::Number(3)));
    assert!(!check_rule(&Rule::LengthRange { min: 0, max: 9 }, &Scalar::Number(3)));
    assert!(!check_rule(&Rule::NumericRange { min: 0, max: None }, &Scalar::Text("3".to_string())));
}

#[test]
fn violations_are_described() {
    let v = describe(&Rule::Email);
    assert_eq!((v.code.as_str(), v.params.as_str(), v.message.as_str()), ("email", "", "must be an email address"));
    let v = describe(&Rule::LengthRange { min: 2, max: 10 });
    assert_eq!(
        (v.code.as_str(), v.params.as_str(), v.message.as_str()),
        ("length", "min=2, max=10", "length is out of range")
    );
    let v = describe(&Rule::NumericRange { min: 1, max: None });
    assert_eq!((v.code.as_str(), v.params.as_str(), v.message.as_str()), ("range", "min=1", "value is out of range"));
    let v = describe(&Rule::NumericRange { min: 0, max: Some(120) });
    assert_eq!(v.params, "min=0, max=120");
}

#[test]
fn numerals_and_joins() {
    assert_eq!(decimal_string(0), "0");
    assert_eq!(decimal_string(7), "7");
    assert_eq!(decimal_string(10), "10");
    assert_eq!(decimal_string(1234567890), "1234567890");
    assert_eq!(decimal_string(u64::MAX), "18446744073709551615");
    let parts = vec!["a".to_string(), "".to_string(), "bc".to_string()];
    assert_eq!(join_strings(&parts, " | "), "a |  | bc");
    assert_eq!(join_strings(&Vec::new(), ", "), "");
    assert_eq!(join_strings(&vec!["x".to_string()], ", "), "x");
}
