//! The rules that a scalar field can carry, and their evaluation.

use vstd::prelude::*;
use crate::node::{Violation, ViolationModel, lemma_violations_model, violations_model};
use crate::text::{decimal_string, decimal_text};

verus! {

/// A constraint on one scalar field.
#[derive(Clone, Copy, Debug, PartialEq, Eq)]
#[allow(inconsistent_fields)]
pub enum Rule {
    /// The text has the shape of an email address.
    Email,
    /// The number of characters of the text lies in `min..=max`.
    LengthRange { min: u64, max: u64 },
    /// The number is at least `min`, and at most `max` where one is set.
    NumericRange { min: u64, max: Option<u64> },
}

/// The value of a scalar field.
#[derive(Clone, Debug, PartialEq, Eq)]
pub enum Scalar {
    Text(String),
    Number(u64),
}

/// Model of a [`Scalar`].
pub ghost enum ScalarModel {
    Text(Seq<char>),
    Number(nat),
}

impl View for Scalar {
    type V = ScalarModel;

    open spec fn view(&self) -> ScalarModel {
        match self {
            Scalar::Text(s) => ScalarModel::Text(s@),
            Scalar::Number(n) => ScalarModel::Number(*n as nat),
        }
    }
}

/// Whether `validator::validate_email` accepts the text.
pub uninterp spec fn email_accepted(value: Seq<char>) -> bool;

/// Calls `validator::validate_email`. The answer depends on the text alone and
/// is named `email_accepted`. The function rejects at once a text that is empty
/// or holds no `@`, so an accepted text is neither.
#[verifier::external_body]
fn is_email(value: &str) -> (ok: bool)
    ensures
        ok == email_accepted(value@),
        ok ==> value@.len() > 0 && value@.contains('@'),
{
    validator::validate_email(value)
}

/// Calls `validator::validate_length` with both bounds and no exact length: it
/// counts the characters of the text and accepts a count within the bounds.
#[verifier::external_body]
fn length_within(value: &str, min: u64, max: u64) -> (ok: bool)
    ensures
        ok == (min <= value@.len() <= max),
{
    validator::validate_length(value, Some(min), Some(max), None)
}

/// Calls `validator::validate_range`: it accepts a value that is not below
/// `min` and, where `max` is set, not above it.
#[verifier::external_body]
fn number_within(value: u64, min: u64, max: Option<u64>) -> (ok: bool)
    ensures
        ok == (min <= value && (max is Some ==> value <= max->Some_0)),
{
    validator::validate_range(value, Some(min), max)
}

/// Whether `value` satisfies `rule`. A rule on text fails on a number, and a
/// rule on numbers fails on text.
pub open spec fn rule_holds(rule: Rule, value: ScalarModel) -> bool {
    match (rule, value) {
        (Rule::Email, ScalarModel::Text(s)) => email_accepted(s),
        (Rule::LengthRange { min, max }, ScalarModel::Text(s)) => min <= s.len() <= max,
        (Rule::NumericRange { min, max }, ScalarModel::Number(n)) => min <= n && (max is Some ==> n
            <= max->Some_0),
        _ => false,
    }
}

/// The name under which a rule is reported.
pub open spec fn rule_code(rule: Rule) -> Seq<char> {
    match rule {
        Rule::Email => "email"@,
        Rule::LengthRange { .. } => "length"@,
        Rule::NumericRange { .. } => "range"@,
    }
}

/// The parameters of a rule as text: its bounds, where it has any.
pub open spec fn rule_params(rule: Rule) -> Seq<char> {
    match rule {
        Rule::Email => Seq::empty(),
        Rule::LengthRange { min, max } => "min="@ + decimal_text(min as nat) + ", max="@ + decimal_text(
            max as nat,
        ),
        Rule::NumericRange { min, max } => match max {
            Some(m) => "min="@ + decimal_text(min as nat) + ", max="@ + decimal_text(m as nat),
            None => "min="@ + decimal_text(min as nat),
        },
    }
}

/// The readable message of a rule.
pub open spec fn rule_message(rule: Rule) -> Seq<char> {
    match rule {
        Rule::Email => "must be an email address"@,
        Rule::LengthRange { .. } => "length is out of range"@,
        Rule::NumericRange { .. } => "value is out of range"@,
    }
}

/// The violation that a failed `rule` is reported as.
pub open spec fn violation_of(rule: Rule) -> ViolationModel {
    ViolationModel { code: rule_code(rule), params: rule_params(rule), message: rule_message(rule) }
}

/// The violations of `value` among the first `k` rules, in the rules' order.
pub open spec fn violations_upto(rules: Seq<Rule>, value: ScalarModel, k: nat) -> Seq<ViolationModel>
    decreases k,
{
    if k == 0 || k > rules.len() {
        Seq::empty()
    } else {
        let before = violations_upto(rules, value, (k - 1) as nat);
        if rule_holds(rules[k - 1], value) {
            before
        } else {
            before.push(violation_of(rules[k - 1]))
        }
    }
}

/// The violations of `value` against all of `rules`: every rule is evaluated,
/// and each one that fails is reported, in the rules' order.
pub open spec fn violations(rules: Seq<Rule>, value: ScalarModel) -> Seq<ViolationModel> {
    violations_upto(rules, value, rules.len())
}

/// Evaluates one rule on one value.
pub fn check_rule(rule: &Rule, value: &Scalar) -> (ok: bool)
    ensures
        ok == rule_holds(*rule, value@),
{
    match rule {
        Rule::Email => match value {
            Scalar::Text(s) => is_email(s.as_str()),
            Scalar::Number(_) => false,
        },
        Rule::LengthRange { min, max } => match value {
            Scalar::Text(s) => length_within(s.as_str(), *min, *max),
            Scalar::Number(_) => false,
        },
        Rule::NumericRange { min, max } => match value {
            Scalar::Text(_) => false,
            Scalar::Number(n) => number_within(*n, *min, *max),
        },
    }
}

fn bounds_text(min: u64, max: Option<u64>) -> (s: String)
    ensures
        s@ == match max {
            Some(m) => "min="@ + decimal_text(min as nat) + ", max="@ + decimal_text(m as nat),
            None => "min="@ + decimal_text(min as nat),
        },
{
    let mut s: String = String::from_str("min=");
    let low: String = decimal_string(min);
    s.append(low.as_str());
    match max {
        Some(m) => {
            s.append(", max=");
            let high: String = decimal_string(m);
            s.append(high.as_str());
        },
        None => {},
    }
    s
}

/// The violation that a failed `rule` is reported as.
pub fn describe(rule: &Rule) -> (v: Violation)
    ensures
        v@ == violation_of(*rule),
{
    match rule {
        Rule::Email => Violation {
            code: String::from_str("email"),
            params: String::new(),
            message: String::from_str("must be an email address"),
        },
        Rule::LengthRange { min, max } => Violation {
            code: String::from_str("length"),
            params: bounds_text(*min, Some(*max)),
            message: String::from_str("length is out of range"),
        },
        Rule::NumericRange { min, max } => Violation {
            code: String::from_str("range"),
            params: bounds_text(*min, *max),
            message: String::from_str("value is out of range"),
        },
    }
}

/// Evaluates every rule of a field on its value, without stopping at the first
/// failure, and returns the failures in the rules' order.
pub fn check_scalar(rules: &Vec<Rule>, value: &Scalar) -> (found: Vec<Violation>)
    ensures
        violations_model(found@, found@.len()) == violations(rules@, value@),
        found@.len() == violations(rules@, value@).len(),
{
    let mut found: Vec<Violation> = Vec::new();
    let mut i: usize = 0;
    while i < rules.len()
        invariant
            i <= rules.len(),
            violations_model(found@, found@.len()) == violations_upto(rules@, value@, i as nat),
        decreases rules.len() - i,
    {
        if !check_rule(&rules[i], value) {
            let v: Violation = describe(&rules[i]);
            let ghost before = found@;
            found.push(v);
            proof {
                lemma_violations_model(before, before.len());
                lemma_violations_model(found@, found@.len());
                assert(violations_model(found@, found@.len()) =~= violations_model(
                    before,
                    before.len(),
                ).push(v@));
            }
        }
        i = i + 1;
    }
    proof {
        lemma_violations_model(found@, found@.len());
    }
    found
}

} // verus!
