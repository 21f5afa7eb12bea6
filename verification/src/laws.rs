//! What holds of validation, flattening and decoding, proved once for all inputs.

use vstd::prelude::*;
use crate::decode::{FailureModel, decode_model, position};
use crate::flatten::{
    FieldError, FieldErrorModel, errors_model, field_path, flatten_fields, flatten_item,
    flatten_items, flatten_node, index_path, violation_line, violation_lines,
};
use crate::json::{Json, StepModel};
use crate::node::{NodeModel, ValidationNode, ViolationModel, populated};
use crate::request::{
    RequestModel, address_children, email_rules, field_entry, pet_children, pet_items,
    pet_name_rules, request_children, street_no_rules, street_rules, validation_model,
};
use crate::rules::{Rule, ScalarModel, rule_holds, violation_of, violations, violations_upto};

verus! {

/// Whether `value` satisfies every rule of `rules`.
pub open spec fn all_hold(rules: Seq<Rule>, value: ScalarModel) -> bool {
    forall|i: int| 0 <= i < rules.len() ==> rule_holds(#[trigger] rules[i], value)
}

/// Whether a request satisfies every rule of every field, its address and its
/// pets included.
pub open spec fn request_valid(r: RequestModel) -> bool {
    &&& all_hold(email_rules(), ScalarModel::Text(r.email))
    &&& all_hold(street_rules(), ScalarModel::Text(r.street))
    &&& all_hold(street_no_rules(), ScalarModel::Number(r.street_no))
    &&& forall|i: int| 0 <= i < r.pets.len() ==> all_hold(pet_name_rules(), ScalarModel::Text(#[trigger] r.pets[i]))
}

/// Among the first `k` rules no violation is found exactly where the value
/// satisfies each of them, and never more violations than rules.
pub proof fn lemma_violations_upto(rules: Seq<Rule>, value: ScalarModel, k: nat)
    requires
        k <= rules.len(),
    ensures
        violations_upto(rules, value, k).len() <= k,
        violations_upto(rules, value, k).len() == 0 <==> forall|i: int|
            0 <= i < k ==> rule_holds(#[trigger] rules[i], value),
    decreases k,
{
    if k > 0 {
        lemma_violations_upto(rules, value, (k - 1) as nat);
    }
}

/// A field has no violation exactly where its value satisfies all its rules.
pub proof fn lemma_no_violation_iff_all_hold(rules: Seq<Rule>, value: ScalarModel)
    ensures
        violations(rules, value).len() == 0 <==> all_hold(rules, value),
{
    lemma_violations_upto(rules, value, rules.len());
}

/// Every failing rule is reported, none is dropped, and the reports stand in
/// the order of the rules: the violations are the failing rules, in order,
/// each as its report.
pub proof fn lemma_violations_are_failing_rules(rules: Seq<Rule>, value: ScalarModel)
    ensures
        violations(rules, value) == rules.filter(|r: Rule| !rule_holds(r, value)).map_values(
            |r: Rule| violation_of(r),
        ),
        violation_lines(violations(rules, value)) == rules.filter(|r: Rule| !rule_holds(r, value)).map_values(
            |r: Rule| violation_line(violation_of(r)),
        ),
{
    lemma_violations_filter(rules, value, rules.len());
    assert(rules.take(rules.len() as int) =~= rules);
    let failing = rules.filter(|r: Rule| !rule_holds(r, value));
    assert(violation_lines(failing.map_values(|r: Rule| violation_of(r))) =~= failing.map_values(
        |r: Rule| violation_line(violation_of(r)),
    ));
}

proof fn lemma_violations_filter(rules: Seq<Rule>, value: ScalarModel, k: nat)
    requires
        k <= rules.len(),
    ensures
        violations_upto(rules, value, k) == rules.take(k as int).filter(|r: Rule| !rule_holds(r, value)).map_values(
            |r: Rule| violation_of(r),
        ),
    decreases k,
{
    reveal(Seq::filter);
    let failing = |r: Rule| !rule_holds(r, value);
    let report = |r: Rule| violation_of(r);
    if k == 0 {
        assert(rules.take(0).filter(failing).map_values(report) =~= Seq::<ViolationModel>::empty());
    } else {
        lemma_violations_filter(rules, value, (k - 1) as nat);
        let prefix = rules.take(k as int);
        assert(prefix.drop_last() =~= rules.take(k - 1));
        assert(prefix.last() == rules[k - 1]);
        if failing(rules[k - 1]) {
            assert(prefix.filter(failing) == prefix.drop_last().filter(failing).push(rules[k - 1]));
            assert(prefix.filter(failing).map_values(report) =~= prefix.drop_last().filter(failing).map_values(
                report,
            ).push(violation_of(rules[k - 1])));
        } else {
            assert(prefix.filter(failing) == prefix.drop_last().filter(failing));
        }
    }
}

/// Among the first `k` pets no element is reported exactly where each of them
/// is free of violations.
pub proof fn lemma_pet_items(pets: Seq<Seq<char>>, k: nat)
    requires
        k <= pets.len(),
    ensures
        pet_items(pets, k).len() <= k,
        pet_items(pets, k).len() == 0 <==> forall|i: int|
            0 <= i < k ==> (#[trigger] pet_children(pets[i])).len() == 0,
    decreases k,
{
    if k > 0 {
        lemma_pet_items(pets, (k - 1) as nat);
    }
}

/// Validation succeeds exactly on the requests that satisfy every rule.
pub proof fn lemma_validation_succeeds_iff_valid(r: RequestModel)
    ensures
        validation_model(r) is None <==> request_valid(r),
{
    lemma_no_violation_iff_all_hold(email_rules(), ScalarModel::Text(r.email));
    lemma_no_violation_iff_all_hold(street_rules(), ScalarModel::Text(r.street));
    lemma_no_violation_iff_all_hold(street_no_rules(), ScalarModel::Number(r.street_no));
    lemma_pet_items(r.pets, r.pets.len());
    assert forall|i: int| 0 <= i < r.pets.len() implies ((#[trigger] pet_children(r.pets[i])).len() == 0
        <==> all_hold(pet_name_rules(), ScalarModel::Text(r.pets[i]))) by {
        lemma_no_violation_iff_all_hold(pet_name_rules(), ScalarModel::Text(r.pets[i]));
    }
    let email = field_entry("email"@, violations(email_rules(), ScalarModel::Text(r.email)));
    let address = address_children(r.street, r.street_no);
    let pets = pet_items(r.pets, r.pets.len());
    assert(email.len() == 0 <==> all_hold(email_rules(), ScalarModel::Text(r.email)));
    assert(address.len() == 0 <==> all_hold(street_rules(), ScalarModel::Text(r.street)) && all_hold(
        street_no_rules(),
        ScalarModel::Number(r.street_no),
    ));
    let valid_pets = forall|i: int|
        0 <= i < r.pets.len() ==> all_hold(pet_name_rules(), ScalarModel::Text(#[trigger] r.pets[i]));
    if pets.len() == 0 {
        assert forall|i: int| 0 <= i < r.pets.len() implies all_hold(
            pet_name_rules(),
            ScalarModel::Text(#[trigger] r.pets[i]),
        ) by {
            assert(pet_children(r.pets[i]).len() == 0);
        }
    }
    if valid_pets {
        assert forall|i: int| 0 <= i < r.pets.len() implies (#[trigger] pet_children(r.pets[i])).len() == 0 by {
            assert(all_hold(pet_name_rules(), ScalarModel::Text(r.pets[i])));
        }
    }
    assert(pets.len() == 0 <==> valid_pets);
    assert(request_children(r).len() == 0 <==> email.len() == 0 && address.len() == 0 && pets.len() == 0);
}

/// Each of the first `k` reported pets is a populated record.
pub proof fn lemma_pet_items_populated(pets: Seq<Seq<char>>, k: nat)
    requires
        k <= pets.len(),
    ensures
        forall|j: int| 0 <= j < pet_items(pets, k).len() ==> populated((#[trigger] pet_items(pets, k)[j]).1),
    decreases k,
{
    reveal_with_fuel(populated, 3);
    if k > 0 {
        lemma_pet_items_populated(pets, (k - 1) as nat);
        let before = pet_items(pets, (k - 1) as nat);
        let children = pet_children(pets[k - 1]);
        assert forall|j: int| 0 <= j < pet_items(pets, k).len() implies populated(
            (#[trigger] pet_items(pets, k)[j]).1,
        ) by {
            if j < before.len() {
                assert(pet_items(pets, k)[j] == before[j]);
            } else {
                assert(children.len() == 1);
                assert(children[0].1 is Field);
                assert(populated(children[0].1));
                assert(pet_items(pets, k)[j].1 == NodeModel::Struct(children));
                assert forall|i: int| 0 <= i < children.len() implies populated((#[trigger] children[i]).1) by {}
            }
        }
    }
}

/// The tree that validation returns holds no empty part.
pub proof fn lemma_validation_tree_populated(r: RequestModel)
    requires
        validation_model(r) is Some,
    ensures
        populated(validation_model(r)->Some_0),
{
    reveal_with_fuel(populated, 4);
    lemma_pet_items_populated(r.pets, r.pets.len());
    let children = request_children(r);
    let inner = address_children(r.street, r.street_no);
    assert forall|i: int| 0 <= i < inner.len() implies populated((#[trigger] inner[i]).1) by {}
    assert forall|i: int| 0 <= i < children.len() implies populated((#[trigger] children[i]).1) by {}
}

/// A request that breaks exactly one rule, on one scalar field outside its
/// list of pets, flattens to exactly one entry with exactly one message.
pub proof fn lemma_single_violation_single_entry(r: RequestModel)
    requires
        violations(email_rules(), ScalarModel::Text(r.email)).len() + violations(
            street_rules(),
            ScalarModel::Text(r.street),
        ).len() + violations(street_no_rules(), ScalarModel::Number(r.street_no)).len() == 1,
        pet_items(r.pets, r.pets.len()).len() == 0,
    ensures
        validation_model(r) is Some,
        flatten_node(validation_model(r)->Some_0, Seq::empty()).len() == 1,
        flatten_node(validation_model(r)->Some_0, Seq::empty())[0].field_errors.len() == 1,
{
    reveal_with_fuel(flatten_fields, 3);
    reveal_with_fuel(flatten_node, 3);
    let children = request_children(r);
    let inner = address_children(r.street, r.street_no);
    if violations(email_rules(), ScalarModel::Text(r.email)).len() == 1 {
        assert(inner.len() == 0);
        assert(children.len() == 1);
        assert(children[0].1 is Field);
    } else {
        assert(inner.len() == 1);
        assert(inner[0].1 is Field);
        assert(children.len() == 1);
        assert(children[0].1 == NodeModel::Struct(inner));
        let below = field_path(Seq::empty(), children[0].0);
        assert(flatten_node(children[0].1, below) == flatten_fields(inner, below, 1));
    }
}

/// A flattened sequence holds whatever one of its first `k` elements
/// contributes.
pub proof fn lemma_flatten_items_holds(c: Seq<(nat, NodeModel)>, path: Seq<char>, k: nat, m: int, e: FieldErrorModel)
    requires
        0 <= m < k <= c.len(),
        flatten_item(c[m].1, index_path(path, c[m].0)).contains(e),
    ensures
        flatten_items(c, path, k).contains(e),
    decreases k,
{
    let before = flatten_items(c, path, (k - 1) as nat);
    let last = flatten_item(c[k - 1].1, index_path(path, c[k - 1].0));
    if m == k - 1 {
        let j = choose|j: int| 0 <= j < last.len() && last[j] == e;
        assert((before + last)[before.len() + j] == e);
    } else {
        lemma_flatten_items_holds(c, path, (k - 1) as nat, m, e);
        let j = choose|j: int| 0 <= j < before.len() && before[j] == e;
        assert((before + last)[j] == e);
    }
}

/// A flattened record holds whatever one of its first `k` fields contributes.
pub proof fn lemma_flatten_fields_holds(
    c: Seq<(Seq<char>, NodeModel)>,
    path: Seq<char>,
    k: nat,
    m: int,
    e: FieldErrorModel,
)
    requires
        0 <= m < k <= c.len(),
        flatten_node(c[m].1, field_path(path, c[m].0)).contains(e),
    ensures
        flatten_fields(c, path, k).contains(e),
    decreases k,
{
    let before = flatten_fields(c, path, (k - 1) as nat);
    let last = flatten_node(c[k - 1].1, field_path(path, c[k - 1].0));
    if m == k - 1 {
        let j = choose|j: int| 0 <= j < last.len() && last[j] == e;
        assert((before + last)[before.len() + j] == e);
    } else {
        lemma_flatten_fields_holds(c, path, (k - 1) as nat, m, e);
        let j = choose|j: int| 0 <= j < before.len() && before[j] == e;
        assert((before + last)[j] == e);
    }
}

/// A pet among the first `k` that breaks a rule has its entry among the
/// reported elements, under its own index.
pub proof fn lemma_failing_pet_has_item(pets: Seq<Seq<char>>, k: nat, i: int) -> (m: int)
    requires
        0 <= i < k <= pets.len(),
        pet_children(pets[i]).len() > 0,
    ensures
        0 <= m < pet_items(pets, k).len(),
        pet_items(pets, k)[m] == (i as nat, NodeModel::Struct(pet_children(pets[i]))),
    decreases k,
{
    if i == k - 1 {
        pet_items(pets, (k - 1) as nat).len() as int
    } else {
        lemma_failing_pet_has_item(pets, (k - 1) as nat, i)
    }
}

/// A pet that breaks a rule on its name is reported under the path that holds
/// its index and the field's name, with every violation of the name.
pub proof fn lemma_failing_pet_is_reported(r: RequestModel, i: int)
    requires
        0 <= i < r.pets.len(),
        !all_hold(pet_name_rules(), ScalarModel::Text(r.pets[i])),
    ensures
        validation_model(r) is Some,
        flatten_node(validation_model(r)->Some_0, Seq::empty()).contains(
            FieldErrorModel {
                field: field_path(index_path("pets"@, i as nat), "name"@),
                field_errors: violation_lines(violations(pet_name_rules(), ScalarModel::Text(r.pets[i]))),
            },
        ),
{
    let found = violations(pet_name_rules(), ScalarModel::Text(r.pets[i]));
    let e = FieldErrorModel { field: field_path(index_path("pets"@, i as nat), "name"@), field_errors: violation_lines(found) };
    lemma_no_violation_iff_all_hold(pet_name_rules(), ScalarModel::Text(r.pets[i]));
    let items = pet_items(r.pets, r.pets.len());
    let m = lemma_failing_pet_has_item(r.pets, r.pets.len(), i);
    let at = index_path("pets"@, i as nat);
    let pet = pet_children(r.pets[i]);
    reveal_with_fuel(flatten_fields, 2);
    assert(pet.len() == 1 && pet[0] == ("name"@, NodeModel::Field(found)));
    assert(flatten_node(NodeModel::Field(found), field_path(at, "name"@)) == seq![e]);
    assert(flatten_fields(pet, at, 0) =~= Seq::<FieldErrorModel>::empty());
    assert(flatten_fields(pet, at, 1) == flatten_fields(pet, at, 0) + flatten_node(
        pet[0].1,
        field_path(at, pet[0].0),
    ));
    assert(flatten_node(NodeModel::Struct(pet), at) == flatten_fields(pet, at, 1));
    assert(flatten_node(NodeModel::Struct(pet), at) =~= seq![e]);
    let one = flatten_item(items[m].1, at);
    assert(one[1] == e);
    lemma_flatten_items_holds(items, "pets"@, items.len(), m, e);
    let children = request_children(r);
    let last = children.len() - 1;
    assert(children[last] == ("pets"@, NodeModel::List(items)));
    assert(field_path(Seq::empty(), "pets"@) == "pets"@);
    lemma_flatten_fields_holds(children, Seq::empty(), children.len(), last, e);
}

/// Two flattenings of one tree are the same list, text for text.
pub proof fn lemma_flatten_is_repeatable(node: ValidationNode, first: Vec<FieldError>, second: Vec<FieldError>)
    requires
        errors_model(first@) == flatten_node(node@, Seq::empty()),
        errors_model(second@) == flatten_node(node@, Seq::empty()),
    ensures
        errors_model(first@) == errors_model(second@),
        first@.len() == second@.len(),
        forall|i: int|
            0 <= i < first@.len() ==> (#[trigger] first@[i]).field@ == second@[i].field@ && first@[i]@.field_errors
                == second@[i]@.field_errors,
{
    assert(errors_model(first@).len() == first@.len());
    assert(errors_model(second@).len() == second@.len());
    assert forall|i: int| 0 <= i < first@.len() implies (#[trigger] first@[i])@ == second@[i]@ by {
        assert(errors_model(first@)[i] == first@[i]@);
        assert(errors_model(second@)[i] == second@[i]@);
    }
}

/// A payload whose `address.street_no` is no unsigned integer, and which is
/// sound before that field, fails to decode at exactly that path.
pub proof fn lemma_street_no_failure_path(value: Json)
    requires
        value is Object,
        position(value->Object_0@, "email"@) is Some,
        value->Object_0@[position(value->Object_0@, "email"@)->Some_0].1 is Text,
        position(value->Object_0@, "address"@) is Some,
        ({
            let address = value->Object_0@[position(value->Object_0@, "address"@)->Some_0].1;
            &&& address is Object
            &&& position(address->Object_0@, "street"@) is Some
            &&& address->Object_0@[position(address->Object_0@, "street"@)->Some_0].1 is Text
            &&& position(address->Object_0@, "street_no"@) is Some
            &&& !(address->Object_0@[position(address->Object_0@, "street_no"@)->Some_0].1 is Number)
        }),
    ensures
        decode_model(value) is Err,
        decode_model(value)->Err_0.path == seq![StepModel::Field("address"@), StepModel::Field("street_no"@)],
{
    let steps = seq![StepModel::Field("address"@)].push(StepModel::Field("street_no"@));
    assert(steps =~= seq![StepModel::Field("address"@), StepModel::Field("street_no"@)]);
}

/// A payload that is no object fails to decode with an empty path.
pub proof fn lemma_not_an_object_has_no_path(value: Json)
    requires
        !(value is Object),
    ensures
        decode_model(value) == Err::<RequestModel, FailureModel>(
            FailureModel { path: Seq::empty(), message: "invalid type: expected an object"@ },
        ),
{
}

} // verus!
