//! The records of a create request, their rule tables, and their validation.

use vstd::prelude::*;
use crate::node::{
    NodeModel, ValidationNode, Violation, ViolationModel, fields_model, items_model,
    lemma_fields_model, lemma_items_model,
};
use crate::laws::{lemma_validation_succeeds_iff_valid, request_valid};
use crate::rules::{Rule, Scalar, ScalarModel, check_scalar, violations};

verus! {

/// A pet of the requester.
#[derive(Clone, Debug, PartialEq, Eq)]
pub struct Pet {
    pub name: String,
}

/// Where the requester lives.
#[derive(Clone, Debug, PartialEq, Eq)]
pub struct Address {
    pub street: String,
    pub street_no: usize,
}

/// The record that a create request decodes to.
#[derive(Clone, Debug, PartialEq, Eq)]
pub struct CreateRequest {
    pub email: String,
    pub address: Address,
    pub pets: Vec<Pet>,
}

/// Model of a request: its scalar values, and the names of its pets.
pub ghost struct RequestModel {
    pub email: Seq<char>,
    pub street: Seq<char>,
    pub street_no: nat,
    pub pets: Seq<Seq<char>>,
}

/// The names of a list of pets.
pub open spec fn pet_names(pets: Seq<Pet>) -> Seq<Seq<char>> {
    pets.map_values(|p: Pet| p.name@)
}

impl View for CreateRequest {
    type V = RequestModel;

    open spec fn view(&self) -> RequestModel {
        RequestModel {
            email: self.email@,
            street: self.address.street@,
            street_no: self.address.street_no as nat,
            pets: pet_names(self.pets@),
        }
    }
}

/// The rules of `email`.
pub open spec fn email_rules() -> Seq<Rule> {
    seq![Rule::Email]
}

/// The rules of `address.street`.
pub open spec fn street_rules() -> Seq<Rule> {
    seq![Rule::LengthRange { min: 2, max: 10 }]
}

/// The rules of `address.street_no`.
pub open spec fn street_no_rules() -> Seq<Rule> {
    seq![Rule::NumericRange { min: 1, max: None }]
}

/// The rules of a pet's `name`.
pub open spec fn pet_name_rules() -> Seq<Rule> {
    seq![Rule::LengthRange { min: 3, max: 20 }]
}

/// The entry of a scalar field: present only where it has violations.
pub open spec fn field_entry(name: Seq<char>, vs: Seq<ViolationModel>) -> Seq<(Seq<char>, NodeModel)> {
    if vs.len() == 0 {
        Seq::empty()
    } else {
        seq![(name, NodeModel::Field(vs))]
    }
}

/// The entry of a nested record: present only where a field of it failed.
pub open spec fn struct_entry(name: Seq<char>, children: Seq<(Seq<char>, NodeModel)>) -> Seq<
    (Seq<char>, NodeModel),
> {
    if children.len() == 0 {
        Seq::empty()
    } else {
        seq![(name, NodeModel::Struct(children))]
    }
}

/// The entry of a sequence: present only where an element of it failed.
pub open spec fn list_entry(name: Seq<char>, items: Seq<(nat, NodeModel)>) -> Seq<(Seq<char>, NodeModel)> {
    if items.len() == 0 {
        Seq::empty()
    } else {
        seq![(name, NodeModel::List(items))]
    }
}

/// The failing fields of an address, in declaration order.
pub open spec fn address_children(street: Seq<char>, street_no: nat) -> Seq<(Seq<char>, NodeModel)> {
    field_entry("street"@, violations(street_rules(), ScalarModel::Text(street))) + field_entry(
        "street_no"@,
        violations(street_no_rules(), ScalarModel::Number(street_no)),
    )
}

/// The failing fields of a pet.
pub open spec fn pet_children(name: Seq<char>) -> Seq<(Seq<char>, NodeModel)> {
    field_entry("name"@, violations(pet_name_rules(), ScalarModel::Text(name)))
}

/// The failing pets among the first `k`, each under its index.
pub open spec fn pet_items(pets: Seq<Seq<char>>, k: nat) -> Seq<(nat, NodeModel)>
    decreases k,
{
    if k == 0 || k > pets.len() {
        Seq::empty()
    } else {
        let before = pet_items(pets, (k - 1) as nat);
        let children = pet_children(pets[k - 1]);
        if children.len() == 0 {
            before
        } else {
            before.push(((k - 1) as nat, NodeModel::Struct(children)))
        }
    }
}

/// The failing fields of a request, in declaration order.
pub open spec fn request_children(r: RequestModel) -> Seq<(Seq<char>, NodeModel)> {
    field_entry("email"@, violations(email_rules(), ScalarModel::Text(r.email))) + struct_entry(
        "address"@,
        address_children(r.street, r.street_no),
    ) + list_entry("pets"@, pet_items(r.pets, r.pets.len()))
}

/// What validation makes of a request: nothing where no rule fails, else the
/// tree of its failing fields.
pub open spec fn validation_model(r: RequestModel) -> Option<NodeModel> {
    if request_children(r).len() == 0 {
        None
    } else {
        Some(NodeModel::Struct(request_children(r)))
    }
}

fn push_field(children: &mut Vec<(String, ValidationNode)>, name: &str, node: ValidationNode)
    ensures
        final(children)@.len() == old(children)@.len() + 1,
        fields_model(*final(children), final(children)@.len()) == fields_model(
            *old(children),
            old(children)@.len(),
        ).push((name@, node@)),
{
    let ghost before = *children;
    children.push((String::from_str(name), node));
    proof {
        lemma_fields_model(before, before@.len());
        lemma_fields_model(*children, children@.len());
        assert(fields_model(*children, children@.len()) =~= fields_model(before, before@.len()).push(
            (name@, node@),
        ));
    }
}

fn push_item(items: &mut Vec<(usize, ValidationNode)>, index: usize, node: ValidationNode)
    ensures
        final(items)@.len() == old(items)@.len() + 1,
        items_model(*final(items), final(items)@.len()) == items_model(*old(items), old(items)@.len()).push(
            (index as nat, node@),
        ),
{
    let ghost before = *items;
    items.push((index, node));
    proof {
        lemma_items_model(before, before@.len());
        lemma_items_model(*items, items@.len());
        assert(items_model(*items, items@.len()) =~= items_model(before, before@.len()).push(
            (index as nat, node@),
        ));
    }
}

fn push_scalar(children: &mut Vec<(String, ValidationNode)>, name: &str, rules: &Vec<Rule>, value: &Scalar)
    ensures
        fields_model(*final(children), final(children)@.len()) == fields_model(
            *old(children),
            old(children)@.len(),
        ) + field_entry(name@, violations(rules@, value@)),
{
    let found: Vec<Violation> = check_scalar(rules, value);
    if found.len() > 0 {
        push_field(children, name, ValidationNode::Field(found));
    }
}

fn validate_address(a: &Address) -> (children: Vec<(String, ValidationNode)>)
    ensures
        fields_model(children, children@.len()) == address_children(a.street@, a.street_no as nat),
{
    let mut children: Vec<(String, ValidationNode)> = Vec::new();
    let mut street: Vec<Rule> = Vec::new();
    street.push(Rule::LengthRange { min: 2, max: 10 });
    let mut street_no: Vec<Rule> = Vec::new();
    street_no.push(Rule::NumericRange { min: 1, max: None });
    assert(street@ =~= street_rules());
    assert(street_no@ =~= street_no_rules());
    push_scalar(&mut children, "street", &street, &Scalar::Text(a.street.clone()));
    push_scalar(&mut children, "street_no", &street_no, &Scalar::Number(a.street_no as u64));
    children
}

fn validate_pet(p: &Pet) -> (children: Vec<(String, ValidationNode)>)
    ensures
        fields_model(children, children@.len()) == pet_children(p.name@),
{
    let mut children: Vec<(String, ValidationNode)> = Vec::new();
    let mut name: Vec<Rule> = Vec::new();
    name.push(Rule::LengthRange { min: 3, max: 20 });
    assert(name@ =~= pet_name_rules());
    push_scalar(&mut children, "name", &name, &Scalar::Text(p.name.clone()));
    children
}

fn validate_pets(pets: &Vec<Pet>) -> (items: Vec<(usize, ValidationNode)>)
    ensures
        items_model(items, items@.len()) == pet_items(pet_names(pets@), pets@.len()),
{
    let mut items: Vec<(usize, ValidationNode)> = Vec::new();
    let mut i: usize = 0;
    while i < pets.len()
        invariant
            i <= pets.len(),
            items_model(items, items@.len()) == pet_items(pet_names(pets@), i as nat),
        decreases pets.len() - i,
    {
        let children = validate_pet(&pets[i]);
        proof {
            lemma_fields_model(children, children@.len());
        }
        if children.len() > 0 {
            push_item(&mut items, i, ValidationNode::Struct(children));
        }
        i = i + 1;
    }
    items
}

/// Validates a request against the rules of its fields, of its address and of
/// each of its pets. Succeeds exactly where no rule fails; else returns the
/// tree of the failing fields and elements, and of nothing else.
pub fn validate(r: &CreateRequest) -> (res: Result<(), ValidationNode>)
    ensures
        res is Ok <==> request_valid(r@),
        match res {
            Ok(_) => validation_model(r@) is None,
            Err(n) => validation_model(r@) == Some(n@),
        },
{
    let mut children: Vec<(String, ValidationNode)> = Vec::new();
    let mut email: Vec<Rule> = Vec::new();
    email.push(Rule::Email);
    assert(email@ =~= email_rules());
    push_scalar(&mut children, "email", &email, &Scalar::Text(r.email.clone()));
    let address = validate_address(&r.address);
    proof {
        lemma_fields_model(address, address@.len());
    }
    if address.len() > 0 {
        push_field(&mut children, "address", ValidationNode::Struct(address));
    }
    let pets = validate_pets(&r.pets);
    proof {
        lemma_items_model(pets, pets@.len());
    }
    if pets.len() > 0 {
        push_field(&mut children, "pets", ValidationNode::List(pets));
    }
    proof {
        lemma_fields_model(children, children@.len());
        assert(fields_model(children, children@.len()) =~= request_children(r@));
        lemma_validation_succeeds_iff_valid(r@);
    }
    if children.len() == 0 {
        Ok(())
    } else {
        Err(ValidationNode::Struct(children))
    }
}

} // verus!
