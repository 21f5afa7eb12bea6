//! Flattening of a violation tree into an ordered list of field-level errors.

use vstd::prelude::*;
use crate::node::{
    NodeModel, ValidationNode, Violation, ViolationModel, fields_model, items_model,
    lemma_fields_model, lemma_items_model, lemma_violations_model, node_model,
    violations_model,
};
use crate::text::{decimal_string, decimal_text, join_strings, join_text, strings_model};

verus! {

/// The externally visible unit: a field path and the messages reported for it.
#[derive(Clone, Debug, PartialEq, Eq)]
pub struct FieldError {
    pub field: String,
    pub field_errors: Vec<String>,
}

/// Model of a [`FieldError`].
pub ghost struct FieldErrorModel {
    pub field: Seq<char>,
    pub field_errors: Seq<Seq<char>>,
}

impl View for FieldError {
    type V = FieldErrorModel;

    open spec fn view(&self) -> FieldErrorModel {
        FieldErrorModel { field: self.field@, field_errors: strings_model(self.field_errors@) }
    }
}

/// The models of a list of field errors.
pub open spec fn errors_model(v: Seq<FieldError>) -> Seq<FieldErrorModel> {
    v.map_values(|e: FieldError| e@)
}

/// The path of the field `name` below `path`: dotted, unless `path` is empty.
pub open spec fn field_path(path: Seq<char>, name: Seq<char>) -> Seq<char> {
    if path.len() == 0 {
        name
    } else {
        path + "."@ + name
    }
}

/// The path of the element `index` below `path`.
pub open spec fn index_path(path: Seq<char>, index: nat) -> Seq<char> {
    path + "["@ + decimal_text(index) + "]"@
}

/// The message for one violation: the rule's name, then its parameters.
pub open spec fn violation_line(v: ViolationModel) -> Seq<char> {
    v.code + ": "@ + v.params
}

/// The messages for the violations of one field, in order.
pub open spec fn violation_lines(vs: Seq<ViolationModel>) -> Seq<Seq<char>> {
    vs.map_values(|v: ViolationModel| violation_line(v))
}

/// The one-line summary of a scalar field's violations.
pub open spec fn field_summary(name: Seq<char>, vs: Seq<ViolationModel>) -> Seq<char> {
    name + ": errors: "@ + join_text(violation_lines(vs), ", "@)
}

/// The summaries of the scalar fields among the first `k` children, in order.
pub open spec fn summaries_upto(c: Seq<(Seq<char>, NodeModel)>, k: nat) -> Seq<Seq<char>>
    decreases k,
{
    if k == 0 || k > c.len() {
        Seq::empty()
    } else {
        let before = summaries_upto(c, (k - 1) as nat);
        match c[k - 1].1 {
            NodeModel::Field(vs) => before.push(field_summary(c[k - 1].0, vs)),
            _ => before,
        }
    }
}

/// The summaries of a record node's directly failing scalar fields; nothing for
/// a node of another kind.
pub open spec fn summaries(n: NodeModel) -> Seq<Seq<char>> {
    match n {
        NodeModel::Struct(c) => summaries_upto(c, c.len()),
        _ => Seq::empty(),
    }
}

/// What the first `k` named children contribute below `path`.
pub open spec fn flatten_fields(c: Seq<(Seq<char>, NodeModel)>, path: Seq<char>, k: nat) -> Seq<FieldErrorModel>
    decreases c, k,
{
    if k == 0 || k > c.len() {
        Seq::empty()
    } else {
        flatten_fields(c, path, (k - 1) as nat) + flatten_node(c[k - 1].1, field_path(path, c[k - 1].0))
    }
}

/// What one element of a sequence contributes at `path`: a scalar element its
/// own entry; a structured one first a summary entry, then its expansion.
pub open spec fn flatten_item(n: NodeModel, path: Seq<char>) -> Seq<FieldErrorModel>
    decreases n, 1nat,
{
    match n {
        NodeModel::Field(_) => flatten_node(n, path),
        _ => seq![
            FieldErrorModel { field: path, field_errors: seq![join_text(summaries(n), " | "@)] },
        ] + flatten_node(n, path),
    }
}

/// What the first `k` indexed children contribute below `path`.
pub open spec fn flatten_items(c: Seq<(nat, NodeModel)>, path: Seq<char>, k: nat) -> Seq<FieldErrorModel>
    decreases c, k,
{
    if k == 0 || k > c.len() {
        Seq::empty()
    } else {
        flatten_items(c, path, (k - 1) as nat) + flatten_item(c[k - 1].1, index_path(path, c[k - 1].0))
    }
}

/// The flattened form of the tree `n` rooted at `path`: depth first, children in
/// their stored order, one entry per scalar field that has violations.
pub open spec fn flatten_node(n: NodeModel, path: Seq<char>) -> Seq<FieldErrorModel>
    decreases n, 0nat,
{
    match n {
        NodeModel::Field(vs) => seq![FieldErrorModel { field: path, field_errors: violation_lines(vs) }],
        NodeModel::Struct(c) => flatten_fields(c, path, c.len()),
        NodeModel::List(c) => flatten_items(c, path, c.len()),
    }
}

/// The path of the field `name` below `path`.
pub fn child_path(path: &str, name: &str) -> (p: String)
    ensures
        p@ == field_path(path@, name@),
{
    if path.is_empty() {
        String::from_str(name)
    } else {
        let mut p: String = String::from_str(path);
        p.append(".");
        p.append(name);
        p
    }
}

/// The path of the element `index` below `path`.
pub fn element_path(path: &str, index: usize) -> (p: String)
    ensures
        p@ == index_path(path@, index as nat),
{
    let mut p: String = String::from_str(path);
    p.append("[");
    let number: String = decimal_string(index as u64);
    p.append(number.as_str());
    p.append("]");
    p
}

/// The messages for the violations of one field, in order.
pub fn violation_strings(vs: &Vec<Violation>) -> (lines: Vec<String>)
    ensures
        strings_model(lines@) == violation_lines(violations_model(vs@, vs@.len())),
{
    let ghost model = violations_model(vs@, vs@.len());
    proof {
        lemma_violations_model(vs@, vs@.len());
    }
    let mut lines: Vec<String> = Vec::new();
    let mut i: usize = 0;
    while i < vs.len()
        invariant
            i <= vs.len(),
            model == violations_model(vs@, vs@.len()),
            model.len() == vs.len(),
            forall|j: int| 0 <= j < vs.len() ==> (#[trigger] model[j]) == vs@[j]@,
            strings_model(lines@) == violation_lines(model.take(i as int)),
        decreases vs.len() - i,
    {
        let mut line: String = vs[i].code.clone();
        line.append(": ");
        line.append(vs[i].params.as_str());
        let ghost before = lines@;
        lines.push(line);
        proof {
            assert(model[i as int] == vs@[i as int]@);
            assert(line@ == violation_line(model[i as int]));
            assert(strings_model(lines@) =~= strings_model(before).push(line@));
            assert(violation_lines(model.take(i + 1)) =~= violation_lines(model.take(i as int)).push(
                violation_line(model[i as int]),
            ));
        }
        i = i + 1;
    }
    proof {
        assert(model.take(i as int) =~= model);
    }
    lines
}

/// The summaries of a record node's directly failing scalar fields, one line per
/// field, in the stored order; nothing for a node of another kind.
pub fn validation_errs_to_str_vec(ve: &ValidationNode) -> (lines: Vec<String>)
    ensures
        strings_model(lines@) == summaries(ve@),
{
    let mut lines: Vec<String> = Vec::new();
    match ve {
        ValidationNode::Struct(c) => {
            let ghost model = fields_model(*c, c@.len());
            proof {
                lemma_fields_model(*c, c@.len());
            }
            let mut i: usize = 0;
            while i < c.len()
                invariant
                    i <= c.len(),
                    model == fields_model(*c, c@.len()),
                    model.len() == c.len(),
                    forall|j: int| 0 <= j < c.len() ==> (#[trigger] model[j]) == (c[j].0@, node_model(c[j].1)),
                    strings_model(lines@) == summaries_upto(model, i as nat),
                decreases c.len() - i,
            {
                assert(model[i as int] == (c[i as int].0@, node_model(c[i as int].1)));
                match &c[i].1 {
                    ValidationNode::Field(vs) => {
                        let parts: Vec<String> = violation_strings(vs);
                        let joined: String = join_strings(&parts, ", ");
                        let mut line: String = c[i].0.clone();
                        line.append(": errors: ");
                        line.append(joined.as_str());
                        let ghost before = lines@;
                        lines.push(line);
                        proof {
                            assert(strings_model(lines@) =~= strings_model(before).push(line@));
                        }
                    },
                    _ => {},
                }
                i = i + 1;
            }
            proof {
                assert(strings_model(lines@) == summaries(ve@));
            }
        },
        _ => {
            proof {
                assert(strings_model(lines@) =~= Seq::<Seq<char>>::empty());
            }
        },
    }
    lines
}

fn flatten_into(node: &ValidationNode, path: &str, out: &mut Vec<FieldError>)
    ensures
        errors_model(final(out)@) == errors_model(old(out)@) + flatten_node(node@, path@),
    decreases node,
{
    let ghost start = errors_model(out@);
    match node {
        ValidationNode::Field(vs) => {
            let entry = FieldError { field: String::from_str(path), field_errors: violation_strings(vs) };
            let ghost before = out@;
            out.push(entry);
            proof {
                assert(errors_model(out@) =~= errors_model(before).push(entry@));
                assert(errors_model(out@) =~= start + flatten_node(node@, path@));
            }
        },
        ValidationNode::Struct(c) => {
            let ghost model = fields_model(*c, c@.len());
            proof {
                lemma_fields_model(*c, c@.len());
            }
            let mut i: usize = 0;
            proof {
                assert(errors_model(out@) =~= start + flatten_fields(model, path@, 0));
            }
            while i < c.len()
                invariant
                    i <= c.len(),
                    node is Struct,
                    node->Struct_0 == *c,
                    model == fields_model(*c, c@.len()),
                    model.len() == c.len(),
                    forall|j: int| 0 <= j < c.len() ==> (#[trigger] model[j]) == (c[j].0@, node_model(c[j].1)),
                    errors_model(out@) == start + flatten_fields(model, path@, i as nat),
                decreases c.len() - i,
            {
                assert(model[i as int] == (c[i as int].0@, node_model(c[i as int].1)));
                let below: String = child_path(path, c[i].0.as_str());
                proof {
                    assert(decreases_to!(node => node->Struct_0));
                    assert(decreases_to!(c => c[i as int]));
                    assert(decreases_to!(c[i as int] => c[i as int].1));
                }
                flatten_into(&c[i].1, below.as_str(), out);
                proof {
                    assert(errors_model(out@) =~= start + flatten_fields(model, path@, (i + 1) as nat));
                }
                i = i + 1;
            }
        },
        ValidationNode::List(c) => {
            let ghost model = items_model(*c, c@.len());
            proof {
                lemma_items_model(*c, c@.len());
            }
            let mut i: usize = 0;
            proof {
                assert(errors_model(out@) =~= start + flatten_items(model, path@, 0));
            }
            while i < c.len()
                invariant
                    i <= c.len(),
                    node is List,
                    node->List_0 == *c,
                    model == items_model(*c, c@.len()),
                    model.len() == c.len(),
                    forall|j: int| 0 <= j < c.len() ==> (#[trigger] model[j]) == (c[j].0 as nat, node_model(c[j].1)),
                    errors_model(out@) == start + flatten_items(model, path@, i as nat),
                decreases c.len() - i,
            {
                assert(model[i as int] == (c[i as int].0 as nat, node_model(c[i as int].1)));
                let at: String = element_path(path, c[i].0);
                let ghost child = node_model(c[i as int].1);
                let ghost reached = errors_model(out@);
                match &c[i].1 {
                    ValidationNode::Field(_) => {
                        proof {
                            assert(flatten_item(child, at@) == flatten_node(child, at@));
                        }
                    },
                    _ => {
                        let parts: Vec<String> = validation_errs_to_str_vec(&c[i].1);
                        let mut summary: Vec<String> = Vec::new();
                        summary.push(join_strings(&parts, " | "));
                        let entry = FieldError { field: at.clone(), field_errors: summary };
                        let ghost before = out@;
                        out.push(entry);
                        proof {
                            assert(entry@.field_errors =~= seq![join_text(summaries(c[i as int].1@), " | "@)]);
                            assert(errors_model(out@) =~= errors_model(before).push(entry@));
                            assert(flatten_item(child, at@) == seq![entry@] + flatten_node(child, at@));
                        }
                    },
                }
                proof {
                    assert(reached + flatten_item(child, at@) =~= errors_model(out@) + flatten_node(child, at@));
                    assert(decreases_to!(node => node->List_0));
                    assert(decreases_to!(c => c[i as int]));
                    assert(decreases_to!(c[i as int] => c[i as int].1));
                }
                flatten_into(&c[i].1, at.as_str(), out);
                proof {
                    assert(errors_model(out@) =~= start + flatten_items(model, path@, (i + 1) as nat));
                }
                i = i + 1;
            }
        },
    }
}

/// Flattens a violation tree: a depth-first walk in the stored order that gives
/// one entry for each scalar field with violations, under its full path, and
/// before each structured element of a sequence one summary entry.
pub fn flatten(node: &ValidationNode) -> (errors: Vec<FieldError>)
    ensures
        errors_model(errors@) == flatten_node(node@, Seq::<char>::empty()),
{
    let mut errors: Vec<FieldError> = Vec::new();
    flatten_into(node, "", &mut errors);
    proof {
        assert(""@ =~= Seq::<char>::empty()) by {
            reveal_strlit("");
        }
        assert(errors_model(Seq::<FieldError>::empty()) =~= Seq::<FieldErrorModel>::empty());
    }
    errors
}

} // verus!
