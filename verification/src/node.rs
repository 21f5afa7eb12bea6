//! The sparse tree of rule violations and its mathematical model.

use vstd::prelude::*;

verus! {

/// One failed rule: its name, its parameters as text, and a readable message.
#[derive(Clone, Debug, PartialEq, Eq)]
pub struct Violation {
    pub code: String,
    pub params: String,
    pub message: String,
}

/// Model of a [`Violation`].
pub ghost struct ViolationModel {
    pub code: Seq<char>,
    pub params: Seq<char>,
    pub message: Seq<char>,
}

impl View for Violation {
    type V = ViolationModel;

    open spec fn view(&self) -> ViolationModel {
        ViolationModel { code: self.code@, params: self.params@, message: self.message@ }
    }
}

/// A tree that holds only the fields and elements that broke a rule.
#[derive(Debug, PartialEq, Eq)]
pub enum ValidationNode {
    /// The violations of one scalar field, in the order the rules were evaluated.
    Field(Vec<Violation>),
    /// The failing fields of a record, in declaration order.
    Struct(Vec<(String, ValidationNode)>),
    /// The failing elements of a sequence, by index.
    List(Vec<(usize, ValidationNode)>),
}

/// Model of a [`ValidationNode`].
pub ghost enum NodeModel {
    Field(Seq<ViolationModel>),
    Struct(Seq<(Seq<char>, NodeModel)>),
    List(Seq<(nat, NodeModel)>),
}

/// Whether a tree holds no empty part: every scalar field in it has a
/// violation, and every record and sequence in it has a child.
pub open spec fn populated(n: NodeModel) -> bool
    decreases n,
{
    match n {
        NodeModel::Field(vs) => vs.len() > 0,
        NodeModel::Struct(c) => c.len() > 0 && forall|i: int| 0 <= i < c.len() ==> populated((#[trigger] c[i]).1),
        NodeModel::List(c) => c.len() > 0 && forall|i: int| 0 <= i < c.len() ==> populated((#[trigger] c[i]).1),
    }
}

/// Models of the first `k` violations of `v`.
pub open spec fn violations_model(v: Seq<Violation>, k: nat) -> Seq<ViolationModel>
    decreases k,
{
    if k == 0 || k > v.len() {
        Seq::empty()
    } else {
        violations_model(v, (k - 1) as nat).push(v[k - 1]@)
    }
}

/// Models of the first `k` named children in `c`.
pub open spec fn fields_model(c: Vec<(String, ValidationNode)>, k: nat) -> Seq<(Seq<char>, NodeModel)>
    decreases c, k,
{
    if k == 0 || k > c.len() {
        Seq::empty()
    } else {
        fields_model(c, (k - 1) as nat).push((c[k - 1].0@, node_model(c[k - 1].1)))
    }
}

/// Models of the first `k` indexed children in `c`.
pub open spec fn items_model(c: Vec<(usize, ValidationNode)>, k: nat) -> Seq<(nat, NodeModel)>
    decreases c, k,
{
    if k == 0 || k > c.len() {
        Seq::empty()
    } else {
        items_model(c, (k - 1) as nat).push((c[k - 1].0 as nat, node_model(c[k - 1].1)))
    }
}

/// The model of a whole tree.
pub open spec fn node_model(n: ValidationNode) -> NodeModel
    decreases n, 0nat,
{
    match n {
        ValidationNode::Field(v) => NodeModel::Field(violations_model(v@, v@.len())),
        ValidationNode::Struct(c) => NodeModel::Struct(fields_model(c, c@.len())),
        ValidationNode::List(c) => NodeModel::List(items_model(c, c@.len())),
    }
}

/// Each entry of a prefix of `violations_model` is the model of the entry it stands for.
pub proof fn lemma_violations_model(v: Seq<Violation>, k: nat)
    requires
        k <= v.len(),
    ensures
        violations_model(v, k).len() == k,
        forall|j: int| 0 <= j < k ==> (#[trigger] violations_model(v, k)[j]) == v[j]@,
    decreases k,
{
    if k > 0 {
        lemma_violations_model(v, (k - 1) as nat);
    }
}

/// Each entry of a prefix of `fields_model` is the model of the child it stands for.
pub proof fn lemma_fields_model(c: Vec<(String, ValidationNode)>, k: nat)
    requires
        k <= c.len(),
    ensures
        fields_model(c, k).len() == k,
        forall|j: int| 0 <= j < k ==> (#[trigger] fields_model(c, k)[j]) == (c[j].0@, node_model(c[j].1)),
    decreases k,
{
    if k > 0 {
        lemma_fields_model(c, (k - 1) as nat);
    }
}

/// Each entry of a prefix of `items_model` is the model of the child it stands for.
pub proof fn lemma_items_model(c: Vec<(usize, ValidationNode)>, k: nat)
    requires
        k <= c.len(),
    ensures
        items_model(c, k).len() == k,
        forall|j: int| 0 <= j < k ==> (#[trigger] items_model(c, k)[j]) == (c[j].0 as nat, node_model(c[j].1)),
    decreases k,
{
    if k > 0 {
        lemma_items_model(c, (k - 1) as nat);
    }
}

impl View for ValidationNode {
    type V = NodeModel;

    open spec fn view(&self) -> NodeModel {
        node_model(*self)
    }
}

} // verus!
