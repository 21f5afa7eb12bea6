//! A tree of payload values, and the path of a place in it.

use vstd::prelude::*;
use crate::flatten::{field_path, index_path, child_path, element_path};

verus! {

/// A decoded payload value.
#[derive(Debug, PartialEq, Eq)]
pub enum Json {
    Null,
    Bool(bool),
    /// A number: its value where it is a non-negative integer below 2^64.
    Number(Option<u64>),
    Text(String),
    Array(Vec<Json>),
    /// The members of an object, in their order.
    Object(Vec<(String, Json)>),
}

/// One step of a path: into a named field, into an element, or one that the
/// reader could not name.
#[derive(Clone, Debug, PartialEq, Eq)]
pub enum Step {
    Field(String),
    Index(usize),
    Unknown,
}

/// Model of a [`Step`].
pub ghost enum StepModel {
    Field(Seq<char>),
    Index(nat),
    Unknown,
}

impl View for Step {
    type V = StepModel;

    open spec fn view(&self) -> StepModel {
        match self {
            Step::Field(s) => StepModel::Field(s@),
            Step::Index(i) => StepModel::Index(*i as nat),
            Step::Unknown => StepModel::Unknown,
        }
    }
}

/// The models of a path's steps.
pub open spec fn path_model(path: Seq<Step>) -> Seq<StepModel> {
    path.map_values(|s: Step| s@)
}

/// The first `k` steps as text: fields dotted, indices in brackets, and a
/// question mark for a step without a name.
pub open spec fn path_text_upto(path: Seq<StepModel>, k: nat) -> Seq<char>
    decreases k,
{
    if k == 0 || k > path.len() {
        Seq::empty()
    } else {
        let before = path_text_upto(path, (k - 1) as nat);
        match path[k - 1] {
            StepModel::Field(name) => field_path(before, name),
            StepModel::Index(i) => index_path(before, i),
            StepModel::Unknown => field_path(before, "?"@),
        }
    }
}

/// A path as text, such as `pets[2].name`.
pub open spec fn path_text(path: Seq<StepModel>) -> Seq<char> {
    path_text_upto(path, path.len())
}

/// Writes a path as text.
pub fn joined_path(path: &Vec<Step>) -> (s: String)
    ensures
        s@ == path_text(path_model(path@)),
{
    let mut s: String = String::new();
    let mut i: usize = 0;
    while i < path.len()
        invariant
            i <= path.len(),
            s@ == path_text_upto(path_model(path@), i as nat),
        decreases path.len() - i,
    {
        s = match &path[i] {
            Step::Field(name) => child_path(s.as_str(), name.as_str()),
            Step::Index(index) => element_path(s.as_str(), *index),
            Step::Unknown => child_path(s.as_str(), "?"),
        };
        i = i + 1;
    }
    s
}

/// A copy of `path`.
pub fn copy_path(path: &Vec<Step>) -> (copy: Vec<Step>)
    ensures
        path_model(copy@) == path_model(path@),
{
    let mut copy: Vec<Step> = Vec::new();
    let mut i: usize = 0;
    while i < path.len()
        invariant
            i <= path.len(),
            path_model(copy@) == path_model(path@).take(i as int),
        decreases path.len() - i,
    {
        let one = match &path[i] {
            Step::Field(name) => Step::Field(name.clone()),
            Step::Index(index) => Step::Index(*index),
            Step::Unknown => Step::Unknown,
        };
        let ghost before = copy@;
        copy.push(one);
        proof {
            assert(path_model(copy@) =~= path_model(before).push(one@));
            assert(path_model(path@).take(i + 1) =~= path_model(path@).take(i as int).push(path@[i as int]@));
        }
        i = i + 1;
    }
    proof {
        assert(path_model(path@).take(i as int) =~= path_model(path@));
    }
    copy
}

/// A copy of `path` with `last` behind it.
pub fn extend_path(path: &Vec<Step>, last: Step) -> (longer: Vec<Step>)
    ensures
        path_model(longer@) == path_model(path@).push(last@),
{
    let mut longer: Vec<Step> = copy_path(path);
    let ghost before = longer@;
    longer.push(last);
    proof {
        assert(path_model(longer@) =~= path_model(before).push(last@));
    }
    longer
}

} // verus!
