//! Reading bytes into a payload tree, through `serde_json` and
//! `serde_path_to_error`.

use vstd::prelude::*;
use crate::decode::DecodeFailure;
use crate::json::{Json, Step};

verus! {

/// `serde_json::Value`, carried through as it is.
#[verifier::external_type_specification]
#[verifier::external_body]
pub struct ExValue(serde_json::Value);

/// `serde_path_to_error::Segment`, carried through as it is.
#[verifier::external_type_specification]
#[verifier::external_body]
pub struct ExSegment(serde_path_to_error::Segment);

/// What reading `bytes` as JSON gives: the tree, or the failure with the path
/// at which the reader stood.
pub uninterp spec fn parsed(bytes: Seq<u8>) -> Result<Json, DecodeFailure>;

/// Rewrites a `serde_json::Value` as a tree of this library, variant by
/// variant. A number keeps what `serde_json::Number::as_u64` gives for it; the
/// members of an object come in the order in which its map hands them out.
#[verifier::external_body]
fn json_of(value: &serde_json::Value) -> Json {
    match value {
        serde_json::Value::Null => Json::Null,
        serde_json::Value::Bool(b) => Json::Bool(*b),
        serde_json::Value::Number(n) => Json::Number(n.as_u64()),
        serde_json::Value::String(s) => Json::Text(s.clone()),
        serde_json::Value::Array(items) => Json::Array(items.iter().map(json_of).collect()),
        serde_json::Value::Object(map) => Json::Object(
            map.iter().map(|(k, v)| (k.clone(), json_of(v))).collect(),
        ),
    }
}

/// Rewrites a `serde_path_to_error::Segment` as a step of this library: an
/// index for a place in a sequence, a field for a map's key or an enum's
/// variant, and the unknown step for the unknown segment.
#[verifier::external_body]
fn segment_of(segment: &serde_path_to_error::Segment) -> Step {
    match segment {
        serde_path_to_error::Segment::Seq { index } => Step::Index(*index),
        serde_path_to_error::Segment::Map { key } => Step::Field(key.clone()),
        serde_path_to_error::Segment::Enum { variant } => Step::Field(variant.clone()),
        serde_path_to_error::Segment::Unknown => Step::Unknown,
    }
}

/// Calls `serde_path_to_error::deserialize` on a `serde_json::Deserializer`
/// over the bytes, for a `serde_json::Value`. The outcome depends on the bytes
/// alone and is named `parsed`: the value as a tree, or the error's path and
/// its text, which `serde_path_to_error::Error` starts with the path.
#[verifier::external_body]
pub(crate) fn parse(bytes: &[u8]) -> (res: Result<Json, DecodeFailure>)
    ensures
        res == parsed(bytes@),
{
    let mut reader = serde_json::Deserializer::from_slice(bytes);
    match serde_path_to_error::deserialize::<_, serde_json::Value>(&mut reader) {
        Ok(value) => Ok(json_of(&value)),
        Err(e) => Err(
            DecodeFailure { path: e.path().iter().map(segment_of).collect(), message: e.to_string() },
        ),
    }
}

} // verus!
