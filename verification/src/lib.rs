//! A request-validation pipeline: path-aware decoding of a payload, rule-based
//! validation of the decoded record, and flattening of the resulting error tree
//! into a list of field-level messages.

pub mod node;
pub mod text;
pub mod flatten;
pub mod rules;
pub mod request;
pub mod json;
pub mod decode;
pub mod parse;
pub mod response;
pub mod laws;
