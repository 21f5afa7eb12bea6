//! The stages put together, and the mapping of a failure to a response.

use vstd::prelude::*;
use crate::decode::{DecodeFailure, FailureModel, decode, decode_model};
use crate::flatten::{FieldError, FieldErrorModel, errors_model, flatten, flatten_node};
use crate::json::Json;
use crate::laws::request_valid;
use crate::node::ValidationNode;
use crate::parse::{parse, parsed};
use crate::request::{CreateRequest, RequestModel, validate, validation_model};

verus! {

/// Why a request was not served.
#[derive(Debug, PartialEq, Eq)]
pub enum Failure {
    /// No route matches.
    NotFound,
    /// The payload could not be decoded.
    Decode(DecodeFailure),
    /// The payload was decoded and breaks a rule.
    Validation(ValidationNode),
    /// The transport could not read the body; with its cause, where it gave one.
    Transport(Option<String>),
    /// Anything else.
    Unclassified,
}

/// The body of an error response.
#[derive(Clone, Debug, PartialEq, Eq)]
pub struct ErrorResponse {
    pub message: String,
    pub errors: Option<Vec<FieldError>>,
}

/// Model of an [`ErrorResponse`].
pub ghost struct ResponseModel {
    pub message: Seq<char>,
    pub errors: Option<Seq<FieldErrorModel>>,
}

impl View for ErrorResponse {
    type V = ResponseModel;

    open spec fn view(&self) -> ResponseModel {
        ResponseModel {
            message: self.message@,
            errors: match self.errors {
                Some(list) => Some(errors_model(list@)),
                None => None,
            },
        }
    }
}

/// The status code for a failure.
pub open spec fn status_of(err: Failure) -> u16 {
    match err {
        Failure::NotFound => 404,
        Failure::Decode(_) => 400,
        Failure::Validation(_) => 400,
        Failure::Transport(_) => 400,
        Failure::Unclassified => 500,
    }
}

/// The response body for a failure. Only a validation failure carries a list
/// of field errors: the flattened tree.
pub open spec fn body_of(err: Failure) -> ResponseModel {
    match err {
        Failure::NotFound => ResponseModel { message: "Not Found"@, errors: None },
        Failure::Decode(f) => ResponseModel { message: f.message@, errors: None },
        Failure::Validation(n) => ResponseModel {
            message: "field errors"@,
            errors: Some(flatten_node(n@, Seq::empty())),
        },
        Failure::Transport(Some(cause)) => ResponseModel { message: cause@, errors: None },
        Failure::Transport(None) => ResponseModel { message: "BAD_REQUEST"@, errors: None },
        Failure::Unclassified => ResponseModel { message: "Internal Server Error"@, errors: None },
    }
}

/// Maps a failure to its status code and response body.
pub fn handle_rejection(err: &Failure) -> (reply: (u16, ErrorResponse))
    ensures
        reply.0 == status_of(*err),
        reply.1@ == body_of(*err),
{
    match err {
        Failure::NotFound => (404, ErrorResponse { message: String::from_str("Not Found"), errors: None }),
        Failure::Decode(f) => (400, ErrorResponse { message: f.message.clone(), errors: None }),
        Failure::Validation(n) => (
            400,
            ErrorResponse { message: String::from_str("field errors"), errors: Some(flatten(n)) },
        ),
        Failure::Transport(cause) => match cause {
            Some(text) => (400, ErrorResponse { message: text.clone(), errors: None }),
            None => (400, ErrorResponse { message: String::from_str("BAD_REQUEST"), errors: None }),
        },
        Failure::Unclassified => (
            500,
            ErrorResponse { message: String::from_str("Internal Server Error"), errors: None },
        ),
    }
}

/// What decoding makes of a reading of the body.
pub open spec fn decoded(reading: Result<Json, DecodeFailure>) -> Result<RequestModel, FailureModel> {
    match reading {
        Ok(value) => decode_model(value),
        Err(f) => Err(f@),
    }
}

/// Decodes a reading of the body: a failed reading is passed on, a tree is
/// decoded into a request.
pub fn decode_reading(reading: Result<Json, DecodeFailure>) -> (res: Result<CreateRequest, Failure>)
    ensures
        match res {
            Ok(r) => decoded(reading) == Ok::<RequestModel, FailureModel>(r@),
            Err(Failure::Decode(f)) => decoded(reading) == Err::<RequestModel, FailureModel>(f@),
            Err(_) => false,
        },
{
    match reading {
        Err(f) => Err(Failure::Decode(f)),
        Ok(value) => match decode(&value) {
            Ok(r) => Ok(r),
            Err(f) => Err(Failure::Decode(f)),
        },
    }
}

/// Validates a decoded request: it is handed back where no rule fails, else
/// the failure carries the tree of its violations.
pub fn check_request(r: CreateRequest) -> (res: Result<CreateRequest, Failure>)
    ensures
        res is Ok <==> request_valid(r@),
        match res {
            Ok(same) => same == r && validation_model(r@) is None,
            Err(Failure::Validation(n)) => validation_model(r@) == Some(n@),
            Err(_) => false,
        },
{
    match validate(&r) {
        Ok(_) => Ok(r),
        Err(n) => Err(Failure::Validation(n)),
    }
}

/// Reads and decodes a body, with the path of a failure.
pub fn create_handler_path(body: &[u8]) -> (res: Result<CreateRequest, Failure>)
    ensures
        res is Ok <==> decoded(parsed(body@)) is Ok,
        match res {
            Ok(r) => decoded(parsed(body@)) == Ok::<RequestModel, FailureModel>(r@),
            Err(Failure::Decode(f)) => decoded(parsed(body@)) == Err::<RequestModel, FailureModel>(f@),
            Err(_) => false,
        },
{
    decode_reading(parse(body))
}

/// Reads, decodes and validates a body. A body that cannot be decoded fails
/// with the decode failure; a decoded request that breaks a rule fails with
/// the tree of its violations; any other is returned.
pub fn create_handler_validator(body: &[u8]) -> (res: Result<CreateRequest, Failure>)
    ensures
        res is Ok <==> decoded(parsed(body@)) is Ok && request_valid(decoded(parsed(body@))->Ok_0),
        match res {
            Ok(r) => decoded(parsed(body@)) == Ok::<RequestModel, FailureModel>(r@) && validation_model(r@)
                is None,
            Err(Failure::Decode(f)) => decoded(parsed(body@)) == Err::<RequestModel, FailureModel>(f@),
            Err(Failure::Validation(n)) => decoded(parsed(body@)) is Ok && validation_model(
                decoded(parsed(body@))->Ok_0,
            ) == Some(n@),
            Err(_) => false,
        },
{
    match decode_reading(parse(body)) {
        Ok(r) => check_request(r),
        Err(e) => Err(e),
    }
}

} // verus!
