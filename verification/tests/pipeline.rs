use request_validation::decode::{decode, fail_at, flatten_failure, DecodeFailure};
use request_validation::flatten::{flatten, validation_errs_to_str_vec, FieldError};
use request_validation::json::{joined_path, Json, Step};
use request_validation::node::{ValidationNode, Violation};
use request_validation::request::{validate, Address, CreateRequest, Pet};
use request_validation::response::{
    check_request, create_handler_path, create_handler_validator, decode_reading, handle_rejection,
    ErrorResponse, Failure,
};

fn request(email: &str, street: &str, street_no: usize, pets: &[&str]) -> CreateRequest {
    CreateRequest {
        email: email.to_string(),
        address: Address { street: street.to_string(), street_no },
        pets: pets.iter().map(|n| Pet { name: n.to_string() }).collect(),
    }
}

fn entry(field: &str, lines: &[&str]) -> FieldError {
    FieldError {
        field: field.to_string(),
        field_errors: lines.iter().map(|l| l.to_string()).collect(),
    }
}

fn violation(code: &str, params: &str, message: &str) -> Violation {
    Violation { code: code.to_string(), params: params.to_string(), message: message.to_string() }
}

fn object(members: Vec<(&str, Json)>) -> Json {
    Json::Object(members.into_iter().map(|(k, v)| (k.to_string(), v)).collect())
}

fn text(s: &str) -> Json {
    Json::Text(s.to_string())
}

fn payload(street_no: Json, pets: Vec<Json>) -> Json {
    object(vec![
        ("email", text("ann@example.com")),
        ("address", object(vec![("street", text("Main")), ("street_no", street_no)])),
        ("pets", Json::Array(pets)),
    ])
}

#[test]
fn valid_request_passes_validation() {
    let r = request("ann@example.com", "Main", 7, &["Rex", "Molly"]);
    assert_eq!(validate(&r), Ok(()));
    assert_eq!(check_request(r.clone()), Ok(r));
}

#[test]
fn valid_body_is_accepted() {
    let body = br#"{"email":"ann@example.com","address":{"street":"Main","street_no":7},"pets":[{"name":"Rex"}]}"#;
    let expected = request("ann@example.com", "Main", 7, &["Rex"]);
    assert_eq!(create_handler_validator(body), Ok(expected.clone()));
    assert_eq!(create_handler_path(body), Ok(expected));
}

#[test]
fn four_violations_are_reported_with_their_paths() {
    let body = br#"{"email":"not-an-email","address":{"street":"A","street_no":0},"pets":[{"name":"ab"}]}"#;
    let failure = create_handler_validator(body).unwrap_err();
    let (status, response) = handle_rejection(&failure);
    assert_eq!(status, 400);
    assert_eq!(response.message, "field errors");
    let errors = response.errors.unwrap();
    assert_eq!(
        errors,
        vec![
            entry("email", &["email: "]),
            entry("address.street", &["length: min=2, max=10"]),
            entry("address.street_no", &["range: min=1"]),
            entry("pets[0]", &["name: errors: length: min=3, max=20"]),
            entry("pets[0].name", &["length: min=3, max=20"]),
        ]
    );
    for field in ["email", "address.street", "address.street_no", "pets[0].name"] {
        assert_eq!(errors.iter().filter(|e| e.field == field).count(), 1);
    }
}

#[test]
fn decoding_alone_does_not_validate() {
    let body = br#"{"email":"not-an-email","address":{"street":"A","street_no":0},"pets":[]}"#;
    assert_eq!(create_handler_path(body), Ok(request("not-an-email", "A", 0, &[])));
}

#[test]
fn one_violation_gives_one_entry_with_one_message() {
    let r = request("ann@example.com", "M", 7, &["Rex"]);
    let node = validate(&r).unwrap_err();
    assert_eq!(flatten(&node), vec![entry("address.street", &["length: min=2, max=10"])]);
    let r = request("nobody", "Main", 7, &[]);
    let node = validate(&r).unwrap_err();
    assert_eq!(flatten(&node), vec![entry("email", &["email: "])]);
}

#[test]
fn validation_tree_holds_only_failing_parts() {
    let r = request("ann@example.com", "Main", 0, &["Rex", "ab", "Molly", "x"]);
    let node = validate(&r).unwrap_err();
    let range = violation("range", "min=1", "value is out of range");
    let length = violation("length", "min=3, max=20", "length is out of range");
    let pet = |v: &Violation| {
        ValidationNode::Struct(vec![("name".to_string(), ValidationNode::Field(vec![v.clone()]))])
    };
    assert_eq!(
        node,
        ValidationNode::Struct(vec![
            (
                "address".to_string(),
                ValidationNode::Struct(vec![("street_no".to_string(), ValidationNode::Field(vec![range]))]),
            ),
            ("pets".to_string(), ValidationNode::List(vec![(1, pet(&length)), (3, pet(&length))])),
        ])
    );
}

#[test]
fn third_pet_is_reported_under_its_index() {
    let r = request("ann@example.com", "Main", 7, &["Rex", "Molly", "ab"]);
    let node = validate(&r).unwrap_err();
    let errors = flatten(&node);
    assert_eq!(
        errors,
        vec![
            entry("pets[2]", &["name: errors: length: min=3, max=20"]),
            entry("pets[2].name", &["length: min=3, max=20"]),
        ]
    );
}

#[test]
fn flattening_twice_gives_the_same_list() {
    let r = request("x", "A", 0, &["ab", "Rex", "cd"]);
    let node = validate(&r).unwrap_err();
    assert_eq!(flatten(&node), flatten(&node));
    assert_eq!(flatten(&node).len(), 7);
}

#[test]
fn length_counts_characters_and_bounds_are_inclusive() {
    assert!(validate(&request("a@b.co", "ab", 1, &["abc"])).is_ok());
    assert!(validate(&request("a@b.co", "abcdefghij", 1, &[])).is_ok());
    assert!(validate(&request("a@b.co", "abcdefghijk", 1, &[])).is_err());
    assert!(validate(&request("a@b.co", "\u{e9}\u{e9}", 1, &[])).is_ok());
    assert!(validate(&request("a@b.co", "\u{e9}", 1, &[])).is_err());
    assert!(validate(&request("a@b.co", "ab", 1, &["12345678901234567890"])).is_ok());
    assert!(validate(&request("a@b.co", "ab", 1, &["123456789012345678901"])).is_err());
    assert!(validate(&request("a@b.co", "ab", usize::MAX, &[])).is_ok());
    assert!(validate(&request("a@b.co", "ab", 0, &[])).is_err());
}

#[test]
fn email_shape_is_checked() {
    assert!(validate(&request("ann@example.com", "ab", 1, &[])).is_ok());
    assert!(validate(&request("", "ab", 1, &[])).is_err());
    assert!(validate(&request("ann.example.com", "ab", 1, &[])).is_err());
    assert!(validate(&request("ann@", "ab", 1, &[])).is_err());
    assert!(validate(&request("@example.com", "ab", 1, &[])).is_err());
    assert!(validate(&request("a@b@c", "ab", 1, &[])).is_err());
}

#[test]
fn wrong_kind_of_street_no_fails_at_its_path() {
    let value = payload(text("seven"), vec![]);
    let failure = decode(&value).unwrap_err();
    assert_eq!(
        failure.path,
        vec![Step::Field("address".to_string()), Step::Field("street_no".to_string())]
    );
    assert_eq!(joined_path(&failure.path), "address.street_no");
    assert_eq!(failure.message, "address.street_no: invalid type: expected an unsigned integer");
    let value = payload(Json::Number(None), vec![]);
    assert_eq!(decode(&value).unwrap_err().path, failure.path);
}

#[test]
fn wrong_kind_of_street_no_in_a_body_fails_at_its_path() {
    let body = br#"{"email":"a@b.co","address":{"street":"Main","street_no":"7"},"pets":[]}"#;
    let failure = create_handler_validator(body).unwrap_err();
    match &failure {
        Failure::Decode(f) => {
            assert_eq!(joined_path(&f.path), "address.street_no");
        }
        other => panic!("unexpected failure {:?}", other),
    }
    let (status, response) = handle_rejection(&failure);
    assert_eq!(status, 400);
    assert_eq!(response.message, "address.street_no: invalid type: expected an unsigned integer");
    assert_eq!(response.errors, None);
}

#[test]
fn wrong_pet_fails_at_its_index() {
    let value = payload(
        Json::Number(Some(1)),
        vec![object(vec![("name", text("Rex"))]), object(vec![("name", Json::Bool(true))])],
    );
    let failure = decode(&value).unwrap_err();
    assert_eq!(
        failure.path,
        vec![Step::Field("pets".to_string()), Step::Index(1), Step::Field("name".to_string())]
    );
    assert_eq!(failure.message, "pets[1].name: invalid type: expected a string");
    let value = payload(Json::Number(Some(1)), vec![Json::Null]);
    let failure = decode(&value).unwrap_err();
    assert_eq!(failure.message, "pets[0]: invalid type: expected an object");
}

#[test]
fn missing_and_unknown_members() {
    let value = object(vec![("email", text("a@b.co")), ("extra", Json::Null)]);
    let failure = decode(&value).unwrap_err();
    assert_eq!(failure.path, vec![]);
    assert_eq!(failure.message, "missing field address");
    let value = object(vec![
        ("extra", Json::Null),
        ("pets", Json::Array(vec![])),
        ("address", object(vec![("street_no", Json::Number(Some(3)))])),
        ("email", text("a@b.co")),
    ]);
    let failure = decode(&value).unwrap_err();
    assert_eq!(failure.path, vec![Step::Field("address".to_string())]);
    assert_eq!(failure.message, "address: missing field street");
    let value = payload(Json::Number(Some(3)), vec![]);
    assert_eq!(decode(&value), Ok(request("ann@example.com", "Main", 3, &[])));
    let value = object(vec![
        ("email", text("a@b.co")),
        ("address", object(vec![("street", text("S")), ("street_no", Json::Number(Some(3)))])),
        ("pets", Json::Bool(false)),
    ]);
    assert_eq!(decode(&value).unwrap_err().message, "pets: invalid type: expected a sequence");
}

#[test]
fn payload_that_is_no_object_fails_without_a_path() {
    for body in [&b"42"[..], &b"[1,2]"[..], &b"\"text\""[..], &b"null"[..]] {
        let failure = create_handler_validator(body).unwrap_err();
        let (status, response) = handle_rejection(&failure);
        assert_eq!(status, 400);
        assert_eq!(response.message, "invalid type: expected an object");
        assert_eq!(response.errors, None);
        match failure {
            Failure::Decode(f) => assert!(f.path.is_empty()),
            other => panic!("unexpected failure {:?}", other),
        }
    }
}

#[test]
fn malformed_bytes_fail_in_the_reader() {
    let failure = create_handler_path(b"{\"email\": ").unwrap_err();
    match &failure {
        Failure::Decode(f) => assert!(!f.message.is_empty()),
        other => panic!("unexpected failure {:?}", other),
    }
    assert_eq!(handle_rejection(&failure).0, 400);
    let failure = create_handler_path(br#"{"address":{"street_no":tru}}"#).unwrap_err();
    match &failure {
        Failure::Decode(f) => {
            assert_eq!(
                f.path,
                vec![Step::Field("address".to_string()), Step::Field("street_no".to_string())]
            );
            assert!(f.message.starts_with("address.street_no: "));
        }
        other => panic!("unexpected failure {:?}", other),
    }
}

#[test]
fn reader_keeps_numbers_texts_and_nesting() {
    let body = br#"{"pets":[{"name":"Rex"},{"name":"Molly"}],"email":"a@b.co","address":{"street_no":18446744073709551615,"street":"Main"}}"#;
    let r = create_handler_path(body).unwrap();
    assert_eq!(r, request("a@b.co", "Main", 18446744073709551615, &["Rex", "Molly"]));
    let body = br#"{"pets":[],"email":"a@b.co","address":{"street_no":-1,"street":"Main"}}"#;
    assert!(create_handler_path(body).is_err());
    let body = br#"{"pets":[],"email":"a@b.co","address":{"street_no":1.5,"street":"Main"}}"#;
    assert!(create_handler_path(body).is_err());
}

#[test]
fn failed_reading_is_passed_on() {
    let f = DecodeFailure { path: vec![Step::Index(3)], message: "broken".to_string() };
    assert_eq!(decode_reading(Err(f.clone())), Err(Failure::Decode(f)));
    assert_eq!(
        decode_reading(Ok(payload(Json::Number(Some(2)), vec![]))),
        Ok(request("ann@example.com", "Main", 2, &[]))
    );
}

#[test]
fn decode_failure_flattens_to_one_entry() {
    let f = fail_at(vec![Step::Field("pets".to_string()), Step::Index(12), Step::Field("name".to_string())], "bad");
    assert_eq!(f.message, "pets[12].name: bad");
    assert_eq!(flatten_failure(&f), vec![entry("pets[12].name", &["pets[12].name: bad"])]);
    let f = fail_at(vec![], "bad");
    assert_eq!(flatten_failure(&f), vec![entry("", &["bad"])]);
}

#[test]
fn failures_map_to_status_and_message() {
    let plain = |status: u16, message: &str| (status, ErrorResponse { message: message.to_string(), errors: None });
    assert_eq!(handle_rejection(&Failure::NotFound), plain(404, "Not Found"));
    assert_eq!(handle_rejection(&Failure::Unclassified), plain(500, "Internal Server Error"));
    assert_eq!(handle_rejection(&Failure::Transport(None)), plain(400, "BAD_REQUEST"));
    assert_eq!(
        handle_rejection(&Failure::Transport(Some("body too short".to_string()))),
        plain(400, "body too short")
    );
    let f = DecodeFailure { path: vec![], message: "no object".to_string() };
    assert_eq!(handle_rejection(&Failure::Decode(f)), plain(400, "no object"));
}

#[test]
fn summaries_list_the_scalar_fields_of_a_record() {
    let a = violation("length", "min=2, max=10", "m");
    let b = violation("email", "", "m");
    let node = ValidationNode::Struct(vec![
        ("street".to_string(), ValidationNode::Field(vec![a.clone(), b.clone()])),
        ("inner".to_string(), ValidationNode::Struct(vec![])),
        ("no".to_string(), ValidationNode::Field(vec![b.clone()])),
    ]);
    assert_eq!(
        validation_errs_to_str_vec(&node),
        vec!["street: errors: length: min=2, max=10, email: ".to_string(), "no: errors: email: ".to_string()]
    );
    assert_eq!(validation_errs_to_str_vec(&ValidationNode::Field(vec![a])), Vec::<String>::new());
    assert_eq!(validation_errs_to_str_vec(&ValidationNode::List(vec![])), Vec::<String>::new());
}

#[test]
fn nested_lists_are_summarised_and_expanded() {
    let v = violation("range", "min=1", "m");
    let record = |name: &str| {
        ValidationNode::Struct(vec![(name.to_string(), ValidationNode::Field(vec![v.clone()]))])
    };
    let node = ValidationNode::List(vec![
        (0, ValidationNode::Field(vec![v.clone(), v.clone()])),
        (10, ValidationNode::List(vec![(2, record("a"))])),
    ]);
    assert_eq!(
        flatten(&node),
        vec![
            entry("[0]", &["range: min=1", "range: min=1"]),
            entry("[10]", &[""]),
            entry("[10][2]", &["a: errors: range: min=1"]),
            entry("[10][2].a", &["range: min=1"]),
        ]
    );
}

#[test]
fn paths_are_joined_with_dots_and_brackets() {
    assert_eq!(joined_path(&vec![]), "");
    assert_eq!(joined_path(&vec![Step::Index(4)]), "[4]");
    assert_eq!(joined_path(&vec![Step::Unknown, Step::Field("a".to_string())]), "?.a");
    assert_eq!(
        joined_path(&vec![Step::Field("a".to_string()), Step::Unknown, Step::Index(0), Step::Index(7)]),
        "a.?[0][7]"
    );
}
