//! Decoding of a payload tree into a request, with the exact path of a failure.

use vstd::prelude::*;
use crate::flatten::{FieldError, FieldErrorModel, errors_model};
use crate::json::{
    Json, Step, StepModel, copy_path, extend_path, joined_path, path_model, path_text,
};
use crate::request::{Address, CreateRequest, Pet, RequestModel, pet_names};
use crate::text::strings_model;

verus! {

/// Why and where a payload could not be decoded.
#[derive(Clone, Debug, PartialEq, Eq)]
pub struct DecodeFailure {
    /// The fields and indices that lead to the offending value.
    pub path: Vec<Step>,
    /// The reason, behind the path as text where there is one.
    pub message: String,
}

/// Model of a [`DecodeFailure`].
pub ghost struct FailureModel {
    pub path: Seq<StepModel>,
    pub message: Seq<char>,
}

impl View for DecodeFailure {
    type V = FailureModel;

    open spec fn view(&self) -> FailureModel {
        FailureModel { path: path_model(self.path@), message: self.message@ }
    }
}

/// The failure at `path` for `reason`: the message names the path, unless the
/// path is empty.
pub open spec fn failure_at(path: Seq<StepModel>, reason: Seq<char>) -> FailureModel {
    FailureModel {
        path,
        message: if path.len() == 0 {
            reason
        } else {
            path_text(path) + ": "@ + reason
        },
    }
}

/// The failure for a field that an object lacks: it lies at the object.
pub open spec fn missing(path: Seq<StepModel>, name: Seq<char>) -> FailureModel {
    failure_at(path, "missing field "@ + name)
}

/// The position of the first member named `key` among the first `k`.
pub open spec fn position_upto(members: Seq<(String, Json)>, key: Seq<char>, k: nat) -> Option<int>
    decreases k,
{
    if k == 0 || k > members.len() {
        None
    } else {
        match position_upto(members, key, (k - 1) as nat) {
            Some(i) => Some(i),
            None => if members[k - 1].0@ == key {
                Some(k - 1)
            } else {
                None
            },
        }
    }
}

/// The position of the first member named `key`.
pub open spec fn position(members: Seq<(String, Json)>, key: Seq<char>) -> Option<int> {
    position_upto(members, key, members.len())
}

/// The text of the member `name`, or the failure: at the object where the
/// member is missing, at the member where it is no text.
pub open spec fn text_member(members: Seq<(String, Json)>, name: Seq<char>, path: Seq<StepModel>) -> Result<
    Seq<char>,
    FailureModel,
> {
    match position(members, name) {
        None => Err(missing(path, name)),
        Some(i) => match members[i].1 {
            Json::Text(s) => Ok(s@),
            _ => Err(failure_at(path.push(StepModel::Field(name)), "invalid type: expected a string"@)),
        },
    }
}

/// The number of the member `name`, or the failure.
pub open spec fn number_member(members: Seq<(String, Json)>, name: Seq<char>, path: Seq<StepModel>) -> Result<
    nat,
    FailureModel,
> {
    match position(members, name) {
        None => Err(missing(path, name)),
        Some(i) => match members[i].1 {
            Json::Number(Some(n)) if n <= usize::MAX => Ok(n as nat),
            _ => Err(
                failure_at(
                    path.push(StepModel::Field(name)),
                    "invalid type: expected an unsigned integer"@,
                ),
            ),
        },
    }
}

/// The members of an object, or the failure for a value of another kind.
pub open spec fn as_object(value: Json, path: Seq<StepModel>) -> Result<Seq<(String, Json)>, FailureModel> {
    match value {
        Json::Object(members) => Ok(members@),
        _ => Err(failure_at(path, "invalid type: expected an object"@)),
    }
}

/// The address at `path`: its street and its number, decoded in this order.
pub open spec fn decode_address_model(value: Json, path: Seq<StepModel>) -> Result<(Seq<char>, nat), FailureModel> {
    match as_object(value, path) {
        Err(f) => Err(f),
        Ok(members) => match text_member(members, "street"@, path) {
            Err(f) => Err(f),
            Ok(street) => match number_member(members, "street_no"@, path) {
                Err(f) => Err(f),
                Ok(street_no) => Ok((street, street_no)),
            },
        },
    }
}

/// The pet at `path`: its name.
pub open spec fn decode_pet_model(value: Json, path: Seq<StepModel>) -> Result<Seq<char>, FailureModel> {
    match as_object(value, path) {
        Err(f) => Err(f),
        Ok(members) => text_member(members, "name"@, path),
    }
}

/// The first `k` pets of a list at `path`, or the failure of the first one
/// that cannot be decoded.
pub open spec fn decode_pets_upto(items: Seq<Json>, path: Seq<StepModel>, k: nat) -> Result<
    Seq<Seq<char>>,
    FailureModel,
>
    decreases k,
{
    if k == 0 || k > items.len() {
        Ok(Seq::empty())
    } else {
        match decode_pets_upto(items, path, (k - 1) as nat) {
            Err(f) => Err(f),
            Ok(names) => match decode_pet_model(items[k - 1], path.push(StepModel::Index((k - 1) as nat))) {
                Err(f) => Err(f),
                Ok(name) => Ok(names.push(name)),
            },
        }
    }
}

/// The list of pets at `path`.
pub open spec fn decode_pets_model(value: Json, path: Seq<StepModel>) -> Result<Seq<Seq<char>>, FailureModel> {
    match value {
        Json::Array(items) => decode_pets_upto(items@, path, items@.len()),
        _ => Err(failure_at(path, "invalid type: expected a sequence"@)),
    }
}

/// The member `name` of an object at `path`, or the failure for its absence.
pub open spec fn member(members: Seq<(String, Json)>, name: Seq<char>, path: Seq<StepModel>) -> Result<
    Json,
    FailureModel,
> {
    match position(members, name) {
        None => Err(missing(path, name)),
        Some(i) => Ok(members[i].1),
    }
}

/// The request that a payload decodes to, or the failure of the first field, in
/// declaration order, that cannot be decoded. Members that the request does
/// not declare are passed over.
pub open spec fn decode_model(value: Json) -> Result<RequestModel, FailureModel> {
    let root = Seq::<StepModel>::empty();
    match as_object(value, root) {
        Err(f) => Err(f),
        Ok(members) => match text_member(members, "email"@, root) {
            Err(f) => Err(f),
            Ok(email) => match member(members, "address"@, root) {
                Err(f) => Err(f),
                Ok(address) => match decode_address_model(address, seq![StepModel::Field("address"@)]) {
                    Err(f) => Err(f),
                    Ok(a) => match member(members, "pets"@, root) {
                        Err(f) => Err(f),
                        Ok(pets) => match decode_pets_model(pets, seq![StepModel::Field("pets"@)]) {
                            Err(f) => Err(f),
                            Ok(names) => Ok(RequestModel { email, street: a.0, street_no: a.1, pets: names }),
                        },
                    },
                },
            },
        },
    }
}

/// Builds the failure at `path` for `reason`.
pub fn fail_at(path: Vec<Step>, reason: &str) -> (f: DecodeFailure)
    ensures
        f@ == failure_at(path_model(path@), reason@),
{
    if path.len() == 0 {
        DecodeFailure { path, message: String::from_str(reason) }
    } else {
        let mut message: String = joined_path(&path);
        message.append(": ");
        message.append(reason);
        DecodeFailure { path, message }
    }
}

/// Flattens a decode failure: one entry, for the joined path, that holds the
/// failure's message.
pub fn flatten_failure(f: &DecodeFailure) -> (errors: Vec<FieldError>)
    ensures
        errors_model(errors@) == seq![
            FieldErrorModel { field: path_text(path_model(f.path@)), field_errors: seq![f.message@] },
        ],
{
    let mut lines: Vec<String> = Vec::new();
    lines.push(f.message.clone());
    let entry = FieldError { field: joined_path(&f.path), field_errors: lines };
    let mut errors: Vec<FieldError> = Vec::new();
    errors.push(entry);
    proof {
        assert(strings_model(lines@) =~= seq![f.message@]);
        assert(errors_model(errors@) =~= seq![entry@]);
    }
    errors
}

fn fail_missing(path: &Vec<Step>, name: &str) -> (f: DecodeFailure)
    ensures
        f@ == missing(path_model(path@), name@),
{
    let mut reason: String = String::from_str("missing field ");
    reason.append(name);
    let here: Vec<Step> = copy_path(path);
    fail_at(here, reason.as_str())
}

fn find_member<'a>(members: &'a Vec<(String, Json)>, name: &str) -> (found: Option<&'a Json>)
    ensures
        match found {
            None => position(members@, name@) is None,
            Some(value) => position(members@, name@) is Some && *value == members@[position(
                members@,
                name@,
            )->Some_0].1,
        },
{
    let key: String = String::from_str(name);
    let mut i: usize = 0;
    while i < members.len()
        invariant
            i <= members.len(),
            key@ == name@,
            position_upto(members@, name@, i as nat) is None,
        decreases members.len() - i,
    {
        if members[i].0 == key {
            proof {
                lemma_position_stays(members@, name@, (i + 1) as nat, members@.len() as nat);
            }
            return Some(&members[i].1);
        }
        i = i + 1;
    }
    None
}

/// Once a position is found among the first `k` members, it is the position
/// among any more of them.
proof fn lemma_position_stays(members: Seq<(String, Json)>, key: Seq<char>, k: nat, n: nat)
    requires
        k <= n <= members.len(),
        position_upto(members, key, k) is Some,
    ensures
        position_upto(members, key, n) == position_upto(members, key, k),
    decreases n,
{
    if n > k {
        lemma_position_stays(members, key, k, (n - 1) as nat);
    }
}

fn member_of<'a>(members: &'a Vec<(String, Json)>, name: &str, path: &Vec<Step>) -> (res: Result<
    &'a Json,
    DecodeFailure,
>)
    ensures
        match res {
            Ok(value) => member(members@, name@, path_model(path@)) == Ok::<Json, FailureModel>(*value),
            Err(f) => member(members@, name@, path_model(path@)) == Err::<Json, FailureModel>(f@),
        },
{
    match find_member(members, name) {
        Some(value) => Ok(value),
        None => Err(fail_missing(path, name)),
    }
}

fn text_of(members: &Vec<(String, Json)>, name: &str, path: &Vec<Step>) -> (res: Result<String, DecodeFailure>)
    ensures
        match res {
            Ok(s) => text_member(members@, name@, path_model(path@)) == Ok::<Seq<char>, FailureModel>(s@),
            Err(f) => text_member(members@, name@, path_model(path@)) == Err::<Seq<char>, FailureModel>(f@),
        },
{
    match find_member(members, name) {
        None => Err(fail_missing(path, name)),
        Some(value) => match value {
            Json::Text(s) => Ok(s.clone()),
            _ => Err(
                fail_at(
                    extend_path(path, Step::Field(String::from_str(name))),
                    "invalid type: expected a string",
                ),
            ),
        },
    }
}

fn number_of(members: &Vec<(String, Json)>, name: &str, path: &Vec<Step>) -> (res: Result<usize, DecodeFailure>)
    ensures
        match res {
            Ok(n) => number_member(members@, name@, path_model(path@)) == Ok::<nat, FailureModel>(n as nat),
            Err(f) => number_member(members@, name@, path_model(path@)) == Err::<nat, FailureModel>(f@),
        },
{
    match find_member(members, name) {
        None => Err(fail_missing(path, name)),
        Some(value) => {
            match value {
                Json::Number(Some(n)) => {
                    if *n <= usize::MAX as u64 {
                        return Ok(*n as usize);
                    }
                },
                _ => {},
            }
            Err(
                fail_at(
                    extend_path(path, Step::Field(String::from_str(name))),
                    "invalid type: expected an unsigned integer",
                ),
            )
        },
    }
}

fn members_of<'a>(value: &'a Json, path: &Vec<Step>) -> (res: Result<&'a Vec<(String, Json)>, DecodeFailure>)
    ensures
        match res {
            Ok(members) => as_object(*value, path_model(path@)) == Ok::<Seq<(String, Json)>, FailureModel>(
                members@,
            ),
            Err(f) => as_object(*value, path_model(path@)) == Err::<Seq<(String, Json)>, FailureModel>(f@),
        },
{
    match value {
        Json::Object(members) => Ok(members),
        _ => Err(fail_at(copy_path(path), "invalid type: expected an object")),
    }
}

fn decode_address(value: &Json, path: &Vec<Step>) -> (res: Result<Address, DecodeFailure>)
    ensures
        match res {
            Ok(a) => decode_address_model(*value, path_model(path@)) == Ok::<(Seq<char>, nat), FailureModel>(
                (a.street@, a.street_no as nat),
            ),
            Err(f) => decode_address_model(*value, path_model(path@)) == Err::<(Seq<char>, nat), FailureModel>(
                f@,
            ),
        },
{
    let members = members_of(value, path)?;
    let street = text_of(members, "street", path)?;
    let street_no = number_of(members, "street_no", path)?;
    Ok(Address { street, street_no })
}

fn decode_pet(value: &Json, path: &Vec<Step>) -> (res: Result<Pet, DecodeFailure>)
    ensures
        match res {
            Ok(p) => decode_pet_model(*value, path_model(path@)) == Ok::<Seq<char>, FailureModel>(p.name@),
            Err(f) => decode_pet_model(*value, path_model(path@)) == Err::<Seq<char>, FailureModel>(f@),
        },
{
    let members = members_of(value, path)?;
    let name = text_of(members, "name", path)?;
    Ok(Pet { name })
}

fn decode_pets(value: &Json, path: &Vec<Step>) -> (res: Result<Vec<Pet>, DecodeFailure>)
    ensures
        match res {
            Ok(pets) => decode_pets_model(*value, path_model(path@)) == Ok::<Seq<Seq<char>>, FailureModel>(
                pet_names(pets@),
            ),
            Err(f) => decode_pets_model(*value, path_model(path@)) == Err::<Seq<Seq<char>>, FailureModel>(f@),
        },
{
    match value {
        Json::Array(items) => {
            let mut pets: Vec<Pet> = Vec::new();
            let mut i: usize = 0;
            proof {
                assert(pet_names(pets@) =~= Seq::<Seq<char>>::empty());
            }
            while i < items.len()
                invariant
                    i <= items.len(),
                    value is Array,
                    value->Array_0 == *items,
                    decode_pets_upto(items@, path_model(path@), i as nat) == Ok::<Seq<Seq<char>>, FailureModel>(
                        pet_names(pets@),
                    ),
                decreases items.len() - i,
            {
                let at: Vec<Step> = extend_path(path, Step::Index(i));
                match decode_pet(&items[i], &at) {
                    Ok(pet) => {
                        let ghost before = pets@;
                        pets.push(pet);
                        proof {
                            assert(pet_names(pets@) =~= pet_names(before).push(pet.name@));
                        }
                    },
                    Err(f) => {
                        proof {
                            assert(decode_pets_upto(items@, path_model(path@), (i + 1) as nat)
                                == Err::<Seq<Seq<char>>, FailureModel>(f@));
                            lemma_pets_failure_stays(items@, path_model(path@), (i + 1) as nat, items@.len() as nat);
                        }
                        return Err(f);
                    },
                }
                i = i + 1;
            }
            Ok(pets)
        },
        _ => Err(fail_at(copy_path(path), "invalid type: expected a sequence")),
    }
}

/// Once a pet among the first `k` fails to decode, that failure is the one of
/// any longer prefix.
proof fn lemma_pets_failure_stays(items: Seq<Json>, path: Seq<StepModel>, k: nat, n: nat)
    requires
        k <= n <= items.len(),
        decode_pets_upto(items, path, k) is Err,
    ensures
        decode_pets_upto(items, path, n) == decode_pets_upto(items, path, k),
    decreases n,
{
    if n > k {
        lemma_pets_failure_stays(items, path, k, (n - 1) as nat);
    }
}

fn single_path(name: &str) -> (path: Vec<Step>)
    ensures
        path_model(path@) == seq![StepModel::Field(name@)],
{
    let mut path: Vec<Step> = Vec::new();
    path.push(Step::Field(String::from_str(name)));
    proof {
        assert(path_model(path@) =~= seq![StepModel::Field(name@)]);
    }
    path
}

/// Decodes a payload into a request. Fields are decoded in declaration order;
/// the first one that is missing or of the wrong kind ends the decoding, and
/// the failure carries the exact path of the offending value.
pub fn decode(value: &Json) -> (res: Result<CreateRequest, DecodeFailure>)
    ensures
        match res {
            Ok(r) => decode_model(*value) == Ok::<RequestModel, FailureModel>(r@),
            Err(f) => decode_model(*value) == Err::<RequestModel, FailureModel>(f@),
        },
{
    let root: Vec<Step> = Vec::new();
    proof {
        assert(path_model(root@) =~= Seq::<StepModel>::empty());
    }
    let members = members_of(value, &root)?;
    let email = text_of(members, "email", &root)?;
    let address_value = member_of(members, "address", &root)?;
    let address = decode_address(address_value, &single_path("address"))?;
    let pets_value = member_of(members, "pets", &root)?;
    let pets = decode_pets(pets_value, &single_path("pets"))?;
    Ok(CreateRequest { email, address, pets })
}

} // verus!
