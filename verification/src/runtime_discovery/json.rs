//! Decoding of the JSON records that Zellij prints: `serde_json` parses the text, and the
//! record shapes (required fields, defaults, accepted legacy forms) are decoded here.

use vstd::prelude::*;

use serde_json::Value;

use crate::runtime_discovery::models::{PaneInfo, TabInfo};
use crate::navigation_model::{first_index, lemma_first_index_is, lemma_first_index_none, str_eq};
use crate::text::{concat2, concat3, decimal_seq, u64_to_text};

verus! {

/// `serde_json::Value`, the document `serde_json` parses a text into.
#[verifier::external_type_specification]
#[verifier::external_body]
pub struct ExJsonValue(serde_json::Value);

/// `serde_json::Error`, the syntax error of a JSON text.
#[verifier::external_type_specification]
#[verifier::external_body]
pub struct ExJsonSyntaxError(serde_json::Error);

/// What is wrong with a record that is valid JSON but not of the expected shape.
#[derive(Debug, Clone, Copy, PartialEq, Eq, Structural)]
pub enum SchemaProblem {
    /// A required field is absent.
    Missing,
    /// A field holds a value of the wrong type.
    WrongType,
    /// `panes_to_hide` holds a number other than the legacy `0`: that number.
    NonZeroLegacyPanesToHide(u64),
    /// `index_in_pane_group` holds an object that is not empty.
    NonEmptyPaneGroupObject,
}

/// A record of the wrong shape: which field, and what is wrong with it.
#[derive(Debug, Clone, Copy, PartialEq, Eq)]
pub struct SchemaError {
    pub field: &'static str,
    pub problem: SchemaProblem,
}

/// Why a JSON text could not be decoded.
#[derive(Debug)]
pub enum JsonError {
    /// The text is not valid JSON.
    Syntax(serde_json::Error),
    /// The text is valid JSON of another shape.
    Schema(SchemaError),
}


/// A JSON value. An object keeps its members in the order `serde_json` gives them.
#[derive(Debug, PartialEq, Eq)]
pub enum Json {
    Null,
    Bool(bool),
    Number(JsonNumber),
    Str(String),
    Array(Vec<Json>),
    Object(Vec<(String, Json)>),
}

/// Whether a text is one valid JSON document. `serde_json::from_str::<Value>` succeeds on a
/// text exactly when this holds of it; what the function returns depends on the text alone.
pub uninterp spec fn json_text_is_valid(text: Seq<char>) -> bool;

/// The JSON value that `serde_json` parses a valid JSON text into. It is a function of the
/// text alone.
pub uninterp spec fn json_document(text: Seq<char>) -> Json;

/// `serde_json::from_str::<serde_json::Value>`: parses `text` as one JSON document, given as
/// a `Json`. It succeeds exactly on the valid JSON texts, and gives the value the name above
/// holds for the text.
#[verifier::external_body]
pub fn parse_json_value(text: &str) -> (r: Result<Json, serde_json::Error>)
    ensures
        r is Ok == json_text_is_valid(text@),
        r matches Ok(v) ==> v == json_document(text@),
{
    match serde_json::from_str::<Value>(text) {
        Ok(v) => Ok(json_of_value(&v)),
        Err(e) => Err(e),
    }
}

/// A `serde_json::Value` as a `Json`, variant by variant (each number as the integer types
/// that hold it): the conversion that `parse_json_value` applies to what it parses, and whose
/// result that function's contract states.
#[verifier::external_body]
fn json_of_value(v: &Value) -> Json {
    match v {
        Value::Null => Json::Null,
        Value::Bool(b) => Json::Bool(*b),
        Value::Number(n) => Json::Number(JsonNumber { as_u64: n.as_u64(), as_i64: n.as_i64() }),
        Value::String(s) => Json::Str(s.clone()),
        Value::Array(items) => Json::Array(items.iter().map(json_of_value).collect()),
        Value::Object(members) => Json::Object(
            members.iter().map(|(k, x)| (k.clone(), json_of_value(x))).collect(),
        ),
    }
}

/// A JSON number, as the integer types that can hold it.
#[derive(Debug, Clone, Copy, PartialEq, Eq)]
pub struct JsonNumber {
    pub as_u64: Option<u64>,
    pub as_i64: Option<i64>,
}

/// An element of a JSON array, as far as record fields look into it.
#[derive(Debug, Clone)]
pub enum JsonScalar {
    Null,
    Bool(bool),
    Number(JsonNumber),
    Str(String),
    Array,
    Object,
}

/// A member of a JSON object, as far as record fields look into it.
#[derive(Debug, Clone)]
pub enum FieldValue {
    Missing,
    Null,
    Bool(bool),
    Number(JsonNumber),
    Str(String),
    Array(Vec<JsonScalar>),
    Object { len: usize },
}

/// Two JSON values hold the same content: the same scalar, or arrays (objects) of the same
/// length whose elements (members, with their names) hold the same content.
pub open spec fn json_same(a: Json, b: Json) -> bool
    decreases a,
{
    match a {
        Json::Array(xs) => match b {
            Json::Array(ys) => xs.len() == ys.len() && forall|i: int|
                0 <= i < xs.len() ==> {
                    proof {
                        vstd::std_specs::vec::axiom_vec_index_decreases(xs, i);
                    }
                    json_same(#[trigger] xs[i], ys[i])
                },
            _ => false,
        },
        Json::Object(xs) => match b {
            Json::Object(ys) => xs.len() == ys.len() && forall|i: int|
                0 <= i < xs.len() ==> {
                    proof {
                        vstd::std_specs::vec::axiom_vec_index_decreases(xs, i);
                    }
                    (#[trigger] xs[i]).0 == ys[i].0 && json_same(xs[i].1, ys[i].1)
                },
            _ => false,
        },
        _ => a == b,
    }
}

impl Clone for Json {
    /// A copy of the value, with the same content.
    fn clone(&self) -> (r: Json)
        ensures
            json_same(*self, r),
    {
        json_clone(self)
    }
}

/// A copy of a JSON value.
pub fn json_clone(v: &Json) -> (r: Json)
    ensures
        json_same(*v, r),
    decreases v,
{
    match v {
        Json::Null => Json::Null,
        Json::Bool(b) => Json::Bool(*b),
        Json::Number(n) => Json::Number(*n),
        Json::Str(s) => Json::Str(s.clone()),
        Json::Array(items) => {
            let mut out: Vec<Json> = Vec::new();
            let mut i: usize = 0;
            while i < items.len()
                invariant
                    *v == Json::Array(*items),
                    i <= items.len(),
                    out.len() == i,
                    forall|j: int| 0 <= j < i ==> json_same(#[trigger] items[j], out[j]),
                decreases items.len() - i,
            {
                proof {
                    vstd::std_specs::vec::axiom_vec_index_decreases(*items, i as int);
                    assert(decreases_to!(*v => (*v)->Array_0));
                    assert(decreases_to!(*v => items[i as int]));
                }
                let x = json_clone(&items[i]);
                out.push(x);
                i = i + 1;
            }
            Json::Array(out)
        },
        Json::Object(members) => {
            let mut out: Vec<(String, Json)> = Vec::new();
            let mut i: usize = 0;
            while i < members.len()
                invariant
                    *v == Json::Object(*members),
                    i <= members.len(),
                    out.len() == i,
                    forall|j: int|
                        0 <= j < i ==> (#[trigger] members[j]).0 == out[j].0 && json_same(
                            members[j].1,
                            out[j].1,
                        ),
                decreases members.len() - i,
            {
                proof {
                    vstd::std_specs::vec::axiom_vec_index_decreases(*members, i as int);
                    assert(decreases_to!(*v => (*v)->Object_0));
                    assert(decreases_to!(members[i as int] => members[i as int].1));
                    assert(decreases_to!(*v => members[i as int].1));
                }
                let x = json_clone(&members[i].1);
                out.push((members[i].0.clone(), x));
                i = i + 1;
            }
            Json::Object(out)
        },
    }
}

/// The member is named `key`.
pub open spec fn named(key: Seq<char>) -> spec_fn((String, Json)) -> bool {
    |m: (String, Json)| m.0@ == key
}

/// The value of the first member named `key` of an object; `None` when it has none, or for a
/// value that is not an object.
pub open spec fn member_spec(v: Json, key: Seq<char>) -> Option<Json> {
    match v {
        Json::Object(members) => {
            let k = first_index(members@, named(key));
            if k < 0 {
                None
            } else {
                Some(members@[k].1)
            }
        },
        _ => None,
    }
}

/// The element at `index` of an array, `None` past its end.
pub open spec fn element_spec(items: Seq<Json>, index: int) -> Option<Json> {
    if 0 <= index < items.len() {
        Some(items[index])
    } else {
        None
    }
}

/// Where a record keeps a field: the element at `index` of a record written as an array, else
/// the member named `key`.
pub open spec fn slot(v: Json, key: Seq<char>, index: int) -> Option<Json> {
    match v {
        Json::Array(items) => element_spec(items@, index),
        _ => member_spec(v, key),
    }
}

/// What an array element reads as.
pub open spec fn scalar_spec(v: Json) -> JsonScalar {
    match v {
        Json::Null => JsonScalar::Null,
        Json::Bool(b) => JsonScalar::Bool(b),
        Json::Number(n) => JsonScalar::Number(n),
        Json::Str(s) => JsonScalar::Str(s),
        Json::Array(_) => JsonScalar::Array,
        Json::Object(_) => JsonScalar::Object,
    }
}

/// `f` is what a field reads of the value in its slot (`None`: the record has none).
pub open spec fn field_at(o: Option<Json>, f: FieldValue) -> bool {
    match o {
        None => f is Missing,
        Some(v) => match v {
            Json::Null => f is Null,
            Json::Bool(b) => f == FieldValue::Bool(b),
            Json::Number(n) => f == FieldValue::Number(n),
            Json::Str(s) => f == FieldValue::Str(s),
            Json::Array(items) => f matches FieldValue::Array(xs) && xs@ == items@.map_values(
                |x: Json| scalar_spec(x),
            ),
            Json::Object(members) => f == FieldValue::Object { len: members.len() },
        },
    }
}

/// `r` holds the same content as the value in a slot (`None`: the record has none).
pub open spec fn raw_at(o: Option<Json>, r: Option<Json>) -> bool {
    match (o, r) {
        (None, None) => true,
        (Some(a), Some(b)) => json_same(a, b),
        _ => false,
    }
}

/// The number a JSON number holds.
fn number_of(v: &Json) -> (r: JsonNumber)
    requires
        *v is Number,
    ensures
        r == v->Number_0,
{
    match v {
        Json::Number(n) => *n,
        _ => JsonNumber { as_u64: None, as_i64: None },
    }
}

/// What an array element reads as.
fn scalar_of(v: &Json) -> (r: JsonScalar)
    ensures
        r == scalar_spec(*v),
{
    match v {
        Json::Null => JsonScalar::Null,
        Json::Bool(b) => JsonScalar::Bool(*b),
        Json::Number(_) => JsonScalar::Number(number_of(v)),
        Json::Str(s) => JsonScalar::Str(s.clone()),
        Json::Array(_) => JsonScalar::Array,
        Json::Object(_) => JsonScalar::Object,
    }
}

/// What a field reads of a member value.
fn field_of(v: &Json) -> (f: FieldValue)
    ensures
        field_at(Some(*v), f),
{
    match v {
        Json::Null => FieldValue::Null,
        Json::Bool(b) => FieldValue::Bool(*b),
        Json::Number(_) => FieldValue::Number(number_of(v)),
        Json::Str(s) => FieldValue::Str(s.clone()),
        Json::Array(items) => {
            let mut out: Vec<JsonScalar> = Vec::new();
            let mut i: usize = 0;
            while i < items.len()
                invariant
                    i <= items@.len(),
                    out@ == items@.take(i as int).map_values(|x: Json| scalar_spec(x)),
                decreases items.len() - i,
            {
                out.push(scalar_of(&items[i]));
                i = i + 1;
                assert(items@.take(i as int).map_values(|x: Json| scalar_spec(x)) =~= items@.take(
                    i - 1,
                ).map_values(|x: Json| scalar_spec(x)).push(scalar_spec(items@[i - 1])));
            }
            assert(items@.take(items@.len() as int) =~= items@);
            FieldValue::Array(out)
        },
        Json::Object(members) => FieldValue::Object { len: members.len() },
    }
}

/// The index of the first member named `key`.
fn member_index(members: &Vec<(String, Json)>, key: &str) -> (r: Option<usize>)
    ensures
        match r {
            Some(k) => k < members@.len() && k as int == first_index(members@, named(key@)),
            None => first_index(members@, named(key@)) < 0,
        },
{
    let mut i: usize = 0;
    while i < members.len()
        invariant
            i <= members@.len(),
            forall|j: int| 0 <= j < i ==> !named(key@)(#[trigger] members@[j]),
        decreases members.len() - i,
    {
        if str_eq(members[i].0.as_str(), key) {
            proof {
                lemma_first_index_is(members@, named(key@), i as int);
            }
            return Some(i);
        }
        i = i + 1;
    }
    proof {
        lemma_first_index_none(members@, named(key@));
    }
    None
}

/// What a field reads of the member `key` of a record (`Missing` when it has none).
pub(crate) fn member(record: &Json, key: &str) -> (f: FieldValue)
    ensures
        field_at(member_spec(*record, key@), f),
{
    match record {
        Json::Object(members) => match member_index(members, key) {
            Some(k) => field_of(&members[k].1),
            None => FieldValue::Missing,
        },
        _ => FieldValue::Missing,
    }
}

/// What a field reads of the element at `index` of an array written for a record (its fields
/// in order), `Missing` past its end.
pub(crate) fn element(items: &Vec<Json>, index: usize) -> (f: FieldValue)
    ensures
        field_at(element_spec(items@, index as int), f),
{
    if index < items.len() {
        field_of(&items[index])
    } else {
        FieldValue::Missing
    }
}

/// A copy of the element at `index` of an array, if it has one.
fn raw_element(items: &Vec<Json>, index: usize) -> (r: Option<Json>)
    ensures
        raw_at(element_spec(items@, index as int), r),
{
    if index < items.len() {
        Some(json_clone(&items[index]))
    } else {
        None
    }
}

/// A copy of the value of a record's member `key`, carried through uninterpreted.
fn raw_member(record: &Json, key: &str) -> (r: Option<Json>)
    ensures
        raw_at(member_spec(*record, key@), r),
{
    match record {
        Json::Object(members) => match member_index(members, key) {
            Some(k) => Some(json_clone(&members[k].1)),
            None => None,
        },
        _ => None,
    }
}


/// An array element is a JSON integer that fits in `u64`.
pub open spec fn is_u64_scalar(x: JsonScalar) -> bool {
    x matches JsonScalar::Number(n) && n.as_u64 is Some
}

/// The `u64` of an element that is one.
pub open spec fn u64_of_scalar(x: JsonScalar) -> u64 {
    match x {
        JsonScalar::Number(n) => n.as_u64.unwrap(),
        _ => 0,
    }
}

/// An array element is a JSON string.
pub open spec fn is_str_scalar(x: JsonScalar) -> bool {
    x is Str
}

/// The text of an element that is a string.
pub open spec fn str_of_scalar(x: JsonScalar) -> Seq<char> {
    match x {
        JsonScalar::Str(s) => s@,
        _ => seq![],
    }
}

/// A required `u64` field.
pub open spec fn required_u64(f: FieldValue) -> Result<u64, SchemaProblem> {
    match f {
        FieldValue::Missing => Err(SchemaProblem::Missing),
        FieldValue::Number(n) => match n.as_u64 {
            Some(x) => Ok(x),
            None => Err(SchemaProblem::WrongType),
        },
        _ => Err(SchemaProblem::WrongType),
    }
}

/// An optional `u64` field: absent or `null` is `None`.
pub open spec fn optional_u64(f: FieldValue) -> Result<Option<u64>, SchemaProblem> {
    match f {
        FieldValue::Missing => Ok(None),
        FieldValue::Null => Ok(None),
        FieldValue::Number(n) => match n.as_u64 {
            Some(x) => Ok(Some(x)),
            None => Err(SchemaProblem::WrongType),
        },
        _ => Err(SchemaProblem::WrongType),
    }
}

/// An optional `i64` field: absent or `null` is `None`.
pub open spec fn optional_i64(f: FieldValue) -> Result<Option<i64>, SchemaProblem> {
    match f {
        FieldValue::Missing => Ok(None),
        FieldValue::Null => Ok(None),
        FieldValue::Number(n) => match n.as_i64 {
            Some(x) => Ok(Some(x)),
            None => Err(SchemaProblem::WrongType),
        },
        _ => Err(SchemaProblem::WrongType),
    }
}

/// An optional `i32` field: absent or `null` is `None`; an integer outside `i32` is rejected.
pub open spec fn optional_i32(f: FieldValue) -> Result<Option<i32>, SchemaProblem> {
    match f {
        FieldValue::Missing => Ok(None),
        FieldValue::Null => Ok(None),
        FieldValue::Number(n) => match n.as_i64 {
            Some(x) => if i32::MIN <= x <= i32::MAX {
                Ok(Some(x as i32))
            } else {
                Err(SchemaProblem::WrongType)
            },
            None => Err(SchemaProblem::WrongType),
        },
        _ => Err(SchemaProblem::WrongType),
    }
}

/// A boolean field that defaults to `false` when absent (`null` is rejected).
pub open spec fn defaulted_bool(f: FieldValue) -> Result<bool, SchemaProblem> {
    match f {
        FieldValue::Missing => Ok(false),
        FieldValue::Bool(b) => Ok(b),
        _ => Err(SchemaProblem::WrongType),
    }
}

/// A required string field.
pub open spec fn required_string(f: FieldValue) -> Result<Seq<char>, SchemaProblem> {
    match f {
        FieldValue::Missing => Err(SchemaProblem::Missing),
        FieldValue::Str(s) => Ok(s@),
        _ => Err(SchemaProblem::WrongType),
    }
}

/// A string field that defaults to the empty text when absent (`null` is rejected).
pub open spec fn defaulted_string(f: FieldValue) -> Result<Seq<char>, SchemaProblem> {
    match f {
        FieldValue::Missing => Ok(seq![]),
        FieldValue::Str(s) => Ok(s@),
        _ => Err(SchemaProblem::WrongType),
    }
}

/// An optional string field: absent or `null` is `None`.
pub open spec fn optional_string(f: FieldValue) -> Result<Option<Seq<char>>, SchemaProblem> {
    match f {
        FieldValue::Missing => Ok(None),
        FieldValue::Null => Ok(None),
        FieldValue::Str(s) => Ok(Some(s@)),
        _ => Err(SchemaProblem::WrongType),
    }
}

/// A list of `u64` that defaults to empty when absent (`null` is rejected).
pub open spec fn defaulted_u64_list(f: FieldValue) -> Result<Seq<u64>, SchemaProblem> {
    match f {
        FieldValue::Missing => Ok(seq![]),
        FieldValue::Array(items) => if forall|i: int| 0 <= i < items@.len() ==> is_u64_scalar(#[trigger] items@[i]) {
            Ok(items@.map_values(|x: JsonScalar| u64_of_scalar(x)))
        } else {
            Err(SchemaProblem::WrongType)
        },
        _ => Err(SchemaProblem::WrongType),
    }
}

/// A list of strings that defaults to empty when absent (`null` is rejected).
pub open spec fn defaulted_string_list(f: FieldValue) -> Result<Seq<Seq<char>>, SchemaProblem> {
    match f {
        FieldValue::Missing => Ok(seq![]),
        FieldValue::Array(items) => if forall|i: int| 0 <= i < items@.len() ==> is_str_scalar(#[trigger] items@[i]) {
            Ok(items@.map_values(|x: JsonScalar| str_of_scalar(x)))
        } else {
            Err(SchemaProblem::WrongType)
        },
        _ => Err(SchemaProblem::WrongType),
    }
}

/// `panes_to_hide`: a list of pane ids; absent or `null` is empty, and the legacy number `0` is
/// also empty, while any other number is rejected.
pub open spec fn panes_to_hide_spec(f: FieldValue) -> Result<Seq<u64>, SchemaProblem> {
    match f {
        FieldValue::Missing => Ok(seq![]),
        FieldValue::Null => Ok(seq![]),
        FieldValue::Array(_) => defaulted_u64_list(f),
        FieldValue::Number(n) => match n.as_u64 {
            Some(x) => if x == 0 {
                Ok(seq![])
            } else {
                Err(SchemaProblem::NonZeroLegacyPanesToHide(x))
            },
            None => Err(SchemaProblem::WrongType),
        },
        _ => Err(SchemaProblem::WrongType),
    }
}

/// `index_in_pane_group`: an index; absent, `null` or the empty object `{}` is `None`, while a
/// non-empty object is rejected.
pub open spec fn index_in_pane_group_spec(f: FieldValue) -> Result<Option<u64>, SchemaProblem> {
    match f {
        FieldValue::Missing => Ok(None),
        FieldValue::Null => Ok(None),
        FieldValue::Number(n) => match n.as_u64 {
            Some(x) => Ok(Some(x)),
            None => Err(SchemaProblem::WrongType),
        },
        FieldValue::Object { len } => if len == 0 {
            Ok(None)
        } else {
            Err(SchemaProblem::NonEmptyPaneGroupObject)
        },
        _ => Err(SchemaProblem::WrongType),
    }
}

/// The error of field `field` with problem `problem`.
pub open spec fn schema_error(field: &'static str, problem: SchemaProblem) -> SchemaError {
    SchemaError { field, problem }
}

/// Decodes a required `u64` field.
pub fn decode_required_u64(f: &FieldValue, field: &'static str) -> (r: Result<u64, SchemaError>)
    ensures
        match required_u64(*f) {
            Ok(x) => r == Ok::<u64, SchemaError>(x),
            Err(p) => r == Err::<u64, SchemaError>(schema_error(field, p)),
        },
{
    match f {
        FieldValue::Missing => Err(SchemaError { field, problem: SchemaProblem::Missing }),
        FieldValue::Number(n) => match n.as_u64 {
            Some(x) => Ok(x),
            None => Err(SchemaError { field, problem: SchemaProblem::WrongType }),
        },
        _ => Err(SchemaError { field, problem: SchemaProblem::WrongType }),
    }
}

/// Decodes an optional `u64` field.
pub fn decode_optional_u64(f: &FieldValue, field: &'static str) -> (r: Result<Option<u64>, SchemaError>)
    ensures
        match optional_u64(*f) {
            Ok(x) => r == Ok::<Option<u64>, SchemaError>(x),
            Err(p) => r == Err::<Option<u64>, SchemaError>(schema_error(field, p)),
        },
{
    match f {
        FieldValue::Missing => Ok(None),
        FieldValue::Null => Ok(None),
        FieldValue::Number(n) => match n.as_u64 {
            Some(x) => Ok(Some(x)),
            None => Err(SchemaError { field, problem: SchemaProblem::WrongType }),
        },
        _ => Err(SchemaError { field, problem: SchemaProblem::WrongType }),
    }
}

/// Decodes an optional `i64` field.
pub fn decode_optional_i64(f: &FieldValue, field: &'static str) -> (r: Result<Option<i64>, SchemaError>)
    ensures
        match optional_i64(*f) {
            Ok(x) => r == Ok::<Option<i64>, SchemaError>(x),
            Err(p) => r == Err::<Option<i64>, SchemaError>(schema_error(field, p)),
        },
{
    match f {
        FieldValue::Missing => Ok(None),
        FieldValue::Null => Ok(None),
        FieldValue::Number(n) => match n.as_i64 {
            Some(x) => Ok(Some(x)),
            None => Err(SchemaError { field, problem: SchemaProblem::WrongType }),
        },
        _ => Err(SchemaError { field, problem: SchemaProblem::WrongType }),
    }
}

/// Decodes an optional `i32` field.
pub fn decode_optional_i32(f: &FieldValue, field: &'static str) -> (r: Result<Option<i32>, SchemaError>)
    ensures
        match optional_i32(*f) {
            Ok(x) => r == Ok::<Option<i32>, SchemaError>(x),
            Err(p) => r == Err::<Option<i32>, SchemaError>(schema_error(field, p)),
        },
{
    match f {
        FieldValue::Missing => Ok(None),
        FieldValue::Null => Ok(None),
        FieldValue::Number(n) => match n.as_i64 {
            Some(x) => if i32::MIN as i64 <= x && x <= i32::MAX as i64 {
                Ok(Some(x as i32))
            } else {
                Err(SchemaError { field, problem: SchemaProblem::WrongType })
            },
            None => Err(SchemaError { field, problem: SchemaProblem::WrongType }),
        },
        _ => Err(SchemaError { field, problem: SchemaProblem::WrongType }),
    }
}

/// Decodes a boolean field that defaults to `false`.
pub fn decode_defaulted_bool(f: &FieldValue, field: &'static str) -> (r: Result<bool, SchemaError>)
    ensures
        match defaulted_bool(*f) {
            Ok(x) => r == Ok::<bool, SchemaError>(x),
            Err(p) => r == Err::<bool, SchemaError>(schema_error(field, p)),
        },
{
    match f {
        FieldValue::Missing => Ok(false),
        FieldValue::Bool(b) => Ok(*b),
        _ => Err(SchemaError { field, problem: SchemaProblem::WrongType }),
    }
}

/// Decodes a required string field.
pub fn decode_required_string(f: &FieldValue, field: &'static str) -> (r: Result<String, SchemaError>)
    ensures
        match required_string(*f) {
            Ok(x) => r is Ok && r->Ok_0@ == x,
            Err(p) => r == Err::<String, SchemaError>(schema_error(field, p)),
        },
{
    match f {
        FieldValue::Missing => Err(SchemaError { field, problem: SchemaProblem::Missing }),
        FieldValue::Str(s) => Ok(s.clone()),
        _ => Err(SchemaError { field, problem: SchemaProblem::WrongType }),
    }
}

/// Decodes a string field that defaults to the empty text.
pub fn decode_defaulted_string(f: &FieldValue, field: &'static str) -> (r: Result<String, SchemaError>)
    ensures
        match defaulted_string(*f) {
            Ok(x) => r is Ok && r->Ok_0@ == x,
            Err(p) => r == Err::<String, SchemaError>(schema_error(field, p)),
        },
{
    match f {
        FieldValue::Missing => Ok(String::new()),
        FieldValue::Str(s) => Ok(s.clone()),
        _ => Err(SchemaError { field, problem: SchemaProblem::WrongType }),
    }
}

/// Decodes an optional string field.
pub fn decode_optional_string(f: &FieldValue, field: &'static str) -> (r: Result<Option<String>, SchemaError>)
    ensures
        match optional_string(*f) {
            Ok(x) => r is Ok && match (r->Ok_0, x) {
                (Some(a), Some(b)) => a@ == b,
                (None, None) => true,
                _ => false,
            },
            Err(p) => r == Err::<Option<String>, SchemaError>(schema_error(field, p)),
        },
{
    match f {
        FieldValue::Missing => Ok(None),
        FieldValue::Null => Ok(None),
        FieldValue::Str(s) => Ok(Some(s.clone())),
        _ => Err(SchemaError { field, problem: SchemaProblem::WrongType }),
    }
}

/// The `u64` elements of an array, or `None` when one is not a `u64`.
fn u64_items(items: &Vec<JsonScalar>) -> (r: Option<Vec<u64>>)
    ensures
        match r {
            Some(v) => (forall|i: int| 0 <= i < items@.len() ==> is_u64_scalar(#[trigger] items@[i]))
                && v@ == items@.map_values(|x: JsonScalar| u64_of_scalar(x)),
            None => !(forall|i: int| 0 <= i < items@.len() ==> is_u64_scalar(#[trigger] items@[i])),
        },
{
    let mut out: Vec<u64> = Vec::new();
    let mut i: usize = 0;
    while i < items.len()
        invariant
            i <= items@.len(),
            forall|j: int| 0 <= j < i ==> is_u64_scalar(#[trigger] items@[j]),
            out@ =~= items@.take(i as int).map_values(|x: JsonScalar| u64_of_scalar(x)),
        decreases items.len() - i,
    {
        match &items[i] {
            JsonScalar::Number(n) => match n.as_u64 {
                Some(x) => out.push(x),
                None => return None,
            },
            _ => return None,
        }
        i = i + 1;
        assert(items@.take(i as int).map_values(|x: JsonScalar| u64_of_scalar(x)) =~= items@.take(i - 1).map_values(|x: JsonScalar| u64_of_scalar(x)).push(u64_of_scalar(items@[i - 1])));
    }
    assert(items@.take(items@.len() as int) =~= items@);
    Some(out)
}

/// The string elements of an array, or `None` when one is not a string.
fn string_items(items: &Vec<JsonScalar>) -> (r: Option<Vec<String>>)
    ensures
        match r {
            Some(v) => (forall|i: int| 0 <= i < items@.len() ==> is_str_scalar(#[trigger] items@[i]))
                && v@.map_values(|s: String| s@) == items@.map_values(|x: JsonScalar| str_of_scalar(x)),
            None => !(forall|i: int| 0 <= i < items@.len() ==> is_str_scalar(#[trigger] items@[i])),
        },
{
    let mut out: Vec<String> = Vec::new();
    let mut i: usize = 0;
    while i < items.len()
        invariant
            i <= items@.len(),
            forall|j: int| 0 <= j < i ==> is_str_scalar(#[trigger] items@[j]),
            out@.map_values(|s: String| s@) =~= items@.take(i as int).map_values(|x: JsonScalar| str_of_scalar(x)),
        decreases items.len() - i,
    {
        match &items[i] {
            JsonScalar::Str(s) => out.push(s.clone()),
            _ => return None,
        }
        i = i + 1;
        assert(items@.take(i as int).map_values(|x: JsonScalar| str_of_scalar(x)) =~= items@.take(i - 1).map_values(|x: JsonScalar| str_of_scalar(x)).push(str_of_scalar(items@[i - 1])));
    }
    assert(items@.take(items@.len() as int) =~= items@);
    Some(out)
}

/// Decodes a list of `u64` that defaults to empty.
pub fn decode_defaulted_u64_list(f: &FieldValue, field: &'static str) -> (r: Result<Vec<u64>, SchemaError>)
    ensures
        match defaulted_u64_list(*f) {
            Ok(x) => r is Ok && r->Ok_0@ == x,
            Err(p) => r is Err && r->Err_0 == schema_error(field, p),
        },
{
    match f {
        FieldValue::Missing => Ok(Vec::new()),
        FieldValue::Array(items) => match u64_items(items) {
            Some(v) => Ok(v),
            None => Err(SchemaError { field, problem: SchemaProblem::WrongType }),
        },
        _ => Err(SchemaError { field, problem: SchemaProblem::WrongType }),
    }
}

/// Decodes a list of strings that defaults to empty.
pub fn decode_defaulted_string_list(f: &FieldValue, field: &'static str) -> (r: Result<Vec<String>, SchemaError>)
    ensures
        match defaulted_string_list(*f) {
            Ok(x) => r is Ok && r->Ok_0@.map_values(|s: String| s@) == x,
            Err(p) => r is Err && r->Err_0 == schema_error(field, p),
        },
{
    match f {
        FieldValue::Missing => {
            let v: Vec<String> = Vec::new();
            assert(v@.map_values(|s: String| s@) =~= seq![]);
            Ok(v)
        },
        FieldValue::Array(items) => match string_items(items) {
            Some(v) => Ok(v),
            None => Err(SchemaError { field, problem: SchemaProblem::WrongType }),
        },
        _ => Err(SchemaError { field, problem: SchemaProblem::WrongType }),
    }
}

/// Decodes `panes_to_hide`, accepting the legacy number `0` as the empty list.
pub fn deserialize_panes_to_hide(f: &FieldValue, field: &'static str) -> (r: Result<Vec<u64>, SchemaError>)
    ensures
        match panes_to_hide_spec(*f) {
            Ok(x) => r is Ok && r->Ok_0@ == x,
            Err(p) => r is Err && r->Err_0 == schema_error(field, p),
        },
{
    match f {
        FieldValue::Missing => Ok(Vec::new()),
        FieldValue::Null => Ok(Vec::new()),
        FieldValue::Array(_) => decode_defaulted_u64_list(f, field),
        FieldValue::Number(n) => match n.as_u64 {
            Some(x) => if x == 0 {
                Ok(Vec::new())
            } else {
                Err(SchemaError { field, problem: SchemaProblem::NonZeroLegacyPanesToHide(x) })
            },
            None => Err(SchemaError { field, problem: SchemaProblem::WrongType }),
        },
        _ => Err(SchemaError { field, problem: SchemaProblem::WrongType }),
    }
}

/// Decodes `index_in_pane_group`, accepting the empty object `{}` as no index.
pub fn deserialize_index_in_pane_group(f: &FieldValue, field: &'static str) -> (r: Result<Option<u64>, SchemaError>)
    ensures
        match index_in_pane_group_spec(*f) {
            Ok(x) => r == Ok::<Option<u64>, SchemaError>(x),
            Err(p) => r == Err::<Option<u64>, SchemaError>(schema_error(field, p)),
        },
{
    match f {
        FieldValue::Missing => Ok(None),
        FieldValue::Null => Ok(None),
        FieldValue::Number(n) => match n.as_u64 {
            Some(x) => Ok(Some(x)),
            None => Err(SchemaError { field, problem: SchemaProblem::WrongType }),
        },
        FieldValue::Object { len } => if *len == 0 {
            Ok(None)
        } else {
            Err(SchemaError { field, problem: SchemaProblem::NonEmptyPaneGroupObject })
        },
        _ => Err(SchemaError { field, problem: SchemaProblem::WrongType }),
    }
}


/// A required boolean field.
pub open spec fn required_bool(f: FieldValue) -> Result<bool, SchemaProblem> {
    match f {
        FieldValue::Missing => Err(SchemaProblem::Missing),
        FieldValue::Bool(b) => Ok(b),
        _ => Err(SchemaProblem::WrongType),
    }
}

/// Decodes a required boolean field.
pub fn decode_required_bool(f: &FieldValue, field: &'static str) -> (r: Result<bool, SchemaError>)
    ensures
        match required_bool(*f) {
            Ok(x) => r == Ok::<bool, SchemaError>(x),
            Err(p) => r == Err::<bool, SchemaError>(schema_error(field, p)),
        },
{
    match f {
        FieldValue::Missing => Err(SchemaError { field, problem: SchemaProblem::Missing }),
        FieldValue::Bool(b) => Ok(*b),
        _ => Err(SchemaError { field, problem: SchemaProblem::WrongType }),
    }
}

/// An optional field of any JSON value is absent when missing or `null`.
pub open spec fn raw_is_none(f: FieldValue) -> bool {
    f is Missing || f is Null
}

/// Whether an optional field of any JSON value is absent.
pub fn field_is_none(f: &FieldValue) -> (b: bool)
    ensures
        b == raw_is_none(*f),
{
    match f {
        FieldValue::Missing => true,
        FieldValue::Null => true,
        _ => false,
    }
}

/// The view of an optional string.
pub open spec fn opt_view(o: Option<String>) -> Option<Seq<char>> {
    match o {
        Some(s) => Some(s@),
        None => None,
    }
}

/// The members of one tab record.
pub struct TabFields {
    pub position: FieldValue,
    pub name: FieldValue,
    pub active: FieldValue,
    pub panes_to_hide: FieldValue,
    pub is_fullscreen_active: FieldValue,
    pub is_sync_panes_active: FieldValue,
    pub are_floating_panes_visible: FieldValue,
    pub other_focused_clients: FieldValue,
    pub active_swap_layout_name: FieldValue,
    pub is_swap_layout_dirty: FieldValue,
    pub viewport_rows: FieldValue,
    pub viewport_columns: FieldValue,
    pub display_area_rows: FieldValue,
    pub display_area_columns: FieldValue,
    pub selectable_tiled_panes_count: FieldValue,
    pub selectable_floating_panes_count: FieldValue,
    pub tab_id: FieldValue,
    pub has_bell_notification: FieldValue,
    pub is_flashing_bell: FieldValue,
}

/// Every member of a tab record decodes.
pub open spec fn tab_fields_ok(f: TabFields) -> bool {
    required_u64(f.position) is Ok
    && required_string(f.name) is Ok
    && required_bool(f.active) is Ok
    && panes_to_hide_spec(f.panes_to_hide) is Ok
    && defaulted_bool(f.is_fullscreen_active) is Ok
    && defaulted_bool(f.is_sync_panes_active) is Ok
    && defaulted_bool(f.are_floating_panes_visible) is Ok
    && defaulted_u64_list(f.other_focused_clients) is Ok
    && optional_string(f.active_swap_layout_name) is Ok
    && defaulted_bool(f.is_swap_layout_dirty) is Ok
    && optional_u64(f.viewport_rows) is Ok
    && optional_u64(f.viewport_columns) is Ok
    && optional_u64(f.display_area_rows) is Ok
    && optional_u64(f.display_area_columns) is Ok
    && optional_u64(f.selectable_tiled_panes_count) is Ok
    && optional_u64(f.selectable_floating_panes_count) is Ok
    && required_u64(f.tab_id) is Ok
    && defaulted_bool(f.has_bell_notification) is Ok
    && defaulted_bool(f.is_flashing_bell) is Ok
}

/// `r` is the tab record the members decode to.
pub open spec fn tab_decoded(f: TabFields, r: TabInfo) -> bool {
    &&& required_u64(f.position) == Ok::<u64, SchemaProblem>(r.position)
    &&& required_string(f.name) == Ok::<Seq<char>, SchemaProblem>(r.name@)
    &&& required_bool(f.active) == Ok::<bool, SchemaProblem>(r.active)
    &&& panes_to_hide_spec(f.panes_to_hide) == Ok::<Seq<u64>, SchemaProblem>(r.panes_to_hide@)
    &&& defaulted_bool(f.is_fullscreen_active) == Ok::<bool, SchemaProblem>(r.is_fullscreen_active)
    &&& defaulted_bool(f.is_sync_panes_active) == Ok::<bool, SchemaProblem>(r.is_sync_panes_active)
    &&& defaulted_bool(f.are_floating_panes_visible) == Ok::<bool, SchemaProblem>(r.are_floating_panes_visible)
    &&& defaulted_u64_list(f.other_focused_clients) == Ok::<Seq<u64>, SchemaProblem>(r.other_focused_clients@)
    &&& optional_string(f.active_swap_layout_name) == Ok::<Option<Seq<char>>, SchemaProblem>(opt_view(r.active_swap_layout_name))
    &&& defaulted_bool(f.is_swap_layout_dirty) == Ok::<bool, SchemaProblem>(r.is_swap_layout_dirty)
    &&& optional_u64(f.viewport_rows) == Ok::<Option<u64>, SchemaProblem>(r.viewport_rows)
    &&& optional_u64(f.viewport_columns) == Ok::<Option<u64>, SchemaProblem>(r.viewport_columns)
    &&& optional_u64(f.display_area_rows) == Ok::<Option<u64>, SchemaProblem>(r.display_area_rows)
    &&& optional_u64(f.display_area_columns) == Ok::<Option<u64>, SchemaProblem>(r.display_area_columns)
    &&& optional_u64(f.selectable_tiled_panes_count) == Ok::<Option<u64>, SchemaProblem>(r.selectable_tiled_panes_count)
    &&& optional_u64(f.selectable_floating_panes_count) == Ok::<Option<u64>, SchemaProblem>(r.selectable_floating_panes_count)
    &&& required_u64(f.tab_id) == Ok::<u64, SchemaProblem>(r.tab_id)
    &&& defaulted_bool(f.has_bell_notification) == Ok::<bool, SchemaProblem>(r.has_bell_notification)
    &&& defaulted_bool(f.is_flashing_bell) == Ok::<bool, SchemaProblem>(r.is_flashing_bell)
}

/// The members of one pane record.
pub struct PaneFields {
    pub id: FieldValue,
    pub is_plugin: FieldValue,
    pub is_focused: FieldValue,
    pub is_fullscreen: FieldValue,
    pub is_floating: FieldValue,
    pub is_suppressed: FieldValue,
    pub title: FieldValue,
    pub exited: FieldValue,
    pub exit_status: FieldValue,
    pub is_held: FieldValue,
    pub pane_x: FieldValue,
    pub pane_content_x: FieldValue,
    pub pane_y: FieldValue,
    pub pane_content_y: FieldValue,
    pub pane_rows: FieldValue,
    pub pane_content_rows: FieldValue,
    pub pane_columns: FieldValue,
    pub pane_content_columns: FieldValue,
    pub cursor_coordinates_in_pane: FieldValue,
    pub cursor_coordinates_in_pane_raw: Option<Json>,
    pub terminal_command: FieldValue,
    pub plugin_url: FieldValue,
    pub is_selectable: FieldValue,
    pub index_in_pane_group: FieldValue,
    pub default_fg: FieldValue,
    pub default_fg_raw: Option<Json>,
    pub default_bg: FieldValue,
    pub default_bg_raw: Option<Json>,
    pub tab_id: FieldValue,
    pub tab_position: FieldValue,
    pub tab_name: FieldValue,
    pub pane_command: FieldValue,
    pub pane_cwd: FieldValue,
}

/// Every member of a pane record decodes.
pub open spec fn pane_fields_ok(f: PaneFields) -> bool {
    required_u64(f.id) is Ok
    && defaulted_bool(f.is_plugin) is Ok
    && defaulted_bool(f.is_focused) is Ok
    && defaulted_bool(f.is_fullscreen) is Ok
    && defaulted_bool(f.is_floating) is Ok
    && defaulted_bool(f.is_suppressed) is Ok
    && optional_string(f.title) is Ok
    && defaulted_bool(f.exited) is Ok
    && optional_i32(f.exit_status) is Ok
    && defaulted_bool(f.is_held) is Ok
    && optional_i64(f.pane_x) is Ok
    && optional_i64(f.pane_content_x) is Ok
    && optional_i64(f.pane_y) is Ok
    && optional_i64(f.pane_content_y) is Ok
    && optional_i64(f.pane_rows) is Ok
    && optional_i64(f.pane_content_rows) is Ok
    && optional_i64(f.pane_columns) is Ok
    && optional_i64(f.pane_content_columns) is Ok
    && optional_string(f.terminal_command) is Ok
    && optional_string(f.plugin_url) is Ok
    && defaulted_bool(f.is_selectable) is Ok
    && index_in_pane_group_spec(f.index_in_pane_group) is Ok
    && required_u64(f.tab_id) is Ok
    && required_u64(f.tab_position) is Ok
    && required_string(f.tab_name) is Ok
    && optional_string(f.pane_command) is Ok
    && optional_string(f.pane_cwd) is Ok
}

/// `r` is the pane record the members decode to.
pub open spec fn pane_decoded(f: PaneFields, r: PaneInfo) -> bool {
    &&& required_u64(f.id) == Ok::<u64, SchemaProblem>(r.id)
    &&& defaulted_bool(f.is_plugin) == Ok::<bool, SchemaProblem>(r.is_plugin)
    &&& defaulted_bool(f.is_focused) == Ok::<bool, SchemaProblem>(r.is_focused)
    &&& defaulted_bool(f.is_fullscreen) == Ok::<bool, SchemaProblem>(r.is_fullscreen)
    &&& defaulted_bool(f.is_floating) == Ok::<bool, SchemaProblem>(r.is_floating)
    &&& defaulted_bool(f.is_suppressed) == Ok::<bool, SchemaProblem>(r.is_suppressed)
    &&& optional_string(f.title) == Ok::<Option<Seq<char>>, SchemaProblem>(opt_view(r.title))
    &&& defaulted_bool(f.exited) == Ok::<bool, SchemaProblem>(r.exited)
    &&& optional_i32(f.exit_status) == Ok::<Option<i32>, SchemaProblem>(r.exit_status)
    &&& defaulted_bool(f.is_held) == Ok::<bool, SchemaProblem>(r.is_held)
    &&& optional_i64(f.pane_x) == Ok::<Option<i64>, SchemaProblem>(r.pane_x)
    &&& optional_i64(f.pane_content_x) == Ok::<Option<i64>, SchemaProblem>(r.pane_content_x)
    &&& optional_i64(f.pane_y) == Ok::<Option<i64>, SchemaProblem>(r.pane_y)
    &&& optional_i64(f.pane_content_y) == Ok::<Option<i64>, SchemaProblem>(r.pane_content_y)
    &&& optional_i64(f.pane_rows) == Ok::<Option<i64>, SchemaProblem>(r.pane_rows)
    &&& optional_i64(f.pane_content_rows) == Ok::<Option<i64>, SchemaProblem>(r.pane_content_rows)
    &&& optional_i64(f.pane_columns) == Ok::<Option<i64>, SchemaProblem>(r.pane_columns)
    &&& optional_i64(f.pane_content_columns) == Ok::<Option<i64>, SchemaProblem>(r.pane_content_columns)
    &&& r.cursor_coordinates_in_pane == (if raw_is_none(f.cursor_coordinates_in_pane) { None } else { f.cursor_coordinates_in_pane_raw })
    &&& optional_string(f.terminal_command) == Ok::<Option<Seq<char>>, SchemaProblem>(opt_view(r.terminal_command))
    &&& optional_string(f.plugin_url) == Ok::<Option<Seq<char>>, SchemaProblem>(opt_view(r.plugin_url))
    &&& defaulted_bool(f.is_selectable) == Ok::<bool, SchemaProblem>(r.is_selectable)
    &&& index_in_pane_group_spec(f.index_in_pane_group) == Ok::<Option<u64>, SchemaProblem>(r.index_in_pane_group)
    &&& r.default_fg == (if raw_is_none(f.default_fg) { None } else { f.default_fg_raw })
    &&& r.default_bg == (if raw_is_none(f.default_bg) { None } else { f.default_bg_raw })
    &&& required_u64(f.tab_id) == Ok::<u64, SchemaProblem>(r.tab_id)
    &&& required_u64(f.tab_position) == Ok::<u64, SchemaProblem>(r.tab_position)
    &&& required_string(f.tab_name) == Ok::<Seq<char>, SchemaProblem>(r.tab_name@)
    &&& optional_string(f.pane_command) == Ok::<Option<Seq<char>>, SchemaProblem>(opt_view(r.pane_command))
    &&& optional_string(f.pane_cwd) == Ok::<Option<Seq<char>>, SchemaProblem>(opt_view(r.pane_cwd))
}

/// The tab record its members decode to; a missing required member or a member of the
/// wrong shape fails.
pub fn tab_from_fields(f: TabFields) -> (r: Result<TabInfo, SchemaError>)
    ensures
        r is Ok <==> tab_fields_ok(f),
        r matches Ok(t) ==> tab_decoded(f, t),
{
    let position = decode_required_u64(&f.position, "position")?;
    let name = decode_required_string(&f.name, "name")?;
    let active = decode_required_bool(&f.active, "active")?;
    let panes_to_hide = deserialize_panes_to_hide(&f.panes_to_hide, "panes_to_hide")?;
    let is_fullscreen_active = decode_defaulted_bool(&f.is_fullscreen_active, "is_fullscreen_active")?;
    let is_sync_panes_active = decode_defaulted_bool(&f.is_sync_panes_active, "is_sync_panes_active")?;
    let are_floating_panes_visible = decode_defaulted_bool(&f.are_floating_panes_visible, "are_floating_panes_visible")?;
    let other_focused_clients = decode_defaulted_u64_list(&f.other_focused_clients, "other_focused_clients")?;
    let active_swap_layout_name = decode_optional_string(&f.active_swap_layout_name, "active_swap_layout_name")?;
    let is_swap_layout_dirty = decode_defaulted_bool(&f.is_swap_layout_dirty, "is_swap_layout_dirty")?;
    let viewport_rows = decode_optional_u64(&f.viewport_rows, "viewport_rows")?;
    let viewport_columns = decode_optional_u64(&f.viewport_columns, "viewport_columns")?;
    let display_area_rows = decode_optional_u64(&f.display_area_rows, "display_area_rows")?;
    let display_area_columns = decode_optional_u64(&f.display_area_columns, "display_area_columns")?;
    let selectable_tiled_panes_count = decode_optional_u64(&f.selectable_tiled_panes_count, "selectable_tiled_panes_count")?;
    let selectable_floating_panes_count = decode_optional_u64(&f.selectable_floating_panes_count, "selectable_floating_panes_count")?;
    let tab_id = decode_required_u64(&f.tab_id, "tab_id")?;
    let has_bell_notification = decode_defaulted_bool(&f.has_bell_notification, "has_bell_notification")?;
    let is_flashing_bell = decode_defaulted_bool(&f.is_flashing_bell, "is_flashing_bell")?;
    Ok(TabInfo {
        position,
        name,
        active,
        panes_to_hide,
        is_fullscreen_active,
        is_sync_panes_active,
        are_floating_panes_visible,
        other_focused_clients,
        active_swap_layout_name,
        is_swap_layout_dirty,
        viewport_rows,
        viewport_columns,
        display_area_rows,
        display_area_columns,
        selectable_tiled_panes_count,
        selectable_floating_panes_count,
        tab_id,
        has_bell_notification,
        is_flashing_bell,
    })
}

/// The pane record its members decode to; a missing required member or a member of the
/// wrong shape fails.
pub fn pane_from_fields(f: PaneFields) -> (r: Result<PaneInfo, SchemaError>)
    ensures
        r is Ok <==> pane_fields_ok(f),
        r matches Ok(t) ==> pane_decoded(f, t),
{
    let id = decode_required_u64(&f.id, "id")?;
    let is_plugin = decode_defaulted_bool(&f.is_plugin, "is_plugin")?;
    let is_focused = decode_defaulted_bool(&f.is_focused, "is_focused")?;
    let is_fullscreen = decode_defaulted_bool(&f.is_fullscreen, "is_fullscreen")?;
    let is_floating = decode_defaulted_bool(&f.is_floating, "is_floating")?;
    let is_suppressed = decode_defaulted_bool(&f.is_suppressed, "is_suppressed")?;
    let title = decode_optional_string(&f.title, "title")?;
    let exited = decode_defaulted_bool(&f.exited, "exited")?;
    let exit_status = decode_optional_i32(&f.exit_status, "exit_status")?;
    let is_held = decode_defaulted_bool(&f.is_held, "is_held")?;
    let pane_x = decode_optional_i64(&f.pane_x, "pane_x")?;
    let pane_content_x = decode_optional_i64(&f.pane_content_x, "pane_content_x")?;
    let pane_y = decode_optional_i64(&f.pane_y, "pane_y")?;
    let pane_content_y = decode_optional_i64(&f.pane_content_y, "pane_content_y")?;
    let pane_rows = decode_optional_i64(&f.pane_rows, "pane_rows")?;
    let pane_content_rows = decode_optional_i64(&f.pane_content_rows, "pane_content_rows")?;
    let pane_columns = decode_optional_i64(&f.pane_columns, "pane_columns")?;
    let pane_content_columns = decode_optional_i64(&f.pane_content_columns, "pane_content_columns")?;
    let cursor_coordinates_in_pane = if field_is_none(&f.cursor_coordinates_in_pane) { None } else { f.cursor_coordinates_in_pane_raw };
    let terminal_command = decode_optional_string(&f.terminal_command, "terminal_command")?;
    let plugin_url = decode_optional_string(&f.plugin_url, "plugin_url")?;
    let is_selectable = decode_defaulted_bool(&f.is_selectable, "is_selectable")?;
    let index_in_pane_group = deserialize_index_in_pane_group(&f.index_in_pane_group, "index_in_pane_group")?;
    let default_fg = if field_is_none(&f.default_fg) { None } else { f.default_fg_raw };
    let default_bg = if field_is_none(&f.default_bg) { None } else { f.default_bg_raw };
    let tab_id = decode_required_u64(&f.tab_id, "tab_id")?;
    let tab_position = decode_required_u64(&f.tab_position, "tab_position")?;
    let tab_name = decode_required_string(&f.tab_name, "tab_name")?;
    let pane_command = decode_optional_string(&f.pane_command, "pane_command")?;
    let pane_cwd = decode_optional_string(&f.pane_cwd, "pane_cwd")?;
    Ok(PaneInfo {
        id,
        is_plugin,
        is_focused,
        is_fullscreen,
        is_floating,
        is_suppressed,
        title,
        exited,
        exit_status,
        is_held,
        pane_x,
        pane_content_x,
        pane_y,
        pane_content_y,
        pane_rows,
        pane_content_rows,
        pane_columns,
        pane_content_columns,
        cursor_coordinates_in_pane,
        terminal_command,
        plugin_url,
        is_selectable,
        index_in_pane_group,
        default_fg,
        default_bg,
        tab_id,
        tab_position,
        tab_name,
        pane_command,
        pane_cwd,
    })
}

/// `f` is what each field of a tab record reads of the value in its slot.
pub open spec fn tab_fields_of(v: Json, f: TabFields) -> bool {
    &&& field_at(slot(v, "position"@, 0), f.position)
    &&& field_at(slot(v, "name"@, 1), f.name)
    &&& field_at(slot(v, "active"@, 2), f.active)
    &&& field_at(slot(v, "panes_to_hide"@, 3), f.panes_to_hide)
    &&& field_at(slot(v, "is_fullscreen_active"@, 4), f.is_fullscreen_active)
    &&& field_at(slot(v, "is_sync_panes_active"@, 5), f.is_sync_panes_active)
    &&& field_at(slot(v, "are_floating_panes_visible"@, 6), f.are_floating_panes_visible)
    &&& field_at(slot(v, "other_focused_clients"@, 7), f.other_focused_clients)
    &&& field_at(slot(v, "active_swap_layout_name"@, 8), f.active_swap_layout_name)
    &&& field_at(slot(v, "is_swap_layout_dirty"@, 9), f.is_swap_layout_dirty)
    &&& field_at(slot(v, "viewport_rows"@, 10), f.viewport_rows)
    &&& field_at(slot(v, "viewport_columns"@, 11), f.viewport_columns)
    &&& field_at(slot(v, "display_area_rows"@, 12), f.display_area_rows)
    &&& field_at(slot(v, "display_area_columns"@, 13), f.display_area_columns)
    &&& field_at(slot(v, "selectable_tiled_panes_count"@, 14), f.selectable_tiled_panes_count)
    &&& field_at(slot(v, "selectable_floating_panes_count"@, 15), f.selectable_floating_panes_count)
    &&& field_at(slot(v, "tab_id"@, 16), f.tab_id)
    &&& field_at(slot(v, "has_bell_notification"@, 17), f.has_bell_notification)
    &&& field_at(slot(v, "is_flashing_bell"@, 18), f.is_flashing_bell)
}

/// A tab record is written as an object, or as an array of at most its number of fields.
pub open spec fn tab_shape_ok(v: Json) -> bool {
    v is Object || (v matches Json::Array(items) && items@.len() <= 19)
}

/// `r` is the tab record a JSON value decodes to: a record of the wrong shape fails on
/// `record`; else the record's fields decode exactly when each does, to what each reads.
pub open spec fn tab_record(v: Json, r: Result<TabInfo, SchemaError>) -> bool {
    if tab_shape_ok(v) {
        exists|f: TabFields|
            #[trigger] tab_fields_of(v, f) && (r is Ok <==> tab_fields_ok(f)) && (r matches Ok(t)
                ==> tab_decoded(f, t))
    } else {
        r matches Err(e) && e.field@ == "record"@ && e.problem == SchemaProblem::WrongType
    }
}

/// `f` is what each field of a pane record reads of the value in its slot.
pub open spec fn pane_fields_of(v: Json, f: PaneFields) -> bool {
    &&& field_at(slot(v, "id"@, 0), f.id)
    &&& field_at(slot(v, "is_plugin"@, 1), f.is_plugin)
    &&& field_at(slot(v, "is_focused"@, 2), f.is_focused)
    &&& field_at(slot(v, "is_fullscreen"@, 3), f.is_fullscreen)
    &&& field_at(slot(v, "is_floating"@, 4), f.is_floating)
    &&& field_at(slot(v, "is_suppressed"@, 5), f.is_suppressed)
    &&& field_at(slot(v, "title"@, 6), f.title)
    &&& field_at(slot(v, "exited"@, 7), f.exited)
    &&& field_at(slot(v, "exit_status"@, 8), f.exit_status)
    &&& field_at(slot(v, "is_held"@, 9), f.is_held)
    &&& field_at(slot(v, "pane_x"@, 10), f.pane_x)
    &&& field_at(slot(v, "pane_content_x"@, 11), f.pane_content_x)
    &&& field_at(slot(v, "pane_y"@, 12), f.pane_y)
    &&& field_at(slot(v, "pane_content_y"@, 13), f.pane_content_y)
    &&& field_at(slot(v, "pane_rows"@, 14), f.pane_rows)
    &&& field_at(slot(v, "pane_content_rows"@, 15), f.pane_content_rows)
    &&& field_at(slot(v, "pane_columns"@, 16), f.pane_columns)
    &&& field_at(slot(v, "pane_content_columns"@, 17), f.pane_content_columns)
    &&& field_at(slot(v, "cursor_coordinates_in_pane"@, 18), f.cursor_coordinates_in_pane)
    &&& raw_at(slot(v, "cursor_coordinates_in_pane"@, 18), f.cursor_coordinates_in_pane_raw)
    &&& field_at(slot(v, "terminal_command"@, 19), f.terminal_command)
    &&& field_at(slot(v, "plugin_url"@, 20), f.plugin_url)
    &&& field_at(slot(v, "is_selectable"@, 21), f.is_selectable)
    &&& field_at(slot(v, "index_in_pane_group"@, 22), f.index_in_pane_group)
    &&& field_at(slot(v, "default_fg"@, 23), f.default_fg)
    &&& raw_at(slot(v, "default_fg"@, 23), f.default_fg_raw)
    &&& field_at(slot(v, "default_bg"@, 24), f.default_bg)
    &&& raw_at(slot(v, "default_bg"@, 24), f.default_bg_raw)
    &&& field_at(slot(v, "tab_id"@, 25), f.tab_id)
    &&& field_at(slot(v, "tab_position"@, 26), f.tab_position)
    &&& field_at(slot(v, "tab_name"@, 27), f.tab_name)
    &&& field_at(slot(v, "pane_command"@, 28), f.pane_command)
    &&& field_at(slot(v, "pane_cwd"@, 29), f.pane_cwd)
}

/// A pane record is written as an object, or as an array of at most its number of fields.
pub open spec fn pane_shape_ok(v: Json) -> bool {
    v is Object || (v matches Json::Array(items) && items@.len() <= 30)
}

/// `r` is the pane record a JSON value decodes to: a record of the wrong shape fails on
/// `record`; else the record's fields decode exactly when each does, to what each reads.
pub open spec fn pane_record(v: Json, r: Result<PaneInfo, SchemaError>) -> bool {
    if pane_shape_ok(v) {
        exists|f: PaneFields|
            #[trigger] pane_fields_of(v, f) && (r is Ok <==> pane_fields_ok(f)) && (r matches Ok(p)
                ==> pane_decoded(f, p))
    } else {
        r matches Err(e) && e.field@ == "record"@ && e.problem == SchemaProblem::WrongType
    }
}

/// A decoded pane keeps what its record says: `is_plugin` and `is_selectable` are the record's
/// booleans (false when absent), `id`, `tab_id` and `tab_position` its integers, and `title` its
/// text.
pub proof fn law_decoded_pane_keeps_its_members(v: Json, p: PaneInfo)
    requires
        pane_record(v, Ok(p)),
    ensures
        slot(v, "is_plugin"@, 1) == Some(Json::Bool(true)) ==> p.is_plugin,
        slot(v, "is_plugin"@, 1) == Some(Json::Bool(false)) ==> !p.is_plugin,
        slot(v, "is_plugin"@, 1) is None ==> !p.is_plugin,
        slot(v, "is_selectable"@, 21) == Some(Json::Bool(true)) ==> p.is_selectable,
        slot(v, "is_selectable"@, 21) == Some(Json::Bool(false)) ==> !p.is_selectable,
        slot(v, "is_selectable"@, 21) is None ==> !p.is_selectable,
        slot(v, "id"@, 0) matches Some(Json::Number(n)) ==> n.as_u64 == Some(p.id),
        slot(v, "tab_id"@, 25) matches Some(Json::Number(n)) ==> n.as_u64 == Some(p.tab_id),
        slot(v, "tab_position"@, 26) matches Some(Json::Number(n)) ==> n.as_u64 == Some(
            p.tab_position,
        ),
        slot(v, "title"@, 6) matches Some(Json::Str(t)) ==> (p.title matches Some(x) && x@ == t@),
        slot(v, "title"@, 6) is None ==> p.title is None,
{
    let f = choose|f: PaneFields|
        #[trigger] pane_fields_of(v, f) && (Ok::<PaneInfo, SchemaError>(p) is Ok <==> pane_fields_ok(f))
            && pane_decoded(f, p);
    assert(pane_fields_of(v, f));
    assert(pane_decoded(f, p));
}

/// A decoded tab keeps what its record says: its `position`, `tab_id` and `name`.
pub proof fn law_decoded_tab_keeps_its_members(v: Json, t: TabInfo)
    requires
        tab_record(v, Ok(t)),
    ensures
        slot(v, "position"@, 0) matches Some(Json::Number(n)) ==> n.as_u64 == Some(t.position),
        slot(v, "tab_id"@, 16) matches Some(Json::Number(n)) ==> n.as_u64 == Some(t.tab_id),
        slot(v, "name"@, 1) matches Some(Json::Str(x)) ==> t.name@ == x@,
{
    let f = choose|f: TabFields|
        #[trigger] tab_fields_of(v, f) && (Ok::<TabInfo, SchemaError>(t) is Ok <==> tab_fields_ok(f))
            && tab_decoded(f, t);
    assert(tab_fields_of(v, f));
    assert(tab_decoded(f, t));
}

/// The tab record a JSON value holds: an object whose members decode, or an array of its
/// fields in declaration order (the trailing defaulted ones may be left out).
pub fn decode_tab(v: &Json) -> (r: Result<TabInfo, SchemaError>)
    ensures
        tab_record(*v, r),
{
    proof {
        reveal_strlit("record");
    }
    let f = match v {
        Json::Object(_) => TabFields {
            position: member(v, "position"),
            name: member(v, "name"),
            active: member(v, "active"),
            panes_to_hide: member(v, "panes_to_hide"),
            is_fullscreen_active: member(v, "is_fullscreen_active"),
            is_sync_panes_active: member(v, "is_sync_panes_active"),
            are_floating_panes_visible: member(v, "are_floating_panes_visible"),
            other_focused_clients: member(v, "other_focused_clients"),
            active_swap_layout_name: member(v, "active_swap_layout_name"),
            is_swap_layout_dirty: member(v, "is_swap_layout_dirty"),
            viewport_rows: member(v, "viewport_rows"),
            viewport_columns: member(v, "viewport_columns"),
            display_area_rows: member(v, "display_area_rows"),
            display_area_columns: member(v, "display_area_columns"),
            selectable_tiled_panes_count: member(v, "selectable_tiled_panes_count"),
            selectable_floating_panes_count: member(v, "selectable_floating_panes_count"),
            tab_id: member(v, "tab_id"),
            has_bell_notification: member(v, "has_bell_notification"),
            is_flashing_bell: member(v, "is_flashing_bell"),
        },
        Json::Array(items) => {
                if items.len() > 19 {
                    return Err(SchemaError { field: "record", problem: SchemaProblem::WrongType });
                }
                TabFields {
                    position: element(items, 0),
                    name: element(items, 1),
                    active: element(items, 2),
                    panes_to_hide: element(items, 3),
                    is_fullscreen_active: element(items, 4),
                    is_sync_panes_active: element(items, 5),
                    are_floating_panes_visible: element(items, 6),
                    other_focused_clients: element(items, 7),
                    active_swap_layout_name: element(items, 8),
                    is_swap_layout_dirty: element(items, 9),
                    viewport_rows: element(items, 10),
                    viewport_columns: element(items, 11),
                    display_area_rows: element(items, 12),
                    display_area_columns: element(items, 13),
                    selectable_tiled_panes_count: element(items, 14),
                    selectable_floating_panes_count: element(items, 15),
                    tab_id: element(items, 16),
                    has_bell_notification: element(items, 17),
                    is_flashing_bell: element(items, 18),
                }
            },
        _ => return Err(SchemaError { field: "record", problem: SchemaProblem::WrongType }),
    };
    let ghost fields = f;
    assert(tab_fields_of(*v, fields));
    tab_from_fields(f)
}

/// The pane record a JSON value holds: an object whose members decode, or an array of its
/// fields in declaration order (the trailing defaulted ones may be left out).
pub fn decode_pane(v: &Json) -> (r: Result<PaneInfo, SchemaError>)
    ensures
        pane_record(*v, r),
{
    proof {
        reveal_strlit("record");
    }
    let f = match v {
        Json::Object(_) => PaneFields {
            id: member(v, "id"),
            is_plugin: member(v, "is_plugin"),
            is_focused: member(v, "is_focused"),
            is_fullscreen: member(v, "is_fullscreen"),
            is_floating: member(v, "is_floating"),
            is_suppressed: member(v, "is_suppressed"),
            title: member(v, "title"),
            exited: member(v, "exited"),
            exit_status: member(v, "exit_status"),
            is_held: member(v, "is_held"),
            pane_x: member(v, "pane_x"),
            pane_content_x: member(v, "pane_content_x"),
            pane_y: member(v, "pane_y"),
            pane_content_y: member(v, "pane_content_y"),
            pane_rows: member(v, "pane_rows"),
            pane_content_rows: member(v, "pane_content_rows"),
            pane_columns: member(v, "pane_columns"),
            pane_content_columns: member(v, "pane_content_columns"),
            cursor_coordinates_in_pane: member(v, "cursor_coordinates_in_pane"),
            cursor_coordinates_in_pane_raw: raw_member(v, "cursor_coordinates_in_pane"),
            terminal_command: member(v, "terminal_command"),
            plugin_url: member(v, "plugin_url"),
            is_selectable: member(v, "is_selectable"),
            index_in_pane_group: member(v, "index_in_pane_group"),
            default_fg: member(v, "default_fg"),
            default_fg_raw: raw_member(v, "default_fg"),
            default_bg: member(v, "default_bg"),
            default_bg_raw: raw_member(v, "default_bg"),
            tab_id: member(v, "tab_id"),
            tab_position: member(v, "tab_position"),
            tab_name: member(v, "tab_name"),
            pane_command: member(v, "pane_command"),
            pane_cwd: member(v, "pane_cwd"),
        },
        Json::Array(items) => {
                if items.len() > 30 {
                    return Err(SchemaError { field: "record", problem: SchemaProblem::WrongType });
                }
                PaneFields {
                    id: element(items, 0),
                    is_plugin: element(items, 1),
                    is_focused: element(items, 2),
                    is_fullscreen: element(items, 3),
                    is_floating: element(items, 4),
                    is_suppressed: element(items, 5),
                    title: element(items, 6),
                    exited: element(items, 7),
                    exit_status: element(items, 8),
                    is_held: element(items, 9),
                    pane_x: element(items, 10),
                    pane_content_x: element(items, 11),
                    pane_y: element(items, 12),
                    pane_content_y: element(items, 13),
                    pane_rows: element(items, 14),
                    pane_content_rows: element(items, 15),
                    pane_columns: element(items, 16),
                    pane_content_columns: element(items, 17),
                    cursor_coordinates_in_pane: element(items, 18),
                    cursor_coordinates_in_pane_raw: raw_element(items, 18),
                    terminal_command: element(items, 19),
                    plugin_url: element(items, 20),
                    is_selectable: element(items, 21),
                    index_in_pane_group: element(items, 22),
                    default_fg: element(items, 23),
                    default_fg_raw: raw_element(items, 23),
                    default_bg: element(items, 24),
                    default_bg_raw: raw_element(items, 24),
                    tab_id: element(items, 25),
                    tab_position: element(items, 26),
                    tab_name: element(items, 27),
                    pane_command: element(items, 28),
                    pane_cwd: element(items, 29),
                }
            },
        _ => return Err(SchemaError { field: "record", problem: SchemaProblem::WrongType }),
    };
    let ghost fields = f;
    assert(pane_fields_of(*v, fields));
    pane_from_fields(f)
}

/// A record kind that a listing holds, decoded from one JSON value.
pub trait JsonRecord: Sized {
    /// `r` is what a JSON value decodes to as a record of this kind.
    spec fn decodes(v: Json, r: Result<Self, SchemaError>) -> bool;

    /// The record a JSON value holds.
    fn decode_record(v: &Json) -> (r: Result<Self, SchemaError>)
        ensures
            Self::decodes(*v, r),
    ;
}

impl JsonRecord for TabInfo {
    open spec fn decodes(v: Json, r: Result<TabInfo, SchemaError>) -> bool {
        tab_record(v, r)
    }

    fn decode_record(v: &Json) -> (r: Result<TabInfo, SchemaError>) {
        decode_tab(v)
    }
}

impl JsonRecord for PaneInfo {
    open spec fn decodes(v: Json, r: Result<PaneInfo, SchemaError>) -> bool {
        pane_record(v, r)
    }

    fn decode_record(v: &Json) -> (r: Result<PaneInfo, SchemaError>) {
        decode_pane(v)
    }
}

/// `r` is the records of a JSON document: for an array whose every element decodes, the
/// records in order; `None` for any other document.
pub open spec fn document_decodes<T: JsonRecord>(doc: Json, r: Option<Vec<T>>) -> bool {
    match doc {
        Json::Array(items) => match r {
            Some(v) => v@.len() == items@.len() && forall|i: int|
                0 <= i < items@.len() ==> T::decodes(#[trigger] items@[i], Ok(v@[i])),
            None => exists|i: int, e: SchemaError|
                0 <= i < items@.len() && #[trigger] T::decodes(items@[i], Err(e)),
        },
        _ => r is None,
    }
}

/// The records of a JSON document that is an array whose every element decodes; `None`
/// for any other document.
pub(crate) fn document_records<T: JsonRecord>(doc: &Json) -> (r: Option<Vec<T>>)
    ensures
        document_decodes(*doc, r),
{
    match doc {
        Json::Array(items) => {
            let mut out: Vec<T> = Vec::new();
            let mut i: usize = 0;
            while i < items.len()
                invariant
                    *doc == Json::Array(*items),
                    i <= items@.len(),
                    out@.len() == i,
                    forall|j: int| 0 <= j < i ==> T::decodes(#[trigger] items@[j], Ok(out@[j])),
                decreases items.len() - i,
            {
                let d = T::decode_record(&items[i]);
                match d {
                    Ok(t) => out.push(t),
                    Err(e) => {
                        let ghost its = (*doc)->Array_0;
                        assert(T::decodes(its@[i as int], Err(e)));
                        return None;
                    },
                }
                i = i + 1;
            }
            Some(out)
        },
        _ => None,
    }
}

/// The record one JSON text holds: a syntax error when the text is not one JSON document,
/// else what its document decodes to, a schema error when it is not a record of this kind.
pub fn record_of_text<T: JsonRecord>(text: &str) -> (r: Result<T, JsonError>)
    ensures
        (r matches Err(JsonError::Syntax(_))) <==> !json_text_is_valid(text@),
        json_text_is_valid(text@) ==> match r {
            Ok(t) => T::decodes(json_document(text@), Ok(t)),
            Err(JsonError::Schema(e)) => T::decodes(json_document(text@), Err(e)),
            Err(JsonError::Syntax(_)) => false,
        },
{
    match parse_json_value(text) {
        Err(e) => Err(JsonError::Syntax(e)),
        Ok(v) => match T::decode_record(&v) {
            Ok(t) => Ok(t),
            Err(se) => Err(JsonError::Schema(se)),
        },
    }
}

/// `<serde_json::Error as Display>::fmt`: the text of a JSON syntax error. Nothing is stated
/// of the text: the error value it describes is opaque here.
#[verifier::external_body]
fn json_error_text(e: &serde_json::Error) -> String {
    e.to_string()
}

/// The message of a record of the wrong shape.
pub open spec fn schema_text(e: SchemaError) -> Seq<char> {
    match e.problem {
        SchemaProblem::Missing => "missing field `"@ + e.field@ + "`"@,
        SchemaProblem::WrongType => "invalid type for field `"@ + e.field@ + "`"@,
        SchemaProblem::NonZeroLegacyPanesToHide(x) => "unsupported non-zero numeric panes_to_hide shape: "@
            + decimal_seq(x as nat),
        SchemaProblem::NonEmptyPaneGroupObject => "index_in_pane_group object form must be empty"@,
    }
}

impl SchemaError {
    /// The message that explains what is wrong with the record.
    pub fn message(&self) -> (r: String)
        ensures
            r@ == schema_text(*self),
    {
        match self.problem {
            SchemaProblem::Missing => concat3("missing field `", self.field, "`"),
            SchemaProblem::WrongType => concat3("invalid type for field `", self.field, "`"),
            SchemaProblem::NonZeroLegacyPanesToHide(x) => {
                let n = u64_to_text(x);
                concat2("unsupported non-zero numeric panes_to_hide shape: ", n.as_str())
            },
            SchemaProblem::NonEmptyPaneGroupObject => "index_in_pane_group object form must be empty".to_owned(),
        }
    }
}

impl JsonError {
    /// The message that explains why the text could not be decoded.
    pub fn message(&self) -> (r: String)
        ensures
            self matches JsonError::Schema(e) ==> r@ == schema_text(*e),
    {
        match self {
            JsonError::Syntax(e) => json_error_text(e),
            JsonError::Schema(e) => e.message(),
        }
    }
}

} // verus!
