//! JSON documents as plain values.
//!
//! The text of a document is parsed by `serde_json`; the tree it builds is
//! copied, value by value, into [`Json`], on which the rest of the crate
//! works.

use crate::text::str_eq;
use vstd::prelude::*;
use vstd::string::*;

verus! {

/// A JSON number, in the three forms that a parsed document can hold.
#[derive(Clone, Copy, Debug, PartialEq, Eq, Structural)]
pub enum Number {
    /// A non-negative integer.
    PosInt(u64),
    /// A negative integer.
    NegInt(i64),
    /// Any other number, as the bits of its IEEE 754 double.
    Real(u64),
}

/// A JSON value.
#[derive(Debug)]
pub enum Json {
    Null,
    Bool(bool),
    Number(Number),
    Text(String),
    Array(Vec<Json>),
    /// The members of an object, each with its key.
    Object(Vec<(String, Json)>),
}

/// What a [`Json`] value stands for.
pub enum JsonValue {
    Null,
    Bool(bool),
    Number(Number),
    Text(Seq<char>),
    Array(Seq<JsonValue>),
    Object(Seq<(Seq<char>, JsonValue)>),
}

/// The value that `json` stands for.
pub open spec fn model(json: Json) -> JsonValue
    decreases json,
{
    match json {
        Json::Null => JsonValue::Null,
        Json::Bool(b) => JsonValue::Bool(b),
        Json::Number(n) => JsonValue::Number(n),
        Json::Text(s) => JsonValue::Text(s@),
        Json::Array(items) => JsonValue::Array(
            Seq::new(items@.len(), |i: int| if 0 <= i < items@.len() { model(items@[i]) } else { JsonValue::Null }),
        ),
        Json::Object(members) => JsonValue::Object(
            Seq::new(
                members@.len(),
                |i: int| if 0 <= i < members@.len() { (members@[i].0@, model(members@[i].1)) } else { (Seq::empty(), JsonValue::Null) },
            ),
        ),
    }
}

impl View for Json {
    type V = JsonValue;

    open spec fn view(&self) -> JsonValue {
        model(*self)
    }
}

/// What each of `items` stands for.
pub open spec fn items_of(items: Seq<Json>) -> Seq<JsonValue> {
    Seq::new(items.len(), |i: int| items[i]@)
}

/// An item of an array is smaller than the array.
pub proof fn lemma_item_smaller(json: Json, i: int)
    requires
        json is Array,
        0 <= i < json->Array_0@.len(),
    ensures
        decreases_to!(json => json->Array_0@[i]),
{
    let items = json->Array_0;
    assert(decreases_to!(json => items));
    assert(decreases_to!(items => items@));
    assert(decreases_to!(items@ => items@[i]));
}

/// The value of a member of an object is smaller than the object.
pub proof fn lemma_member_smaller(json: Json, i: int)
    requires
        json is Object,
        0 <= i < json->Object_0@.len(),
    ensures
        decreases_to!(json => json->Object_0@[i].1),
{
    let members = json->Object_0;
    assert(decreases_to!(json => members));
    assert(decreases_to!(members => members@));
    assert(decreases_to!(members@ => members@[i]));
    assert(decreases_to!(members@[i] => members@[i].1));
}

/// The value of the first member in `members` whose key is `key`.
pub open spec fn member(members: Seq<(Seq<char>, JsonValue)>, key: Seq<char>) -> Option<JsonValue>
    decreases members.len(),
{
    if members.len() == 0 {
        None
    } else if members[0].0 == key {
        Some(members[0].1)
    } else {
        member(members.drop_first(), key)
    }
}

impl JsonValue {
    /// The member `key` of an object; nothing of any other value.
    pub open spec fn field(self, key: Seq<char>) -> Option<JsonValue> {
        match self {
            JsonValue::Object(members) => member(members, key),
            _ => None,
        }
    }
}

/// A member found in `members` stands at some position in it.
pub proof fn lemma_member_position(members: Seq<(Seq<char>, JsonValue)>, key: Seq<char>) -> (i: int)
    requires
        member(members, key) is Some,
    ensures
        0 <= i < members.len(),
        members[i].0 == key,
        member(members, key) == Some(members[i].1),
    decreases members.len(),
{
    if members[0].0 == key {
        0
    } else {
        lemma_member_position(members.drop_first(), key) + 1
    }
}

/// A member of an object is smaller than the object.
pub proof fn lemma_field_smaller(value: JsonValue, key: Seq<char>)
    requires
        value.field(key) is Some,
    ensures
        decreases_to!(value => value.field(key)->Some_0),
{
    let members = value->Object_0;
    let i = lemma_member_position(members, key);
    assert(decreases_to!(value => members));
    assert(decreases_to!(members => members[i]));
    assert(decreases_to!(members[i] => members[i].1));
}

impl Json {
    /// The member `key` of an object, if this is an object that has one.
    pub fn get(&self, key: &str) -> (found: Option<&Json>)
        ensures
            match found {
                Some(json) => self@.field(key@) == Some(json@),
                None => self@.field(key@) is None,
            },
    {
        match self {
            Json::Object(members) => {
                let ghost all = self@->Object_0;
                assert(all.skip(0) =~= all);
                let mut i: usize = 0;
                while i < members.len()
                    invariant
                        i <= members@.len(),
                        all.len() == members@.len(),
                        forall|k: int| 0 <= k < all.len() ==> all[k] == (members@[k].0@, members@[k].1@),
                        self@ == JsonValue::Object(all),
                        member(all, key@) == member(all.skip(i as int), key@),
                    decreases members@.len() - i,
                {
                    assert(all.skip(i as int).drop_first() =~= all.skip(i as int + 1));
                    if str_eq(members[i].0.as_str(), key) {
                        return Some(&members[i].1);
                    }
                    i += 1;
                }
                None
            },
            _ => None,
        }
    }
}

impl Clone for Json {
    fn clone(&self) -> (copy: Json)
        ensures
            copy@ == self@,
        decreases self,
    {
        match self {
            Json::Null => Json::Null,
            Json::Bool(b) => Json::Bool(*b),
            Json::Number(n) => Json::Number(*n),
            Json::Text(s) => Json::Text(s.clone()),
            Json::Array(items) => {
                let mut copies: Vec<Json> = Vec::new();
                let mut i: usize = 0;
                while i < items.len()
                    invariant
                        i <= items@.len(),
                        *self == Json::Array(*items),
                        copies@.len() == i,
                        forall|k: int| 0 <= k < i ==> copies@[k]@ == items@[k]@,
                    decreases items@.len() - i,
                {
                    let item = &items[i];
                    proof {
                        lemma_item_smaller(*self, i as int);
                    }
                    copies.push(item.clone());
                    i += 1;
                }
                let copy = Json::Array(copies);
                proof {
                    assert(copy@->Array_0 =~= self@->Array_0);
                }
                copy
            },
            Json::Object(members) => {
                let mut copies: Vec<(String, Json)> = Vec::new();
                let mut i: usize = 0;
                while i < members.len()
                    invariant
                        i <= members@.len(),
                        *self == Json::Object(*members),
                        copies@.len() == i,
                        forall|k: int| 0 <= k < i ==> copies@[k].0@ == members@[k].0@ && copies@[k].1@ == members@[k].1@,
                    decreases members@.len() - i,
                {
                    let entry = &members[i];
                    proof {
                        lemma_member_smaller(*self, i as int);
                    }
                    copies.push((entry.0.clone(), entry.1.clone()));
                    i += 1;
                }
                let copy = Json::Object(copies);
                proof {
                    assert(copy@->Object_0 =~= self@->Object_0);
                }
                copy
            },
        }
    }
}

/// Where a document stopped being JSON, and why.
#[derive(Debug)]
pub struct Diagnostic {
    /// One-based line of the offending character; zero where no position is known.
    pub line: usize,
    /// One-based column of the offending character; zero where no position is known.
    pub column: usize,
    /// A sentence that describes the fault.
    pub message: String,
}

/// What a [`Diagnostic`] stands for.
pub struct DiagnosticView {
    pub line: nat,
    pub column: nat,
    pub message: Seq<char>,
}

impl View for Diagnostic {
    type V = DiagnosticView;

    open spec fn view(&self) -> DiagnosticView {
        DiagnosticView { line: self.line as nat, column: self.column as nat, message: self.message@ }
    }
}

/// `serde_json::Value`, the tree that `serde_json` parses a document into;
/// nothing of it is known here but through the functions below.
#[verifier::external_type_specification]
#[verifier::external_body]
pub struct ExValue(serde_json::Value);

/// `serde_json::Error`, what `serde_json` returns of a text that is no
/// JSON document.
#[verifier::external_type_specification]
#[verifier::external_body]
pub struct ExError(serde_json::Error);

/// The outcome of reading `text` as one JSON document: the value it denotes,
/// or the first syntax error in it.
pub uninterp spec fn parsed(text: Seq<char>) -> Result<JsonValue, DiagnosticView>;

/// The JSON value that a `serde_json::Value` holds.
pub uninterp spec fn value_model(value: serde_json::Value) -> JsonValue;

/// The line that a `serde_json::Error` reports.
pub uninterp spec fn fault_line(error: serde_json::Error) -> nat;

/// The column that a `serde_json::Error` reports.
pub uninterp spec fn fault_column(error: serde_json::Error) -> nat;

/// The message that a `serde_json::Error` displays.
pub uninterp spec fn fault_message(error: serde_json::Error) -> Seq<char>;

/// Calls `serde_json::from_str` for a `serde_json::Value`. Trusted: the
/// outcome depends on the text alone, so it is `parsed` of the text, with the
/// value or the error taken by what they hold.
#[verifier::external_body]
fn parse_value(text: &str) -> (outcome: Result<serde_json::Value, serde_json::Error>)
    ensures
        match outcome {
            Ok(value) => parsed(text@) == Ok::<JsonValue, DiagnosticView>(value_model(value)),
            Err(error) => parsed(text@) == Err::<JsonValue, DiagnosticView>(
                DiagnosticView {
                    line: fault_line(error),
                    column: fault_column(error),
                    message: fault_message(error),
                },
            ),
        },
{
    serde_json::from_str::<serde_json::Value>(text)
}

/// Calls `serde_json::Error::line`.
#[verifier::external_body]
fn error_line(error: &serde_json::Error) -> (line: usize)
    ensures
        line == fault_line(*error),
{
    error.line()
}

/// Calls `serde_json::Error::column`.
#[verifier::external_body]
fn error_column(error: &serde_json::Error) -> (column: usize)
    ensures
        column == fault_column(*error),
{
    error.column()
}

/// Calls `to_string` on a `serde_json::Error`, which displays its message
/// and, where the line is not zero, its position.
#[verifier::external_body]
fn error_message(error: &serde_json::Error) -> (message: String)
    ensures
        message@ == fault_message(*error),
{
    error.to_string()
}

/// Calls `serde_json::Value::as_bool`, which gives the boolean of a boolean
/// and nothing of any other value.
#[verifier::external_body]
fn value_as_bool(value: &serde_json::Value) -> (found: Option<bool>)
    ensures
        match found {
            Some(b) => value_model(*value) == JsonValue::Bool(b),
            None => !(value_model(*value) is Bool),
        },
{
    value.as_bool()
}

/// Calls `serde_json::Value::as_u64`, which gives the integer of a number
/// held as a non-negative integer and nothing of any other value.
#[verifier::external_body]
fn value_as_u64(value: &serde_json::Value) -> (found: Option<u64>)
    ensures
        match found {
            Some(n) => value_model(*value) == JsonValue::Number(Number::PosInt(n)),
            None => !(value_model(*value) matches JsonValue::Number(Number::PosInt(_))),
        },
{
    value.as_u64()
}

/// Calls `serde_json::Value::as_i64`, which gives the integer of a number
/// held as a negative integer, that of one held as a non-negative integer
/// where it fits, and nothing of any other value.
#[verifier::external_body]
fn value_as_i64(value: &serde_json::Value) -> (found: Option<i64>)
    ensures
        match found {
            Some(n) => value_model(*value) == JsonValue::Number(Number::NegInt(n)) || (n >= 0 && value_model(*value)
                == JsonValue::Number(Number::PosInt(n as u64))),
            None => !(value_model(*value) matches JsonValue::Number(Number::NegInt(_))),
        },
{
    value.as_i64()
}

/// Calls `serde_json::Value::as_f64`, which gives a double for every number
/// (for one that is held as a double, that double) and nothing of any other
/// value; the double is handed on as its bits.
#[verifier::external_body]
fn value_as_bits(value: &serde_json::Value) -> (found: Option<u64>)
    ensures
        match found {
            Some(bits) => value_model(*value) is Number && (value_model(*value) matches JsonValue::Number(
                Number::Real(held),
            ) ==> held == bits),
            None => !(value_model(*value) is Number),
        },
{
    value.as_f64().map(|double| double.to_bits())
}

/// Calls `serde_json::Value::as_str`, which gives the string of a string
/// and nothing of any other value.
#[verifier::external_body]
fn value_as_str(value: &serde_json::Value) -> (found: Option<&str>)
    ensures
        match found {
            Some(text) => value_model(*value) == JsonValue::Text(text@),
            None => !(value_model(*value) is Text),
        },
{
    value.as_str()
}

/// Calls `serde_json::Value::as_array`, which gives the items of an array,
/// in order, and nothing of any other value.
#[verifier::external_body]
fn value_as_array(value: &serde_json::Value) -> (found: Option<&Vec<serde_json::Value>>)
    ensures
        match found {
            Some(items) => {
                &&& value_model(*value) is Array
                &&& items@.len() == value_model(*value)->Array_0.len()
                &&& forall|i: int|
                    0 <= i < items@.len() ==> value_model(#[trigger] items@[i]) == value_model(*value)->Array_0[i]
            },
            None => !(value_model(*value) is Array),
        },
{
    value.as_array()
}

/// Calls `serde_json::Value::as_object` and, on the map of an object,
/// `serde_json::Map::iter`, which hands out the members one by one, each key
/// once; they are collected in the order in which they come. Of any other
/// value it gives nothing.
#[verifier::external_body]
fn value_members(value: &serde_json::Value) -> (found: Option<Vec<(&String, &serde_json::Value)>>)
    ensures
        match found {
            Some(members) => {
                &&& value_model(*value) is Object
                &&& members@.len() == value_model(*value)->Object_0.len()
                &&& forall|i: int|
                    0 <= i < members@.len() ==> (#[trigger] members@[i]).0@ == value_model(*value)->Object_0[i].0
                        && value_model(*members@[i].1) == value_model(*value)->Object_0[i].1
            },
            None => !(value_model(*value) is Object),
        },
{
    value.as_object().map(|map| map.iter().collect())
}

/// Copies a parsed value, with all that is in it.
fn from_value(value: &serde_json::Value) -> (json: Json)
    ensures
        json@ == value_model(*value),
    decreases value_model(*value),
{
    if let Some(b) = value_as_bool(value) {
        Json::Bool(b)
    } else if let Some(n) = value_as_u64(value) {
        Json::Number(Number::PosInt(n))
    } else if let Some(n) = value_as_i64(value) {
        Json::Number(Number::NegInt(n))
    } else if let Some(bits) = value_as_bits(value) {
        Json::Number(Number::Real(bits))
    } else if let Some(text) = value_as_str(value) {
        Json::Text(String::from_str(text))
    } else if let Some(items) = value_as_array(value) {
        let ghost wanted = value_model(*value)->Array_0;
        let mut copies: Vec<Json> = Vec::new();
        let mut i: usize = 0;
        while i < items.len()
            invariant
                i <= items@.len(),
                value_model(*value) == JsonValue::Array(wanted),
                items@.len() == wanted.len(),
                forall|k: int| 0 <= k < items@.len() ==> value_model(#[trigger] items@[k]) == wanted[k],
                copies@.len() == i,
                forall|k: int| 0 <= k < i ==> copies@[k]@ == wanted[k],
            decreases items@.len() - i,
        {
            assert(value_model(items@[i as int]) == wanted[i as int]);
            assert(decreases_to!(value_model(*value) => value_model(*value)->Array_0));
            assert(decreases_to!(wanted => wanted[i as int]));
            copies.push(from_value(&items[i]));
            i += 1;
        }
        let json = Json::Array(copies);
        assert(json@->Array_0 =~= wanted);
        json
    } else if let Some(members) = value_members(value) {
        let ghost wanted = value_model(*value)->Object_0;
        let mut copies: Vec<(String, Json)> = Vec::new();
        let mut i: usize = 0;
        while i < members.len()
            invariant
                i <= members@.len(),
                value_model(*value) == JsonValue::Object(wanted),
                members@.len() == wanted.len(),
                forall|k: int|
                    0 <= k < members@.len() ==> (#[trigger] members@[k]).0@ == wanted[k].0 && value_model(
                        *members@[k].1,
                    ) == wanted[k].1,
                copies@.len() == i,
                forall|k: int| 0 <= k < i ==> copies@[k].0@ == wanted[k].0 && copies@[k].1@ == wanted[k].1,
            decreases members@.len() - i,
        {
            let member = &members[i];
            assert(member.0@ == wanted[i as int].0 && value_model(*member.1) == wanted[i as int].1);
            assert(decreases_to!(value_model(*value) => value_model(*value)->Object_0));
            assert(decreases_to!(wanted => wanted[i as int]));
            assert(decreases_to!(wanted[i as int] => wanted[i as int].1));
            copies.push((member.0.clone(), from_value(member.1)));
            i += 1;
        }
        let json = Json::Object(copies);
        assert(json@->Object_0 =~= wanted);
        json
    } else {
        Json::Null
    }
}

/// Reads `text` as one JSON document.
pub fn parse(text: &str) -> (outcome: Result<Json, Diagnostic>)
    ensures
        match outcome {
            Ok(json) => parsed(text@) == Ok::<JsonValue, DiagnosticView>(json@),
            Err(diagnostic) => parsed(text@) == Err::<JsonValue, DiagnosticView>(diagnostic@),
        },
{
    match parse_value(text) {
        Ok(value) => Ok(from_value(&value)),
        Err(error) => Err(
            Diagnostic {
                line: error_line(&error),
                column: error_column(&error),
                message: error_message(&error),
            },
        ),
    }
}

} // verus!
