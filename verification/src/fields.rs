//! Reading the members of a JSON object, one typed member at a time.
//!
//! Each reader has a specification over [`JsonValue`] that says what the
//! member must look like and what is read from it, and names the fault where
//! the member is missing or of another type.

use crate::json::{Diagnostic, DiagnosticView, Json, JsonValue, Number};
use crate::types::PostHint;
use crate::text::str_eq;
use vstd::prelude::*;
use vstd::string::*;

verus! {

/// The fault of an object that lacks the member `name`.
pub open spec fn missing(name: Seq<char>) -> DiagnosticView {
    DiagnosticView { line: 0, column: 0, message: "missing field `"@ + name + "`"@ }
}

/// The fault of a member `name` whose value has the wrong JSON type, or is a
/// number outside the range of its field.
pub open spec fn mistyped(name: Seq<char>) -> DiagnosticView {
    DiagnosticView { line: 0, column: 0, message: "invalid type for field `"@ + name + "`"@ }
}

/// The fault of a string that is none of the values an enumeration knows.
pub open spec fn unknown_variant(value: Seq<char>) -> DiagnosticView {
    DiagnosticView { line: 0, column: 0, message: "unknown variant `"@ + value + "`"@ }
}

/// The fault in an outcome, if it is one.
pub open spec fn fault_of<T>(outcome: Result<T, DiagnosticView>) -> Option<DiagnosticView> {
    match outcome {
        Ok(_) => None,
        Err(fault) => Some(fault),
    }
}

/// The first fault met while checking the members of an object in turn.
pub struct Checked {
    pub fault: Option<DiagnosticView>,
}

impl Checked {
    /// Nothing checked yet.
    pub open spec fn start() -> Checked {
        Checked { fault: None }
    }

    /// Checks one more member, unless a fault was met already.
    pub open spec fn also<T>(self, outcome: Result<T, DiagnosticView>) -> Checked {
        self.also_fault(fault_of(outcome))
    }

    /// Adds the fault of one more check, unless a fault was met already.
    pub open spec fn also_fault(self, fault: Option<DiagnosticView>) -> Checked {
        if self.fault is Some {
            self
        } else {
            Checked { fault }
        }
    }
}

/// `outcome` is a success with `value`.
pub open spec fn yields<T>(outcome: Result<T, DiagnosticView>, value: T) -> bool {
    outcome == Ok::<T, DiagnosticView>(value)
}

/// What an optional string stands for.
pub open spec fn text_of(text: Option<String>) -> Option<Seq<char>> {
    match text {
        Some(s) => Some(s@),
        None => None,
    }
}

/// What an optional JSON value stands for.
pub open spec fn json_of(json: Option<Json>) -> Option<JsonValue> {
    match json {
        Some(j) => Some(j@),
        None => None,
    }
}

/// What a list of strings stands for.
pub open spec fn texts_of(texts: Seq<String>) -> Seq<Seq<char>> {
    Seq::new(texts.len(), |i: int| texts[i]@)
}

/// A required string.
pub open spec fn text_at(object: JsonValue, name: Seq<char>) -> Result<Seq<char>, DiagnosticView> {
    match object.field(name) {
        None => Err(missing(name)),
        Some(JsonValue::Text(s)) => Ok(s),
        Some(_) => Err(mistyped(name)),
    }
}

/// An optional string: absent where the member is missing or `null`.
pub open spec fn opt_text_at(object: JsonValue, name: Seq<char>) -> Result<Option<Seq<char>>, DiagnosticView> {
    match object.field(name) {
        None => Ok(None),
        Some(JsonValue::Null) => Ok(None),
        Some(JsonValue::Text(s)) => Ok(Some(s)),
        Some(_) => Err(mistyped(name)),
    }
}

/// A required boolean.
pub open spec fn bool_at(object: JsonValue, name: Seq<char>) -> Result<bool, DiagnosticView> {
    match object.field(name) {
        None => Err(missing(name)),
        Some(JsonValue::Bool(b)) => Ok(b),
        Some(_) => Err(mistyped(name)),
    }
}

/// An optional boolean: absent where the member is missing or `null`.
pub open spec fn opt_bool_at(object: JsonValue, name: Seq<char>) -> Result<Option<bool>, DiagnosticView> {
    match object.field(name) {
        None => Ok(None),
        Some(JsonValue::Null) => Ok(None),
        Some(JsonValue::Bool(b)) => Ok(Some(b)),
        Some(_) => Err(mistyped(name)),
    }
}

/// A required non-negative integer.
pub open spec fn u64_at(object: JsonValue, name: Seq<char>) -> Result<u64, DiagnosticView> {
    match object.field(name) {
        None => Err(missing(name)),
        Some(JsonValue::Number(Number::PosInt(n))) => Ok(n),
        Some(_) => Err(mistyped(name)),
    }
}

/// An optional non-negative integer.
pub open spec fn opt_u64_at(object: JsonValue, name: Seq<char>) -> Result<Option<u64>, DiagnosticView> {
    match object.field(name) {
        None => Ok(None),
        Some(JsonValue::Null) => Ok(None),
        Some(JsonValue::Number(Number::PosInt(n))) => Ok(Some(n)),
        Some(_) => Err(mistyped(name)),
    }
}

/// An optional non-negative integer of at most 32 bits.
pub open spec fn opt_u32_at(object: JsonValue, name: Seq<char>) -> Result<Option<u32>, DiagnosticView> {
    match object.field(name) {
        None => Ok(None),
        Some(JsonValue::Null) => Ok(None),
        Some(JsonValue::Number(Number::PosInt(n))) => if n <= u32::MAX {
            Ok(Some(n as u32))
        } else {
            Err(mistyped(name))
        },
        Some(_) => Err(mistyped(name)),
    }
}

/// A required integer that fits in 64 bits with a sign.
pub open spec fn i64_at(object: JsonValue, name: Seq<char>) -> Result<i64, DiagnosticView> {
    match object.field(name) {
        None => Err(missing(name)),
        Some(JsonValue::Number(Number::PosInt(n))) => if n <= i64::MAX {
            Ok(n as i64)
        } else {
            Err(mistyped(name))
        },
        Some(JsonValue::Number(Number::NegInt(n))) => Ok(n),
        Some(_) => Err(mistyped(name)),
    }
}

/// A required number of any form.
pub open spec fn number_at(object: JsonValue, name: Seq<char>) -> Result<Number, DiagnosticView> {
    match object.field(name) {
        None => Err(missing(name)),
        Some(JsonValue::Number(n)) => Ok(n),
        Some(_) => Err(mistyped(name)),
    }
}

/// A required member of any type, `null` included.
pub open spec fn any_at(object: JsonValue, name: Seq<char>) -> Result<JsonValue, DiagnosticView> {
    match object.field(name) {
        None => Err(missing(name)),
        Some(value) => Ok(value),
    }
}

/// An optional member of any type: absent where it is missing or `null`.
pub open spec fn opt_any_at(object: JsonValue, name: Seq<char>) -> Option<JsonValue> {
    match object.field(name) {
        None => None,
        Some(JsonValue::Null) => None,
        Some(value) => Some(value),
    }
}

/// The post hint that `word` names.
pub open spec fn hint_named(word: Seq<char>) -> Option<PostHint> {
    if word == "image"@ {
        Some(PostHint::Image)
    } else if word == "link"@ {
        Some(PostHint::Link)
    } else if word == "hosted:video"@ {
        Some(PostHint::HostedVideo)
    } else if word == "rich:video"@ {
        Some(PostHint::RichVideo)
    } else if word == "self"@ {
        Some(PostHint::DataSelf)
    } else if word == "gallery"@ {
        Some(PostHint::Gallery)
    } else {
        None
    }
}

/// An optional post hint: absent where the member is missing or `null`, a
/// fault where it is a word that names no hint.
pub open spec fn opt_hint_at(object: JsonValue, name: Seq<char>) -> Result<Option<PostHint>, DiagnosticView> {
    match object.field(name) {
        None => Ok(None),
        Some(JsonValue::Null) => Ok(None),
        Some(JsonValue::Text(word)) => match hint_named(word) {
            Some(hint) => Ok(Some(hint)),
            None => Err(unknown_variant(word)),
        },
        Some(_) => Err(mistyped(name)),
    }
}

/// Every item of `items` is a string.
pub open spec fn all_text(items: Seq<JsonValue>) -> bool {
    forall|i: int| 0 <= i < items.len() ==> #[trigger] items[i] is Text
}

/// A required array of strings.
pub open spec fn texts_at(object: JsonValue, name: Seq<char>) -> Result<Seq<Seq<char>>, DiagnosticView> {
    match object.field(name) {
        None => Err(missing(name)),
        Some(JsonValue::Array(items)) => if all_text(items) {
            Ok(Seq::new(items.len(), |i: int| items[i]->Text_0))
        } else {
            Err(mistyped(name))
        },
        Some(_) => Err(mistyped(name)),
    }
}

/// Builds the fault of an object that lacks the member `name`.
pub fn missing_field(name: &str) -> (fault: Diagnostic)
    ensures
        fault@ == missing(name@),
{
    let mut message = String::from_str("missing field `");
    message.append(name);
    message.append("`");
    Diagnostic { line: 0, column: 0, message }
}

/// Builds the fault of a member `name` of the wrong type.
pub fn mistyped_field(name: &str) -> (fault: Diagnostic)
    ensures
        fault@ == mistyped(name@),
{
    let mut message = String::from_str("invalid type for field `");
    message.append(name);
    message.append("`");
    Diagnostic { line: 0, column: 0, message }
}

/// Builds the fault of a string that no enumeration value is named by.
pub fn unknown_variant_of(value: &str) -> (fault: Diagnostic)
    ensures
        fault@ == unknown_variant(value@),
{
    let mut message = String::from_str("unknown variant `");
    message.append(value);
    message.append("`");
    Diagnostic { line: 0, column: 0, message }
}

/// Reads a required string.
pub fn read_text(object: &Json, name: &str) -> (outcome: Result<String, Diagnostic>)
    ensures
        match outcome {
            Ok(text) => text_at(object@, name@) == Ok::<Seq<char>, DiagnosticView>(text@),
            Err(fault) => text_at(object@, name@) == Err::<Seq<char>, DiagnosticView>(fault@),
        },
{
    match object.get(name) {
        None => Err(missing_field(name)),
        Some(Json::Text(s)) => Ok(s.clone()),
        Some(_) => Err(mistyped_field(name)),
    }
}

/// Reads an optional string.
pub fn read_opt_text(object: &Json, name: &str) -> (outcome: Result<Option<String>, Diagnostic>)
    ensures
        match outcome {
            Ok(text) => opt_text_at(object@, name@) == Ok::<Option<Seq<char>>, DiagnosticView>(text_of(text)),
            Err(fault) => opt_text_at(object@, name@) == Err::<Option<Seq<char>>, DiagnosticView>(fault@),
        },
{
    match object.get(name) {
        None => Ok(None),
        Some(Json::Null) => Ok(None),
        Some(Json::Text(s)) => Ok(Some(s.clone())),
        Some(_) => Err(mistyped_field(name)),
    }
}

/// Reads a required boolean.
pub fn read_bool(object: &Json, name: &str) -> (outcome: Result<bool, Diagnostic>)
    ensures
        match outcome {
            Ok(b) => bool_at(object@, name@) == Ok::<bool, DiagnosticView>(b),
            Err(fault) => bool_at(object@, name@) == Err::<bool, DiagnosticView>(fault@),
        },
{
    match object.get(name) {
        None => Err(missing_field(name)),
        Some(Json::Bool(b)) => Ok(*b),
        Some(_) => Err(mistyped_field(name)),
    }
}

/// Reads an optional boolean.
pub fn read_opt_bool(object: &Json, name: &str) -> (outcome: Result<Option<bool>, Diagnostic>)
    ensures
        match outcome {
            Ok(b) => opt_bool_at(object@, name@) == Ok::<Option<bool>, DiagnosticView>(b),
            Err(fault) => opt_bool_at(object@, name@) == Err::<Option<bool>, DiagnosticView>(fault@),
        },
{
    match object.get(name) {
        None => Ok(None),
        Some(Json::Null) => Ok(None),
        Some(Json::Bool(b)) => Ok(Some(*b)),
        Some(_) => Err(mistyped_field(name)),
    }
}

/// Reads a required non-negative integer.
pub fn read_u64(object: &Json, name: &str) -> (outcome: Result<u64, Diagnostic>)
    ensures
        match outcome {
            Ok(n) => u64_at(object@, name@) == Ok::<u64, DiagnosticView>(n),
            Err(fault) => u64_at(object@, name@) == Err::<u64, DiagnosticView>(fault@),
        },
{
    match object.get(name) {
        None => Err(missing_field(name)),
        Some(Json::Number(Number::PosInt(n))) => Ok(*n),
        Some(_) => Err(mistyped_field(name)),
    }
}

/// Reads an optional non-negative integer.
pub fn read_opt_u64(object: &Json, name: &str) -> (outcome: Result<Option<u64>, Diagnostic>)
    ensures
        match outcome {
            Ok(n) => opt_u64_at(object@, name@) == Ok::<Option<u64>, DiagnosticView>(n),
            Err(fault) => opt_u64_at(object@, name@) == Err::<Option<u64>, DiagnosticView>(fault@),
        },
{
    match object.get(name) {
        None => Ok(None),
        Some(Json::Null) => Ok(None),
        Some(Json::Number(Number::PosInt(n))) => Ok(Some(*n)),
        Some(_) => Err(mistyped_field(name)),
    }
}

/// Reads an optional non-negative integer of at most 32 bits.
pub fn read_opt_u32(object: &Json, name: &str) -> (outcome: Result<Option<u32>, Diagnostic>)
    ensures
        match outcome {
            Ok(n) => opt_u32_at(object@, name@) == Ok::<Option<u32>, DiagnosticView>(n),
            Err(fault) => opt_u32_at(object@, name@) == Err::<Option<u32>, DiagnosticView>(fault@),
        },
{
    match object.get(name) {
        None => Ok(None),
        Some(Json::Null) => Ok(None),
        Some(Json::Number(Number::PosInt(n))) => {
            if *n <= 0xffff_ffff {
                Ok(Some(*n as u32))
            } else {
                Err(mistyped_field(name))
            }
        },
        Some(_) => Err(mistyped_field(name)),
    }
}

/// Reads a required signed integer.
pub fn read_i64(object: &Json, name: &str) -> (outcome: Result<i64, Diagnostic>)
    ensures
        match outcome {
            Ok(n) => i64_at(object@, name@) == Ok::<i64, DiagnosticView>(n),
            Err(fault) => i64_at(object@, name@) == Err::<i64, DiagnosticView>(fault@),
        },
{
    match object.get(name) {
        None => Err(missing_field(name)),
        Some(Json::Number(Number::PosInt(n))) => {
            if *n <= 0x7fff_ffff_ffff_ffff {
                Ok(*n as i64)
            } else {
                Err(mistyped_field(name))
            }
        },
        Some(Json::Number(Number::NegInt(n))) => Ok(*n),
        Some(_) => Err(mistyped_field(name)),
    }
}

/// Reads a required number.
pub fn read_number(object: &Json, name: &str) -> (outcome: Result<Number, Diagnostic>)
    ensures
        match outcome {
            Ok(n) => number_at(object@, name@) == Ok::<Number, DiagnosticView>(n),
            Err(fault) => number_at(object@, name@) == Err::<Number, DiagnosticView>(fault@),
        },
{
    match object.get(name) {
        None => Err(missing_field(name)),
        Some(Json::Number(n)) => Ok(*n),
        Some(_) => Err(mistyped_field(name)),
    }
}

/// Reads a required member of any type, and copies it.
pub fn read_any(object: &Json, name: &str) -> (outcome: Result<Json, Diagnostic>)
    ensures
        match outcome {
            Ok(value) => any_at(object@, name@) == Ok::<JsonValue, DiagnosticView>(value@),
            Err(fault) => any_at(object@, name@) == Err::<JsonValue, DiagnosticView>(fault@),
        },
{
    match object.get(name) {
        None => Err(missing_field(name)),
        Some(value) => Ok(value.clone()),
    }
}

/// Reads an optional member of any type, and copies it.
pub fn read_opt_any(object: &Json, name: &str) -> (value: Option<Json>)
    ensures
        json_of(value) == opt_any_at(object@, name@),
{
    match object.get(name) {
        None => None,
        Some(Json::Null) => None,
        Some(value) => Some(value.clone()),
    }
}

/// The post hint that `word` names, if it names one.
pub fn hint_from_name(word: &str) -> (hint: Option<PostHint>)
    ensures
        hint == hint_named(word@),
{
    if str_eq(word, "image") {
        Some(PostHint::Image)
    } else if str_eq(word, "link") {
        Some(PostHint::Link)
    } else if str_eq(word, "hosted:video") {
        Some(PostHint::HostedVideo)
    } else if str_eq(word, "rich:video") {
        Some(PostHint::RichVideo)
    } else if str_eq(word, "self") {
        Some(PostHint::DataSelf)
    } else if str_eq(word, "gallery") {
        Some(PostHint::Gallery)
    } else {
        None
    }
}

/// Reads an optional post hint.
pub fn read_opt_hint(object: &Json, name: &str) -> (outcome: Result<Option<PostHint>, Diagnostic>)
    ensures
        match outcome {
            Ok(hint) => opt_hint_at(object@, name@) == Ok::<Option<PostHint>, DiagnosticView>(hint),
            Err(fault) => opt_hint_at(object@, name@) == Err::<Option<PostHint>, DiagnosticView>(fault@),
        },
{
    match object.get(name) {
        None => Ok(None),
        Some(Json::Null) => Ok(None),
        Some(Json::Text(word)) => match hint_from_name(word.as_str()) {
            Some(hint) => Ok(Some(hint)),
            None => Err(unknown_variant_of(word.as_str())),
        },
        Some(_) => Err(mistyped_field(name)),
    }
}

/// Reads a required array of strings.
pub fn read_texts(object: &Json, name: &str) -> (outcome: Result<Vec<String>, Diagnostic>)
    ensures
        match outcome {
            Ok(texts) => texts_at(object@, name@) == Ok::<Seq<Seq<char>>, DiagnosticView>(texts_of(texts@)),
            Err(fault) => texts_at(object@, name@) == Err::<Seq<Seq<char>>, DiagnosticView>(fault@),
        },
{
    match object.get(name) {
        None => Err(missing_field(name)),
        Some(Json::Array(items)) => {
            let ghost values = object@.field(name@)->Some_0->Array_0;
            let mut texts: Vec<String> = Vec::new();
            let mut i: usize = 0;
            while i < items.len()
                invariant
                    i <= items@.len(),
                    object@.field(name@) == Some(JsonValue::Array(values)),
                    values.len() == items@.len(),
                    forall|k: int| 0 <= k < values.len() ==> values[k] == items@[k]@,
                    texts@.len() == i,
                    forall|k: int| 0 <= k < i ==> values[k] == JsonValue::Text(#[trigger] texts@[k]@),
                decreases items@.len() - i,
            {
                match &items[i] {
                    Json::Text(s) => {
                        texts.push(s.clone());
                    },
                    _ => {
                        assert(!(values[i as int] is Text));
                        return Err(mistyped_field(name));
                    },
                }
                i += 1;
            }
            proof {
                assert forall|k: int| 0 <= k < values.len() implies #[trigger] values[k] is Text by {
                    assert(values[k] == JsonValue::Text(texts@[k]@));
                }
                assert(texts_of(texts@) =~= Seq::new(values.len(), |k: int| values[k]->Text_0));
            }
            Ok(texts)
        },
        Some(_) => Err(mistyped_field(name)),
    }
}

} // verus!
