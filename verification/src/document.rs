//! Decoding the text of a document.
//!
//! A listing arrives as one envelope, a comment tree as an array of
//! envelopes: the post's listing, then the listing of its comments.

use crate::decode::{decode_things, thing_fault, thing_holds, things_fault, things_hold};
use crate::error::RedditError;
use crate::json::{items_of, parse, parsed, Diagnostic, DiagnosticView, Json, JsonValue};
use crate::types::Thing;
use vstd::prelude::*;
use vstd::string::*;

verus! {

/// The fault of a document that should be an array and is not.
pub open spec fn not_an_array() -> DiagnosticView {
    DiagnosticView { line: 0, column: 0, message: "invalid type: expected an array"@ }
}

/// The first fault in `text` as the document of one envelope: a syntax error,
/// or else the first fault in the value it denotes.
pub open spec fn thing_document_fault(text: Seq<char>) -> Option<DiagnosticView> {
    match parsed(text) {
        Err(fault) => Some(fault),
        Ok(value) => thing_fault(value),
    }
}

/// The first fault in `value` as an array of envelopes.
pub open spec fn thing_array_fault(value: JsonValue) -> Option<DiagnosticView> {
    match value {
        JsonValue::Array(items) => things_fault(items, 0),
        _ => Some(not_an_array()),
    }
}

/// The first fault in `text` as the document of an array of envelopes: a
/// syntax error, or else the first fault in the value it denotes.
pub open spec fn things_document_fault(text: Seq<char>) -> Option<DiagnosticView> {
    match parsed(text) {
        Err(fault) => Some(fault),
        Ok(value) => thing_array_fault(value),
    }
}

/// `error` is the decode error of the document `text` with the fault `fault`.
pub open spec fn is_decode_error(error: RedditError, text: Seq<char>, fault: Option<DiagnosticView>) -> bool {
    match error {
        RedditError::Json { data, error } => data@ == text && fault == Some(error@),
        _ => false,
    }
}

/// Decodes the envelopes of an array.
pub fn things_from_json(json: &Json) -> (outcome: Result<Vec<Thing>, Diagnostic>)
    ensures
        match outcome {
            Ok(things) => thing_array_fault(json@) is None && things_hold(things@, json@->Array_0),
            Err(fault) => thing_array_fault(json@) == Some(fault@),
        },
{
    match json {
        Json::Array(items) => {
            assert(items_of(items@) =~= json@->Array_0);
            decode_things(items)
        },
        _ => Err(
            Diagnostic { line: 0, column: 0, message: String::from_str("invalid type: expected an array") },
        ),
    }
}

/// Decodes the text of a document that holds one envelope, as a listing
/// request returns it.
pub fn decode_thing(text: &str) -> (outcome: Result<Thing, RedditError>)
    ensures
        match outcome {
            Ok(thing) => thing_document_fault(text@) is None && thing_holds(thing, parsed(text@)->Ok_0),
            Err(error) => is_decode_error(error, text@, thing_document_fault(text@)),
        },
{
    let decoded = match parse(text) {
        Ok(json) => Thing::from_json(&json),
        Err(fault) => Err(fault),
    };
    match decoded {
        Ok(thing) => Ok(thing),
        Err(fault) => Err(RedditError::Json { data: String::from_str(text), error: fault }),
    }
}

/// Decodes the text of a document that holds an array of envelopes, as a
/// request for a post's comments returns it.
pub fn decode_things_document(text: &str) -> (outcome: Result<Vec<Thing>, RedditError>)
    ensures
        match outcome {
            Ok(things) => things_document_fault(text@) is None && things_hold(
                things@,
                parsed(text@)->Ok_0->Array_0,
            ),
            Err(error) => is_decode_error(error, text@, things_document_fault(text@)),
        },
{
    let decoded = match parse(text) {
        Ok(json) => things_from_json(&json),
        Err(fault) => Err(fault),
    };
    match decoded {
        Ok(things) => Ok(things),
        Err(fault) => Err(RedditError::Json { data: String::from_str(text), error: fault }),
    }
}

} // verus!
