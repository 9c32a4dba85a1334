//! Reading the raw interface description: JSON parsing, and extraction of
//! the fields the selector reads into typed records.
//!
//! Extraction is deliberately lenient — a missing or non-string field
//! reads as the empty string, a missing list as empty — so that entries
//! the selector will never wrap (events, say) pass through harmlessly.
//! The selector's eligibility rule and the type grammar then decide what
//! must hold of the entries that are wrapped.

use vstd::prelude::*;

use crate::err::GenError;
use crate::interface::{AbiEntry, AbiInput};

verus! {

/// The parsed JSON document type of the json crate, declared so that
/// values of it can pass through this module. The library never looks
/// inside one except through the wrappers below.
#[verifier::external_type_specification]
#[verifier::external_body]
pub struct ExJsonValue(json::JsonValue);

/// Whether a text is a well-formed JSON document, as the json crate's
/// parser decides it (its grammar, nesting depth limit included). The
/// parser's verdict depends on the text alone.
pub uninterp spec fn json_wf(text: Seq<char>) -> bool;

/// Relies on json::parse: a document exactly for the texts its grammar
/// accepts, and nothing for any other text.
#[verifier::external_body]
fn json_parse(text: &str) -> (r: Option<json::JsonValue>)
    ensures
        r is Some <==> json_wf(text@),
{
    json::parse(text).ok()
}

/// Relies on JsonValue::members: the elements of an array document in
/// order, and none for a non-array document.
#[verifier::external_body]
fn json_members(v: &json::JsonValue) -> (r: Vec<json::JsonValue>) {
    v.members().cloned().collect()
}

/// Relies on the json crate's `Index<&str>`: the named field of an object
/// document, or the null document for anything else.
#[verifier::external_body]
fn json_field<'a>(v: &'a json::JsonValue, key: &str) -> (r: &'a json::JsonValue) {
    &v[key]
}

/// Relies on JsonValue::as_str: the text of a string document, and
/// nothing for any other document.
#[verifier::external_body]
fn json_as_str(v: &json::JsonValue) -> (r: Option<String>) {
    match v.as_str() {
        Some(s) => Some(s.to_owned()),
        None => None,
    }
}

fn field_text(v: &json::JsonValue, key: &str) -> String {
    match json_as_str(json_field(v, key)) {
        Some(s) => s,
        None => String::new(),
    }
}

/// Parses the interface description text and extracts, for each entry of
/// the array, the fields the selector reads. Succeeds exactly on
/// well-formed JSON; any other text fails with `MalformedDescription`.
pub fn parse_interface(text: &str) -> (r: Result<Vec<AbiEntry>, GenError>)
    ensures
        match r {
            Ok(_) => json_wf(text@),
            Err(e) => e == GenError::MalformedDescription && !json_wf(text@),
        },
{
    let doc = match json_parse(text) {
        Some(d) => d,
        None => {
            return Err(GenError::MalformedDescription);
        },
    };
    let members = json_members(&doc);
    let mut entries: Vec<AbiEntry> = Vec::new();
    let mut i: usize = 0;
    while i < members.len()
        invariant
            0 <= i <= members@.len(),
        decreases members@.len() - i,
    {
        let m = &members[i];
        let entry_type = field_text(m, "type");
        let name = field_text(m, "name");
        let state_mutability = field_text(m, "stateMutability");
        let mut inputs: Vec<AbiInput> = Vec::new();
        let input_members = json_members(json_field(m, "inputs"));
        let mut j: usize = 0;
        while j < input_members.len()
            invariant
                0 <= j <= input_members@.len(),
            decreases input_members@.len() - j,
        {
            let im = &input_members[j];
            inputs.push(AbiInput { name: field_text(im, "name"), type_text: field_text(im, "type") });
            j = j + 1;
        }
        let mut outputs: Vec<String> = Vec::new();
        let output_members = json_members(json_field(m, "outputs"));
        let mut k: usize = 0;
        while k < output_members.len()
            invariant
                0 <= k <= output_members@.len(),
            decreases output_members@.len() - k,
        {
            outputs.push(field_text(&output_members[k], "type"));
            k = k + 1;
        }
        entries.push(AbiEntry { entry_type, name, state_mutability, inputs, outputs });
        i = i + 1;
    }
    Ok(entries)
}

} // verus!
