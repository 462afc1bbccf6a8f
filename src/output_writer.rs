//! Lookups in the tooling's JSON output file, which records for each contract
//! the address it was deployed at and the hash of its initialization.
use vstd::prelude::*;
use vstd::string::StringExecFns;

use crate::script_error::ScriptError;

verus! {

/// `json::JsonValue`, a parsed JSON document, carried through unopened.
#[verifier::external_type_specification]
#[verifier::external_body]
pub struct ExJsonValue(json::JsonValue);

/// Whether `json::parse` accepts the text as a JSON document.
pub uninterp spec fn json_parse_ok(text: Seq<char>) -> bool;

/// Relies on `json::parse`: the document the text holds, or the parser's
/// message where the text is not JSON.
#[verifier::external_body]
fn parse_json(text: &str) -> (r: Result<json::JsonValue, String>)
    ensures
        r is Ok <==> json_parse_ok(text@),
{
    json::parse(text).map_err(|e| e.to_string())
}

/// Relies on `json::JsonValue`'s indexing by key and `JsonValue::as_str`: the
/// string under `doc[key][field]`, if there is one.
#[verifier::external_body]
fn string_at(doc: &json::JsonValue, key: &str, field: &str) -> (r: Option<String>) {
    doc[key][field].as_str().map(|s| s.to_string())
}

/// Relies on `json::JsonValue::new_object`: an empty JSON object.
#[verifier::external_body]
fn new_json_object() -> (r: json::JsonValue) {
    json::JsonValue::new_object()
}

/// Relies on `json::JsonValue`'s mutable indexing by key: puts `value` under
/// `doc[key]`.
#[verifier::external_body]
fn set_json_member(doc: &mut json::JsonValue, key: &str, value: json::JsonValue) {
    doc[key] = value;
}

/// Relies on `json::JsonValue`'s mutable indexing by key: puts the string
/// `value` under `doc[key][field]`.
#[verifier::external_body]
fn set_json_string(doc: &mut json::JsonValue, key: &str, field: &str, value: &str) {
    doc[key][field] = json::JsonValue::String(value.to_string());
}

/// Relies on `json::stringify_pretty`: the document as text, indented by four spaces.
#[verifier::external_body]
fn pretty_json(doc: json::JsonValue) -> (r: String) {
    json::stringify_pretty(doc, 4)
}

/// Which entry of the output file to read or write.
pub enum OutputKeys {
    /// The address a contract was deployed at.
    Deployment { key: &'static str },
    /// The hash of a contract's initialization transaction.
    Init { key: &'static str },
}

impl OutputKeys {
    /// The contract's section in the file.
    pub open spec fn section(&self) -> Seq<char> {
        match self {
            OutputKeys::Deployment { key } => key@,
            OutputKeys::Init { key } => key@,
        }
    }

    /// The field within the contract's section.
    pub open spec fn field(&self) -> Seq<char> {
        match self {
            OutputKeys::Deployment { .. } => "deploy"@,
            OutputKeys::Init { .. } => "init"@,
        }
    }
}

/// Reads an entry of the output file, given the file's text (`None` where
/// the file does not exist). Fails with `JsonOutputError` where there is no
/// file, where its text is not JSON, and where the entry is not a string.
pub fn read_output_file(file_contents: Option<&str>, key: OutputKeys) -> (r: Result<
    String,
    ScriptError,
>)
    ensures
        file_contents is None ==> r is Err && r->Err_0 is JsonOutputError && r->Err_0.detail()
            == "Deployed addresses file not found"@,
        file_contents is Some && !json_parse_ok(file_contents->Some_0@) ==> r is Err
            && r->Err_0 is JsonOutputError,
        r is Err ==> r->Err_0 is JsonOutputError,
{
    let text = match file_contents {
        Some(t) => t,
        None => {
            return Err(
                ScriptError::JsonOutputError(
                    <String as StringExecFns>::from_str("Deployed addresses file not found"),
                ),
            );
        },
    };
    let doc = match parse_json(text) {
        Ok(d) => d,
        Err(msg) => return Err(ScriptError::JsonOutputError(msg)),
    };
    let (section, field) = match key {
        OutputKeys::Deployment { key } => (key, "deploy"),
        OutputKeys::Init { key } => (key, "init"),
    };
    match string_at(&doc, section, field) {
        Some(s) => Ok(s),
        None => Err(
            ScriptError::JsonOutputError(
                <String as StringExecFns>::from_str("Output entry missing or not a string"),
            ),
        ),
    }
}

/// The text of the output file after recording `value` under `key`, given
/// the file's current text (`None` where there is no file yet). A deployment
/// replaces the contract's whole section; an initialization sets one field
/// of it. Fails with `JsonOutputError` where the current text is not JSON.
pub fn updated_output_file(file_contents: Option<&str>, key: OutputKeys, value: &str) -> (r: Result<
    String,
    ScriptError,
>)
    ensures
        r is Err <==> file_contents is Some && !json_parse_ok(file_contents->Some_0@),
        r is Err ==> r->Err_0 is JsonOutputError,
{
    let mut doc = match file_contents {
        Some(text) => match parse_json(text) {
            Ok(d) => d,
            Err(msg) => return Err(ScriptError::JsonOutputError(msg)),
        },
        None => new_json_object(),
    };
    match key {
        OutputKeys::Deployment { key } => {
            set_json_member(&mut doc, key, new_json_object());
            set_json_string(&mut doc, key, "deploy", value);
        },
        OutputKeys::Init { key } => {
            set_json_string(&mut doc, key, "init", value);
        },
    }
    Ok(pretty_json(doc))
}

} // verus!
