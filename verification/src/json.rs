//! The crate's trusted window onto `serde_json`.
//!
//! Parsing and printing of JSON text is delegated to `serde_json`; every
//! call goes through one of the wrappers below, and what a call returns
//! is captured by the uninterpreted functions that the wrappers' contracts
//! apply.  Everything built on top of these contracts is verified.
use vstd::prelude::*;

verus! {

#[verifier::external_type_specification]
#[verifier::external_body]
pub struct ExValue(serde_json::Value);

/// Relies on serde_json::Value's derived Clone: the copy is the same
/// document.
pub assume_specification[ <serde_json::Value as Clone>::clone ](v: &serde_json::Value) -> (r:
    serde_json::Value)
    ensures
        r == *v,
;

/// Whether `serde_json::from_str::<Value>` accepts this text, i.e. whether
/// the text is one well-formed JSON document.
pub uninterp spec fn json_wf(s: Seq<char>) -> bool;

/// The document that `serde_json::from_str::<Value>` yields on this text
/// (meaningful only where `json_wf` holds).
pub uninterp spec fn json_of(s: Seq<char>) -> serde_json::Value;

/// The message of the error that `serde_json::from_str::<Value>` reports
/// on this text (meaningful only where `json_wf` does not hold).
pub uninterp spec fn json_err_text(s: Seq<char>) -> Seq<char>;

/// Relies on serde_json::from_str::<Value>: the result is a function of
/// the text alone; the error's message is taken over verbatim.
#[verifier::external_body]
pub(crate) fn parse_json(s: &str) -> (r: Result<serde_json::Value, String>)
    ensures
        r is Ok <==> json_wf(s@),
        r matches Ok(v) ==> v == json_of(s@),
        r matches Err(m) ==> m@ == json_err_text(s@),
{
    serde_json::from_str::<serde_json::Value>(s).map_err(|e| e.to_string())
}

/// Whether the document is an object with a member of this name.
pub uninterp spec fn json_has_field(v: serde_json::Value, key: Seq<char>) -> bool;

/// The `{:?}` rendering of the member of this name (meaningful only where
/// `json_has_field` holds).
pub uninterp spec fn json_field_debug_text(v: serde_json::Value, key: Seq<char>) -> Seq<char>;

/// Relies on serde_json::Value::get with a string index: `Some` exactly on
/// an object with a member of that name; the member is rendered with the
/// `Debug` impl of `Value`.
#[verifier::external_body]
pub(crate) fn json_field_debug(v: &serde_json::Value, key: &str) -> (r: Option<String>)
    ensures
        r is Some <==> json_has_field(*v, key@),
        r matches Some(t) ==> t@ == json_field_debug_text(*v, key@),
{
    match v.get(key) {
        Some(field) => Some(format!("{field:?}")),
        None => None,
    }
}

/// The member of this name read as a boolean: `Some` only where the
/// document is an object whose member of this name is a JSON boolean.
pub uninterp spec fn json_bool_field_of(v: serde_json::Value, key: Seq<char>) -> Option<bool>;

/// Relies on serde_json::Value::get with a string index followed by
/// Value::as_bool: both are functions of the document alone.
#[verifier::external_body]
pub(crate) fn json_bool_field(v: &serde_json::Value, key: &str) -> (r: Option<bool>)
    ensures
        r == json_bool_field_of(*v, key@),
{
    match v.get(key) {
        Some(field) => field.as_bool(),
        None => None,
    }
}

/// The compact JSON text that `serde_json::to_string` prints for this
/// document.
pub uninterp spec fn json_text_of(v: serde_json::Value) -> Seq<char>;

/// Relies on serde_json::to_string on a Value: the text is a function of
/// the document alone, and the call succeeds on every document — it can
/// fail only for a map with non-string keys, and a Value's maps are
/// keyed by strings.  The error arm is unreachable.
#[verifier::external_body]
pub(crate) fn json_to_text(v: &serde_json::Value) -> (r: String)
    ensures
        r@ == json_text_of(*v),
{
    match serde_json::to_string(v) {
        Ok(t) => t,
        Err(_) => String::new(),
    }
}

/// The indented JSON text that `serde_json::to_string_pretty` prints for
/// this document.
pub uninterp spec fn json_pretty_text_of(v: serde_json::Value) -> Seq<char>;

/// Relies on serde_json::to_string_pretty on a Value: the text is a
/// function of the document alone, and the call succeeds on every
/// document, as for `json_to_text`.  The error arm is unreachable.
#[verifier::external_body]
pub(crate) fn json_to_text_pretty(v: &serde_json::Value) -> (r: String)
    ensures
        r@ == json_pretty_text_of(*v),
{
    match serde_json::to_string_pretty(v) {
        Ok(t) => t,
        Err(_) => String::new(),
    }
}

} // verus!
