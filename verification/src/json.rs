use vstd::prelude::*;

verus! {

/// Declares serde_json::Value so that signatures can carry it; its value
/// stays opaque.
#[verifier::external_type_specification]
#[verifier::external_body]
pub struct ExValue(serde_json::Value);

/// Whether serde_json accepts a string as a JSON document.
pub uninterp spec fn json_accepts(s: Seq<char>) -> bool;

/// The string a JSON document carries under the given key: present
/// exactly when the document parses to an object holding a string value
/// there.
pub uninterp spec fn json_str_field(doc: Seq<char>, key: Seq<char>) -> Option<Seq<char>>;

/// Relies on serde_json::from_str: parsing succeeds exactly on the strings
/// that serde_json accepts as JSON; a failure is returned as its message.
#[verifier::external_body]
pub(crate) fn parse_json(s: &str) -> (r: Result<serde_json::Value, String>)
    ensures
        r is Ok <==> json_accepts(s@),
{
    match serde_json::from_str(s) {
        Ok(v) => Ok(v),
        Err(e) => Err(e.to_string()),
    }
}

/// Relies on serde_json::from_str, Value::get and Value::as_str: the
/// string field the document carries under the key, when the document is
/// an object holding a string value there, and nothing otherwise.
#[verifier::external_body]
pub(crate) fn get_str_field(doc: &str, key: &str) -> (r: Option<String>)
    ensures
        r matches Some(s) ==> json_str_field(doc@, key@) == Some(s@),
        r is None ==> json_str_field(doc@, key@) is None,
{
    match serde_json::from_str::<serde_json::Value>(doc) {
        Ok(v) => match v.get(key) {
            Some(serde_json::Value::String(s)) => Some(s.clone()),
            _ => None,
        },
        Err(_) => None,
    }
}

} // verus!
