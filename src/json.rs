//! The JSON values that responses are read into, and the calls into
//! serde_json that read, inspect and write them.

use vstd::prelude::*;
use serde_json::Value;
use serde_json::Error as JsonError;
use vstd::slice::slice_subrange;

verus! {

#[verifier::external_type_specification]
#[verifier::external_body]
pub struct ExValue(serde_json::Value);

#[verifier::external_type_specification]
#[verifier::external_body]
pub struct ExJsonError(JsonError);

/// What `serde_json::from_str` makes of a text.
pub uninterp spec fn parsed_json(text: Seq<char>) -> Result<serde_json::Value, JsonError>;

/// What a parse error says of itself when displayed.
pub uninterp spec fn json_error_text(e: JsonError) -> Seq<char>;

/// The member of an object under a key, if the value is an object that has it.
pub uninterp spec fn json_member(v: serde_json::Value, key: Seq<char>) -> Option<serde_json::Value>;

/// The contents of a value that is a JSON string.
pub uninterp spec fn json_str(v: serde_json::Value) -> Option<Seq<char>>;

/// The compact JSON text of a value.
pub uninterp spec fn json_text(v: serde_json::Value) -> Seq<char>;

/// The JSON string value that holds a text.
pub uninterp spec fn json_of_str(s: Seq<char>) -> serde_json::Value;

/// A text written as a JSON string literal, quoted and escaped.
pub open spec fn quoted(s: Seq<char>) -> Seq<char> {
    json_text(json_of_str(s))
}

/// The value reached from `v` by following the keys of `path` in turn.
pub open spec fn json_path(v: serde_json::Value, path: Seq<Seq<char>>) -> Option<serde_json::Value>
    decreases path.len(),
{
    if path.len() == 0 {
        Some(v)
    } else {
        match json_member(v, path[0]) {
            Some(m) => json_path(m, path.drop_first()),
            None => None,
        }
    }
}

/// The string found at the end of `path`, if there is one.
pub open spec fn json_str_at(v: serde_json::Value, path: Seq<Seq<char>>) -> Option<Seq<char>> {
    match json_path(v, path) {
        Some(m) => json_str(m),
        None => None,
    }
}

/// Relies on `serde_json::from_str::<Value>`, whose result depends on the
/// text alone.
#[verifier::external_body]
pub(crate) fn parse_json(text: &str) -> (r: Result<Value, JsonError>)
    ensures
        r == parsed_json(text@),
{
    serde_json::from_str(text)
}

/// Relies on the `Display` impl of `serde_json::Error`.
#[verifier::external_body]
pub(crate) fn error_text(e: &JsonError) -> (r: String)
    ensures
        r@ == json_error_text(*e),
{
    e.to_string()
}

/// Relies on `serde_json::Value::get` with a `&str` key: the member under
/// the key when the value is an object that has one, else `None`.
#[verifier::external_body]
pub(crate) fn member<'a>(v: &'a Value, key: &str) -> (r: Option<&'a Value>)
    ensures
        json_member(*v, key@) == (match r {
            Some(m) => Some(*m),
            None => None,
        }),
{
    v.get(key)
}

/// Relies on `serde_json::Value::as_str`: the contents of a string value,
/// `None` for any other kind of value.
#[verifier::external_body]
pub(crate) fn as_text<'a>(v: &'a Value) -> (r: Option<&'a str>)
    ensures
        json_str(*v) == (match r {
            Some(s) => Some(s@),
            None => None,
        }),
{
    v.as_str()
}

/// Relies on the `Display` impl of `serde_json::Value`: its compact JSON text.
#[verifier::external_body]
pub(crate) fn to_text(v: &Value) -> (r: String)
    ensures
        r@ == json_text(*v),
{
    v.to_string()
}

/// Relies on `From<&str> for serde_json::Value`: a string value.
#[verifier::external_body]
pub(crate) fn string_value(s: &str) -> (r: Value)
    ensures
        r == json_of_str(s@),
{
    Value::from(s)
}

/// Appends `s` to `out` as a JSON string literal.
pub(crate) fn append_quoted(out: &mut String, s: &str)
    ensures
        final(out)@ == old(out)@ + quoted(s@),
{
    let v = string_value(s);
    let t = to_text(&v);
    out.append(t.as_str());
}

/// Follows the keys of `path` from `v`, and returns the string found there.
pub(crate) fn str_at<'a>(v: &'a Value, path: &[&str]) -> (r: Option<&'a str>)
    ensures
        json_str_at(*v, path@.map_values(|k: &str| k@)) == (match r {
            Some(s) => Some(s@),
            None => None,
        }),
    decreases path@.len(),
{
    let ghost keys = path@.map_values(|k: &str| k@);
    if path.len() == 0 {
        as_text(v)
    } else {
        match member(v, path[0]) {
            Some(m) => {
                let rest = slice_subrange(path, 1, path.len());
                assert(rest@.map_values(|k: &str| k@) =~= keys.drop_first());
                str_at(m, rest)
            },
            None => None,
        }
    }
}

} // verus!
