//! The JSON shapes of the remote service's responses, behind trusted
//! wrappers around `serde_json`.  Each extraction is a function of the body
//! text alone; its result is given a name, and the verified decision
//! functions speak of that name exactly.

use vstd::prelude::*;

verus! {

/// The string at the `value` field of the first element of the JSON array
/// `body`, when the body parses as such; `None` otherwise.  This is the
/// shape of the handshake and refresh responses.
pub uninterp spec fn first_value_field(body: Seq<char>) -> Option<Seq<char>>;

/// Relies on `serde_json::from_str`, `Value::get` and `Value::as_str`:
/// parses the body and returns the `value` string field of the first array
/// element, or `None` when the body, the element or the field is absent or
/// of the wrong type.
#[verifier::external_body]
pub(crate) fn extract_first_value_field(body: &str) -> (r: Option<String>)
    ensures
        r matches Some(s) ==> first_value_field(body@) == Some(s@),
        r is None ==> first_value_field(body@) is None,
{
    let json: serde_json::Value = serde_json::from_str(body).ok()?;
    let field = json.get(0)?.get("value")?.as_str()?;
    Some(field.to_owned())
}

/// The string at the `url` field of the first element of the JSON array
/// `body`, when the body parses as such; `None` otherwise.  This is the
/// shape of the item-resolution response.
pub uninterp spec fn first_url_field(body: Seq<char>) -> Option<Seq<char>>;

/// Relies on `serde_json::from_str`, `Value::get` and `Value::as_str`:
/// parses the body and returns the `url` string field of the first array
/// element, or `None` when the body, the element or the field is absent or
/// of the wrong type.
#[verifier::external_body]
pub(crate) fn extract_first_url_field(body: &str) -> (r: Option<String>)
    ensures
        r matches Some(s) ==> first_url_field(body@) == Some(s@),
        r is None ==> first_url_field(body@) is None,
{
    let json: serde_json::Value = serde_json::from_str(body).ok()?;
    let field = json.get(0)?.get("url")?.as_str()?;
    Some(field.to_owned())
}

/// The `watchPath` strings of the elements of the `item.episodes.items`
/// array of the JSON object `body`, in order, when the body parses as such;
/// `None` otherwise.  This is the shape of the collection-listing response.
pub uninterp spec fn watch_paths(body: Seq<char>) -> Option<Seq<Seq<char>>>;

/// Relies on `serde_json::from_str`, `Value::get`, `Value::as_array` and
/// `Value::as_str`: parses the body and returns every element's `watchPath`
/// string, in order, or `None` when the path to the array, the array
/// itself, or any element's field is absent or of the wrong type.
#[verifier::external_body]
pub(crate) fn extract_watch_paths(body: &str) -> (r: Option<Vec<String>>)
    ensures
        r matches Some(v) ==> watch_paths(body@) == Some(v.deep_view()),
        r is None ==> watch_paths(body@) is None,
{
    let json: serde_json::Value = serde_json::from_str(body).ok()?;
    let items = json.get("item")?.get("episodes")?.get("items")?.as_array()?;
    let mut out = Vec::with_capacity(items.len());
    for item in items {
        out.push(item.get("watchPath")?.as_str()?.to_owned());
    }
    Some(out)
}

} // verus!
