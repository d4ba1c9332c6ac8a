//! Stored form of list-valued fields: a JSON array of strings.

use vstd::prelude::*;

verus! {

/// The texts of a sequence of strings.
pub open spec fn texts(v: Seq<String>) -> Seq<Seq<char>> {
    v.map_values(|s: String| s@)
}

/// The texts of an optional list of strings.
pub open spec fn opt_texts(v: Option<Vec<String>>) -> Option<Seq<Seq<char>>> {
    match v {
        Some(items) => Some(texts(items@)),
        None => None,
    }
}

/// The JSON text that serde_json writes for a list of strings.
pub uninterp spec fn json_of_list(items: Seq<Seq<char>>) -> Seq<char>;

/// Relies on `serde_json::to_string`: a list of strings always serialises,
/// and the text it writes depends on the strings alone.
#[verifier::external_body]
pub(crate) fn encode_list(items: &Vec<String>) -> (r: String)
    ensures
        r@ == json_of_list(texts(items@)),
{
    serde_json::to_string(items).unwrap_or_default()
}

/// Relies on `serde_json::from_str`: reading back the text that
/// `serde_json::to_string` wrote for a list of strings gives that list,
/// in the same order.
#[verifier::external_body]
pub(crate) fn decode_list(text: &str) -> (r: Option<Vec<String>>)
    ensures
        forall|v: Seq<Seq<char>>|
            #[trigger] json_of_list(v) == text@ ==> r is Some && texts(r->Some_0@) == v,
{
    serde_json::from_str::<Vec<String>>(text).ok()
}

/// The stored form of an optional list: its JSON text, or nothing.
pub open spec fn stores_list(stored: Option<String>, list: Option<Seq<Seq<char>>>) -> bool {
    match (stored, list) {
        (None, None) => true,
        (Some(t), Some(v)) => t@ == json_of_list(v),
        _ => false,
    }
}

/// Turns an optional list into its stored form.
pub fn encode_opt_list(list: &Option<Vec<String>>) -> (r: Option<String>)
    ensures
        stores_list(r, opt_texts(*list)),
{
    match list {
        Some(items) => Some(encode_list(items)),
        None => None,
    }
}

/// Reads an optional list back from its stored form; `None` when stored
/// text is not a JSON array of strings.
pub fn decode_opt_list(stored: &Option<String>) -> (r: Option<Option<Vec<String>>>)
    ensures
        stored is None ==> r == Some(None::<Vec<String>>),
        forall|v: Seq<Seq<char>>|
            stores_list(*stored, Some(v)) ==> r is Some && opt_texts(r->Some_0) == Some(v),
{
    match stored {
        None => Some(None),
        Some(text) => match decode_list(text.as_str()) {
            Some(items) => Some(Some(items)),
            None => None,
        },
    }
}

} // verus!
