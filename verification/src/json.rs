//! What this library asks of `serde_json`: whether a text is JSON, and the
//! entries of a JSON object.
//!
//! The reading is named here and computed by `serde_json`; nothing in this
//! library says what JSON is. What a field of an object holds is looked up
//! here, among the entries.

use crate::text::same_text;
use vstd::prelude::*;

verus! {

/// How `serde_json` reads `text`: `None` where it is no JSON value,
/// `Some(None)` where it is a JSON value but no object, and for an object its
/// entries in the order in which `serde_json` walks them. Each entry is the
/// key, the content of the value where that is a JSON string, and the value
/// written out as compact JSON.
pub uninterp spec fn json_reading(text: Seq<char>) -> Option<
    Option<Seq<(Seq<char>, Option<Seq<char>>, Seq<char>)>>,
>;

/// An entry of a JSON object as plain values: the key, the content of the
/// value where it is a JSON string, and the value as compact JSON.
pub type EntryView = (Seq<char>, Option<Seq<char>>, Seq<char>);

/// Whether `text` is one JSON value.
pub open spec fn json_parses(text: Seq<char>) -> bool {
    json_reading(text) is Some
}

/// The entries of `text` where it is a JSON object.
pub open spec fn json_entries(text: Seq<char>) -> Option<Seq<EntryView>> {
    match json_reading(text) {
        Some(Some(entries)) => Some(entries),
        _ => None,
    }
}

/// What the first entry with the key `key` holds: `None` where no entry has
/// that key, `Some(None)` where the value is anything but a JSON string, and
/// `Some(Some(s))` where it is the string `s`.
pub open spec fn field_among(entries: Seq<EntryView>, key: Seq<char>) -> Option<
    Option<Seq<char>>,
>
    decreases entries.len(),
{
    if entries.len() == 0 {
        None
    } else if entries.first().0 == key {
        Some(entries.first().1)
    } else {
        field_among(entries.drop_first(), key)
    }
}

/// What the top-level field `key` holds in a text with these entries; a text
/// that is no JSON object has no fields.
pub open spec fn top_field(entries: Option<Seq<EntryView>>, key: Seq<char>) -> Option<
    Option<Seq<char>>,
> {
    match entries {
        Some(e) => field_among(e, key),
        None => None,
    }
}

/// Calls `serde_json::from_str` for a `serde_json::Value` and reports whether
/// it succeeded. Trusted: the result says whether `json_reading` holds a
/// value.
#[verifier::external_body]
pub(crate) fn is_json(text: &str) -> (r: bool)
    ensures
        r == (json_reading(text@) is Some),
{
    serde_json::from_str::<serde_json::Value>(text).is_ok()
}

/// Calls `serde_json::from_str` and, for an object, walks its map; each value
/// is handed out through `Value::as_str` and through its `Display` form, which
/// is compact JSON. Trusted: the result is the entries that `json_reading`
/// holds, and nothing where it holds none.
#[verifier::external_body]
pub(crate) fn object_entries(text: &str) -> (r: Option<Vec<(String, Option<String>, String)>>)
    ensures
        r.deep_view() == (match json_reading(text@) {
            Some(Some(entries)) => Some(entries),
            _ => None,
        }),
{
    let parsed: Result<serde_json::Value, serde_json::Error> = serde_json::from_str(text);
    match parsed {
        Ok(serde_json::Value::Object(map)) => Some(
            map.iter().map(|(k, v)| (k.clone(), v.as_str().map(|s| s.to_string()), v.to_string())).collect(),
        ),
        _ => None,
    }
}

/// Looks a key up among the entries of a JSON object.
pub fn find_field(entries: &Vec<(String, Option<String>, String)>, key: &str) -> (r: Option<
    Option<String>,
>)
    ensures
        r.deep_view() == field_among(entries.deep_view(), key@),
{
    let ghost all = entries.deep_view();
    let mut i: usize = 0;
    assert(all.skip(0) =~= all);
    while i < entries.len()
        invariant
            i <= entries.len(),
            all == entries.deep_view(),
            field_among(all, key@) == field_among(all.skip(i as int), key@),
        decreases entries.len() - i,
    {
        if same_text(entries[i].0.as_str(), key) {
            let found = match &entries[i].1 {
                Some(content) => Some(content.clone()),
                None => None,
            };
            return Some(found);
        }
        assert(all.skip(i as int).drop_first() =~= all.skip(i + 1));
        i += 1;
    }
    None
}

/// Looks a key up in a text, given its entries where it is a JSON object.
pub fn find_top_field(entries: &Option<Vec<(String, Option<String>, String)>>, key: &str) -> (r:
    Option<Option<String>>)
    ensures
        r.deep_view() == top_field(entries.deep_view(), key@),
{
    match entries {
        Some(e) => find_field(e, key),
        None => None,
    }
}

} // verus!
