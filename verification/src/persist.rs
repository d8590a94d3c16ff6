//! The persisted panel record: a one-field JSON object `{ "width": .. }`
//! stored in the host's key-value store, read and written through
//! `serde_json`.

use vstd::prelude::*;

verus! {

/// The width that a persisted panel record parses back to, rounded to the
/// nearest integer: `None` when the text is not a well-formed record,
/// `Some(None)` when the record carries no width, and `Some(Some(w))` when
/// it stores the width `w`.
pub uninterp spec fn parsed_record(s: Seq<char>) -> Option<Option<i64>>;

/// The width a freshly encoded record stands for.
pub open spec fn spec_width_record(width: Option<u32>) -> Option<i64> {
    match width {
        Some(w) => Some(w as i64),
        None => None,
    }
}

/// Relies on `serde_json::from_str` on `serde_json::Value` together with
/// `Map::get` and `Value::as_f64`: what a record text parses to depends on
/// that text alone. A record whose `width` is not a number (and any text
/// that is not a JSON object) is malformed; a stored fractional width is
/// rounded to the nearest integer, and one beyond the `i64` range saturates.
#[verifier::external_body]
pub(crate) fn parse_panel_record(s: &str) -> (r: Option<Option<i64>>)
    ensures
        r == parsed_record(s@),
{
    match serde_json::from_str::<serde_json::Value>(s) {
        Ok(serde_json::Value::Object(fields)) => match fields.get("width") {
            None => Some(None),
            Some(serde_json::Value::Null) => Some(None),
            Some(value) => value.as_f64().map(|width| Some(width.round() as i64)),
        },
        _ => None,
    }
}

/// Relies on `serde_json::to_string` on a `serde_json::Map` with the single
/// key `"width"`: a one-field object holding a `u32` width (or null) prints
/// as JSON that `serde_json`'s own parser reads back to the same width, so
/// the result parses to exactly the width that was encoded.
#[verifier::external_body]
pub(crate) fn encode_panel_record(width: Option<u32>) -> (r: String)
    ensures
        parsed_record(r@) == Some(spec_width_record(width)),
{
    let mut fields = serde_json::Map::new();
    let value = match width {
        Some(w) => serde_json::Value::from(w),
        None => serde_json::Value::Null,
    };
    fields.insert("width".to_string(), value);
    serde_json::to_string(&serde_json::Value::Object(fields)).unwrap_or_default()
}

} // verus!
