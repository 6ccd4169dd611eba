//! JSON values, as `serde_json` reads them from the wire.

use vstd::prelude::*;

verus! {

/// `serde_json::Value`, a JSON value. The library carries such values inside
/// payloads and failures and never looks into one.
#[verifier::external_type_specification]
#[verifier::external_body]
pub struct ExJsonValue(serde_json::Value);

/// What `serde_json::from_slice` makes of some bytes when it is asked for a
/// `serde_json::Value`: the value, or the text of the error it reports.
pub uninterp spec fn json_of(bytes: Seq<u8>) -> Result<serde_json::Value, Seq<char>>;

/// The derived `Clone` of `serde_json::Value` copies the value as it is.
pub assume_specification[ <serde_json::Value as Clone>::clone ](v: &serde_json::Value) -> (r:
    serde_json::Value)
    ensures
        r == *v,
;

/// Reads bytes as one JSON value with `serde_json::from_slice`.
///
/// The parser is a function of the bytes alone, so its answer goes by the
/// name [`json_of`]; an error is kept as the text it displays.
#[verifier::external_body]
pub(crate) fn parse_json(bytes: &[u8]) -> (r: Result<serde_json::Value, String>)
    ensures
        match r {
            Ok(v) => json_of(bytes@) == Ok::<serde_json::Value, Seq<char>>(v),
            Err(e) => json_of(bytes@) == Err::<serde_json::Value, Seq<char>>(e@),
        },
{
    match serde_json::from_slice::<serde_json::Value>(bytes) {
        Ok(v) => Ok(v),
        Err(e) => Err(e.to_string()),
    }
}

} // verus!
