//! JSON texts written compactly, as serde_json writes a value.

use vstd::prelude::*;

verus! {

/// The compact form of the JSON text `text`.
pub uninterp spec fn spec_json_compact(text: Seq<char>) -> Seq<char>;

/// The JSON text `text` written compactly.
///
/// Trusted: `serde_json::Value::to_string` of the value that
/// `serde_json::from_str::<Value>` reads from the text; a text that does not
/// parse is kept as it is. The result depends on the text alone and is
/// named, not described.
#[verifier::external_body]
pub(crate) fn json_compact(text: &str) -> (r: String)
    ensures
        r@ == spec_json_compact(text@),
{
    match serde_json::from_str::<serde_json::Value>(text) {
        Ok(v) => v.to_string(),
        Err(_) => text.to_string(),
    }
}

} // verus!
