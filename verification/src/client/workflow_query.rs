//! Reading the reply to a workflow query.

use crate::client::task_execution::{json_parse_bytes, spec_json_parse_bytes};
use crate::error::{FlovynError, FlovynErrorView};
use vstd::prelude::*;

verus! {

/// The outcome of a query whose reply carries `error` and `result`, as
/// mathematical values: the error as `Other("Query failed: ..")`; an empty
/// result as `null`; otherwise the JSON value the result holds, or a
/// serialization error with the parser's message.
pub open spec fn query_outcome(error: Option<Seq<char>>, result: Seq<u8>) -> Result<
    Seq<char>,
    FlovynErrorView,
> {
    match error {
        Some(e) => Err(FlovynErrorView::Other("Query failed: "@ + e)),
        None => if result.len() == 0 {
            Ok("null"@)
        } else {
            match spec_json_parse_bytes(result) {
                Ok(v) => Ok(v),
                Err(m) => Err(FlovynErrorView::Serialization(m)),
            }
        },
    }
}

/// The outcome of a query whose reply carries `error` and `result` (JSON
/// bytes).
pub fn query_result(error: Option<String>, result: &[u8]) -> (r: Result<String, FlovynError>)
    ensures
        match r {
            Ok(v) => query_outcome(crate::common::text::opt_view(error), result@) == Ok::<
                Seq<char>,
                FlovynErrorView,
            >(v@),
            Err(e) => query_outcome(crate::common::text::opt_view(error), result@) == Err::<
                Seq<char>,
                FlovynErrorView,
            >(e@),
        },
{
    match error {
        Some(e) => Err(FlovynError::Other(String::from_str("Query failed: ").concat(e.as_str()))),
        None => {
            if result.len() == 0 {
                Ok(String::from_str("null"))
            } else {
                match json_parse_bytes(result) {
                    Ok(v) => Ok(v),
                    Err(m) => Err(FlovynError::Serialization(m)),
                }
            }
        },
    }
}

} // verus!
