//! Checks for workflow and task tests. Each answers `Ok(())` when what it
//! checks holds, and otherwise the message of the failure, which a test
//! reports (the test harness panics with it).
//!
//! Outputs and values are JSON text; they are compared as JSON values.

use crate::common::json::{json_compact, spec_json_compact};
use crate::common::text::{contains_text, str_contains};
use crate::error::{FlovynError, FlovynErrorView, error_message};
use crate::workflow::event::{json_member, json_member_field};
use vstd::prelude::*;

verus! {

/// Whether the JSON texts `a` and `b` stand for the same JSON value.
pub uninterp spec fn spec_json_equal(a: Seq<char>, b: Seq<char>) -> bool;

/// Whether two JSON texts stand for the same value.
///
/// Trusted: parses both with `serde_json::from_str::<Value>` and compares
/// the outcomes with `==` (two texts that both fail to parse compare
/// equal). The answer depends on the texts alone and is named, not
/// described.
#[verifier::external_body]
fn json_equal(a: &str, b: &str) -> (r: bool)
    ensures
        r == spec_json_equal(a@, b@),
{
    serde_json::from_str::<serde_json::Value>(a).ok() == serde_json::from_str::<serde_json::Value>(b).ok()
}

/// The pretty-printed form of the JSON text `text`.
pub uninterp spec fn spec_json_pretty(text: Seq<char>) -> Seq<char>;

/// The JSON text `text` pretty-printed.
///
/// Trusted: `serde_json::to_string_pretty` of the value that
/// `serde_json::from_str::<Value>` reads from the text; a text that does not
/// parse is kept as it is. The result depends on the text alone and is
/// named, not described.
#[verifier::external_body]
fn json_pretty(text: &str) -> (r: String)
    ensures
        r@ == spec_json_pretty(text@),
{
    match serde_json::from_str::<serde_json::Value>(text) {
        Ok(v) => match serde_json::to_string_pretty(&v) {
            Ok(p) => p,
            Err(_) => text.to_string(),
        },
        Err(_) => text.to_string(),
    }
}

/// The JSON text of member `key` of the JSON text `value`: none when the
/// value is not an object or has no such member.
pub open spec fn json_member_text(value: Seq<char>, key: Seq<char>) -> Option<Seq<char>> {
    match json_member_field(value, key) {
        Some(f) => Some(f.json),
        None => None,
    }
}

fn member(value: &str, key: &str) -> (r: Option<String>)
    ensures
        match r {
            Some(s) => json_member_text(value@, key@) == Some(s@),
            None => json_member_text(value@, key@) is None,
        },
{
    match json_member(value, key) {
        Some(f) => Some(f.json),
        None => None,
    }
}

/// A run's result as mathematical values.
pub open spec fn result_view(r: Result<String, FlovynError>) -> Result<Seq<char>, FlovynErrorView> {
    match r {
        Ok(v) => Ok(v@),
        Err(e) => Err(e@),
    }
}

/// A check's outcome as mathematical values.
pub open spec fn check_view(r: Result<(), String>) -> Result<(), Seq<char>> {
    match r {
        Ok(()) => Ok(()),
        Err(m) => Err(m@),
    }
}

/// The outcome of checking that `result` succeeded; `prefix` opens the
/// message of the failure, which names the error.
pub open spec fn expect_ok(result: Result<Seq<char>, FlovynErrorView>, prefix: Seq<char>) -> Result<
    (),
    Seq<char>,
> {
    match result {
        Ok(_) => Ok(()),
        Err(e) => Err(prefix + error_message(e)),
    }
}

/// The outcome of checking that `result` is `expected`.
pub open spec fn expect_output(
    result: Result<Seq<char>, FlovynErrorView>,
    expected: Seq<char>,
    mismatch: Seq<char>,
    error_prefix: Seq<char>,
) -> Result<(), Seq<char>> {
    match result {
        Ok(actual) => if spec_json_equal(actual, expected) {
            Ok(())
        } else {
            Err(
                mismatch + spec_json_pretty(expected) + "\nActual: "@ + spec_json_pretty(actual),
            )
        },
        Err(e) => Err(error_prefix + error_message(e)),
    }
}

/// The outcome of checking that `result` failed.
pub open spec fn expect_err(result: Result<Seq<char>, FlovynErrorView>, prefix: Seq<char>) -> Result<
    (),
    Seq<char>,
> {
    match result {
        Ok(output) => Err(prefix + spec_json_pretty(output)),
        Err(_) => Ok(()),
    }
}

/// The outcome of checking that `result` failed with a message that
/// contains `text`.
pub open spec fn expect_err_with(
    result: Result<Seq<char>, FlovynErrorView>,
    text: Seq<char>,
    what: Seq<char>,
) -> Result<(), Seq<char>> {
    match result {
        Ok(output) => Err(
            "Expected "@ + what + " to fail with error containing '"@ + text
                + "', but got success with output: "@ + spec_json_pretty(output),
        ),
        Err(e) => if contains_text(error_message(e), text) {
            Ok(())
        } else {
            Err("Expected error to contain '"@ + text + "', but got: "@ + error_message(e))
        },
    }
}

fn check_ok(result: &Result<String, FlovynError>, prefix: &str) -> (r: Result<(), String>)
    ensures
        check_view(r) == expect_ok(result_view(*result), prefix@),
{
    match result {
        Ok(_) => Ok(()),
        Err(e) => Err(String::from_str(prefix).concat(e.to_string().as_str())),
    }
}

fn check_output(
    result: &Result<String, FlovynError>,
    expected: &str,
    mismatch: &str,
    error_prefix: &str,
) -> (r: Result<(), String>)
    ensures
        check_view(r) == expect_output(result_view(*result), expected@, mismatch@, error_prefix@),
{
    match result {
        Ok(actual) => {
            if json_equal(actual.as_str(), expected) {
                Ok(())
            } else {
                Err(
                    String::from_str(mismatch).concat(json_pretty(expected).as_str()).concat(
                        "\nActual: ",
                    ).concat(json_pretty(actual.as_str()).as_str()),
                )
            }
        },
        Err(e) => Err(String::from_str(error_prefix).concat(e.to_string().as_str())),
    }
}

fn check_err(result: &Result<String, FlovynError>, prefix: &str) -> (r: Result<(), String>)
    ensures
        check_view(r) == expect_err(result_view(*result), prefix@),
{
    match result {
        Ok(output) => Err(String::from_str(prefix).concat(json_pretty(output.as_str()).as_str())),
        Err(_) => Ok(()),
    }
}

fn check_err_with(result: &Result<String, FlovynError>, text: &str, what: &str) -> (r: Result<
    (),
    String,
>)
    ensures
        check_view(r) == expect_err_with(result_view(*result), text@, what@),
{
    match result {
        Ok(output) => Err(
            String::from_str("Expected ").concat(what).concat(
                " to fail with error containing '",
            ).concat(text).concat("', but got success with output: ").concat(
                json_pretty(output.as_str()).as_str(),
            ),
        ),
        Err(e) => {
            let message = e.to_string();
            if str_contains(message.as_str(), text) {
                Ok(())
            } else {
                Err(
                    String::from_str("Expected error to contain '").concat(text).concat(
                        "', but got: ",
                    ).concat(message.as_str()),
                )
            }
        },
    }
}

/// Check that a workflow completed.
pub fn assert_workflow_completed(result: &Result<String, FlovynError>) -> (r: Result<(), String>)
    ensures
        check_view(r) == expect_ok(
            result_view(*result),
            "Expected workflow to complete successfully, but got error: "@,
        ),
{
    check_ok(result, "Expected workflow to complete successfully, but got error: ")
}

/// Check that a workflow completed with output `expected`.
pub fn assert_workflow_completed_with(result: &Result<String, FlovynError>, expected: &str) -> (r:
    Result<(), String>)
    ensures
        check_view(r) == expect_output(
            result_view(*result),
            expected@,
            "Workflow output mismatch.\nExpected: "@,
            "Expected workflow to complete successfully, but got error: "@,
        ),
{
    check_output(
        result,
        expected,
        "Workflow output mismatch.\nExpected: ",
        "Expected workflow to complete successfully, but got error: ",
    )
}

/// Check that a workflow failed.
pub fn assert_workflow_failed(result: &Result<String, FlovynError>) -> (r: Result<(), String>)
    ensures
        check_view(r) == expect_err(
            result_view(*result),
            "Expected workflow to fail, but got success with output: "@,
        ),
{
    check_err(result, "Expected workflow to fail, but got success with output: ")
}

/// Check that a workflow failed with an error whose message contains
/// `expected_error_contains`.
pub fn assert_workflow_failed_with(
    result: &Result<String, FlovynError>,
    expected_error_contains: &str,
) -> (r: Result<(), String>)
    ensures
        check_view(r) == expect_err_with(result_view(*result), expected_error_contains@, "workflow"@),
{
    check_err_with(result, expected_error_contains, "workflow")
}

/// Check that a workflow was cancelled.
pub fn assert_workflow_cancelled(result: &Result<String, FlovynError>) -> (r: Result<(), String>)
    ensures
        check_view(r) == match result_view(*result) {
            Ok(output) => Err(
                "Expected workflow to be cancelled, but got success with output: "@
                    + spec_json_pretty(output),
            ),
            Err(FlovynErrorView::WorkflowCancelled(_)) => Ok(()),
            Err(e) => Err(
                "Expected workflow to be cancelled, but got different error: "@ + error_message(e),
            ),
        },
{
    match result {
        Ok(output) => Err(
            String::from_str("Expected workflow to be cancelled, but got success with output: ").concat(
                json_pretty(output.as_str()).as_str(),
            ),
        ),
        Err(FlovynError::WorkflowCancelled(_)) => Ok(()),
        Err(e) => Err(
            String::from_str("Expected workflow to be cancelled, but got different error: ").concat(
                e.to_string().as_str(),
            ),
        ),
    }
}

/// Check that a task succeeded.
pub fn assert_task_succeeded(result: &Result<String, FlovynError>) -> (r: Result<(), String>)
    ensures
        check_view(r) == expect_ok(result_view(*result), "Expected task to succeed, but got error: "@),
{
    check_ok(result, "Expected task to succeed, but got error: ")
}

/// Check that a task succeeded with output `expected`.
pub fn assert_task_succeeded_with(result: &Result<String, FlovynError>, expected: &str) -> (r: Result<
    (),
    String,
>)
    ensures
        check_view(r) == expect_output(
            result_view(*result),
            expected@,
            "Task output mismatch.\nExpected: "@,
            "Expected task to succeed, but got error: "@,
        ),
{
    check_output(
        result,
        expected,
        "Task output mismatch.\nExpected: ",
        "Expected task to succeed, but got error: ",
    )
}

/// Check that a task failed.
pub fn assert_task_failed(result: &Result<String, FlovynError>) -> (r: Result<(), String>)
    ensures
        check_view(r) == expect_err(
            result_view(*result),
            "Expected task to fail, but got success with output: "@,
        ),
{
    check_err(result, "Expected task to fail, but got success with output: ")
}

/// Check that a task failed with an error whose message contains
/// `expected_error_contains`.
pub fn assert_task_failed_with(
    result: &Result<String, FlovynError>,
    expected_error_contains: &str,
) -> (r: Result<(), String>)
    ensures
        check_view(r) == expect_err_with(result_view(*result), expected_error_contains@, "task"@),
{
    check_err_with(result, expected_error_contains, "task")
}

/// Check that a task was cancelled.
pub fn assert_task_cancelled(result: &Result<String, FlovynError>) -> (r: Result<(), String>)
    ensures
        check_view(r) == match result_view(*result) {
            Ok(output) => Err(
                "Expected task to be cancelled, but got success with output: "@ + spec_json_pretty(
                    output,
                ),
            ),
            Err(FlovynErrorView::TaskCancelled) => Ok(()),
            Err(e) => Err(
                "Expected task to be cancelled, but got different error: "@ + error_message(e),
            ),
        },
{
    match result {
        Ok(output) => Err(
            String::from_str("Expected task to be cancelled, but got success with output: ").concat(
                json_pretty(output.as_str()).as_str(),
            ),
        ),
        Err(FlovynError::TaskCancelled) => Ok(()),
        Err(e) => Err(
            String::from_str("Expected task to be cancelled, but got different error: ").concat(
                e.to_string().as_str(),
            ),
        ),
    }
}

/// Check that the JSON `value` has member `key` equal to `expected`.
pub fn assert_json_has(value: &str, key: &str, expected: &str) -> (r: Result<(), String>)
    ensures
        check_view(r) == match json_member_text(value@, key@) {
            Some(actual) => if spec_json_equal(actual, expected@) {
                Ok(())
            } else {
                Err(
                    "Key '"@ + key@ + "' has unexpected value.\nExpected: "@ + spec_json_pretty(
                        expected@,
                    ) + "\nActual: "@ + spec_json_pretty(actual),
                )
            },
            None => Err(
                "Expected key '"@ + key@ + "' not found in value: "@ + spec_json_compact(value@),
            ),
        },
{
    match member(value, key) {
        Some(actual) => {
            if json_equal(actual.as_str(), expected) {
                Ok(())
            } else {
                Err(
                    String::from_str("Key '").concat(key).concat(
                        "' has unexpected value.\nExpected: ",
                    ).concat(json_pretty(expected).as_str()).concat("\nActual: ").concat(
                        json_pretty(actual.as_str()).as_str(),
                    ),
                )
            }
        },
        None => Err(
            String::from_str("Expected key '").concat(key).concat("' not found in value: ").concat(
                json_compact(value).as_str(),
            ),
        ),
    }
}

/// Check that the JSON `value` has member `key`.
pub fn assert_json_has_key(value: &str, key: &str) -> (r: Result<(), String>)
    ensures
        check_view(r) == match json_member_text(value@, key@) {
            Some(_) => Ok(()),
            None => Err(
                "Expected key '"@ + key@ + "' not found in value: "@ + spec_json_pretty(value@),
            ),
        },
{
    match member(value, key) {
        Some(_) => Ok(()),
        None => Err(
            String::from_str("Expected key '").concat(key).concat("' not found in value: ").concat(
                json_pretty(value).as_str(),
            ),
        ),
    }
}

/// Check that the JSON `value` has no member `key`.
pub fn assert_json_missing_key(value: &str, key: &str) -> (r: Result<(), String>)
    ensures
        check_view(r) == match json_member_text(value@, key@) {
            Some(_) => Err(
                "Expected key '"@ + key@ + "' to be absent, but found in value: "@
                    + spec_json_pretty(value@),
            ),
            None => Ok(()),
        },
{
    match member(value, key) {
        Some(_) => Err(
            String::from_str("Expected key '").concat(key).concat(
                "' to be absent, but found in value: ",
            ).concat(json_pretty(value).as_str()),
        ),
        None => Ok(()),
    }
}

} // verus!
