//! Classification of a finished execution into a small outcome taxonomy,
//! and panic-free decoding of its captured output.

use vstd::prelude::*;
use vstd::string::StringExecFns;
use vstd::utf8::{decode_utf8, valid_utf8};

verus! {

/// Classification of one execution's result, driving the user-visible status.
#[derive(Clone, Copy, Debug, PartialEq, Eq, Structural)]
pub enum ExecutionOutcome {
    /// The container exited with code 0: the submission built and ran.
    Success,
    /// The container exited with code 1. By the contract with the execution
    /// image, exit code 1 signals a build or run failure attributable to the
    /// submitted code, not to this service.
    UserError,
    /// The container exited with some other code; deliberately left
    /// undisambiguated from an infrastructure failure.
    Unknown,
    /// No exit code could be read: the container terminated abnormally.
    InfrastructureError,
}

/// Raw captured output of one container run, immutable once captured.
pub struct ExecutionResult {
    pub stdout: Vec<u8>,
    pub stderr: Vec<u8>,
    pub exit_code: Option<i32>,
}

/// What `classify` returns for a given exit status.
pub open spec fn classify_spec(exit_code: Option<i32>) -> ExecutionOutcome {
    match exit_code {
        Some(0) => ExecutionOutcome::Success,
        Some(1) => ExecutionOutcome::UserError,
        Some(_) => ExecutionOutcome::Unknown,
        None => ExecutionOutcome::InfrastructureError,
    }
}

/// Maps an execution result to its outcome: exit code 0 is success, exit
/// code 1 is an error in the submitted code, any other exit code is left
/// unclassified, and a missing exit code is an infrastructure failure.
pub fn classify(result: &ExecutionResult) -> (o: ExecutionOutcome)
    ensures
        o == classify_spec(result.exit_code),
{
    match result.exit_code {
        Some(0) => ExecutionOutcome::Success,
        Some(1) => ExecutionOutcome::UserError,
        Some(_) => ExecutionOutcome::Unknown,
        None => ExecutionOutcome::InfrastructureError,
    }
}

/// Relies on `String::from_utf8`: returns `Ok` exactly when the bytes are
/// valid UTF-8, and the returned string is then their decoding.
#[verifier::external_body]
fn bytes_to_string(bytes: Vec<u8>) -> (r: Option<String>)
    ensures
        r is Some <==> valid_utf8(bytes@),
        r matches Some(s) ==> s@ == decode_utf8(bytes@),
{
    String::from_utf8(bytes).ok()
}

/// Decodes captured output as text without ever failing: valid UTF-8 decodes
/// to itself, and anything else is replaced wholesale by the given fixed
/// diagnostic placeholder, so decoding cannot abort the response.
pub fn decode_or_placeholder(bytes: Vec<u8>, placeholder: &str) -> (r: String)
    ensures
        valid_utf8(bytes@) ==> r@ == decode_utf8(bytes@),
        !valid_utf8(bytes@) ==> r@ == placeholder@,
{
    match bytes_to_string(bytes) {
        Some(s) => s,
        None => String::from_str(placeholder),
    }
}

} // verus!
