//! How a command takes what files, encoders and decoders give it. Their failures come as
//! the words that they fail with.

use vstd::prelude::*;
use vstd::string::*;

use crate::cli::error::{CliError, CliFault, cli_fault_of};

verus! {

/// What a step failed with, after words of its own.
pub open spec fn failure_text<T>(step: Seq<char>, outcome: Result<T, String>) -> Option<Seq<char>> {
    match outcome {
        Ok(_) => None,
        Err(error) => Some(step + ": "@ + error@),
    }
}

/// A failure that is nobody's fault.
pub open spec fn other_fault(text: Option<Seq<char>>) -> Option<CliFault> {
    match text {
        Some(text) => Some(CliFault::Other(text)),
        None => None,
    }
}

/// A failure that lies with what the command was given.
pub open spec fn usage_fault(text: Option<Seq<char>>) -> Option<CliFault> {
    match text {
        Some(text) => Some(CliFault::Usage(text)),
        None => None,
    }
}

/// Take what was read from a file.
pub fn file_read(path: &str, outcome: Result<String, String>) -> (result: Result<String, CliError>)
    ensures
        cli_fault_of(result) == other_fault(failure_text("failed to read "@ + path@, outcome)),
        result is Ok ==> outcome == Ok::<String, String>(result->Ok_0),
{
    match outcome {
        Ok(content) => Ok(content),
        Err(error) => {
            let text = "failed to read ".to_owned().concat(path).concat(": ").concat(
                error.as_str(),
            );
            Err(CliError::Other(text))
        },
    }
}

/// Take what was decoded from a file.
pub fn file_decoded<T>(path: &str, outcome: Result<T, String>) -> (result: Result<T, CliError>)
    ensures
        cli_fault_of(result) == usage_fault(failure_text("invalid JSON in "@ + path@, outcome)),
        result is Ok ==> outcome == Ok::<T, String>(result->Ok_0),
{
    match outcome {
        Ok(value) => Ok(value),
        Err(error) => {
            let text = "invalid JSON in ".to_owned().concat(path).concat(": ").concat(
                error.as_str(),
            );
            Err(CliError::Usage(text))
        },
    }
}

/// Take what was decoded from the content of a snapshot.
pub fn snapshot_decoded<T>(outcome: Result<T, String>) -> (result: Result<T, CliError>)
    ensures
        cli_fault_of(result) == other_fault(failure_text("invalid snapshot JSON"@, outcome)),
        result is Ok ==> outcome == Ok::<T, String>(result->Ok_0),
{
    match outcome {
        Ok(value) => Ok(value),
        Err(error) => {
            let text = "invalid snapshot JSON".to_owned().concat(": ").concat(error.as_str());
            Err(CliError::Other(text))
        },
    }
}

/// Take the encoding of a payload.
pub fn payload_encoded(outcome: Result<String, String>) -> (result: Result<String, CliError>)
    ensures
        cli_fault_of(result) == other_fault(
            failure_text("payload serialization failed"@, outcome),
        ),
        result is Ok ==> outcome == Ok::<String, String>(result->Ok_0),
{
    match outcome {
        Ok(content) => Ok(content),
        Err(error) => {
            let text = "payload serialization failed".to_owned().concat(": ").concat(
                error.as_str(),
            );
            Err(CliError::Other(text))
        },
    }
}

/// Take the encoding of what is shown.
pub fn output_encoded(outcome: Result<String, String>) -> (result: Result<String, CliError>)
    ensures
        cli_fault_of(result) == other_fault(failure_text("output serialization failed"@, outcome)),
        result is Ok ==> outcome == Ok::<String, String>(result->Ok_0),
{
    match outcome {
        Ok(content) => Ok(content),
        Err(error) => {
            let text = "output serialization failed".to_owned().concat(": ").concat(
                error.as_str(),
            );
            Err(CliError::Other(text))
        },
    }
}

} // verus!
