//! The two-valued status that write operations report.

use vstd::prelude::*;

verus! {

/// The outcome of an operation, as coarse as the boundary reports it: a fault
/// of the engine and a malformed input are both `Error`.
#[derive(Clone, Copy, Debug, PartialEq, Eq, Structural)]
pub enum SledResult {
    Success,
    Error,
}

/// The status owed for an engine answer to a write: `Success` when the engine
/// answered, whatever value the key had before, and `Error` on a fault.
pub open spec fn write_status(outcome: Result<Option<Vec<u8>>, sled::Error>) -> SledResult {
    match outcome {
        Ok(_) => SledResult::Success,
        Err(_) => SledResult::Error,
    }
}

impl SledResult {
    /// Maps the engine's answer to a write onto the status.
    pub fn of_write(outcome: &Result<Option<Vec<u8>>, sled::Error>) -> (r: SledResult)
        ensures
            r == write_status(*outcome),
    {
        match outcome {
            Ok(_) => SledResult::Success,
            Err(_) => SledResult::Error,
        }
    }
}

} // verus!
