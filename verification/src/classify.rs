//! Sorting the errors that the ledger reports for a submitted batch into those
//! that call for a fresh submission cycle and those that end the submission.

use eore_api::error::OreError;
use vstd::prelude::*;

verus! {

/// The custom code by which the program asks for a reset before the same
/// operation can succeed.
pub const NEEDS_RESET_CODE: u32 = 0;

/// An error that the ledger reports for a batch it has executed.
#[derive(Clone, Copy, Debug, PartialEq, Eq, Structural)]
pub enum RemoteError {
    /// An instruction failed with a code of the program's own.
    InstructionLevelCustomCode(u32),
    /// An instruction failed with one of the ledger's codes.
    InstructionLevelOtherCode,
    /// The batch failed outside the execution of its instructions.
    NonInstructionError,
}

/// What the engine does about a remote error.
#[derive(Clone, Copy, Debug, PartialEq, Eq, Structural)]
pub enum Classification {
    /// The program needs a reset first: start the submission cycle again.
    NeedsPrecondition,
    /// The program rejected the batch with this code: give up.
    FatalCustom(u32),
    /// Any other failure: give up.
    FatalOther,
}

/// The class of a remote error.
pub open spec fn classification(err: RemoteError) -> Classification {
    match err {
        RemoteError::InstructionLevelCustomCode(code) => if code == NEEDS_RESET_CODE {
            Classification::NeedsPrecondition
        } else {
            Classification::FatalCustom(code)
        },
        RemoteError::InstructionLevelOtherCode => Classification::FatalOther,
        RemoteError::NonInstructionError => Classification::FatalOther,
    }
}

/// Reads the number of `eore_api`'s `OreError::NeedsReset`, the first variant
/// of that enum, which its declaration numbers zero.
#[verifier::external_body]
fn needs_reset_code() -> (code: u32)
    ensures
        code == NEEDS_RESET_CODE,
{
    OreError::NeedsReset as u32
}

/// Sorts a remote error into its class.
pub fn classify(err: RemoteError) -> (class: Classification)
    ensures
        class == classification(err),
{
    match err {
        RemoteError::InstructionLevelCustomCode(code) => {
            if code == needs_reset_code() {
                Classification::NeedsPrecondition
            } else {
                Classification::FatalCustom(code)
            }
        },
        RemoteError::InstructionLevelOtherCode => Classification::FatalOther,
        RemoteError::NonInstructionError => Classification::FatalOther,
    }
}

/// Every remote error has exactly one class, and only the reset code is ever
/// classed as calling for a fresh cycle.
pub proof fn lemma_needs_precondition_only_for_reset_code(err: RemoteError)
    ensures
        classification(err) == Classification::NeedsPrecondition <==> err
            == RemoteError::InstructionLevelCustomCode(NEEDS_RESET_CODE),
        classification(err) is FatalCustom ==> err == RemoteError::InstructionLevelCustomCode(
            classification(err)->FatalCustom_0,
        ),
{
}

} // verus!
