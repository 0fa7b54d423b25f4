//! Why an instruction is rejected.

use vstd::prelude::*;

verus! {

/// The reasons for which an instruction fails. A failed instruction leaves
/// every account as it found it.
#[derive(Clone, Copy, Debug, PartialEq, Eq)]
pub enum ProgramError {
    /// The caller did not sign the transaction.
    MissingRequiredSignature,
    /// The storage record to create exists already.
    AccountAlreadyInitialized,
    /// The storage record to append to was never created.
    UninitializedAccount,
    /// The storage record would outgrow the space allocated for it.
    AccountDataTooSmall,
}

} // verus!
