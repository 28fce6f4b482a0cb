//! The ways in which a vault operation is refused.

use vstd::prelude::*;

verus! {

/// Why an operation on a vault was refused. Every refusal leaves the
/// records as they were.
#[derive(Clone, Copy, Debug, PartialEq, Eq, Structural)]
pub enum CustomError {
    /// The owner already has a vault record; a record is never overwritten.
    AlreadyExists,
    /// No vault record exists under the key the operation names.
    VaultNotFound,
    /// A deposit of zero tokens.
    InvalidAmount,
    /// The result would not fit the integer that holds it.
    Overflow,
    /// The ledger rejected a transfer of the operation.
    TransferFailed,
    /// The caller is not the owner of the vault record.
    Unauthorized,
}

} // verus!
