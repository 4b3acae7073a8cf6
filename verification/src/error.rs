//! The ways in which an operation of the ledger can fail.

use vstd::prelude::*;

verus! {

/// The failure of an operation. Every failure aborts the operation and leaves
/// the stored configuration as it was.
#[derive(Debug, PartialEq)]
pub enum ContractError {
    /// No configuration has been stored yet.
    NotInitialized,
    /// The caller is not the configured owner.
    Unauthorized,
    /// The two portions do not add up to exactly 1.0.
    PortionError,
    /// The deposit holds nothing of the tracked denomination.
    InsufficientFunds,
    /// The backend rejected the address.
    InvalidAddress,
    /// An encoder of the backend failed; its own error is inside.
    Std(cosmwasm_std::StdError),
}

impl ContractError {
    /// A short description of the failure.
    pub fn message(&self) -> (r: &'static str)
        ensures
            r@ == match *self {
                ContractError::NotInitialized => "Not initialized"@,
                ContractError::Unauthorized => "Unauthorized"@,
                ContractError::PortionError => "Portions must add up to one"@,
                ContractError::InsufficientFunds => "Insufficient funds"@,
                ContractError::InvalidAddress => "Invalid address"@,
                ContractError::Std(_) => "Encoding failed"@,
            },
    {
        match self {
            ContractError::NotInitialized => "Not initialized",
            ContractError::Unauthorized => "Unauthorized",
            ContractError::PortionError => "Portions must add up to one",
            ContractError::InsufficientFunds => "Insufficient funds",
            ContractError::InvalidAddress => "Invalid address",
            ContractError::Std(_) => "Encoding failed",
        }
    }
}

} // verus!
