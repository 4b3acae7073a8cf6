//! The requests that the ledger accepts.

use vstd::prelude::*;
use crate::decimal::Decimal;

verus! {

/// The request that sets the ledger up.
#[derive(Debug, PartialEq)]
pub struct InstantiateMsg {
    pub anchor_portion: Decimal,
    pub luna_portion: Decimal,
    pub anchor_address: String,
    pub token_address: String,
    pub denom: String,
}

/// The requests that may change the ledger or make it emit instructions.
#[derive(Debug, PartialEq)]
pub enum ExecuteMsg {
    /// Split the attached funds between the two destinations.
    Deposit {  },
    /// Ask the first destination to hand `amount` of its token back.
    Withdraw { amount: u128 },
    /// Transfer `amount` of the tracked denomination to the owner.
    SendToWallet { amount: u128 },
    /// Hand the ledger over to `address`.
    SetOwner { address: String },
    /// Replace the two portions.
    ChangePortion { anchor_portion: Decimal, luna_portion: Decimal },
}

/// The requests that only read.
#[derive(Clone, Copy, Debug, PartialEq, Eq, Structural)]
pub enum QueryMsg {
    /// The stored configuration.
    GetStateInfo {  },
    /// The epoch state of the first destination.
    GetEpochState {  },
    /// The ledger's own balance of the first destination's token.
    GetAustBalance {  },
}

} // verus!
