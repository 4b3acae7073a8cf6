//! The stored configuration and the single-record store that holds it.

use vstd::prelude::*;
use crate::decimal::{portions_sum_to_one, Decimal};
use crate::error::ContractError;

verus! {

/// The routing configuration: who owns it, which denomination is tracked,
/// how a deposit is split, where the two parts go, and how much has been
/// routed to the first destination so far.
#[derive(Debug, PartialEq)]
pub struct State {
    pub owner: String,
    pub denom: String,
    pub anchor_portion: Decimal,
    pub luna_portion: Decimal,
    pub anchor_address: String,
    pub token_address: String,
    pub total_deposit: u128,
}

/// The mathematical value of a [`State`].
pub struct StateView {
    pub owner: Seq<char>,
    pub denom: Seq<char>,
    pub anchor_portion: Decimal,
    pub luna_portion: Decimal,
    pub anchor_address: Seq<char>,
    pub token_address: Seq<char>,
    pub total_deposit: nat,
}

impl StateView {
    /// The invariant of a configuration: its portions add up to exactly 1.0.
    pub open spec fn wf(self) -> bool {
        portions_sum_to_one(self.anchor_portion, self.luna_portion)
    }
}

impl View for State {
    type V = StateView;

    open spec fn view(&self) -> StateView {
        StateView {
            owner: self.owner@,
            denom: self.denom@,
            anchor_portion: self.anchor_portion,
            luna_portion: self.luna_portion,
            anchor_address: self.anchor_address@,
            token_address: self.token_address@,
            total_deposit: self.total_deposit as nat,
        }
    }
}

impl Clone for State {
    fn clone(&self) -> (r: State)
        ensures
            r == *self,
    {
        State {
            owner: self.owner.clone(),
            denom: self.denom.clone(),
            anchor_portion: self.anchor_portion,
            luna_portion: self.luna_portion,
            anchor_address: self.anchor_address.clone(),
            token_address: self.token_address.clone(),
            total_deposit: self.total_deposit,
        }
    }
}

impl State {
    /// The invariant of a configuration: its portions add up to exactly 1.0.
    pub open spec fn wf(&self) -> bool {
        self@.wf()
    }
}

/// The durable store of the ledger: at most one configuration record.
#[derive(Debug, PartialEq)]
pub struct ConfigStore {
    pub record: Option<State>,
}

impl View for ConfigStore {
    type V = Option<StateView>;

    open spec fn view(&self) -> Option<StateView> {
        match self.record {
            Some(s) => Some(s@),
            None => None,
        }
    }
}

impl ConfigStore {
    /// A stored record, if there is one, satisfies the configuration's
    /// invariant.
    pub open spec fn wf(&self) -> bool {
        match self.record {
            Some(s) => s.wf(),
            None => true,
        }
    }

    /// A store that holds no record yet.
    pub fn new() -> (r: ConfigStore)
        ensures
            r.record.is_none(),
            r.wf(),
    {
        ConfigStore { record: None }
    }

    /// A copy of the stored record; `NotInitialized` when there is none.
    pub fn load(&self) -> (r: Result<State, ContractError>)
        ensures
            match self.record {
                Some(s) => r == Ok::<State, ContractError>(s),
                None => r == Err::<State, ContractError>(ContractError::NotInitialized),
            },
    {
        match &self.record {
            Some(s) => Ok(s.clone()),
            None => Err(ContractError::NotInitialized),
        }
    }

    /// Replaces the stored record by `state`.
    pub fn save(&mut self, state: State)
        requires
            state.wf(),
        ensures
            final(self).record == Some(state),
            final(self).wf(),
    {
        self.record = Some(state);
    }
}

} // verus!
