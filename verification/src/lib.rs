//! A fund-routing ledger: every deposit of the tracked denomination is split
//! between two destinations by a pair of fixed-point portions that always add
//! up to one, and the part routed to the first destination is accumulated.

pub mod anchor;
pub mod backend;
pub mod contract;
pub mod decimal;
pub mod error;
pub mod msg;
pub mod prism;
pub mod state;
pub mod theorems;
pub mod wire;
