//! Verified ledger programs: a crowdfunding settlement state machine, a
//! counter and a message board, each working on the account records that a
//! host ledger hands to one invocation.

pub mod account;
pub mod clock;
pub mod counter;
pub mod crowdfund;
pub mod hello_world;
pub mod wire;
