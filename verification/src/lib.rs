//! Token vesting with a cliff and a linear release schedule.
//!
//! The library is the decision core of a single-beneficiary vesting
//! contract: it holds the contract's stored state, decides every entry
//! point from that state and the ledger time, and says which
//! authorization, token transfer and event each decision asks for.

pub mod account;

pub mod schedule;
pub mod contract;
pub mod laws;
