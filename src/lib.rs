//! A registry of assets for a chain's state machine: it derives each asset's
//! identifier from the chain identifier and the managing contract's address,
//! keeps every identifier unique in a staged store, and meters the cost of a
//! registration against the caller's cycle budget.
pub mod bank;
pub mod cycles;
pub mod error;
pub mod store;
pub mod types;
