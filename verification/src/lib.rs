//! Accounting core of a multi-asset margin ledger.
//!
//! The crate keeps each account's per-token positions, the pooled totals of
//! every token bank, and the health computation that decides whether a
//! balance-changing operation may be committed.

pub mod address_lookup_table;
pub mod error;
pub mod i80f48;
pub mod instructions;
pub mod le_bytes;
pub mod order;
pub mod search;
pub mod state;
