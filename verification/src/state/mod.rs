//! The persistent records of the ledger and the health computation on them.

pub mod bank;
pub mod book;
pub mod group;
pub mod health;
pub mod mango_account;

use vstd::prelude::*;

verus! {

/// The 32 bytes that name an account of the host.
pub type Pubkey = [u8; 32];

/// The key of a token market, unique among the banks of a group.
pub type TokenIndex = u16;

} // verus!
