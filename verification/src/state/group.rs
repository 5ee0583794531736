//! The administrative root of one deployment.

use crate::state::Pubkey;
use vstd::prelude::*;

verus! {

/// A group: the authority over its banks and accounts.
#[derive(Clone, Copy, Debug, PartialEq, Eq)]
pub struct Group {
    /// Who may configure the group.
    pub admin: Pubkey,
    /// The bump with which the group's address was derived.
    pub bump: u8,
}

} // verus!
