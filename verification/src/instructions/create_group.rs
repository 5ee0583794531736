//! Creating a group.

use crate::error::MangoError;
use crate::state::group::Group;
use crate::state::Pubkey;
use vstd::prelude::*;

verus! {

/// The group of the given admin. The bump is the one the host found when it
/// derived the group's address; without it the call fails with
/// `InvalidInput`.
pub fn create_group(admin: Pubkey, bump: Option<u8>) -> (r: Result<Group, MangoError>)
    ensures
        r == match bump {
            Some(bump) => Ok::<Group, MangoError>(Group { admin, bump }),
            None => Err::<Group, MangoError>(MangoError::InvalidInput),
        },
{
    match bump {
        Some(bump) => Ok(Group { admin, bump }),
        None => Err(MangoError::InvalidInput),
    }
}

} // verus!
