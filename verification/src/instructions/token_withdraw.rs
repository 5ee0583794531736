//! Withdrawing tokens from an account.

use crate::error::MangoError;
use crate::instructions::{spec_stage, stage_transfer, Direction, StagedTransfer};
use crate::state::bank::Bank;
use crate::state::mango_account::MangoAccount;
use vstd::prelude::*;

verus! {

/// Stages a withdrawal of `amount` raw tokens from the account's position in
/// the bank's token; a withdrawal beyond the deposit makes or grows a
/// borrow. The account and the bank are not changed: the result holds them
/// as they will be. The caller moves the tokens out of the vault and then
/// commits the result.
pub fn token_withdraw(account: &MangoAccount, bank: &Bank, amount: u64) -> (r: Result<
    StagedTransfer,
    MangoError,
>)
    requires
        account.wf(),
        bank.wf(),
    ensures
        match spec_stage(account@, *bank, amount, Direction::Withdraw) {
            Ok(staged) => r matches Ok(s) && s@ == staged && staged.wf(),
            Err(e) => r matches Err(f) && f == e,
        },
{
    stage_transfer(account, bank, amount, Direction::Withdraw)
}

} // verus!
