//! Depositing tokens into an account.

use crate::error::MangoError;
use crate::instructions::{spec_stage, stage_transfer, Direction, StagedTransfer};
use crate::state::bank::Bank;
use crate::state::mango_account::MangoAccount;
use vstd::prelude::*;

verus! {

/// Stages a deposit of `amount` raw tokens into the account's position in
/// the bank's token. The account and the bank are not changed: the result
/// holds them as they will be. The caller moves the tokens into the vault
/// and then commits the result.
pub fn token_deposit(account: &MangoAccount, bank: &Bank, amount: u64) -> (r: Result<
    StagedTransfer,
    MangoError,
>)
    requires
        account.wf(),
        bank.wf(),
    ensures
        match spec_stage(account@, *bank, amount, Direction::Deposit) {
            Ok(staged) => r matches Ok(s) && s@ == staged && staged.wf(),
            Err(e) => r matches Err(f) && f == e,
        },
{
    stage_transfer(account, bank, amount, Direction::Deposit)
}

} // verus!
