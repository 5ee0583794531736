//! The pooled state of one token market.
//!
//! A bank holds the two indexes that scale balances, the totals of all
//! deposits and of all borrows in scaled units, and the weights by which the
//! health computation values its token. Positions drift with the indexes;
//! bringing the indexes up to date is done elsewhere, before a bank is used.

use crate::error::MangoError;
use crate::i80f48::I80F48;
use crate::state::mango_account::TokenPosition;
use crate::state::{Pubkey, TokenIndex};
use vstd::prelude::*;

verus! {

/// One token market.
#[derive(Clone, Copy, Debug, PartialEq, Eq)]
pub struct Bank {
    /// The group that the bank belongs to.
    pub group: Pubkey,
    /// The custody account that holds the bank's tokens.
    pub vault: Pubkey,
    /// The bank's key within the group.
    pub token_index: TokenIndex,
    /// Native units per scaled unit of a deposit.
    pub deposit_index: I80F48,
    /// Native units per scaled unit of a borrow.
    pub borrow_index: I80F48,
    /// The deposits of all positions, in scaled units.
    pub total_deposits: I80F48,
    /// The borrows of all positions, in scaled units.
    pub total_borrows: I80F48,
    pub maint_asset_weight: I80F48,
    pub init_asset_weight: I80F48,
    pub maint_liab_weight: I80F48,
    pub init_liab_weight: I80F48,
}

/// The part of a balance that is a deposit.
pub open spec fn deposit_part(amount: int) -> int {
    if amount > 0 {
        amount
    } else {
        0
    }
}

/// The part of a balance that is a borrow, as a positive number.
pub open spec fn borrow_part(amount: int) -> int {
    if amount < 0 {
        -amount
    } else {
        0
    }
}

/// Whether a total can be held: totals are never negative.
pub open spec fn total_in_range(v: int) -> bool {
    0 <= v <= i128::MAX
}

impl Bank {
    /// Both indexes are positive; totals and weights are not negative.
    pub open spec fn wf(&self) -> bool {
        &&& self.deposit_index@ > 0
        &&& self.borrow_index@ > 0
        &&& self.total_deposits@ >= 0
        &&& self.total_borrows@ >= 0
        &&& self.maint_asset_weight@ >= 0
        &&& self.init_asset_weight@ >= 0
        &&& self.maint_liab_weight@ >= 0
        &&& self.init_liab_weight@ >= 0
    }

    /// The scaled units that a raw amount comes to at the current deposit
    /// index, rounded toward zero; none where the quotient cannot be held.
    pub open spec fn spec_scaled(&self, raw_amount: u64) -> Option<I80F48> {
        I80F48::spec_from_u64(raw_amount).spec_checked_div(self.deposit_index)
    }

    /// The bank after one of its positions went from one balance to another:
    /// each total moves by as much as the position's part in it. There is
    /// none where a total would leave the range from zero to the largest
    /// number that can be held.
    pub open spec fn spec_rebalanced(&self, before: I80F48, after: I80F48) -> Option<Bank> {
        let deposits = self.total_deposits@ + deposit_part(after@) - deposit_part(before@);
        let borrows = self.total_borrows@ + borrow_part(after@) - borrow_part(before@);
        if total_in_range(deposits) && total_in_range(borrows) {
            Some(
                Bank {
                    total_deposits: I80F48 { bits: deposits as i128 },
                    total_borrows: I80F48 { bits: borrows as i128 },
                    ..*self
                },
            )
        } else {
            None
        }
    }

    /// The bank and the position after the position's balance was moved to
    /// `after`, if that can be held.
    pub open spec fn spec_moved(&self, position: TokenPosition, after: Option<I80F48>) -> Result<
        (Bank, TokenPosition),
        MangoError,
    > {
        match after {
            None => Err(MangoError::ArithmeticOverflow),
            Some(amount) => match self.spec_rebalanced(position.amount, amount) {
                None => Err(MangoError::ArithmeticOverflow),
                Some(bank) => Ok((bank, TokenPosition { amount, ..position })),
            },
        }
    }

    /// The bank and the position after a deposit of `raw_amount`.
    ///
    /// A raw amount of zero is `InvalidInput`. The raw amount is scaled by
    /// the deposit index and added to the balance, which may take a borrow
    /// through zero into a deposit. Where the scaling, the sum or a total
    /// cannot be held, the result is `ArithmeticOverflow`.
    pub open spec fn spec_deposit(&self, position: TokenPosition, raw_amount: u64) -> Result<
        (Bank, TokenPosition),
        MangoError,
    > {
        if raw_amount == 0 {
            Err(MangoError::InvalidInput)
        } else {
            match self.spec_scaled(raw_amount) {
                None => Err(MangoError::ArithmeticOverflow),
                Some(scaled) => self.spec_moved(position, position.amount.spec_checked_add(scaled)),
            }
        }
    }

    /// The bank and the position after a withdrawal of `raw_amount`: as
    /// `spec_deposit`, with the scaled amount taken from the balance, which
    /// may take a deposit through zero into a borrow. The raw amount is
    /// scaled by the deposit index here too, so that withdrawing what was
    /// just deposited gives back the balance as it was.
    pub open spec fn spec_withdraw(&self, position: TokenPosition, raw_amount: u64) -> Result<
        (Bank, TokenPosition),
        MangoError,
    > {
        if raw_amount == 0 {
            Err(MangoError::InvalidInput)
        } else {
            match self.spec_scaled(raw_amount) {
                None => Err(MangoError::ArithmeticOverflow),
                Some(scaled) => self.spec_moved(position, position.amount.spec_checked_sub(scaled)),
            }
        }
    }

    /// A bank without deposits or borrows. `InvalidInput` where an index is
    /// not positive or a weight is negative.
    pub fn new(
        group: Pubkey,
        vault: Pubkey,
        token_index: TokenIndex,
        deposit_index: I80F48,
        borrow_index: I80F48,
        maint_asset_weight: I80F48,
        init_asset_weight: I80F48,
        maint_liab_weight: I80F48,
        init_liab_weight: I80F48,
    ) -> (r: Result<Bank, MangoError>)
        ensures
            match r {
                Ok(bank) => bank == (Bank {
                    group,
                    vault,
                    token_index,
                    deposit_index,
                    borrow_index,
                    total_deposits: I80F48 { bits: 0 },
                    total_borrows: I80F48 { bits: 0 },
                    maint_asset_weight,
                    init_asset_weight,
                    maint_liab_weight,
                    init_liab_weight,
                }) && bank.wf(),
                Err(e) => e == MangoError::InvalidInput && !(deposit_index@ > 0 && borrow_index@
                    > 0 && maint_asset_weight@ >= 0 && init_asset_weight@ >= 0
                    && maint_liab_weight@ >= 0 && init_liab_weight@ >= 0),
            },
    {
        if !deposit_index.is_positive() || !borrow_index.is_positive()
            || maint_asset_weight.is_negative() || init_asset_weight.is_negative()
            || maint_liab_weight.is_negative() || init_liab_weight.is_negative() {
            return Err(MangoError::InvalidInput);
        }
        Ok(
            Bank {
                group,
                vault,
                token_index,
                deposit_index,
                borrow_index,
                total_deposits: I80F48::zero(),
                total_borrows: I80F48::zero(),
                maint_asset_weight,
                init_asset_weight,
                maint_liab_weight,
                init_liab_weight,
            },
        )
    }

    /// Whether the bank is well formed.
    pub fn is_valid(&self) -> (r: bool)
        ensures
            r == self.wf(),
    {
        self.deposit_index.is_positive() && self.borrow_index.is_positive()
            && !self.total_deposits.is_negative() && !self.total_borrows.is_negative()
            && !self.maint_asset_weight.is_negative() && !self.init_asset_weight.is_negative()
            && !self.maint_liab_weight.is_negative() && !self.init_liab_weight.is_negative()
    }

    /// The scaled units of a raw amount.
    fn scaled(&self, raw_amount: u64) -> (r: Option<I80F48>)
        ensures
            r == self.spec_scaled(raw_amount),
    {
        I80F48::from_u64(raw_amount).checked_div(self.deposit_index)
    }

    /// The bank with its totals moved as a position's balance moved.
    fn rebalanced(&self, before: I80F48, after: I80F48) -> (r: Option<Bank>)
        requires
            self.wf(),
        ensures
            r == self.spec_rebalanced(before, after),
            r matches Some(bank) ==> bank.wf(),
    {
        let zero = I80F48::zero();
        let deposit_before = if before.is_positive() { before } else { zero };
        let deposit_after = if after.is_positive() { after } else { zero };
        let total_deposits = match deposit_after.checked_sub(deposit_before) {
            Some(change) => match self.total_deposits.checked_add(change) {
                Some(total) => total,
                None => { return None; },
            },
            None => { return None; },
        };
        if total_deposits.is_negative() {
            return None;
        }
        // A borrow is the negative of a balance below zero, which cannot be
        // held for the smallest balance: the change is taken on the balances.
        let owed_before = if before.is_negative() { before } else { zero };
        let owed_after = if after.is_negative() { after } else { zero };
        let total_borrows = match owed_before.checked_sub(owed_after) {
            Some(change) => match self.total_borrows.checked_add(change) {
                Some(total) => total,
                None => { return None; },
            },
            None => { return None; },
        };
        if total_borrows.is_negative() {
            return None;
        }
        Some(Bank { total_deposits, total_borrows, ..*self })
    }

    /// Moves a position's balance to `after` and the totals with it.
    fn moved(&mut self, position: &mut TokenPosition, after: Option<I80F48>) -> (r: Result<
        bool,
        MangoError,
    >)
        requires
            old(self).wf(),
        ensures
            settled(*old(self), *old(position), old(self).spec_moved(*old(position), after), *final(self), *final(position), r),
            final(self).wf(),
    {
        let amount = match after {
            Some(amount) => amount,
            None => { return Err(MangoError::ArithmeticOverflow); },
        };
        match self.rebalanced(position.amount, amount) {
            Some(bank) => {
                *self = bank;
                position.amount = amount;
                Ok(!amount.is_zero())
            },
            None => Err(MangoError::ArithmeticOverflow),
        }
    }

    /// Deposits a raw amount into a position of this bank and says whether
    /// the position's balance is other than zero afterwards. On an error the
    /// bank and the position are as before.
    pub fn deposit(&mut self, position: &mut TokenPosition, raw_amount: u64) -> (r: Result<
        bool,
        MangoError,
    >)
        requires
            old(self).wf(),
            old(position).active,
        ensures
            settled(*old(self), *old(position), old(self).spec_deposit(*old(position), raw_amount), *final(self), *final(position), r),
            final(self).wf(),
            final(position).active,
    {
        if raw_amount == 0 {
            return Err(MangoError::InvalidInput);
        }
        let scaled = match self.scaled(raw_amount) {
            Some(scaled) => scaled,
            None => { return Err(MangoError::ArithmeticOverflow); },
        };
        let after = position.amount.checked_add(scaled);
        self.moved(position, after)
    }

    /// Withdraws a raw amount from a position of this bank and says whether
    /// the position's balance is other than zero afterwards. On an error the
    /// bank and the position are as before.
    pub fn withdraw(&mut self, position: &mut TokenPosition, raw_amount: u64) -> (r: Result<
        bool,
        MangoError,
    >)
        requires
            old(self).wf(),
            old(position).active,
        ensures
            settled(*old(self), *old(position), old(self).spec_withdraw(*old(position), raw_amount), *final(self), *final(position), r),
            final(self).wf(),
            final(position).active,
    {
        if raw_amount == 0 {
            return Err(MangoError::InvalidInput);
        }
        let scaled = match self.scaled(raw_amount) {
            Some(scaled) => scaled,
            None => { return Err(MangoError::ArithmeticOverflow); },
        };
        let after = position.amount.checked_sub(scaled);
        self.moved(position, after)
    }
}

/// How a balance change ends: where `outcome` is a new bank and position,
/// they are what the call leaves, and the call says whether the new balance
/// is other than zero; where it is an error, the call returns it and leaves
/// the bank and the position as they were.
pub open spec fn settled(
    bank_before: Bank,
    position_before: TokenPosition,
    outcome: Result<(Bank, TokenPosition), MangoError>,
    bank_after: Bank,
    position_after: TokenPosition,
    r: Result<bool, MangoError>,
) -> bool {
    match outcome {
        Ok((bank, position)) => {
            &&& bank_after == bank
            &&& position_after == position
            &&& r == Ok::<bool, MangoError>(position.amount@ != 0)
        },
        Err(e) => {
            &&& bank_after == bank_before
            &&& position_after == position_before
            &&& r == Err::<bool, MangoError>(e)
        },
    }
}

} // verus!
