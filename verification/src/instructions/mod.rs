//! The operations that change balances.
//!
//! An operation is staged first: its checks run and its effects are worked
//! out on copies, while the account and the bank stay as they are. The host
//! then moves the tokens or submits the order. Only then is health computed,
//! over every active position of the account, and the staged effects are
//! written back if health is not negative. An operation that fails at any
//! step leaves the account and the bank untouched.

pub mod create_group;
pub mod place_serum_order;
pub mod token_deposit;
pub mod token_withdraw;

use crate::error::MangoError;
use crate::i80f48::I80F48;
use crate::state::bank::Bank;
use crate::state::health::{compute_health, spec_compute_health, BankAndPrice, HealthType};
use crate::state::mango_account::{
    is_settled, lemma_get_or_create, slots_wf, spec_get_or_create, MangoAccount, MangoAccountView,
    TokenPosition,
};
use vstd::prelude::*;

verus! {

/// Which way a transfer moves tokens.
#[derive(Clone, Copy, Debug, PartialEq, Eq, Structural)]
pub enum Direction {
    /// From the user's token account into the bank's vault.
    Deposit,
    /// From the bank's vault into the user's token account.
    Withdraw,
}

/// What a staged transfer holds, as plain values.
pub struct StagedTransferView {
    /// The account as it will be if the transfer is committed, the touched
    /// slot still active.
    pub account: MangoAccountView,
    /// The bank as it will be if the transfer is committed.
    pub bank: Bank,
    /// The slot of the touched position.
    pub slot: int,
    /// Whether the touched position keeps a balance other than zero.
    pub position_is_active: bool,
    /// The raw amount that the host has to move.
    pub amount: u64,
}

/// A deposit or withdrawal whose bookkeeping is worked out and whose tokens
/// are still to be moved. Only staging makes one, so it is always well
/// formed.
#[derive(Debug, PartialEq, Eq)]
pub struct StagedTransfer {
    account: MangoAccount,
    bank: Bank,
    slot: usize,
    position_is_active: bool,
    amount: u64,
}

impl View for StagedTransfer {
    type V = StagedTransferView;

    closed spec fn view(&self) -> StagedTransferView {
        StagedTransferView {
            account: self.account@,
            bank: self.bank,
            slot: self.slot as int,
            position_is_active: self.position_is_active,
            amount: self.amount,
        }
    }
}

impl StagedTransferView {
    /// The account and the bank are well formed, and the touched slot is an
    /// active slot of the account whose balance is zero exactly where the
    /// position is to be released.
    pub open spec fn wf(&self) -> bool {
        &&& slots_wf(self.account.tokens)
        &&& self.bank.wf()
        &&& 0 <= self.slot < self.account.tokens.len()
        &&& self.account.tokens[self.slot].active
        &&& self.position_is_active == (self.account.tokens[self.slot].amount@ != 0)
    }
}

/// The bank and the position after a transfer of `amount` in the given
/// direction.
pub open spec fn spec_transfer(
    bank: Bank,
    position: TokenPosition,
    amount: u64,
    direction: Direction,
) -> Result<(Bank, TokenPosition), MangoError> {
    match direction {
        Direction::Deposit => bank.spec_deposit(position, amount),
        Direction::Withdraw => bank.spec_withdraw(position, amount),
    }
}

/// What staging a transfer gives. The checks run in this order: an amount
/// of zero is `InvalidInput`; a bankrupt account is `Bankrupt`; an account
/// without the bank's token and without a vacant slot is
/// `PositionLimitExceeded`; a balance or total that cannot be held is
/// `ArithmeticOverflow`.
pub open spec fn spec_stage(
    account: MangoAccountView,
    bank: Bank,
    amount: u64,
    direction: Direction,
) -> Result<StagedTransferView, MangoError> {
    if amount == 0 {
        Err(MangoError::InvalidInput)
    } else if account.is_bankrupt {
        Err(MangoError::Bankrupt)
    } else {
        match spec_get_or_create(account.tokens, bank.token_index) {
            Err(e) => Err(e),
            Ok((slots, slot)) => match spec_transfer(bank, slots[slot], amount, direction) {
                Err(e) => Err(e),
                Ok((bank_after, position)) => Ok(
                    StagedTransferView {
                        account: MangoAccountView {
                            tokens: slots.update(slot, position),
                            ..account
                        },
                        bank: bank_after,
                        slot,
                        position_is_active: position.amount@ != 0,
                        amount,
                    },
                ),
            },
        }
    }
}

/// The health that lets an operation through: the account's health at the
/// `Init` weights where that is not negative, `InsufficientHealth` where it
/// is, and the error of the health computation where it fails.
pub open spec fn spec_require_health(
    slots: Seq<TokenPosition>,
    pairs: Seq<BankAndPrice>,
) -> Result<I80F48, MangoError> {
    match spec_compute_health(slots, HealthType::Init, pairs) {
        Err(e) => Err(e),
        Ok(health) => if health@ < 0 {
            Err(MangoError::InsufficientHealth)
        } else {
            Ok(health)
        },
    }
}

/// The slots that committing a staged transfer leaves: the staged slots, the
/// touched one released where its balance is zero.
pub open spec fn spec_released(staged: StagedTransferView) -> Seq<TokenPosition> {
    if staged.position_is_active {
        staged.account.tokens
    } else {
        staged.account.tokens.update(
            staged.slot,
            TokenPosition { active: false, ..staged.account.tokens[staged.slot] },
        )
    }
}

/// Staging keeps an account in order: what is staged for a well-formed
/// account and bank is well formed, so no token has two active slots and no
/// vacant slot holds a balance.
pub proof fn lemma_stage_keeps_wf(
    account: MangoAccountView,
    bank: Bank,
    amount: u64,
    direction: Direction,
)
    requires
        slots_wf(account.tokens),
        bank.wf(),
    ensures
        spec_stage(account, bank, amount, direction) matches Ok(staged) ==> staged.wf(),
{
    lemma_get_or_create(account.tokens, bank.token_index);
}

/// Committing keeps an account in order: the slots that a well-formed staged
/// transfer leaves are well formed, the touched slot being released only
/// with a balance of zero. Where every other active slot held a balance
/// other than zero, every active slot does afterwards.
pub proof fn lemma_released_keeps_wf(staged: StagedTransferView)
    requires
        staged.wf(),
    ensures
        slots_wf(spec_released(staged)),
        (forall|i: int|
            0 <= i < staged.account.tokens.len() && i != staged.slot && (
            #[trigger] staged.account.tokens[i]).active ==> staged.account.tokens[i].amount@ != 0)
            ==> is_settled(spec_released(staged)),
{
}

/// A deposit or withdrawal on an account between two operations, where
/// every active slot holds a balance other than zero, leaves such an account.
pub proof fn lemma_transfer_keeps_settled(
    account: MangoAccountView,
    bank: Bank,
    amount: u64,
    direction: Direction,
)
    requires
        slots_wf(account.tokens),
        is_settled(account.tokens),
        bank.wf(),
        spec_stage(account, bank, amount, direction) is Ok,
    ensures
        slots_wf(spec_released(spec_stage(account, bank, amount, direction)->Ok_0)),
        is_settled(spec_released(spec_stage(account, bank, amount, direction)->Ok_0)),
{
    let staged = spec_stage(account, bank, amount, direction)->Ok_0;
    lemma_stage_keeps_wf(account, bank, amount, direction);
    lemma_get_or_create(account.tokens, bank.token_index);
    crate::state::mango_account::lemma_find(account.tokens, bank.token_index);
    crate::state::mango_account::lemma_find_vacant(account.tokens);
    lemma_released_keeps_wf(staged);
}

/// Computes the account's health at the `Init` weights and asks that it is
/// not negative.
pub fn require_health(account: &MangoAccount, pairs: &[BankAndPrice]) -> (r: Result<
    I80F48,
    MangoError,
>)
    ensures
        r == spec_require_health(account.tokens@, pairs@),
{
    match compute_health(account, HealthType::Init, pairs) {
        Ok(health) => if health.is_negative() {
            Err(MangoError::InsufficientHealth)
        } else {
            Ok(health)
        },
        Err(e) => Err(e),
    }
}

/// Stages a transfer: runs the checks and works out the account and the
/// bank after it, on copies.
pub fn stage_transfer(
    account: &MangoAccount,
    bank: &Bank,
    amount: u64,
    direction: Direction,
) -> (r: Result<StagedTransfer, MangoError>)
    requires
        account.wf(),
        bank.wf(),
    ensures
        match spec_stage(account@, *bank, amount, direction) {
            Ok(staged) => r matches Ok(s) && s@ == staged && staged.wf(),
            Err(e) => r matches Err(f) && f == e,
        },
{
    if amount == 0 {
        return Err(MangoError::InvalidInput);
    }
    if account.is_bankrupt {
        return Err(MangoError::Bankrupt);
    }
    let mut staged_account = account.clone();
    let mut staged_bank = *bank;
    let (mut position, slot) = match staged_account.tokens.get_or_create(bank.token_index) {
        Ok(found) => found,
        Err(e) => { return Err(e); },
    };
    let moved = match direction {
        Direction::Deposit => staged_bank.deposit(&mut position, amount),
        Direction::Withdraw => staged_bank.withdraw(&mut position, amount),
    };
    let position_is_active = match moved {
        Ok(active) => active,
        Err(e) => { return Err(e); },
    };
    let ghost slots = staged_account.tokens@;
    staged_account.tokens.set_amount(slot, position.amount);
    proof {
        assert(staged_account.tokens@ =~= slots.update(slot as int, position));
    }
    Ok(
        StagedTransfer {
            account: staged_account,
            bank: staged_bank,
            slot,
            position_is_active,
            amount,
        },
    )
}

impl StagedTransfer {
    #[verifier::type_invariant]
    spec fn well_formed(&self) -> bool {
        self@.wf()
    }

    /// The raw amount that the host has to move.
    pub fn amount(&self) -> (amount: u64)
        ensures
            amount == self@.amount,
    {
        self.amount
    }

    /// The slot of the touched position.
    pub fn slot(&self) -> (slot: usize)
        ensures
            slot == self@.slot,
    {
        self.slot
    }

    /// Whether the touched position keeps a balance other than zero.
    pub fn position_is_active(&self) -> (active: bool)
        ensures
            active == self@.position_is_active,
    {
        self.position_is_active
    }

    /// The account as it will be if the transfer is committed, the touched
    /// slot still active.
    pub fn account(&self) -> (account: &MangoAccount)
        ensures
            account@ == self@.account,
    {
        &self.account
    }

    /// The bank as it will be if the transfer is committed.
    pub fn bank(&self) -> (bank: &Bank)
        ensures
            *bank == self@.bank,
    {
        &self.bank
    }

    /// Finishes a staged transfer once the tokens have been moved. Health is
    /// computed over the staged account; where it is not negative, the
    /// touched position is released if its balance is zero, and the staged
    /// account and bank replace the given ones. On any error the given
    /// account and bank are left exactly as they were.
    pub fn commit(
        self,
        account: &mut MangoAccount,
        bank: &mut Bank,
        pairs: &[BankAndPrice],
    ) -> (r: Result<I80F48, MangoError>)
        ensures
            match spec_require_health(self@.account.tokens, pairs@) {
                Ok(health) => {
                    &&& r == Ok::<I80F48, MangoError>(health)
                    &&& final(account)@ == (MangoAccountView {
                        tokens: spec_released(self@),
                        ..self@.account
                    })
                    &&& *final(bank) == self@.bank
                    &&& final(account).wf()
                    &&& final(bank).wf()
                },
                Err(e) => {
                    &&& r == Err::<I80F48, MangoError>(e)
                    &&& *final(account) == *old(account)
                    &&& *final(bank) == *old(bank)
                },
            },
    {
        proof {
            use_type_invariant(&self);
        }
        let StagedTransfer {
            account: mut staged_account,
            bank: staged_bank,
            slot,
            position_is_active,
            amount: _,
        } = self;
        let health = match require_health(&staged_account, pairs) {
            Ok(health) => health,
            Err(e) => { return Err(e); },
        };
        if !position_is_active {
            staged_account.tokens.deactivate(slot);
        }
        *account = staged_account;
        *bank = staged_bank;
        Ok(health)
    }
}

} // verus!
