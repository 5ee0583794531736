//! A bank seen together with every position in its token.
//!
//! The bank's totals are kept in step with the positions by each deposit and
//! withdrawal. This module states that as a law over whole histories.

use crate::error::MangoError;
use crate::i80f48::I80F48;
use crate::state::bank::{borrow_part, deposit_part, Bank};
use crate::state::mango_account::TokenPosition;
use vstd::prelude::*;

verus! {

/// The deposits among the balances, added up.
pub open spec fn sum_deposits(positions: Seq<TokenPosition>) -> int
    decreases positions.len(),
{
    if positions.len() == 0 {
        0
    } else {
        sum_deposits(positions.drop_last()) + deposit_part(positions.last().amount@)
    }
}

/// The borrows among the balances, added up.
pub open spec fn sum_borrows(positions: Seq<TokenPosition>) -> int
    decreases positions.len(),
{
    if positions.len() == 0 {
        0
    } else {
        sum_borrows(positions.drop_last()) + borrow_part(positions.last().amount@)
    }
}

/// The balances added up, borrows counting as negative.
pub open spec fn sum_amounts(positions: Seq<TokenPosition>) -> int
    decreases positions.len(),
{
    if positions.len() == 0 {
        0
    } else {
        sum_amounts(positions.drop_last()) + positions.last().amount@
    }
}

/// Whether the bank's totals are those of the positions.
pub open spec fn balanced(bank: Bank, positions: Seq<TokenPosition>) -> bool {
    &&& bank.total_deposits@ == sum_deposits(positions)
    &&& bank.total_borrows@ == sum_borrows(positions)
}

/// Something that happens to a bank and the positions in its token.
pub enum BookEvent {
    /// A deposit of a raw amount into the position at the given place.
    Deposit { place: int, raw_amount: u64 },
    /// A withdrawal of a raw amount from the position at the given place.
    Withdraw { place: int, raw_amount: u64 },
    /// Interest accrual: the indexes are replaced; balances and totals, which
    /// are in scaled units, stay.
    Accrue { deposit_index: I80F48, borrow_index: I80F48 },
    /// An account claims a slot for the bank's token, with a balance of zero.
    Open { position: TokenPosition },
    /// The position at the given place is released; only a position with a
    /// balance of zero can be.
    Close { place: int },
}

/// The bank and the positions after a balance change at `place` with the
/// given outcome: a change that failed leaves both as they were.
pub open spec fn spec_changed(
    bank: Bank,
    positions: Seq<TokenPosition>,
    place: int,
    outcome: Result<(Bank, TokenPosition), MangoError>,
) -> (Bank, Seq<TokenPosition>) {
    match outcome {
        Ok((bank_after, position)) => (bank_after, positions.update(place, position)),
        Err(_) => (bank, positions),
    }
}

/// The bank and the positions after one event. An event that names no
/// position, or that fails, changes nothing.
pub open spec fn spec_apply(bank: Bank, positions: Seq<TokenPosition>, event: BookEvent) -> (
    Bank,
    Seq<TokenPosition>,
) {
    match event {
        BookEvent::Deposit { place, raw_amount } => if 0 <= place < positions.len() {
            spec_changed(bank, positions, place, bank.spec_deposit(positions[place], raw_amount))
        } else {
            (bank, positions)
        },
        BookEvent::Withdraw { place, raw_amount } => if 0 <= place < positions.len() {
            spec_changed(bank, positions, place, bank.spec_withdraw(positions[place], raw_amount))
        } else {
            (bank, positions)
        },
        BookEvent::Accrue { deposit_index, borrow_index } => (
            Bank { deposit_index, borrow_index, ..bank },
            positions,
        ),
        BookEvent::Open { position } => (
            bank,
            positions.push(TokenPosition { amount: I80F48 { bits: 0 }, active: true, ..position }),
        ),
        BookEvent::Close { place } => if 0 <= place < positions.len() && positions[place].amount@
            == 0 {
            (bank, positions.update(place, TokenPosition { active: false, ..positions[place] }))
        } else {
            (bank, positions)
        },
    }
}

/// The bank and the positions after a history of events, the first event
/// first.
pub open spec fn spec_apply_all(
    bank: Bank,
    positions: Seq<TokenPosition>,
    events: Seq<BookEvent>,
) -> (Bank, Seq<TokenPosition>)
    decreases events.len(),
{
    if events.len() == 0 {
        (bank, positions)
    } else {
        let (bank_before, positions_before) = spec_apply_all(bank, positions, events.drop_last());
        spec_apply(bank_before, positions_before, events.last())
    }
}

/// Deposits less borrows is the sum of the balances.
pub proof fn lemma_net_of_parts(positions: Seq<TokenPosition>)
    ensures
        sum_deposits(positions) - sum_borrows(positions) == sum_amounts(positions),
    decreases positions.len(),
{
    if positions.len() > 0 {
        lemma_net_of_parts(positions.drop_last());
    }
}

/// Replacing one position moves each sum by the difference of that
/// position's part in it.
pub proof fn lemma_sums_after_update(
    positions: Seq<TokenPosition>,
    place: int,
    position: TokenPosition,
)
    requires
        0 <= place < positions.len(),
    ensures
        sum_deposits(positions.update(place, position)) == sum_deposits(positions) + deposit_part(
            position.amount@,
        ) - deposit_part(positions[place].amount@),
        sum_borrows(positions.update(place, position)) == sum_borrows(positions) + borrow_part(
            position.amount@,
        ) - borrow_part(positions[place].amount@),
    decreases positions.len(),
{
    let updated = positions.update(place, position);
    if place == positions.len() - 1 {
        assert(updated.drop_last() =~= positions.drop_last());
    } else {
        lemma_sums_after_update(positions.drop_last(), place, position);
        assert(updated.drop_last() =~= positions.drop_last().update(place, position));
    }
}

/// One event keeps the bank's totals in step with the positions.
pub proof fn lemma_apply_keeps_balance(
    bank: Bank,
    positions: Seq<TokenPosition>,
    event: BookEvent,
)
    requires
        balanced(bank, positions),
    ensures
        balanced(spec_apply(bank, positions, event).0, spec_apply(bank, positions, event).1),
{
    match event {
        BookEvent::Deposit { place, raw_amount } => {
            if 0 <= place < positions.len() {
                let outcome = bank.spec_deposit(positions[place], raw_amount);
                if outcome is Ok {
                    lemma_sums_after_update(positions, place, outcome->Ok_0.1);
                }
            }
        },
        BookEvent::Withdraw { place, raw_amount } => {
            if 0 <= place < positions.len() {
                let outcome = bank.spec_withdraw(positions[place], raw_amount);
                if outcome is Ok {
                    lemma_sums_after_update(positions, place, outcome->Ok_0.1);
                }
            }
        },
        BookEvent::Accrue { deposit_index, borrow_index } => {},
        BookEvent::Open { position } => {
            let opened = TokenPosition { amount: I80F48 { bits: 0 }, active: true, ..position };
            assert(positions.push(opened).drop_last() =~= positions);
        },
        BookEvent::Close { place } => {
            if 0 <= place < positions.len() && positions[place].amount@ == 0 {
                lemma_sums_after_update(
                    positions,
                    place,
                    TokenPosition { active: false, ..positions[place] },
                );
            }
        },
    }
}

/// The books balance. Through any history of deposits and withdrawals on one
/// bank, with interest accrual and with positions opened and released in
/// between, the bank's total deposits are the deposits of all positions and
/// its total borrows are their borrows; so total deposits less total borrows
/// is the sum of all balances. All of these are in scaled units, which
/// accrual does not touch. `positions` holds every position in the bank's
/// token, of whatever account, in any order.
pub proof fn lemma_conservation(
    bank: Bank,
    positions: Seq<TokenPosition>,
    events: Seq<BookEvent>,
)
    requires
        balanced(bank, positions),
    ensures
        balanced(
            spec_apply_all(bank, positions, events).0,
            spec_apply_all(bank, positions, events).1,
        ),
        spec_apply_all(bank, positions, events).0.total_deposits@ - spec_apply_all(
            bank,
            positions,
            events,
        ).0.total_borrows@ == sum_amounts(spec_apply_all(bank, positions, events).1),
    decreases events.len(),
{
    if events.len() > 0 {
        lemma_conservation(bank, positions, events.drop_last());
        let (bank_before, positions_before) = spec_apply_all(bank, positions, events.drop_last());
        lemma_apply_keeps_balance(bank_before, positions_before, events.last());
    }
    lemma_net_of_parts(spec_apply_all(bank, positions, events).1);
}

/// A deposit followed by a withdrawal of the same raw amount, at the same
/// deposit index, puts the position and the bank back where they were.
pub proof fn lemma_deposit_then_withdraw(bank: Bank, position: TokenPosition, raw_amount: u64)
    requires
        bank.wf(),
        bank.spec_deposit(position, raw_amount) is Ok,
    ensures
        ({
            let (deposited_bank, deposited) = bank.spec_deposit(position, raw_amount)->Ok_0;
            deposited_bank.spec_withdraw(deposited, raw_amount) == Ok::<
                (Bank, TokenPosition),
                MangoError,
            >((bank, position))
        }),
{
}

} // verus!
