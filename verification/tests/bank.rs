use mango_v4::error::MangoError;
use mango_v4::i80f48::{I80F48, ONE_BITS};
use mango_v4::state::bank::Bank;
use mango_v4::state::mango_account::TokenPosition;

fn bank_with_index(deposit_index: I80F48) -> Bank {
    Bank::new(
        [1; 32],
        [2; 32],
        0,
        deposit_index,
        I80F48::one(),
        I80F48::one(),
        I80F48::one(),
        I80F48::one(),
        I80F48::one(),
    )
    .unwrap()
}

fn bank() -> Bank {
    bank_with_index(I80F48::one())
}

fn whole(x: i128) -> I80F48 {
    I80F48::from_bits(x * ONE_BITS)
}

fn sums(positions: &[TokenPosition]) -> (i128, i128) {
    let deposits = positions.iter().map(|p| p.amount.to_bits().max(0)).sum();
    let borrows = positions.iter().map(|p| (-p.amount.to_bits()).max(0)).sum();
    (deposits, borrows)
}

#[test]
fn a_new_bank_has_no_deposits_or_borrows() {
    let bank = bank();
    assert!(bank.is_valid());
    assert_eq!(bank.total_deposits, I80F48::zero());
    assert_eq!(bank.total_borrows, I80F48::zero());
    assert_eq!(bank.token_index, 0);
    assert_eq!(bank.group, [1; 32]);
    assert_eq!(bank.vault, [2; 32]);
}

#[test]
fn a_bank_needs_positive_indexes_and_weights_that_are_not_negative() {
    let one = I80F48::one();
    let zero = I80F48::zero();
    let minus = I80F48::from_bits(-1);
    let make = |a, b, c, d, e, f| Bank::new([0; 32], [0; 32], 0, a, b, c, d, e, f);
    assert_eq!(make(zero, one, one, one, one, one), Err(MangoError::InvalidInput));
    assert_eq!(make(one, zero, one, one, one, one), Err(MangoError::InvalidInput));
    assert_eq!(make(one, one, minus, one, one, one), Err(MangoError::InvalidInput));
    assert_eq!(make(one, one, one, minus, one, one), Err(MangoError::InvalidInput));
    assert_eq!(make(one, one, one, one, minus, one), Err(MangoError::InvalidInput));
    assert_eq!(make(one, one, one, one, one, minus), Err(MangoError::InvalidInput));
    assert!(make(one, one, zero, zero, zero, zero).is_ok());
}

#[test]
fn depositing_100_at_index_one() {
    let mut bank = bank();
    let mut position = TokenPosition::fresh(0);
    assert_eq!(bank.deposit(&mut position, 100), Ok(true));
    assert_eq!(position.amount, whole(100));
    assert!(position.active);
    assert_eq!(bank.total_deposits, whole(100));
    assert_eq!(bank.total_borrows, I80F48::zero());
}

#[test]
fn withdrawing_all_of_a_deposit() {
    let mut bank = bank();
    let mut position = TokenPosition::fresh(0);
    bank.deposit(&mut position, 100).unwrap();
    assert_eq!(bank.withdraw(&mut position, 100), Ok(false));
    assert_eq!(position.amount, I80F48::zero());
    assert_eq!(bank.total_deposits, I80F48::zero());
    assert_eq!(bank.total_borrows, I80F48::zero());
}

#[test]
fn a_deposit_is_scaled_by_the_deposit_index() {
    // At an index of 2, 100 raw tokens are 50 scaled units.
    let mut bank = bank_with_index(whole(2));
    let mut position = TokenPosition::fresh(0);
    assert_eq!(bank.deposit(&mut position, 100), Ok(true));
    assert_eq!(position.amount, whole(50));
    assert_eq!(bank.total_deposits, whole(50));
    // At an index of 3, 100 raw tokens are 33.33.. scaled units, rounded toward zero.
    let mut bank = bank_with_index(whole(3));
    let mut position = TokenPosition::fresh(0);
    assert_eq!(bank.deposit(&mut position, 100), Ok(true));
    assert_eq!(position.amount, I80F48::from_bits(100 * ONE_BITS * ONE_BITS / (3 * ONE_BITS)));
    assert_eq!(position.amount, I80F48::from_bits(33 * ONE_BITS + 0x5555_5555_5555));
}

#[test]
fn a_withdrawal_beyond_the_deposit_makes_a_borrow() {
    let mut bank = bank();
    let mut position = TokenPosition::fresh(0);
    bank.deposit(&mut position, 30).unwrap();
    assert_eq!(bank.withdraw(&mut position, 100), Ok(true));
    assert_eq!(position.amount, whole(-70));
    assert_eq!(bank.total_deposits, I80F48::zero());
    assert_eq!(bank.total_borrows, whole(70));
}

#[test]
fn a_deposit_takes_a_borrow_through_zero() {
    let mut bank = bank();
    let mut position = TokenPosition::fresh(0);
    bank.withdraw(&mut position, 70).unwrap();
    assert_eq!(bank.total_borrows, whole(70));
    assert_eq!(bank.deposit(&mut position, 100), Ok(true));
    assert_eq!(position.amount, whole(30));
    assert_eq!(bank.total_deposits, whole(30));
    assert_eq!(bank.total_borrows, I80F48::zero());
}

#[test]
fn a_deposit_that_repays_a_borrow_exactly_leaves_zero() {
    let mut bank = bank();
    let mut position = TokenPosition::fresh(0);
    bank.withdraw(&mut position, 70).unwrap();
    assert_eq!(bank.deposit(&mut position, 70), Ok(false));
    assert_eq!(position.amount, I80F48::zero());
    assert_eq!(bank.total_borrows, I80F48::zero());
    assert_eq!(bank.total_deposits, I80F48::zero());
}

#[test]
fn an_amount_of_zero_is_invalid() {
    let mut bank = bank();
    let mut position = TokenPosition::fresh(0);
    let (bank_before, position_before) = (bank, position);
    assert_eq!(bank.deposit(&mut position, 0), Err(MangoError::InvalidInput));
    assert_eq!(bank.withdraw(&mut position, 0), Err(MangoError::InvalidInput));
    assert_eq!(bank, bank_before);
    assert_eq!(position, position_before);
}

#[test]
fn scaling_that_overflows_is_reported() {
    // At the smallest index, a raw amount of 2^63 scales to 2^159 * 2^-48.
    let mut bank = bank_with_index(I80F48::from_bits(1));
    let mut position = TokenPosition::fresh(0);
    let (bank_before, position_before) = (bank, position);
    assert_eq!(bank.deposit(&mut position, 1 << 63), Err(MangoError::ArithmeticOverflow));
    assert_eq!(bank.withdraw(&mut position, 1 << 63), Err(MangoError::ArithmeticOverflow));
    assert_eq!(bank, bank_before);
    assert_eq!(position, position_before);
}

#[test]
fn a_balance_that_overflows_is_reported() {
    let mut bank = bank();
    let mut position = TokenPosition { token_index: 0, amount: I80F48::from_bits(i128::MAX), active: true };
    bank.total_deposits = I80F48::from_bits(i128::MAX);
    let (bank_before, position_before) = (bank, position);
    assert_eq!(bank.deposit(&mut position, 1), Err(MangoError::ArithmeticOverflow));
    assert_eq!(bank, bank_before);
    assert_eq!(position, position_before);
}

#[test]
fn a_total_that_overflows_is_reported() {
    let mut bank = bank();
    bank.total_deposits = I80F48::from_bits(i128::MAX);
    let mut position = TokenPosition::fresh(0);
    let (bank_before, position_before) = (bank, position);
    assert_eq!(bank.deposit(&mut position, 1), Err(MangoError::ArithmeticOverflow));
    assert_eq!(bank, bank_before);
    assert_eq!(position, position_before);
}

#[test]
fn a_total_that_would_fall_below_zero_is_reported() {
    // The position claims a deposit that the bank's total does not hold.
    let mut bank = bank();
    let mut position = TokenPosition { token_index: 0, amount: whole(10), active: true };
    let (bank_before, position_before) = (bank, position);
    assert_eq!(bank.withdraw(&mut position, 5), Err(MangoError::ArithmeticOverflow));
    assert_eq!(bank, bank_before);
    assert_eq!(position, position_before);
}

#[test]
fn the_smallest_balance_cannot_be_borrowed() {
    let mut bank = bank();
    let mut position = TokenPosition { token_index: 0, amount: I80F48::from_bits(i128::MIN + ONE_BITS), active: true };
    bank.total_borrows = I80F48::from_bits(i128::MAX - ONE_BITS + 1);
    let (bank_before, position_before) = (bank, position);
    assert_eq!(bank.withdraw(&mut position, 1), Err(MangoError::ArithmeticOverflow));
    assert_eq!(bank, bank_before);
    assert_eq!(position, position_before);
}

#[test]
fn totals_follow_the_positions_through_a_history() {
    let mut bank = bank_with_index(whole(3));
    let mut positions = vec![TokenPosition::fresh(0); 4];
    let history: [(usize, bool, u64); 12] = [
        (0, true, 100),
        (1, true, 7),
        (2, false, 50),
        (0, false, 250),
        (3, true, 1),
        (1, false, 7),
        (2, true, 20),
        (2, true, 31),
        (0, true, 1_000_000),
        (3, false, 2),
        (1, false, 0),
        (1, true, 12),
    ];
    for (step, &(who, is_deposit, raw)) in history.iter().enumerate() {
        if step == 6 {
            // Interest accrues: the indexes move, scaled amounts stay.
            bank.deposit_index = whole(4);
            bank.borrow_index = whole(5);
        }
        let _ = if is_deposit {
            bank.deposit(&mut positions[who], raw)
        } else {
            bank.withdraw(&mut positions[who], raw)
        };
        let (deposits, borrows) = sums(&positions);
        assert_eq!(bank.total_deposits.to_bits(), deposits);
        assert_eq!(bank.total_borrows.to_bits(), borrows);
        let net: i128 = positions.iter().map(|p| p.amount.to_bits()).sum();
        assert_eq!(bank.total_deposits.to_bits() - bank.total_borrows.to_bits(), net);
    }
}

#[test]
fn a_deposit_then_a_withdrawal_of_the_same_amount_restores_everything() {
    for index in [1i128, 3, 7, ONE_BITS, 3 * ONE_BITS + 5] {
        let mut bank = bank_with_index(I80F48::from_bits(index));
        let mut other = TokenPosition::fresh(0);
        bank.deposit(&mut other, 12).unwrap();
        let mut position = TokenPosition::fresh(0);
        bank.withdraw(&mut position, 5).unwrap();
        let (bank_before, position_before) = (bank, position);
        bank.deposit(&mut position, 1234).unwrap();
        assert_ne!(position, position_before);
        bank.withdraw(&mut position, 1234).unwrap();
        assert_eq!(bank, bank_before);
        assert_eq!(position, position_before);
    }
}
