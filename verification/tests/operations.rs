use mango_v4::error::MangoError;
use mango_v4::i80f48::{I80F48, ONE_BITS};
use mango_v4::instructions::create_group::create_group;
use mango_v4::instructions::place_serum_order::{place_serum_order, settle_serum_order, OrderPayer};
use mango_v4::instructions::token_deposit::token_deposit;
use mango_v4::instructions::token_withdraw::token_withdraw;
use mango_v4::instructions::{require_health, stage_transfer, Direction};
use mango_v4::order::{NewOrderInstructionData, OrderType, SelfTradeBehavior, Side};
use mango_v4::state::bank::Bank;
use mango_v4::state::group::Group;
use mango_v4::state::health::BankAndPrice;
use mango_v4::state::mango_account::{check_slots, MangoAccount, TokenPosition};

fn whole(x: i128) -> I80F48 {
    I80F48::from_bits(x * ONE_BITS)
}

/// A bank with both indexes at one and all weights at one.
fn bank(token_index: u16) -> Bank {
    Bank::new(
        [7; 32],
        [8; 32],
        token_index,
        whole(1),
        whole(1),
        whole(1),
        whole(1),
        whole(1),
        whole(1),
    )
    .unwrap()
}

fn pair(bank: Bank, price: i128) -> BankAndPrice {
    BankAndPrice { bank, price: Some(whole(price)) }
}

fn account(capacity: usize) -> MangoAccount {
    MangoAccount::new([7; 32], [9; 32], capacity)
}

fn order(side: Side) -> NewOrderInstructionData {
    NewOrderInstructionData::new(
        side,
        10,
        20,
        30,
        SelfTradeBehavior::DecrementTake,
        OrderType::Limit,
        1,
        5,
    )
    .unwrap()
}

#[test]
fn depositing_100_into_an_empty_position() {
    let mut a = account(4);
    let mut b = bank(3);
    let staged = token_deposit(&a, &b, 100).unwrap();
    assert_eq!(staged.amount(), 100);
    assert_eq!(staged.slot(), 0);
    assert!(staged.position_is_active());
    // Nothing is changed before the commit: the changes are in the staged copies.
    assert_eq!(a, account(4));
    assert_eq!(b, bank(3));
    assert_eq!(staged.account().tokens.get(0).amount, whole(100));
    assert_eq!(staged.bank().total_deposits, whole(100));
    let health = staged.commit(&mut a, &mut b, &[pair(bank(3), 2)]).unwrap();
    assert_eq!(health, whole(200));
    assert_eq!(
        a.tokens.get(0),
        TokenPosition { token_index: 3, amount: whole(100), active: true }
    );
    assert_eq!(b.total_deposits, whole(100));
    assert_eq!(b.total_borrows, whole(0));
    assert_eq!(a.tokens.get(1), TokenPosition::vacant());
}

#[test]
fn withdrawing_all_of_a_position_releases_it() {
    let mut a = account(4);
    let mut b = bank(3);
    let pairs = [pair(bank(3), 2)];
    token_deposit(&a, &b, 100).unwrap().commit(&mut a, &mut b, &pairs).unwrap();
    let staged = token_withdraw(&a, &b, 100).unwrap();
    assert!(!staged.position_is_active());
    assert_eq!(staged.slot(), 0);
    // The position is still active while health is computed.
    assert!(staged.account().tokens.get(0).active);
    let health = staged.commit(&mut a, &mut b, &pairs).unwrap();
    assert_eq!(health, whole(0));
    assert!(!a.tokens.get(0).active);
    assert_eq!(a.tokens.get(0).amount, whole(0));
    assert_eq!(b.total_deposits, whole(0));
    assert_eq!(b.total_borrows, whole(0));
    assert_eq!(a.tokens.find(3), None);
}

#[test]
fn a_released_position_still_needs_its_pair_for_the_health_check() {
    let mut a = account(4);
    let mut b = bank(3);
    token_deposit(&a, &b, 100).unwrap().commit(&mut a, &mut b, &[pair(bank(3), 2)]).unwrap();
    let (a_before, b_before) = (a.clone(), b);
    let staged = token_withdraw(&a, &b, 100).unwrap();
    assert_eq!(staged.commit(&mut a, &mut b, &[]), Err(MangoError::MissingBank));
    assert_eq!(a, a_before);
    assert_eq!(b, b_before);
}

#[test]
fn a_deposit_without_the_pair_of_another_position_is_a_missing_bank() {
    let mut a = account(4);
    let mut b3 = bank(3);
    let mut b5 = bank(5);
    token_deposit(&a, &b3, 100).unwrap().commit(&mut a, &mut b3, &[pair(bank(3), 2)]).unwrap();
    let (a_before, b5_before) = (a.clone(), b5);
    let staged = token_deposit(&a, &b5, 1).unwrap();
    assert_eq!(staged.commit(&mut a, &mut b5, &[pair(bank(5), 1)]), Err(MangoError::MissingBank));
    assert_eq!(a, a_before);
    assert_eq!(b5, b5_before);
}

#[test]
fn a_deposit_that_leaves_health_below_zero_is_rejected() {
    // The account owes 50 of token 5 at a price of 10; a deposit of 100 of
    // token 3 at a price of 1 does not cover it.
    let mut a = account(4);
    a.tokens.get_or_create(5).unwrap();
    a.tokens.set_amount(0, whole(-50));
    let mut b3 = bank(3);
    let pairs = [pair(bank(3), 1), pair(bank(5), 10)];
    let (a_before, b3_before) = (a.clone(), b3);
    let staged = token_deposit(&a, &b3, 100).unwrap();
    assert_eq!(staged.commit(&mut a, &mut b3, &pairs), Err(MangoError::InsufficientHealth));
    assert_eq!(a, a_before);
    assert_eq!(b3, b3_before);
    // A deposit of 500 covers it exactly.
    let staged = token_deposit(&a, &b3, 500).unwrap();
    assert_eq!(staged.commit(&mut a, &mut b3, &pairs), Ok(whole(0)));
    assert_eq!(a.tokens.get(1).amount, whole(500));
}

#[test]
fn a_withdrawal_that_leaves_health_below_zero_is_rejected() {
    let mut a = account(4);
    let mut b = bank(3);
    let pairs = [pair(bank(3), 2)];
    token_deposit(&a, &b, 100).unwrap().commit(&mut a, &mut b, &pairs).unwrap();
    let (a_before, b_before) = (a.clone(), b);
    let staged = token_withdraw(&a, &b, 101).unwrap();
    assert_eq!(staged.commit(&mut a, &mut b, &pairs), Err(MangoError::InsufficientHealth));
    assert_eq!(a, a_before);
    assert_eq!(b, b_before);
}

#[test]
fn a_pair_without_a_price_stops_the_commit() {
    let mut a = account(4);
    let mut b = bank(3);
    let (a_before, b_before) = (a.clone(), b);
    let staged = token_deposit(&a, &b, 100).unwrap();
    let pairs = [BankAndPrice { bank: bank(3), price: None }];
    assert_eq!(staged.commit(&mut a, &mut b, &pairs), Err(MangoError::MissingOracle));
    assert_eq!(a, a_before);
    assert_eq!(b, b_before);
}

#[test]
fn an_overflow_in_the_health_check_stops_the_commit() {
    let mut a = account(4);
    let mut b = bank(3);
    let (a_before, b_before) = (a.clone(), b);
    let staged = token_deposit(&a, &b, u64::MAX).unwrap();
    let pairs = [pair(bank(3), 1i128 << 70)];
    assert_eq!(staged.commit(&mut a, &mut b, &pairs), Err(MangoError::ArithmeticOverflow));
    assert_eq!(a, a_before);
    assert_eq!(b, b_before);
}

#[test]
fn an_amount_of_zero_is_invalid_input() {
    let a = account(4);
    let b = bank(3);
    assert_eq!(token_deposit(&a, &b, 0).unwrap_err(), MangoError::InvalidInput);
    assert_eq!(token_withdraw(&a, &b, 0).unwrap_err(), MangoError::InvalidInput);
}

#[test]
fn a_bankrupt_account_may_not_move_tokens() {
    let mut a = account(4);
    a.is_bankrupt = true;
    let b = bank(3);
    assert_eq!(token_deposit(&a, &b, 1).unwrap_err(), MangoError::Bankrupt);
    assert_eq!(token_withdraw(&a, &b, 1).unwrap_err(), MangoError::Bankrupt);
    // The amount is looked at first.
    assert_eq!(token_deposit(&a, &b, 0).unwrap_err(), MangoError::InvalidInput);
}

#[test]
fn an_account_without_a_vacant_slot_cannot_take_a_new_token() {
    let mut a = account(1);
    let mut b3 = bank(3);
    token_deposit(&a, &b3, 10).unwrap().commit(&mut a, &mut b3, &[pair(bank(3), 1)]).unwrap();
    assert_eq!(token_deposit(&a, &bank(5), 10).unwrap_err(), MangoError::PositionLimitExceeded);
    assert_eq!(token_withdraw(&a, &bank(5), 10).unwrap_err(), MangoError::PositionLimitExceeded);
    assert!(token_deposit(&a, &b3, 10).is_ok());
}

#[test]
fn a_balance_that_cannot_be_held_is_an_overflow() {
    let a = account(2);
    let mut b = bank(3);
    b.deposit_index = I80F48::from_bits(1);
    assert_eq!(token_deposit(&a, &b, u64::MAX).unwrap_err(), MangoError::ArithmeticOverflow);
}

#[test]
fn staging_does_not_touch_the_account_or_the_bank() {
    let mut a = account(3);
    let mut b = bank(3);
    token_deposit(&a, &b, 40).unwrap().commit(&mut a, &mut b, &[pair(bank(3), 1)]).unwrap();
    let (a_before, b_before) = (a.clone(), b);
    for direction in [Direction::Deposit, Direction::Withdraw] {
        for amount in [0u64, 1, 40, 41, u64::MAX] {
            let _ = stage_transfer(&a, &b, amount, direction);
            let _ = stage_transfer(&a, &bank(9), amount, direction);
            assert_eq!(a, a_before);
            assert_eq!(b, b_before);
        }
    }
}

#[test]
fn accounts_stay_well_formed_through_a_history() {
    let mut a = account(3);
    let mut banks = vec![bank(0), bank(1), bank(2), bank(3)];
    let history: [(usize, bool, u64); 14] = [
        (0, true, 100),
        (1, true, 50),
        (0, false, 100),
        (2, true, 5),
        (3, true, 5),
        (1, false, 60),
        (0, true, 10),
        (2, false, 5),
        (3, true, 7),
        (1, true, 10),
        (3, false, 7),
        (0, false, 10),
        (2, true, 1),
        (1, false, 1),
    ];
    for &(token, is_deposit, amount) in history.iter() {
        let pairs: Vec<BankAndPrice> = banks.iter().map(|b| pair(*b, 1)).collect();
        let staged = if is_deposit {
            token_deposit(&a, &banks[token], amount)
        } else {
            token_withdraw(&a, &banks[token], amount)
        };
        if let Ok(staged) = staged {
            let mut b = banks[token];
            if staged.commit(&mut a, &mut b, &pairs).is_ok() {
                banks[token] = b;
            }
        }
        assert!(check_slots(a.tokens.as_slice()));
        for slot in 0..a.tokens.capacity() {
            let position = a.tokens.get(slot);
            // A vacant slot holds nothing and an active one holds something.
            assert_eq!(position.active, !position.amount.is_zero());
            if position.active {
                assert_eq!(a.tokens.find(position.token_index), Some(slot));
            }
        }
    }
}

#[test]
fn an_ask_is_paid_from_the_base_vault_and_a_bid_from_the_quote_vault() {
    let a = account(2);
    assert_eq!(place_serum_order(&a, &order(Side::Ask)), Ok(OrderPayer::BaseVault));
    assert_eq!(place_serum_order(&a, &order(Side::Bid)), Ok(OrderPayer::QuoteVault));
}

#[test]
fn a_bankrupt_account_may_not_place_an_order() {
    let mut a = account(2);
    a.is_bankrupt = true;
    assert_eq!(place_serum_order(&a, &order(Side::Ask)), Err(MangoError::Bankrupt));
}

#[test]
fn an_order_is_settled_only_with_health_that_is_not_negative() {
    let mut a = account(2);
    a.tokens.get_or_create(3).unwrap();
    a.tokens.set_amount(0, whole(4));
    let pairs = [pair(bank(3), 5)];
    assert_eq!(settle_serum_order(&a, &pairs), Ok(whole(20)));
    assert_eq!(require_health(&a, &pairs), Ok(whole(20)));
    a.tokens.set_amount(0, I80F48::from_bits(-1));
    assert_eq!(settle_serum_order(&a, &pairs), Err(MangoError::InsufficientHealth));
    assert_eq!(settle_serum_order(&a, &[]), Err(MangoError::MissingBank));
    a.tokens.set_amount(0, whole(0));
    assert_eq!(settle_serum_order(&a, &pairs), Ok(whole(0)));
}

#[test]
fn a_group_needs_its_bump() {
    assert_eq!(create_group([3; 32], Some(254)), Ok(Group { admin: [3; 32], bump: 254 }));
    assert_eq!(create_group([3; 32], None), Err(MangoError::InvalidInput));
}

#[test]
fn every_error_has_its_own_code() {
    let all = [
        MangoError::InvalidInput,
        MangoError::PositionLimitExceeded,
        MangoError::MissingBank,
        MangoError::MissingOracle,
        MangoError::ArithmeticOverflow,
        MangoError::InsufficientHealth,
        MangoError::Bankrupt,
    ];
    for (i, e) in all.iter().enumerate() {
        assert_eq!(e.code(), i as u32);
    }
}
