//! The health of an account: its risk-weighted net value.
//!
//! Every active position counts with its balance in native units, times the
//! token's price, times a weight of its bank: the asset weight for a deposit,
//! the liability weight for a borrow. Health is the sum. An account is
//! solvent at a health type while that sum is not negative.
//!
//! Health is a property of the whole portfolio. It is computed only where
//! every active position comes with the bank and the price of its token,
//! whether or not the operation at hand touched that position.

use crate::error::MangoError;
use crate::i80f48::{lemma_mul_bits_monotonic, lemma_mul_bits_sign, mul_bits, I80F48};
use crate::search::{first_index, lemma_first_index, lemma_first_index_is, lemma_first_index_none};
use crate::state::bank::Bank;
use crate::state::mango_account::{MangoAccount, TokenPosition};
use crate::state::TokenIndex;
use vstd::prelude::*;

verus! {

/// Which weights value an account.
#[derive(Clone, Copy, Debug, PartialEq, Eq, Structural)]
pub enum HealthType {
    /// The stricter weights, asked of an account before it trades or
    /// withdraws.
    Init,
    /// The looser weights, below which an account may be liquidated.
    Maintenance,
}

/// A bank together with the current price of its token. The price is absent
/// where the oracle gave none that may be used.
#[derive(Clone, Copy, Debug, PartialEq, Eq)]
pub struct BankAndPrice {
    pub bank: Bank,
    pub price: Option<I80F48>,
}

impl BankAndPrice {
    /// The bank is well formed and the price, if any, is not negative.
    pub open spec fn wf(&self) -> bool {
        &&& self.bank.wf()
        &&& self.price matches Some(price) ==> price@ >= 0
    }

    /// Whether the pair is well formed.
    pub fn is_valid(&self) -> (r: bool)
        ensures
            r == self.wf(),
    {
        self.bank.is_valid() && match self.price {
            Some(price) => !price.is_negative(),
            None => true,
        }
    }
}

/// Whether every pair is well formed.
pub open spec fn pairs_wf(pairs: Seq<BankAndPrice>) -> bool {
    forall|i: int| 0 <= i < pairs.len() ==> (#[trigger] pairs[i]).wf()
}

/// The place of the first pair whose bank has the given token index.
pub open spec fn spec_find_pair(pairs: Seq<BankAndPrice>, token_index: TokenIndex) -> Option<int> {
    first_index(pairs, |pair: BankAndPrice| pair.bank.token_index == token_index)
}

/// The weight that values a balance of the given sign.
pub open spec fn spec_weight(bank: Bank, health_type: HealthType, amount: I80F48) -> I80F48 {
    match health_type {
        HealthType::Init => if amount@ < 0 {
            bank.init_liab_weight
        } else {
            bank.init_asset_weight
        },
        HealthType::Maintenance => if amount@ < 0 {
            bank.maint_liab_weight
        } else {
            bank.maint_asset_weight
        },
    }
}

/// The index that scales a balance of the given sign.
pub open spec fn spec_index(bank: Bank, amount: I80F48) -> I80F48 {
    if amount@ < 0 {
        bank.borrow_index
    } else {
        bank.deposit_index
    }
}

/// What one balance adds to health: the balance times its index, times the
/// price, times its weight, each product rounded down. It is
/// `MissingOracle` where the pair has no price and `ArithmeticOverflow`
/// where a product cannot be held.
pub open spec fn spec_contribution(
    amount: I80F48,
    pair: BankAndPrice,
    health_type: HealthType,
) -> Result<I80F48, MangoError> {
    match pair.price {
        None => Err(MangoError::MissingOracle),
        Some(price) => match amount.spec_checked_mul(spec_index(pair.bank, amount)) {
            None => Err(MangoError::ArithmeticOverflow),
            Some(native) => match native.spec_checked_mul(price) {
                None => Err(MangoError::ArithmeticOverflow),
                Some(value) => match value.spec_checked_mul(
                    spec_weight(pair.bank, health_type, amount),
                ) {
                    None => Err(MangoError::ArithmeticOverflow),
                    Some(weighted) => Ok(weighted),
                },
            },
        },
    }
}

/// What one position adds to health, valued by the first pair of its token.
/// It is `MissingBank` where no pair has the position's token index.
pub open spec fn spec_position_health(
    position: TokenPosition,
    health_type: HealthType,
    pairs: Seq<BankAndPrice>,
) -> Result<I80F48, MangoError> {
    match spec_find_pair(pairs, position.token_index) {
        None => Err(MangoError::MissingBank),
        Some(at) => spec_contribution(position.amount, pairs[at], health_type),
    }
}

/// Whether some pair has the given token index.
pub open spec fn has_pair(pairs: Seq<BankAndPrice>, token_index: TokenIndex) -> bool {
    exists|j: int| 0 <= j < pairs.len() && (#[trigger] pairs[j]).bank.token_index == token_index
}

/// Whether every active position has a pair of its token.
pub open spec fn all_have_banks(slots: Seq<TokenPosition>, pairs: Seq<BankAndPrice>) -> bool {
    forall|i: int|
        0 <= i < slots.len() && (#[trigger] slots[i]).active ==> has_pair(
            pairs,
            slots[i].token_index,
        )
}

/// Whether the pair of every active position, where it has one, holds a
/// price.
pub open spec fn all_have_prices(slots: Seq<TokenPosition>, pairs: Seq<BankAndPrice>) -> bool {
    forall|i: int|
        0 <= i < slots.len() && (#[trigger] slots[i]).active ==> (spec_find_pair(
            pairs,
            slots[i].token_index,
        ) matches Some(at) ==> pairs[at].price is Some)
}

/// What the active positions among the first `n` slots add to health, summed
/// slot by slot. There is none where a position has no value or where a sum
/// cannot be held.
///
/// The definition goes by recursion on `n`: to work it out for given slots,
/// unfold it with `reveal_with_fuel(spec_sum_upto, n + 1)`.
pub open spec fn spec_sum_upto(
    slots: Seq<TokenPosition>,
    health_type: HealthType,
    pairs: Seq<BankAndPrice>,
    n: nat,
) -> Option<I80F48>
    decreases n,
{
    if n == 0 {
        Some(I80F48 { bits: 0 })
    } else {
        match spec_sum_upto(slots, health_type, pairs, (n - 1) as nat) {
            None => None,
            Some(sum) => if !slots[n - 1].active {
                Some(sum)
            } else {
                match spec_position_health(slots[n - 1], health_type, pairs) {
                    Err(_) => None,
                    Ok(part) => sum.spec_checked_add(part),
                }
            },
        }
    }
}

/// The health of an account's slots.
///
/// It is `MissingBank` where any active position has no pair of its token
/// among `pairs`. Else it is `MissingOracle` where the pair of any active
/// position holds no price. Else it is the sum of what the active positions
/// add, or `ArithmeticOverflow` where a product or a sum on the way cannot
/// be held.
pub open spec fn spec_compute_health(
    slots: Seq<TokenPosition>,
    health_type: HealthType,
    pairs: Seq<BankAndPrice>,
) -> Result<I80F48, MangoError> {
    if !all_have_banks(slots, pairs) {
        Err(MangoError::MissingBank)
    } else if !all_have_prices(slots, pairs) {
        Err(MangoError::MissingOracle)
    } else {
        match spec_sum_upto(slots, health_type, pairs, slots.len()) {
            Some(health) => Ok(health),
            None => Err(MangoError::ArithmeticOverflow),
        }
    }
}

/// What the active positions among the first `n` slots add to health, added
/// up as whole numbers without a bound. A position that has no value counts
/// as nothing.
pub open spec fn spec_total_upto(
    slots: Seq<TokenPosition>,
    health_type: HealthType,
    pairs: Seq<BankAndPrice>,
    n: nat,
) -> int
    decreases n,
{
    if n == 0 {
        0
    } else {
        spec_total_upto(slots, health_type, pairs, (n - 1) as nat) + match spec_position_health(
            slots[n - 1],
            health_type,
            pairs,
        ) {
            Ok(part) => if slots[n - 1].active {
                part@
            } else {
                0
            },
            Err(_) => 0,
        }
    }
}

/// Where a pair is found, it is the first of its token; where none is found,
/// no pair has the token.
pub proof fn lemma_find_pair(pairs: Seq<BankAndPrice>, token_index: TokenIndex)
    ensures
        match spec_find_pair(pairs, token_index) {
            Some(i) => 0 <= i < pairs.len() && pairs[i].bank.token_index == token_index
                && forall|j: int|
                0 <= j < i ==> (#[trigger] pairs[j]).bank.token_index != token_index,
            None => forall|j: int|
                0 <= j < pairs.len() ==> (#[trigger] pairs[j]).bank.token_index != token_index,
        },
        has_pair(pairs, token_index) == (spec_find_pair(pairs, token_index) is Some),
{
    lemma_first_index(pairs, |pair: BankAndPrice| pair.bank.token_index == token_index);
}

/// A sum that cannot be held after some slots cannot be held after more.
pub proof fn lemma_sum_stays_none(
    slots: Seq<TokenPosition>,
    health_type: HealthType,
    pairs: Seq<BankAndPrice>,
    n: nat,
    m: nat,
)
    requires
        n <= m,
        spec_sum_upto(slots, health_type, pairs, n) is None,
    ensures
        spec_sum_upto(slots, health_type, pairs, m) is None,
    decreases m,
{
    if n < m {
        lemma_sum_stays_none(slots, health_type, pairs, n, (m - 1) as nat);
    }
}

/// A sum that can be held is the sum of what the active positions add, as
/// whole numbers.
pub proof fn lemma_sum_upto_is_the_total(
    slots: Seq<TokenPosition>,
    health_type: HealthType,
    pairs: Seq<BankAndPrice>,
    n: nat,
)
    requires
        spec_sum_upto(slots, health_type, pairs, n) is Some,
    ensures
        spec_sum_upto(slots, health_type, pairs, n)->0@ == spec_total_upto(
            slots,
            health_type,
            pairs,
            n,
        ),
    decreases n,
{
    if n > 0 {
        lemma_sum_upto_is_the_total(slots, health_type, pairs, (n - 1) as nat);
    }
}

/// Health, where it is computed, is the sum over all active positions of
/// balance times index times price times weight; and it is computed only
/// where every active position has a pair of its token with a price.
pub proof fn lemma_health_is_the_sum(
    slots: Seq<TokenPosition>,
    health_type: HealthType,
    pairs: Seq<BankAndPrice>,
)
    requires
        spec_compute_health(slots, health_type, pairs) is Ok,
    ensures
        spec_compute_health(slots, health_type, pairs)->Ok_0@ == spec_total_upto(
            slots,
            health_type,
            pairs,
            slots.len(),
        ),
        all_have_banks(slots, pairs),
        all_have_prices(slots, pairs),
{
    lemma_sum_upto_is_the_total(slots, health_type, pairs, slots.len());
}

/// The first pair of a token.
pub fn find_pair(pairs: &[BankAndPrice], token_index: TokenIndex) -> (found: Option<usize>)
    ensures
        match found {
            Some(i) => spec_find_pair(pairs@, token_index) == Some(i as int) && i < pairs@.len(),
            None => spec_find_pair(pairs@, token_index) is None,
        },
{
    let ghost p = |pair: BankAndPrice| pair.bank.token_index == token_index;
    let mut i: usize = 0;
    while i < pairs.len()
        invariant
            i <= pairs@.len(),
            p == |pair: BankAndPrice| pair.bank.token_index == token_index,
            forall|j: int| 0 <= j < i ==> !p(#[trigger] pairs@[j]),
        decreases pairs@.len() - i,
    {
        if pairs[i].bank.token_index == token_index {
            proof {
                lemma_first_index_is(pairs@, p, i as int);
            }
            return Some(i);
        }
        i = i + 1;
    }
    proof {
        lemma_first_index_none(pairs@, p);
    }
    None
}

/// What a balance adds to health when valued by a pair.
pub fn contribution(amount: I80F48, pair: &BankAndPrice, health_type: HealthType) -> (r: Result<
    I80F48,
    MangoError,
>)
    ensures
        r == spec_contribution(amount, *pair, health_type),
{
    let price = match pair.price {
        Some(price) => price,
        None => { return Err(MangoError::MissingOracle); },
    };
    let negative = amount.is_negative();
    let index = if negative {
        pair.bank.borrow_index
    } else {
        pair.bank.deposit_index
    };
    let weight = match health_type {
        HealthType::Init => if negative {
            pair.bank.init_liab_weight
        } else {
            pair.bank.init_asset_weight
        },
        HealthType::Maintenance => if negative {
            pair.bank.maint_liab_weight
        } else {
            pair.bank.maint_asset_weight
        },
    };
    let native = match amount.checked_mul(index) {
        Some(native) => native,
        None => { return Err(MangoError::ArithmeticOverflow); },
    };
    let value = match native.checked_mul(price) {
        Some(value) => value,
        None => { return Err(MangoError::ArithmeticOverflow); },
    };
    match value.checked_mul(weight) {
        Some(weighted) => Ok(weighted),
        None => Err(MangoError::ArithmeticOverflow),
    }
}

/// Looks for the bank and the price of every active position: `MissingBank`
/// where any has no pair, else `MissingOracle` where any pair has no price.
fn check_coverage(account: &MangoAccount, pairs: &[BankAndPrice]) -> (r: Result<(), MangoError>)
    ensures
        r == if !all_have_banks(account.tokens@, pairs@) {
            Err::<(), MangoError>(MangoError::MissingBank)
        } else if !all_have_prices(account.tokens@, pairs@) {
            Err::<(), MangoError>(MangoError::MissingOracle)
        } else {
            Ok::<(), MangoError>(())
        },
{
    let ghost slots = account.tokens@;
    let capacity = account.tokens.capacity();
    let mut priced = true;
    let mut i: usize = 0;
    while i < capacity
        invariant
            i <= capacity == slots.len(),
            slots == account.tokens@,
            all_have_banks(slots.take(i as int), pairs@),
            priced == all_have_prices(slots.take(i as int), pairs@),
        decreases capacity - i,
    {
        let position = account.tokens.get(i);
        let ghost shorter = slots.take(i as int);
        let ghost longer = slots.take(i + 1);
        proof {
            assert(forall|j: int| 0 <= j < i ==> shorter[j] == longer[j]);
            assert(longer[i as int] == slots[i as int]);
        }
        if position.is_active() {
            proof {
                lemma_find_pair(pairs@, position.token_index);
            }
            match find_pair(pairs, position.token_index) {
                None => {
                    assert(slots[i as int].active);
                    return Err(MangoError::MissingBank);
                },
                Some(at) => {
                    if pairs[at].price.is_none() {
                        priced = false;
                    }
                },
            }
        }
        proof {
            if all_have_prices(longer, pairs@) {
                assert forall|j: int|
                    0 <= j < shorter.len() && (#[trigger] shorter[j]).active implies (
                spec_find_pair(pairs@, shorter[j].token_index) matches Some(at)
                    ==> pairs@[at].price is Some) by {
                    assert(longer[j].active);
                }
            }
            if !all_have_prices(shorter, pairs@) {
                let j = choose|j: int|
                    0 <= j < shorter.len() && (#[trigger] shorter[j]).active && !(spec_find_pair(
                        pairs@,
                        shorter[j].token_index,
                    ) matches Some(at) ==> pairs@[at].price is Some);
                assert(longer[j].active);
            }
        }
        i = i + 1;
    }
    proof {
        assert(slots.take(i as int) =~= slots);
    }
    if priced {
        Ok(())
    } else {
        Err(MangoError::MissingOracle)
    }
}

/// The health of an account at a health type, given the banks and prices of
/// its tokens. Every active position needs a pair of its token index among
/// `pairs`, whether or not the current operation touched it: without one the
/// call fails with `MissingBank`. Nothing is changed.
pub fn compute_health(
    account: &MangoAccount,
    health_type: HealthType,
    pairs: &[BankAndPrice],
) -> (r: Result<I80F48, MangoError>)
    ensures
        r == spec_compute_health(account.tokens@, health_type, pairs@),
{
    match check_coverage(account, pairs) {
        Ok(()) => {},
        Err(e) => { return Err(e); },
    }
    let capacity = account.tokens.capacity();
    let mut sum = I80F48::zero();
    let mut i: usize = 0;
    while i < capacity
        invariant
            i <= capacity == account.tokens@.len(),
            all_have_banks(account.tokens@, pairs@),
            all_have_prices(account.tokens@, pairs@),
            spec_sum_upto(account.tokens@, health_type, pairs@, i as nat) == Some(sum),
        decreases capacity - i,
    {
        let position = account.tokens.get(i);
        if position.is_active() {
            let part = match find_pair(pairs, position.token_index) {
                Some(at) => contribution(position.amount, &pairs[at], health_type),
                None => Err(MangoError::MissingBank),
            };
            let total = match part {
                Ok(part) => sum.checked_add(part),
                Err(_) => None,
            };
            match total {
                Some(total) => {
                    sum = total;
                },
                None => {
                    proof {
                        lemma_sum_stays_none(
                            account.tokens@,
                            health_type,
                            pairs@,
                            (i + 1) as nat,
                            capacity as nat,
                        );
                    }
                    return Err(MangoError::ArithmeticOverflow);
                },
            }
        }
        i = i + 1;
    }
    Ok(sum)
}

/// What a balance adds to health does not fall when the balance rises, the
/// pair and the health type being the same.
pub proof fn lemma_contribution_monotonic(
    lower: I80F48,
    higher: I80F48,
    pair: BankAndPrice,
    health_type: HealthType,
)
    requires
        pair.wf(),
        lower@ <= higher@,
        spec_contribution(lower, pair, health_type) is Ok,
        spec_contribution(higher, pair, health_type) is Ok,
    ensures
        spec_contribution(lower, pair, health_type)->Ok_0@ <= spec_contribution(
            higher,
            pair,
            health_type,
        )->Ok_0@,
{
    let price = pair.price->0@;
    let lower_index = spec_index(pair.bank, lower)@;
    let higher_index = spec_index(pair.bank, higher)@;
    let lower_weight = spec_weight(pair.bank, health_type, lower)@;
    let higher_weight = spec_weight(pair.bank, health_type, higher)@;
    let lower_native = mul_bits(lower@, lower_index);
    let higher_native = mul_bits(higher@, higher_index);
    let lower_value = mul_bits(lower_native, price);
    let higher_value = mul_bits(higher_native, price);
    if (lower@ < 0) == (higher@ < 0) {
        lemma_mul_bits_monotonic(lower@, higher@, lower_index);
        lemma_mul_bits_monotonic(lower_native, higher_native, price);
        lemma_mul_bits_monotonic(lower_value, higher_value, lower_weight);
    } else {
        lemma_mul_bits_sign(lower@, lower_index);
        lemma_mul_bits_sign(lower_native, price);
        lemma_mul_bits_sign(lower_value, lower_weight);
        lemma_mul_bits_sign(higher@, higher_index);
        lemma_mul_bits_sign(higher_native, price);
        lemma_mul_bits_sign(higher_value, higher_weight);
    }
}

/// Whether `raised` is `slots` with the balance of slot `k` raised, or left
/// as it is, and nothing else changed.
pub open spec fn raises_slot(slots: Seq<TokenPosition>, raised: Seq<TokenPosition>, k: int) -> bool {
    &&& 0 <= k < slots.len()
    &&& slots[k].amount@ <= raised[k].amount@
    &&& raised == slots.update(k, TokenPosition { amount: raised[k].amount, ..slots[k] })
}

/// The sum over the first `n` slots does not fall when one balance rises.
pub proof fn lemma_sum_upto_monotonic(
    slots: Seq<TokenPosition>,
    raised: Seq<TokenPosition>,
    k: int,
    health_type: HealthType,
    pairs: Seq<BankAndPrice>,
    n: nat,
)
    requires
        pairs_wf(pairs),
        raises_slot(slots, raised, k),
        n <= slots.len(),
        spec_sum_upto(slots, health_type, pairs, n) is Some,
        spec_sum_upto(raised, health_type, pairs, n) is Some,
    ensures
        spec_sum_upto(slots, health_type, pairs, n)->0@ <= spec_sum_upto(
            raised,
            health_type,
            pairs,
            n,
        )->0@,
    decreases n,
{
    if n > 0 {
        let before = (n - 1) as nat;
        lemma_sum_upto_monotonic(slots, raised, k, health_type, pairs, before);
        if before == k && slots[k].active {
            let found = spec_find_pair(pairs, slots[k].token_index);
            lemma_find_pair(pairs, slots[k].token_index);
            lemma_contribution_monotonic(
                slots[k].amount,
                raised[k].amount,
                pairs[found->0],
                health_type,
            );
        }
    }
}

/// Raising a balance makes no bank and no price go missing: the raised slots
/// have a pair and a price wherever the slots before had.
pub proof fn lemma_raised_slots_are_covered(
    slots: Seq<TokenPosition>,
    raised: Seq<TokenPosition>,
    k: int,
    pairs: Seq<BankAndPrice>,
)
    requires
        raises_slot(slots, raised, k),
    ensures
        all_have_banks(raised, pairs) == all_have_banks(slots, pairs),
        all_have_prices(raised, pairs) == all_have_prices(slots, pairs),
{
    assert forall|i: int| 0 <= i < slots.len() implies (#[trigger] raised[i]).active
        == slots[i].active && raised[i].token_index == slots[i].token_index by {}
    if all_have_banks(slots, pairs) {
        assert forall|i: int|
            0 <= i < raised.len() && (#[trigger] raised[i]).active implies has_pair(
            pairs,
            raised[i].token_index,
        ) by {
            assert(slots[i].active);
        }
    }
    if all_have_banks(raised, pairs) {
        assert forall|i: int|
            0 <= i < slots.len() && (#[trigger] slots[i]).active implies has_pair(
            pairs,
            slots[i].token_index,
        ) by {
            assert(raised[i].active);
        }
    }
    if all_have_prices(slots, pairs) {
        assert forall|i: int| 0 <= i < raised.len() && (#[trigger] raised[i]).active implies (
        spec_find_pair(pairs, raised[i].token_index) matches Some(at) ==> pairs[at].price
            is Some) by {
            assert(slots[i].active);
        }
    }
    if all_have_prices(raised, pairs) {
        assert forall|i: int| 0 <= i < slots.len() && (#[trigger] slots[i]).active implies (
        spec_find_pair(pairs, slots[i].token_index) matches Some(at) ==> pairs[at].price
            is Some) by {
            assert(raised[i].active);
        }
    }
}

/// Where health was computed before a balance was raised, computing it
/// afterwards can fail in one way only, with `ArithmeticOverflow`.
pub proof fn lemma_raised_health_fails_only_by_overflow(
    slots: Seq<TokenPosition>,
    raised: Seq<TokenPosition>,
    k: int,
    health_type: HealthType,
    pairs: Seq<BankAndPrice>,
)
    requires
        raises_slot(slots, raised, k),
        spec_compute_health(slots, health_type, pairs) is Ok,
    ensures
        spec_compute_health(raised, health_type, pairs) matches Err(e) ==> e
            == MangoError::ArithmeticOverflow,
{
    lemma_raised_slots_are_covered(slots, raised, k, pairs);
}

/// Raising the balance of any one position, with the banks, prices and
/// health type as they are, never lowers the health that is computed. Both
/// computations are taken to succeed: a raised balance may overflow where the
/// lower one did not, and then there is no health to compare.
pub proof fn lemma_health_monotonic(
    slots: Seq<TokenPosition>,
    raised: Seq<TokenPosition>,
    k: int,
    health_type: HealthType,
    pairs: Seq<BankAndPrice>,
)
    requires
        pairs_wf(pairs),
        raises_slot(slots, raised, k),
        spec_compute_health(slots, health_type, pairs) is Ok,
        spec_compute_health(raised, health_type, pairs) is Ok,
    ensures
        spec_compute_health(slots, health_type, pairs)->Ok_0@ <= spec_compute_health(
            raised,
            health_type,
            pairs,
        )->Ok_0@,
{
    lemma_sum_upto_monotonic(slots, raised, k, health_type, pairs, slots.len());
}

} // verus!
