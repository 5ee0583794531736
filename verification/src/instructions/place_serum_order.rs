//! Placing an order on the matching venue.

use crate::error::MangoError;
use crate::i80f48::I80F48;
use crate::instructions::{require_health, spec_require_health};
use crate::order::{NewOrderInstructionData, Side};
use crate::state::health::BankAndPrice;
use crate::state::mango_account::MangoAccount;
use vstd::prelude::*;

verus! {

/// The vault that pays for an order.
#[derive(Clone, Copy, Debug, PartialEq, Eq, Structural)]
pub enum OrderPayer {
    /// The vault of the base token, which an ask sells.
    BaseVault,
    /// The vault of the quote token, which a bid spends.
    QuoteVault,
}

/// The vault that pays for an order of the given side.
pub open spec fn spec_order_payer(side: Side) -> OrderPayer {
    match side {
        Side::Ask => OrderPayer::BaseVault,
        Side::Bid => OrderPayer::QuoteVault,
    }
}

/// Decides whether the account may place the order and which vault pays for
/// it: a bankrupt account may not. The caller submits the order to the
/// venue with that vault as the payer and then calls `settle_serum_order`.
pub fn place_serum_order(account: &MangoAccount, order: &NewOrderInstructionData) -> (r: Result<
    OrderPayer,
    MangoError,
>)
    ensures
        r == if account.is_bankrupt {
            Err::<OrderPayer, MangoError>(MangoError::Bankrupt)
        } else {
            Ok::<OrderPayer, MangoError>(spec_order_payer(order.side))
        },
{
    if account.is_bankrupt {
        return Err(MangoError::Bankrupt);
    }
    match order.side {
        Side::Ask => Ok(OrderPayer::BaseVault),
        Side::Bid => Ok(OrderPayer::QuoteVault),
    }
}

/// The health check after the venue took the order: the account's health at
/// the `Init` weights where it is not negative, else `InsufficientHealth`.
pub fn settle_serum_order(account: &MangoAccount, pairs: &[BankAndPrice]) -> (r: Result<
    I80F48,
    MangoError,
>)
    ensures
        r == spec_require_health(account.tokens@, pairs@),
{
    require_health(account, pairs)
}

} // verus!
