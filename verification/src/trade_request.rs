//! The rules on the prices of a request to open an isolated futures trade.
//!
//! A market order is filled at the price the market gives, so it names none;
//! a limit order names its entry price. Where there is an entry price, a
//! stop loss lies strictly below it and a take profit strictly above it.
//! Prices are whole numbers of one common unit; the rules read only their
//! order.

use crate::error::FuturesIsolatedTradeRequestValidationError;
use vstd::prelude::*;

verus! {

/// How an order is to be filled.
#[derive(Debug, Clone, Copy, PartialEq, Eq, Hash, Structural)]
pub enum OrderType {
    /// At once, at the market's price.
    Market,
    /// When the market reaches the price that the order names.
    Limit,
}

/// The rule that a request with these prices breaks, if it breaks one.
///
/// Whether a price is there is judged first, since nothing can be compared
/// with a price that is missing; then the stop loss; then the take profit.
pub open spec fn price_rule_broken(
    order_type: OrderType,
    price: Option<u64>,
    stop_loss: Option<u64>,
    take_profit: Option<u64>,
) -> Option<FuturesIsolatedTradeRequestValidationError> {
    match (order_type, price) {
        (OrderType::Market, Some(_)) => Some(
            FuturesIsolatedTradeRequestValidationError::PriceSetForMarketOrder,
        ),
        (OrderType::Limit, None) => Some(
            FuturesIsolatedTradeRequestValidationError::MissingPriceForLimitOrder,
        ),
        (OrderType::Market, None) => None,
        (OrderType::Limit, Some(entry)) => {
            if stop_loss matches Some(stop) && stop >= entry {
                Some(FuturesIsolatedTradeRequestValidationError::StopLossHigherThanPrice)
            } else if take_profit matches Some(target) && target <= entry {
                Some(FuturesIsolatedTradeRequestValidationError::TakeProfitLowerThanPrice)
            } else {
                None
            }
        },
    }
}

/// Checks the prices of a request against the rules, and names the first
/// rule that they break.
pub fn check_prices(
    order_type: OrderType,
    price: Option<u64>,
    stop_loss: Option<u64>,
    take_profit: Option<u64>,
) -> (res: Result<(), FuturesIsolatedTradeRequestValidationError>)
    ensures
        match res {
            Ok(_) => price_rule_broken(order_type, price, stop_loss, take_profit) is None,
            Err(error) => price_rule_broken(order_type, price, stop_loss, take_profit) == Some(
                error,
            ),
        },
{
    match order_type {
        OrderType::Market => {
            if price.is_some() {
                return Err(FuturesIsolatedTradeRequestValidationError::PriceSetForMarketOrder);
            }
            Ok(())
        },
        OrderType::Limit => {
            let entry = match price {
                Some(entry) => entry,
                None => {
                    return Err(
                        FuturesIsolatedTradeRequestValidationError::MissingPriceForLimitOrder,
                    );
                },
            };
            if let Some(stop) = stop_loss {
                if stop >= entry {
                    return Err(FuturesIsolatedTradeRequestValidationError::StopLossHigherThanPrice);
                }
            }
            if let Some(target) = take_profit {
                if target <= entry {
                    return Err(
                        FuturesIsolatedTradeRequestValidationError::TakeProfitLowerThanPrice,
                    );
                }
            }
            Ok(())
        },
    }
}

/// A market order that names a price is refused for naming it, whatever
/// else the request holds.
pub proof fn market_order_with_price_is_refused(
    price: u64,
    stop_loss: Option<u64>,
    take_profit: Option<u64>,
)
    ensures
        price_rule_broken(OrderType::Market, Some(price), stop_loss, take_profit) == Some(
            FuturesIsolatedTradeRequestValidationError::PriceSetForMarketOrder,
        ),
{
}

/// A limit order that names no price is refused for the lack of it,
/// whatever else the request holds.
pub proof fn limit_order_without_price_is_refused(
    stop_loss: Option<u64>,
    take_profit: Option<u64>,
)
    ensures
        price_rule_broken(OrderType::Limit, None, stop_loss, take_profit) == Some(
            FuturesIsolatedTradeRequestValidationError::MissingPriceForLimitOrder,
        ),
{
}

/// A stop loss at or above the entry price of a limit order is refused,
/// whatever the take profit.
pub proof fn stop_loss_not_below_price_is_refused(
    price: u64,
    stop_loss: u64,
    take_profit: Option<u64>,
)
    requires
        stop_loss >= price,
    ensures
        price_rule_broken(OrderType::Limit, Some(price), Some(stop_loss), take_profit) == Some(
            FuturesIsolatedTradeRequestValidationError::StopLossHigherThanPrice,
        ),
{
}

} // verus!
