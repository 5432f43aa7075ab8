//! The admission decision: a dispatcher over the four order types, each routed
//! to a rule set that is a straight-line chain of guards, short-circuiting
//! on the first failure.
//!
//! Each rule set has a spec-level decision function stating, for every
//! input, whether the order is admitted and otherwise which guard fails
//! first; the executable validators are proved to return exactly that
//! decision. The documented guard order is therefore part of the contract:
//! an order violating several rules is rejected for the earliest one.

use vstd::prelude::*;

use crate::math::calculate_approx_notional;
use crate::math::notional_decision;
use crate::math::reserve_conversion_decision;
use crate::math::asset_to_reserve_amount;
use crate::state::Amm;
use crate::state::Market;
use crate::state::Order;
use crate::state::OrderState;
use crate::state::OrderTriggerCondition;
use crate::state::OrderType;
use crate::state::PositionDirection;
use crate::state::RejectionReason;
use crate::state::ValidationError;

verus! {

/// Base-amount rule: a base-sized order must carry a base quantity no
/// smaller than the market's minimum base trade size.
pub open spec fn base_size_decision(base_asset_amount: u128, minimum_base_asset_trade_size: u128) -> Result<
    (),
    ValidationError,
> {
    if base_asset_amount == 0 {
        Err(ValidationError::Rejection(RejectionReason::ZeroBaseAmount))
    } else if base_asset_amount < minimum_base_asset_trade_size {
        Err(ValidationError::Rejection(RejectionReason::BelowMinimumBaseSize))
    } else {
        Ok(())
    }
}

/// Quote-amount rule: a quote-sized order must carry a quote notional
/// whose reserve equivalent is no smaller than the market's minimum quote
/// trade size. A failure of the conversion itself propagates unchanged.
pub open spec fn quote_size_decision(quote_asset_amount: u128, amm: Amm) -> Result<
    (),
    ValidationError,
> {
    if quote_asset_amount == 0 {
        Err(ValidationError::Rejection(RejectionReason::ZeroQuoteAmount))
    } else {
        match reserve_conversion_decision(quote_asset_amount, amm.peg_multiplier) {
            Err(e) => Err(e),
            Ok(reserve_amount) => if reserve_amount < amm.minimum_quote_asset_trade_size {
                Err(ValidationError::Rejection(RejectionReason::BelowMinimumQuoteSize))
            } else {
                Ok(())
            },
        }
    }
}

/// Global notional floor: the approximate market value of a price-bearing
/// order must reach the venue-wide minimum. A failure of the computation
/// itself propagates unchanged.
pub open spec fn notional_floor_decision(
    price: u128,
    base_asset_amount: u128,
    min_order_quote_asset_amount: u128,
) -> Result<(), ValidationError> {
    match notional_decision(price, base_asset_amount) {
        Err(e) => Err(e),
        Ok(value) => if value < min_order_quote_asset_amount {
            Err(ValidationError::Rejection(RejectionReason::BelowGlobalMinimumNotional))
        } else {
            Ok(())
        },
    }
}

/// Market rule set: exactly one of base and quote size may be set, the one
/// that is set must meet its minimum, and a market order carries no
/// trigger price.
pub open spec fn market_order_decision(order: Order, market: Market) -> Result<
    (),
    ValidationError,
> {
    if order.quote_asset_amount > 0 && order.base_asset_amount > 0 {
        Err(ValidationError::Rejection(RejectionReason::ConflictingSizeSpecification))
    } else {
        let size = if order.base_asset_amount > 0 {
            base_size_decision(order.base_asset_amount, market.amm.minimum_base_asset_trade_size)
        } else {
            quote_size_decision(order.quote_asset_amount, market.amm)
        };
        match size {
            Err(e) => Err(e),
            Ok(()) => if order.trigger_price > 0 {
                Err(ValidationError::Rejection(RejectionReason::UnexpectedTriggerPrice))
            } else {
                Ok(())
            },
        }
    }
}

/// Limit rule set: base size, a limit price, no trigger price, and the
/// global notional floor on `price`.
pub open spec fn limit_order_decision(order: Order, market: Market, order_state: OrderState) -> Result<
    (),
    ValidationError,
> {
    match base_size_decision(order.base_asset_amount, market.amm.minimum_base_asset_trade_size) {
        Err(e) => Err(e),
        Ok(()) => if order.price == 0 {
            Err(ValidationError::Rejection(RejectionReason::ZeroPrice))
        } else if order.trigger_price > 0 {
            Err(ValidationError::Rejection(RejectionReason::UnexpectedTriggerPrice))
        } else {
            notional_floor_decision(
                order.price,
                order.base_asset_amount,
                order_state.min_order_quote_asset_amount,
            )
        },
    }
}

/// Stop rule set: base size, no limit price, a trigger price, and the
/// global notional floor on `trigger_price`.
pub open spec fn stop_order_decision(order: Order, market: Market, order_state: OrderState) -> Result<
    (),
    ValidationError,
> {
    match base_size_decision(order.base_asset_amount, market.amm.minimum_base_asset_trade_size) {
        Err(e) => Err(e),
        Ok(()) => if order.price > 0 {
            Err(ValidationError::Rejection(RejectionReason::UnexpectedPrice))
        } else if order.trigger_price == 0 {
            Err(ValidationError::Rejection(RejectionReason::ZeroTriggerPrice))
        } else {
            notional_floor_decision(
                order.trigger_price,
                order.base_asset_amount,
                order_state.min_order_quote_asset_amount,
            )
        },
    }
}

/// Stop-limit rule set: base size, a limit price, a trigger price,
/// consistency of limit price and trigger for the two bias-aligned
/// direction/condition pairs, and the global notional floor on `price`.
///
/// Only the Above/Long and Below/Short pairs are constrained; the
/// symmetric pairs are deliberately left unchecked.
pub open spec fn stop_limit_order_decision(
    order: Order,
    market: Market,
    order_state: OrderState,
) -> Result<(), ValidationError> {
    match base_size_decision(order.base_asset_amount, market.amm.minimum_base_asset_trade_size) {
        Err(e) => Err(e),
        Ok(()) => if order.price == 0 {
            Err(ValidationError::Rejection(RejectionReason::ZeroPrice))
        } else if order.trigger_price == 0 {
            Err(ValidationError::Rejection(RejectionReason::ZeroTriggerPrice))
        } else if order.trigger_condition == OrderTriggerCondition::Above
            && order.direction == PositionDirection::Long && order.price < order.trigger_price {
            Err(ValidationError::Rejection(RejectionReason::InconsistentTriggerAbove))
        } else if order.trigger_condition == OrderTriggerCondition::Below
            && order.direction == PositionDirection::Short && order.price > order.trigger_price {
            Err(ValidationError::Rejection(RejectionReason::InconsistentTriggerBelow))
        } else {
            notional_floor_decision(
                order.price,
                order.base_asset_amount,
                order_state.min_order_quote_asset_amount,
            )
        },
    }
}

/// The whole admission decision: dispatch on the order type to its rule set.
pub open spec fn order_decision(order: Order, market: Market, order_state: OrderState) -> Result<
    (),
    ValidationError,
> {
    match order.order_type {
        OrderType::Market => market_order_decision(order, market),
        OrderType::Limit => limit_order_decision(order, market, order_state),
        OrderType::Stop => stop_order_decision(order, market, order_state),
        OrderType::StopLimit => stop_limit_order_decision(order, market, order_state),
    }
}

/// Checks the base-amount rule.
pub fn validate_base_asset_amount(order: &Order, market: &Market) -> (r: Result<
    (),
    ValidationError,
>)
    ensures
        r == base_size_decision(
            order.base_asset_amount,
            market.amm.minimum_base_asset_trade_size,
        ),
{
    if order.base_asset_amount == 0 {
        return Err(ValidationError::Rejection(RejectionReason::ZeroBaseAmount));
    }
    if order.base_asset_amount < market.amm.minimum_base_asset_trade_size {
        return Err(ValidationError::Rejection(RejectionReason::BelowMinimumBaseSize));
    }
    Ok(())
}

/// Checks the quote-amount rule, converting the quote notional into
/// reserve units through the peg multiplier.
pub fn validate_quote_asset_amount(order: &Order, market: &Market) -> (r: Result<
    (),
    ValidationError,
>)
    ensures
        r == quote_size_decision(order.quote_asset_amount, market.amm),
{
    if order.quote_asset_amount == 0 {
        return Err(ValidationError::Rejection(RejectionReason::ZeroQuoteAmount));
    }
    let quote_asset_reserve_amount = match asset_to_reserve_amount(
        order.quote_asset_amount,
        market.amm.peg_multiplier,
    ) {
        Ok(v) => v,
        Err(e) => {
            return Err(e);
        },
    };
    if quote_asset_reserve_amount < market.amm.minimum_quote_asset_trade_size {
        return Err(ValidationError::Rejection(RejectionReason::BelowMinimumQuoteSize));
    }
    Ok(())
}

/// Validates a market order.
pub fn validate_market_order(order: &Order, market: &Market) -> (r: Result<(), ValidationError>)
    ensures
        r == market_order_decision(*order, *market),
{
    if order.quote_asset_amount > 0 && order.base_asset_amount > 0 {
        return Err(ValidationError::Rejection(RejectionReason::ConflictingSizeSpecification));
    }
    if order.base_asset_amount > 0 {
        if let Err(e) = validate_base_asset_amount(order, market) {
            return Err(e);
        }
    } else {
        if let Err(e) = validate_quote_asset_amount(order, market) {
            return Err(e);
        }
    }
    if order.trigger_price > 0 {
        return Err(ValidationError::Rejection(RejectionReason::UnexpectedTriggerPrice));
    }
    Ok(())
}

/// Validates a limit order.
pub fn validate_limit_order(order: &Order, market: &Market, order_state: &OrderState) -> (r: Result<
    (),
    ValidationError,
>)
    ensures
        r == limit_order_decision(*order, *market, *order_state),
{
    if let Err(e) = validate_base_asset_amount(order, market) {
        return Err(e);
    }
    if order.price == 0 {
        return Err(ValidationError::Rejection(RejectionReason::ZeroPrice));
    }
    if order.trigger_price > 0 {
        return Err(ValidationError::Rejection(RejectionReason::UnexpectedTriggerPrice));
    }
    let approx_market_value = match calculate_approx_notional(order.price, order.base_asset_amount) {
        Ok(v) => v,
        Err(e) => {
            return Err(e);
        },
    };
    if approx_market_value < order_state.min_order_quote_asset_amount {
        return Err(ValidationError::Rejection(RejectionReason::BelowGlobalMinimumNotional));
    }
    Ok(())
}

/// Validates a stop order.
pub fn validate_stop_order(order: &Order, market: &Market, order_state: &OrderState) -> (r: Result<
    (),
    ValidationError,
>)
    ensures
        r == stop_order_decision(*order, *market, *order_state),
{
    if let Err(e) = validate_base_asset_amount(order, market) {
        return Err(e);
    }
    if order.price > 0 {
        return Err(ValidationError::Rejection(RejectionReason::UnexpectedPrice));
    }
    if order.trigger_price == 0 {
        return Err(ValidationError::Rejection(RejectionReason::ZeroTriggerPrice));
    }
    let approx_market_value = match calculate_approx_notional(
        order.trigger_price,
        order.base_asset_amount,
    ) {
        Ok(v) => v,
        Err(e) => {
            return Err(e);
        },
    };
    if approx_market_value < order_state.min_order_quote_asset_amount {
        return Err(ValidationError::Rejection(RejectionReason::BelowGlobalMinimumNotional));
    }
    Ok(())
}

/// Validates a stop-limit order.
pub fn validate_stop_limit_order(
    order: &Order,
    market: &Market,
    order_state: &OrderState,
) -> (r: Result<(), ValidationError>)
    ensures
        r == stop_limit_order_decision(*order, *market, *order_state),
{
    if let Err(e) = validate_base_asset_amount(order, market) {
        return Err(e);
    }
    if order.price == 0 {
        return Err(ValidationError::Rejection(RejectionReason::ZeroPrice));
    }
    if order.trigger_price == 0 {
        return Err(ValidationError::Rejection(RejectionReason::ZeroTriggerPrice));
    }
    match order.trigger_condition {
        OrderTriggerCondition::Above => {
            if order.direction == PositionDirection::Long && order.price < order.trigger_price {
                return Err(ValidationError::Rejection(RejectionReason::InconsistentTriggerAbove));
            }
        },
        OrderTriggerCondition::Below => {
            if order.direction == PositionDirection::Short && order.price > order.trigger_price {
                return Err(ValidationError::Rejection(RejectionReason::InconsistentTriggerBelow));
            }
        },
    }
    let approx_market_value = match calculate_approx_notional(order.price, order.base_asset_amount) {
        Ok(v) => v,
        Err(e) => {
            return Err(e);
        },
    };
    if approx_market_value < order_state.min_order_quote_asset_amount {
        return Err(ValidationError::Rejection(RejectionReason::BelowGlobalMinimumNotional));
    }
    Ok(())
}

/// The single entry of admission control: routes the order to the rule set
/// of its type and returns acceptance or the first violated guard's reason.
pub fn validate_order(order: &Order, market: &Market, order_state: &OrderState) -> (r: Result<
    (),
    ValidationError,
>)
    ensures
        r == order_decision(*order, *market, *order_state),
{
    match order.order_type {
        OrderType::Market => validate_market_order(order, market),
        OrderType::Limit => validate_limit_order(order, market, order_state),
        OrderType::Stop => validate_stop_order(order, market, order_state),
        OrderType::StopLimit => validate_stop_limit_order(order, market, order_state),
    }
}

} // verus!
