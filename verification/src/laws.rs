//! Venue-level laws of admission control, proved from the decision
//! functions: what must hold of every admitted order, and where the
//! rejection boundaries lie.

use vstd::prelude::*;

use crate::math::approx_notional;
use crate::math::notional_overflows;
use crate::state::Market;
use crate::state::Order;
use crate::state::OrderState;
use crate::state::OrderTriggerCondition;
use crate::state::OrderType;
use crate::state::PositionDirection;
use crate::state::RejectionReason;
use crate::state::ValidationError;
use crate::validation::base_size_decision;
use crate::validation::market_order_decision;
use crate::validation::order_decision;

verus! {

/// Every admitted market order is sized in exactly one of base and quote
/// terms: one of the two amounts is positive and the other is zero.
pub proof fn lemma_market_size_exclusive(order: Order, market: Market, order_state: OrderState)
    requires
        order.order_type == OrderType::Market,
        order_decision(order, market, order_state) is Ok,
    ensures
        (order.base_asset_amount > 0) <==> (order.quote_asset_amount == 0),
{
}

/// A market order carrying both a base and a quote size is rejected for
/// the conflict, and one carrying neither falls through the empty base
/// branch to the quote rule and is rejected for the missing quote amount.
pub proof fn lemma_market_size_conflicts(order: Order, market: Market)
    ensures
        order.base_asset_amount > 0 && order.quote_asset_amount > 0 ==> market_order_decision(
            order,
            market,
        ) == Err::<(), ValidationError>(
            ValidationError::Rejection(RejectionReason::ConflictingSizeSpecification),
        ),
        order.base_asset_amount == 0 && order.quote_asset_amount == 0 ==> market_order_decision(
            order,
            market,
        ) == Err::<(), ValidationError>(
            ValidationError::Rejection(RejectionReason::ZeroQuoteAmount),
        ),
{
}

/// Every admitted order satisfies its type's price and trigger shape: a
/// market order carries no trigger, a limit order a price and no trigger,
/// a stop order a trigger and no price, and a stop-limit order both.
pub proof fn lemma_accepted_price_trigger_shape(
    order: Order,
    market: Market,
    order_state: OrderState,
)
    requires
        order_decision(order, market, order_state) is Ok,
    ensures
        order.order_type == OrderType::Market ==> order.trigger_price == 0,
        order.order_type == OrderType::Limit ==> order.price > 0 && order.trigger_price == 0,
        order.order_type == OrderType::Stop ==> order.price == 0 && order.trigger_price > 0,
        order.order_type == OrderType::StopLimit ==> order.price > 0 && order.trigger_price > 0,
{
}

/// The base-amount rule passes exactly from the market's minimum base
/// trade size upward (and never at zero): for a fixed minimum there is one
/// rejection-to-acceptance boundary.
pub proof fn lemma_base_size_boundary(base_asset_amount: u128, minimum_base_asset_trade_size: u128)
    ensures
        (base_size_decision(base_asset_amount, minimum_base_asset_trade_size) is Ok) <==> (
        base_asset_amount > 0 && base_asset_amount >= minimum_base_asset_trade_size),
{
}

/// The base-amount rule is monotone: growing an admissible base amount
/// never makes it inadmissible.
pub proof fn lemma_base_size_monotone(
    smaller: u128,
    larger: u128,
    minimum_base_asset_trade_size: u128,
)
    requires
        smaller <= larger,
        base_size_decision(smaller, minimum_base_asset_trade_size) is Ok,
    ensures
        base_size_decision(larger, minimum_base_asset_trade_size) is Ok,
{
}

/// For a base-sized market order with no trigger, the validator's only
/// boundary is the base-amount rule's: the order is admitted exactly from
/// the market's minimum base trade size upward.
pub proof fn lemma_market_base_threshold(order: Order, market: Market, order_state: OrderState)
    requires
        order.order_type == OrderType::Market,
        order.quote_asset_amount == 0,
        order.trigger_price == 0,
    ensures
        (order_decision(order, market, order_state) is Ok) <==> (order.base_asset_amount > 0
            && order.base_asset_amount >= market.amm.minimum_base_asset_trade_size),
{
}

/// Every admitted stop-limit order is consistent with its trigger bias:
/// with an Above trigger a long limit price is at or above the trigger,
/// and with a Below trigger a short limit price is at or below it. The
/// symmetric pairs are deliberately unconstrained.
pub proof fn lemma_stop_limit_trigger_consistency(
    order: Order,
    market: Market,
    order_state: OrderState,
)
    requires
        order.order_type == OrderType::StopLimit,
        order_decision(order, market, order_state) is Ok,
    ensures
        order.trigger_condition == OrderTriggerCondition::Above && order.direction
            == PositionDirection::Long ==> order.price >= order.trigger_price,
        order.trigger_condition == OrderTriggerCondition::Below && order.direction
            == PositionDirection::Short ==> order.price <= order.trigger_price,
{
}

/// For a limit order past every structural guard, the global notional
/// floor is exact: the order is admitted if and only if its approximate
/// market value reaches the venue minimum, and one unit below the floor is
/// rejected for the floor and nothing else.
pub proof fn lemma_global_minimum_boundary(order: Order, market: Market, order_state: OrderState)
    requires
        order.order_type == OrderType::Limit,
        base_size_decision(order.base_asset_amount, market.amm.minimum_base_asset_trade_size) is Ok,
        order.price > 0,
        order.trigger_price == 0,
        !notional_overflows(order.price, order.base_asset_amount),
    ensures
        (order_decision(order, market, order_state) is Ok) <==> approx_notional(
            order.price,
            order.base_asset_amount,
        ) >= order_state.min_order_quote_asset_amount,
        approx_notional(order.price, order.base_asset_amount)
            < order_state.min_order_quote_asset_amount ==> order_decision(
            order,
            market,
            order_state,
        ) == Err::<(), ValidationError>(
            ValidationError::Rejection(RejectionReason::BelowGlobalMinimumNotional),
        ),
{
}

} // verus!
