use order_gate::state::Amm;
use order_gate::state::Market;
use order_gate::state::Order;
use order_gate::state::OrderState;
use order_gate::state::OrderTriggerCondition;
use order_gate::state::OrderType;
use order_gate::state::PositionDirection;
use order_gate::state::RejectionReason;
use order_gate::state::ValidationError;
use order_gate::validation::validate_order;

const AMM_RESERVE_PRECISION: u128 = 10_000_000_000_000;
const MARK_PRICE_PRECISION: u128 = 10_000_000_000;
const QUOTE_PRECISION: u128 = 1_000_000;
const PEG_PRECISION: u128 = 1_000;

fn market() -> Market {
    Market {
        amm: Amm {
            peg_multiplier: PEG_PRECISION,
            minimum_base_asset_trade_size: AMM_RESERVE_PRECISION / 1_000,
            minimum_quote_asset_trade_size: AMM_RESERVE_PRECISION / 1_000,
        },
    }
}

fn order_state() -> OrderState {
    OrderState { min_order_quote_asset_amount: QUOTE_PRECISION / 2 }
}

fn base_order(order_type: OrderType) -> Order {
    Order {
        order_type,
        direction: PositionDirection::Long,
        price: 0,
        trigger_price: 0,
        trigger_condition: OrderTriggerCondition::Above,
        base_asset_amount: AMM_RESERVE_PRECISION,
        quote_asset_amount: 0,
    }
}

fn rejected(reason: RejectionReason) -> Result<(), ValidationError> {
    Err(ValidationError::Rejection(reason))
}

#[test]
fn market_order_sized_in_base_is_admitted() {
    let order = base_order(OrderType::Market);
    assert_eq!(validate_order(&order, &market(), &order_state()), Ok(()));
}

#[test]
fn market_order_sized_in_quote_is_admitted() {
    let mut order = base_order(OrderType::Market);
    order.base_asset_amount = 0;
    order.quote_asset_amount = QUOTE_PRECISION;
    assert_eq!(validate_order(&order, &market(), &order_state()), Ok(()));
}

#[test]
fn market_order_with_both_sizes_is_conflicting() {
    let mut order = base_order(OrderType::Market);
    order.quote_asset_amount = QUOTE_PRECISION;
    assert_eq!(
        validate_order(&order, &market(), &order_state()),
        rejected(RejectionReason::ConflictingSizeSpecification)
    );
}

#[test]
fn market_order_with_no_size_falls_to_quote_rule() {
    let mut order = base_order(OrderType::Market);
    order.base_asset_amount = 0;
    assert_eq!(
        validate_order(&order, &market(), &order_state()),
        rejected(RejectionReason::ZeroQuoteAmount)
    );
}

#[test]
fn market_order_below_minimum_base_size_is_rejected() {
    let mut order = base_order(OrderType::Market);
    order.base_asset_amount = market().amm.minimum_base_asset_trade_size - 1;
    assert_eq!(
        validate_order(&order, &market(), &order_state()),
        rejected(RejectionReason::BelowMinimumBaseSize)
    );
}

#[test]
fn market_order_base_boundary_is_the_minimum_base_size() {
    let mut order = base_order(OrderType::Market);
    let min = market().amm.minimum_base_asset_trade_size;
    order.base_asset_amount = min;
    assert_eq!(validate_order(&order, &market(), &order_state()), Ok(()));
    order.base_asset_amount = min - 1;
    assert!(validate_order(&order, &market(), &order_state()).is_err());
    order.base_asset_amount = min + 1;
    assert_eq!(validate_order(&order, &market(), &order_state()), Ok(()));
}

#[test]
fn market_order_below_minimum_quote_size_is_rejected() {
    let mut order = base_order(OrderType::Market);
    order.base_asset_amount = 0;
    // one quote unit converts below the market's minimum converted size
    let mut venue = market();
    venue.amm.minimum_quote_asset_trade_size = 10 * AMM_RESERVE_PRECISION;
    order.quote_asset_amount = QUOTE_PRECISION;
    assert_eq!(
        validate_order(&order, &venue, &order_state()),
        rejected(RejectionReason::BelowMinimumQuoteSize)
    );
}

#[test]
fn market_order_with_trigger_price_is_rejected() {
    let mut order = base_order(OrderType::Market);
    order.trigger_price = 1;
    assert_eq!(
        validate_order(&order, &market(), &order_state()),
        rejected(RejectionReason::UnexpectedTriggerPrice)
    );
}

#[test]
fn market_order_conflict_is_reported_before_trigger_price() {
    let mut order = base_order(OrderType::Market);
    order.quote_asset_amount = QUOTE_PRECISION;
    order.trigger_price = 1;
    assert_eq!(
        validate_order(&order, &market(), &order_state()),
        rejected(RejectionReason::ConflictingSizeSpecification)
    );
}

#[test]
fn quote_conversion_with_degenerate_peg_is_an_arithmetic_failure() {
    let mut order = base_order(OrderType::Market);
    order.base_asset_amount = 0;
    order.quote_asset_amount = QUOTE_PRECISION;
    let mut venue = market();
    venue.amm.peg_multiplier = 0;
    assert_eq!(
        validate_order(&order, &venue, &order_state()),
        Err(ValidationError::ArithmeticFailure)
    );
}

#[test]
fn quote_conversion_overflow_is_an_arithmetic_failure() {
    let mut order = base_order(OrderType::Market);
    order.base_asset_amount = 0;
    order.quote_asset_amount = u128::MAX;
    assert_eq!(
        validate_order(&order, &market(), &order_state()),
        Err(ValidationError::ArithmeticFailure)
    );
}

#[test]
fn limit_order_is_admitted() {
    let mut order = base_order(OrderType::Limit);
    order.price = MARK_PRICE_PRECISION;
    assert_eq!(validate_order(&order, &market(), &order_state()), Ok(()));
}

#[test]
fn limit_order_without_price_is_rejected() {
    let order = base_order(OrderType::Limit);
    assert_eq!(
        validate_order(&order, &market(), &order_state()),
        rejected(RejectionReason::ZeroPrice)
    );
}

#[test]
fn limit_order_with_trigger_price_is_rejected() {
    let mut order = base_order(OrderType::Limit);
    order.price = MARK_PRICE_PRECISION;
    order.trigger_price = MARK_PRICE_PRECISION;
    assert_eq!(
        validate_order(&order, &market(), &order_state()),
        rejected(RejectionReason::UnexpectedTriggerPrice)
    );
}

#[test]
fn limit_order_base_rule_is_checked_before_price() {
    let mut order = base_order(OrderType::Limit);
    order.base_asset_amount = 0;
    assert_eq!(
        validate_order(&order, &market(), &order_state()),
        rejected(RejectionReason::ZeroBaseAmount)
    );
}

#[test]
fn limit_order_at_the_global_minimum_notional_is_admitted() {
    // one dollar of price on half a base unit is exactly the venue minimum
    let mut order = base_order(OrderType::Limit);
    order.price = MARK_PRICE_PRECISION;
    order.base_asset_amount = AMM_RESERVE_PRECISION / 2;
    assert_eq!(validate_order(&order, &market(), &order_state()), Ok(()));
}

#[test]
fn limit_order_one_unit_below_the_global_minimum_is_rejected() {
    // shave enough base to land one quote unit under the venue minimum
    let mut order = base_order(OrderType::Limit);
    order.price = MARK_PRICE_PRECISION;
    order.base_asset_amount = AMM_RESERVE_PRECISION / 2 - 10_000_000;
    assert_eq!(
        validate_order(&order, &market(), &order_state()),
        rejected(RejectionReason::BelowGlobalMinimumNotional)
    );
}

#[test]
fn limit_order_notional_overflow_is_an_arithmetic_failure() {
    let mut order = base_order(OrderType::Limit);
    order.price = u128::MAX;
    assert_eq!(
        validate_order(&order, &market(), &order_state()),
        Err(ValidationError::ArithmeticFailure)
    );
}

#[test]
fn stop_order_is_admitted() {
    let mut order = base_order(OrderType::Stop);
    order.trigger_price = MARK_PRICE_PRECISION;
    assert_eq!(validate_order(&order, &market(), &order_state()), Ok(()));
}

#[test]
fn stop_order_with_price_is_rejected() {
    let mut order = base_order(OrderType::Stop);
    order.price = 5;
    order.trigger_price = MARK_PRICE_PRECISION;
    assert_eq!(
        validate_order(&order, &market(), &order_state()),
        rejected(RejectionReason::UnexpectedPrice)
    );
    order.trigger_price = 0;
    assert_eq!(
        validate_order(&order, &market(), &order_state()),
        rejected(RejectionReason::UnexpectedPrice)
    );
}

#[test]
fn stop_order_without_trigger_price_is_rejected() {
    let order = base_order(OrderType::Stop);
    assert_eq!(
        validate_order(&order, &market(), &order_state()),
        rejected(RejectionReason::ZeroTriggerPrice)
    );
}

#[test]
fn stop_order_base_rule_is_checked_before_price_shape() {
    let mut order = base_order(OrderType::Stop);
    order.base_asset_amount = 0;
    order.price = 5;
    assert_eq!(
        validate_order(&order, &market(), &order_state()),
        rejected(RejectionReason::ZeroBaseAmount)
    );
}

#[test]
fn stop_order_notional_uses_the_trigger_price() {
    let mut order = base_order(OrderType::Stop);
    order.trigger_price = 1;
    assert_eq!(
        validate_order(&order, &market(), &order_state()),
        rejected(RejectionReason::BelowGlobalMinimumNotional)
    );
}

#[test]
fn stop_limit_order_is_admitted() {
    let mut order = base_order(OrderType::StopLimit);
    order.price = 2 * MARK_PRICE_PRECISION;
    order.trigger_price = MARK_PRICE_PRECISION;
    assert_eq!(validate_order(&order, &market(), &order_state()), Ok(()));
}

#[test]
fn stop_limit_order_without_price_is_rejected() {
    let mut order = base_order(OrderType::StopLimit);
    order.trigger_price = MARK_PRICE_PRECISION;
    assert_eq!(
        validate_order(&order, &market(), &order_state()),
        rejected(RejectionReason::ZeroPrice)
    );
}

#[test]
fn stop_limit_order_without_trigger_price_is_rejected() {
    let mut order = base_order(OrderType::StopLimit);
    order.price = MARK_PRICE_PRECISION;
    assert_eq!(
        validate_order(&order, &market(), &order_state()),
        rejected(RejectionReason::ZeroTriggerPrice)
    );
}

#[test]
fn stop_limit_long_above_with_price_below_trigger_is_inconsistent() {
    let mut order = base_order(OrderType::StopLimit);
    order.direction = PositionDirection::Long;
    order.trigger_condition = OrderTriggerCondition::Above;
    order.price = 100;
    order.trigger_price = 150;
    assert_eq!(
        validate_order(&order, &market(), &order_state()),
        rejected(RejectionReason::InconsistentTriggerAbove)
    );
}

#[test]
fn stop_limit_long_above_with_price_above_trigger_passes_the_check() {
    let mut order = base_order(OrderType::StopLimit);
    order.direction = PositionDirection::Long;
    order.trigger_condition = OrderTriggerCondition::Above;
    order.price = 150;
    order.trigger_price = 100;
    // the consistency guard passes; with no venue minimum the order is admitted
    let venue_policy = OrderState { min_order_quote_asset_amount: 0 };
    assert_eq!(validate_order(&order, &market(), &venue_policy), Ok(()));
}

#[test]
fn stop_limit_short_below_with_price_above_trigger_is_inconsistent() {
    let mut order = base_order(OrderType::StopLimit);
    order.direction = PositionDirection::Short;
    order.trigger_condition = OrderTriggerCondition::Below;
    order.price = 150;
    order.trigger_price = 100;
    assert_eq!(
        validate_order(&order, &market(), &order_state()),
        rejected(RejectionReason::InconsistentTriggerBelow)
    );
}

#[test]
fn stop_limit_bias_mismatched_pairs_are_unconstrained() {
    // Above with a short, and Below with a long, carry no consistency guard
    let venue_policy = OrderState { min_order_quote_asset_amount: 0 };
    let mut order = base_order(OrderType::StopLimit);
    order.direction = PositionDirection::Short;
    order.trigger_condition = OrderTriggerCondition::Above;
    order.price = 100;
    order.trigger_price = 150;
    assert_eq!(validate_order(&order, &market(), &venue_policy), Ok(()));
    order.direction = PositionDirection::Long;
    order.trigger_condition = OrderTriggerCondition::Below;
    order.price = 150;
    order.trigger_price = 100;
    assert_eq!(validate_order(&order, &market(), &venue_policy), Ok(()));
}

#[test]
fn stop_limit_equal_price_and_trigger_is_consistent_both_ways() {
    let mut order = base_order(OrderType::StopLimit);
    order.price = MARK_PRICE_PRECISION;
    order.trigger_price = MARK_PRICE_PRECISION;
    order.direction = PositionDirection::Long;
    order.trigger_condition = OrderTriggerCondition::Above;
    assert_eq!(validate_order(&order, &market(), &order_state()), Ok(()));
    order.direction = PositionDirection::Short;
    order.trigger_condition = OrderTriggerCondition::Below;
    assert_eq!(validate_order(&order, &market(), &order_state()), Ok(()));
}

#[test]
fn rejection_messages_name_the_violated_rule() {
    assert_eq!(
        ValidationError::Rejection(RejectionReason::ZeroBaseAmount).describe(),
        "order base_asset_amount cannot be 0"
    );
    assert_eq!(
        ValidationError::Rejection(RejectionReason::UnexpectedPrice).describe(),
        "stop order should not have price"
    );
    assert_eq!(ValidationError::ArithmeticFailure.describe(), "checked arithmetic failed");
}
