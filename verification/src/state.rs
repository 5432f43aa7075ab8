//! The data the validator reads: the proposed order, a read-only snapshot
//! of the target market, the venue-wide order policy, and the result type
//! that carries either acceptance or the reason the order was turned away.

use vstd::prelude::*;

verus! {

/// The four supported order types; the validator dispatches on this tag.
#[derive(Clone, Copy, Debug, PartialEq, Eq, Structural)]
pub enum OrderType {
    Market,
    Limit,
    Stop,
    StopLimit,
}

/// Which side of the market the order takes.
#[derive(Clone, Copy, Debug, PartialEq, Eq, Structural)]
pub enum PositionDirection {
    Long,
    Short,
}

/// Whether a stop-type order activates when the market trades above or
/// below its trigger price.
#[derive(Clone, Copy, Debug, PartialEq, Eq, Structural)]
pub enum OrderTriggerCondition {
    Above,
    Below,
}

/// A proposed order, immutable for the duration of validation.
///
/// All amounts are unsigned fixed-point values; `0` means "unset".
/// `price` and `trigger_price` are scaled by the mark-price precision,
/// `base_asset_amount` by the AMM reserve precision, and
/// `quote_asset_amount` by the quote precision.
#[derive(Clone, Copy, Debug, PartialEq, Eq, Structural)]
pub struct Order {
    pub order_type: OrderType,
    pub direction: PositionDirection,
    pub price: u128,
    pub trigger_price: u128,
    pub trigger_condition: OrderTriggerCondition,
    pub base_asset_amount: u128,
    pub quote_asset_amount: u128,
}

/// The slice of a market's AMM state that admission control reads.
#[derive(Clone, Copy, Debug, PartialEq, Eq, Structural)]
pub struct Amm {
    /// Per-market scaling factor converting quote notional to reserve units.
    pub peg_multiplier: u128,
    /// Smallest admissible base quantity, in reserve-precision units.
    pub minimum_base_asset_trade_size: u128,
    /// Smallest admissible converted notional, in reserve-precision units.
    pub minimum_quote_asset_trade_size: u128,
}

/// Read-only snapshot of the target market.
#[derive(Clone, Copy, Debug, PartialEq, Eq, Structural)]
pub struct Market {
    pub amm: Amm,
}

/// Venue-wide order policy.
#[derive(Clone, Copy, Debug, PartialEq, Eq, Structural)]
pub struct OrderState {
    /// Minimum notional value (quote-precision units) below which no
    /// price-bearing order may be admitted, whatever the market.
    pub min_order_quote_asset_amount: u128,
}

/// The first guard an invalid order violated. Each guard of each rule set
/// maps to exactly one reason, so the reason identifies the guard.
#[derive(Clone, Copy, Debug, PartialEq, Eq, Structural)]
pub enum RejectionReason {
    /// A market order carries both a base and a quote size.
    ConflictingSizeSpecification,
    /// An order sized in base units carries none.
    ZeroBaseAmount,
    /// The base amount is positive but under the market's minimum.
    BelowMinimumBaseSize,
    /// A market order sized in quote terms carries no quote amount.
    ZeroQuoteAmount,
    /// The converted quote amount is under the market's minimum.
    BelowMinimumQuoteSize,
    /// A market or limit order carries a trigger price.
    UnexpectedTriggerPrice,
    /// A limit or stop-limit order carries no limit price.
    ZeroPrice,
    /// A stop order carries a limit price.
    UnexpectedPrice,
    /// A stop-type order carries no trigger price.
    ZeroTriggerPrice,
    /// Trigger above with a long limit price below the trigger.
    InconsistentTriggerAbove,
    /// Trigger below with a short limit price above the trigger.
    InconsistentTriggerBelow,
    /// The order's approximate value is under the venue-wide minimum.
    BelowGlobalMinimumNotional,
}

/// Why validation did not succeed: either the order is invalid, or a
/// checked multiplication or division could not produce a value. The two
/// are disjoint so a caller can tell a bad order from a broken numeric
/// invariant; an arithmetic failure is never folded into a rejection.
#[derive(Clone, Copy, Debug, PartialEq, Eq, Structural)]
pub enum ValidationError {
    Rejection(RejectionReason),
    ArithmeticFailure,
}

impl RejectionReason {
    /// A human-readable advisory message naming the violated rule, for an
    /// observability channel; it never affects program logic.
    pub fn describe(&self) -> &'static str {
        match self {
            RejectionReason::ConflictingSizeSpecification => {
                "market order should not have both quote_asset_amount and base_asset_amount set"
            },
            RejectionReason::ZeroBaseAmount => "order base_asset_amount cannot be 0",
            RejectionReason::BelowMinimumBaseSize => {
                "order base_asset_amount smaller than market minimum_base_asset_trade_size"
            },
            RejectionReason::ZeroQuoteAmount => "order quote_asset_amount cannot be 0",
            RejectionReason::BelowMinimumQuoteSize => {
                "order quote_asset_reserve_amount smaller than market minimum_quote_asset_trade_size"
            },
            RejectionReason::UnexpectedTriggerPrice => "order should not have trigger price",
            RejectionReason::ZeroPrice => "order price cannot be 0",
            RejectionReason::UnexpectedPrice => "stop order should not have price",
            RejectionReason::ZeroTriggerPrice => "order trigger_price cannot be 0",
            RejectionReason::InconsistentTriggerAbove => {
                "if trigger condition is above and direction is long, limit price must be above trigger price"
            },
            RejectionReason::InconsistentTriggerBelow => {
                "if trigger condition is below and direction is short, limit price must be below trigger price"
            },
            RejectionReason::BelowGlobalMinimumNotional => {
                "order value below venue minimum notional"
            },
        }
    }
}

impl ValidationError {
    /// A human-readable advisory message for an observability channel.
    pub fn describe(&self) -> &'static str {
        match self {
            ValidationError::Rejection(reason) => reason.describe(),
            ValidationError::ArithmeticFailure => "checked arithmetic failed",
        }
    }
}

} // verus!
