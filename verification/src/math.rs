//! Fixed-point scales and the checked arithmetic the validator relies on.
//!
//! Every multiplication and division here goes through a checked operation:
//! an overflow or a degenerate divisor becomes `ValidationError::ArithmeticFailure`
//! instead of a silently wrong value.

use vstd::prelude::*;

use crate::state::ValidationError;

verus! {

/// Fixed-point scale of base-asset quantities inside the AMM's reserves.
pub const AMM_RESERVE_PRECISION: u128 = 10_000_000_000_000;

/// Fixed-point scale of mark prices, limit prices and trigger prices.
pub const MARK_PRICE_PRECISION: u128 = 10_000_000_000;

/// Fixed-point scale of quote-asset notional amounts.
pub const QUOTE_PRECISION: u128 = 1_000_000;

/// Fixed-point scale of the peg multiplier.
pub const PEG_PRECISION: u128 = 1_000;

/// Scale change from quote precision up to reserve precision.
pub const AMM_TO_QUOTE_PRECISION_RATIO: u128 = AMM_RESERVE_PRECISION / QUOTE_PRECISION;

/// Numerator scale of the quote-to-reserve conversion: quote amounts are
/// brought up to reserve precision and the peg's own scale before the
/// division by the peg multiplier.
pub const AMM_TIMES_PEG_TO_QUOTE_PRECISION_RATIO: u128 = AMM_TO_QUOTE_PRECISION_RATIO
    * PEG_PRECISION;

/// Scale change from mark-price precision down to quote precision.
pub const PRICE_TO_QUOTE_PRECISION_RATIO: u128 = MARK_PRICE_PRECISION / QUOTE_PRECISION;

/// The quote-to-reserve conversion fails exactly when scaling the quote
/// amount overflows or the peg multiplier is degenerate.
pub open spec fn reserve_conversion_fails(quote_asset_amount: u128, peg_multiplier: u128) -> bool {
    quote_asset_amount * AMM_TIMES_PEG_TO_QUOTE_PRECISION_RATIO > u128::MAX || peg_multiplier == 0
}

/// Reserve-precision equivalent of a quote-precision notional amount.
pub open spec fn reserve_equivalent(quote_asset_amount: u128, peg_multiplier: u128) -> int
    recommends
        !reserve_conversion_fails(quote_asset_amount, peg_multiplier),
{
    quote_asset_amount * AMM_TIMES_PEG_TO_QUOTE_PRECISION_RATIO / (peg_multiplier as int)
}

/// What the conversion returns: the reserve equivalent, or the arithmetic
/// failure when it cannot be computed.
pub open spec fn reserve_conversion_decision(
    quote_asset_amount: u128,
    peg_multiplier: u128,
) -> Result<u128, ValidationError> {
    if reserve_conversion_fails(quote_asset_amount, peg_multiplier) {
        Err(ValidationError::ArithmeticFailure)
    } else {
        Ok(reserve_equivalent(quote_asset_amount, peg_multiplier) as u128)
    }
}

/// Converts a quote-precision notional amount into a reserve-precision
/// quantity using the market's peg multiplier.
pub fn asset_to_reserve_amount(quote_asset_amount: u128, peg_multiplier: u128) -> (r: Result<
    u128,
    ValidationError,
>)
    ensures
        r == reserve_conversion_decision(quote_asset_amount, peg_multiplier),
{
    let scaled = match quote_asset_amount.checked_mul(AMM_TIMES_PEG_TO_QUOTE_PRECISION_RATIO) {
        Some(v) => v,
        None => {
            return Err(ValidationError::ArithmeticFailure);
        },
    };
    match scaled.checked_div(peg_multiplier) {
        Some(v) => Ok(v),
        None => Err(ValidationError::ArithmeticFailure),
    }
}

/// The notional computation fails exactly when the price-times-base
/// product overflows.
pub open spec fn notional_overflows(price: u128, base_asset_amount: u128) -> bool {
    price * base_asset_amount > u128::MAX
}

/// Approximate quote-precision market value of an order: price times base
/// quantity, normalized from the price-times-reserve scale down to quote
/// precision by two successive divisions.
pub open spec fn approx_notional(price: u128, base_asset_amount: u128) -> int
    recommends
        !notional_overflows(price, base_asset_amount),
{
    price * base_asset_amount / (AMM_RESERVE_PRECISION as int) / (
    PRICE_TO_QUOTE_PRECISION_RATIO as int)
}

/// What the notional computation returns: the approximate market value, or
/// the arithmetic failure when the product overflows.
pub open spec fn notional_decision(price: u128, base_asset_amount: u128) -> Result<
    u128,
    ValidationError,
> {
    if notional_overflows(price, base_asset_amount) {
        Err(ValidationError::ArithmeticFailure)
    } else {
        Ok(approx_notional(price, base_asset_amount) as u128)
    }
}

/// Computes the approximate quote-precision market value of `price` (or a
/// trigger price) times `base_asset_amount`, with every step checked.
pub fn calculate_approx_notional(price: u128, base_asset_amount: u128) -> (r: Result<
    u128,
    ValidationError,
>)
    ensures
        r == notional_decision(price, base_asset_amount),
{
    let product = match price.checked_mul(base_asset_amount) {
        Some(v) => v,
        None => {
            return Err(ValidationError::ArithmeticFailure);
        },
    };
    let in_price_scale = match product.checked_div(AMM_RESERVE_PRECISION) {
        Some(v) => v,
        None => {
            return Err(ValidationError::ArithmeticFailure);
        },
    };
    match in_price_scale.checked_div(PRICE_TO_QUOTE_PRECISION_RATIO) {
        Some(v) => Ok(v),
        None => Err(ValidationError::ArithmeticFailure),
    }
}

} // verus!
