//! Admission control for incoming orders on a derivatives trading venue.
//!
//! Before an order may touch market or position state it must pass a
//! deterministic chain of structural and economic checks: size minimums,
//! price/trigger consistency, and a venue-wide minimum notional value.
//! The validator is a pure function of the order, a read-only market
//! snapshot, and the venue's order policy; it returns acceptance or the
//! reason for the first violated guard.

pub mod laws;
pub mod math;
pub mod state;
pub mod validation;
