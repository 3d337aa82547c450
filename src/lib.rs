//! A two-sided automated market maker: checked fixed-point arithmetic, decimal
//! normalisation, a constant-product pricing curve over effective (virtual plus
//! real) reserves, and the state machine of a pool record.
pub mod admin;
pub mod error;
pub mod events;
pub mod liquidity;
pub mod math;
pub mod query;
pub mod state;
pub mod swap;
pub mod validation;
