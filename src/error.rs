use vstd::prelude::*;

verus! {

/// Every way an operation on a pool can fail. An operation that returns one of
/// these leaves the pool record untouched.
#[derive(Debug, Clone, Copy, PartialEq, Eq, Structural)]
pub enum LiquidityPoolError {
    UnauthorizedAccess,
    PoolInactive,
    InsufficientLiquidity,
    InvalidExchangeRate,
    InvalidSwapAmount,
    MathOverflow,
    FeeExceedsMaximum,
    InvalidReserves,
    SlippageExceeded,
    PoolAlreadyExists,
    InvalidSwapParams,
}

impl LiquidityPoolError {
    /// The message shown to a caller for this error.
    pub fn message(&self) -> &'static str {
        match self {
            LiquidityPoolError::UnauthorizedAccess => "Unauthorized access",
            LiquidityPoolError::PoolInactive => "Pool is currently inactive",
            LiquidityPoolError::InsufficientLiquidity => "Insufficient liquidity in pool",
            LiquidityPoolError::InvalidExchangeRate => "Invalid exchange rate",
            LiquidityPoolError::InvalidSwapAmount => "Invalid swap amount",
            LiquidityPoolError::MathOverflow => "Mathematical overflow",
            LiquidityPoolError::FeeExceedsMaximum => "Fee exceeds maximum allowed",
            LiquidityPoolError::InvalidReserves => "Pool reserves are invalid",
            LiquidityPoolError::SlippageExceeded => "Slippage tolerance exceeded",
            LiquidityPoolError::PoolAlreadyExists => "Pool already exists for this token",
            LiquidityPoolError::InvalidSwapParams => "Invalid swap parameters",
        }
    }
}

} // verus!
