use vstd::prelude::*;

use crate::state::Pubkey;

verus! {

/// Which way a swap went, seen from the trader.
#[derive(Debug, Clone, Copy, PartialEq, Eq, Structural)]
pub enum TradeDirection {
    /// Quote in, asset out.
    Buy,
    /// Asset in, quote out.
    Sell,
}

impl TradeDirection {
    pub fn as_str(&self) -> &'static str {
        match self {
            TradeDirection::Buy => "buy",
            TradeDirection::Sell => "sell",
        }
    }
}

#[derive(Debug, Clone, Copy)]
pub struct PoolCreated {
    pub authority: Pubkey,
    pub token_mint: Pubkey,
    pub initial_exchange_rate: u64,
    pub initial_sol: u64,
    pub initial_tokens: u64,
}

/// What a swap moved. Amounts are in the units the caller gave them in; the
/// rate is quote per asset with nine fractional digits.
#[derive(Debug, Clone, Copy)]
pub struct SwapExecuted {
    pub trader: Pubkey,
    pub token_mint: Pubkey,
    pub trade_direction: TradeDirection,
    pub token_amount: u64,
    pub sol_amount: u64,
    pub exchange_rate: u64,
    pub timestamp: i64,
    pub fee_amount: u64,
}

#[derive(Debug, Clone, Copy)]
pub struct LiquidityAdded {
    pub liquidity_provider: Pubkey,
    pub sol_amount: u64,
    pub token_amount: u64,
}

#[derive(Debug, Clone, Copy)]
pub struct LiquidityRemoved {
    pub liquidity_provider: Pubkey,
    pub sol_amount: u64,
    pub token_amount: u64,
}

#[derive(Debug, Clone, Copy)]
pub struct ExchangeRateUpdated {
    pub authority: Pubkey,
    pub old_rate: u64,
    pub new_rate: u64,
}

#[derive(Debug, Clone, Copy)]
pub struct PoolToggled {
    pub authority: Pubkey,
    pub is_active: bool,
}

#[derive(Debug, Clone, Copy)]
pub struct PoolClosed {
    pub authority: Pubkey,
    pub final_sol_reserve: u64,
    pub final_token_reserve: u64,
}

} // verus!
