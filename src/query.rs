use vstd::prelude::*;

use crate::error::LiquidityPoolError;
use crate::math::{calculate_sol_to_tokens, calculate_tokens_to_sol, sol_to_tokens_spec, tokens_to_sol_spec};
use crate::state::{LiquidityPool, Pubkey};

verus! {

/// The public view of a pool record.
#[derive(Debug, Clone, Copy)]
pub struct PoolInfo {
    pub token_mint: Pubkey,
    pub authority: Pubkey,
    pub exchange_rate: u64,
    pub sol_reserve: u64,
    pub token_reserve: u64,
    pub is_active: bool,
    pub created_at: i64,
}

pub fn get_pool_info(pool: &LiquidityPool) -> (r: PoolInfo)
    ensures
        r == (PoolInfo {
            token_mint: pool.token_mint,
            authority: pool.authority,
            exchange_rate: pool.exchange_rate,
            sol_reserve: pool.sol_reserve,
            token_reserve: pool.token_reserve,
            is_active: pool.is_active,
            created_at: pool.created_at,
        }),
{
    PoolInfo {
        token_mint: pool.token_mint,
        authority: pool.authority,
        exchange_rate: pool.exchange_rate,
        sol_reserve: pool.sol_reserve,
        token_reserve: pool.token_reserve,
        is_active: pool.is_active,
        created_at: pool.created_at,
    }
}

/// An estimate of a swap at the pool's advisory exchange rate, without touching
/// the pool: asset to quote when `token_to_sol`, else quote to asset.
pub fn calculate_swap(pool: &LiquidityPool, input_amount: u64, token_to_sol: bool) -> (r: Result<
    u64,
    LiquidityPoolError,
>)
    ensures
        token_to_sol ==> r == tokens_to_sol_spec(input_amount, pool.exchange_rate),
        !token_to_sol ==> r == sol_to_tokens_spec(input_amount, pool.exchange_rate),
{
    if token_to_sol {
        calculate_tokens_to_sol(input_amount, pool.exchange_rate)
    } else {
        calculate_sol_to_tokens(input_amount, pool.exchange_rate)
    }
}

} // verus!
