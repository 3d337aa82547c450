use vstd::prelude::*;

use crate::error::LiquidityPoolError;
use crate::events::{SwapExecuted, TradeDirection};
use crate::math::{
    calculate_swap_input_amount,
    calculate_swap_output_amount,
    calculate_trade_price,
    effective_reserves_spec,
    get_effective_pool_reserves,
    get_real_reserves_from_accounts,
    normalize_spec,
    normalize_token_amount,
    real_reserves_spec,
    swap_input_spec,
    swap_output_spec,
    trade_price_spec,
    MAX_TOKEN_DECIMALS,
};
use crate::state::{LiquidityPool, Pubkey};

verus! {

/// The amount argument that asks the swap to compute that side itself.
pub const AUTO_VALUE: u64 = 0xffff_ffff_ffff_ffff;

/// The reserves the curve prices a swap against: the pool's virtual reserves
/// plus the real balances of its custody, both positive.
pub open spec fn pricing_reserves_spec(
    pool: LiquidityPool,
    token_decimals: u8,
    pool_lamports: u64,
    rent_exempt_minimum: u64,
    pool_token_balance: u64,
) -> Result<(u64, u64), LiquidityPoolError> {
    match real_reserves_spec(pool_lamports, rent_exempt_minimum, pool_token_balance, token_decimals) {
        Err(e) => Err(e),
        Ok(balances) => match effective_reserves_spec(pool.sol_reserve, pool.token_reserve, balances.0, balances.1) {
            Err(e) => Err(e),
            Ok(eff) => if eff.0 == 0 || eff.1 == 0 {
                Err(LiquidityPoolError::InsufficientLiquidity)
            } else {
                Ok(eff)
            },
        },
    }
}

fn pricing_reserves(
    pool: &LiquidityPool,
    token_decimals: u8,
    pool_lamports: u64,
    rent_exempt_minimum: u64,
    pool_token_balance: u64,
) -> (r: Result<(u64, u64), LiquidityPoolError>)
    ensures
        r == pricing_reserves_spec(
            *pool,
            token_decimals,
            pool_lamports,
            rent_exempt_minimum,
            pool_token_balance,
        ),
{
    let (real_sol, real_tokens) = get_real_reserves_from_accounts(
        pool_lamports,
        rent_exempt_minimum,
        pool_token_balance,
        token_decimals,
    )?;
    let (effective_sol, effective_token) = get_effective_pool_reserves(
        pool.sol_reserve,
        pool.token_reserve,
        real_sol,
        real_tokens,
    )?;
    if effective_sol == 0 || effective_token == 0 {
        return Err(LiquidityPoolError::InsufficientLiquidity);
    }
    Ok((effective_sol, effective_token))
}

/// The outcome of selling `token_amount` native asset units for quote: the
/// quote paid out and the pool's new virtual asset reserve, or why the swap is
/// refused. The asset amount is given and the quote side must be `AUTO_VALUE`;
/// the pool must be active; after paying out, the pool keeps its reserved
/// minimum of quote.
pub open spec fn sell_spec(
    pool: LiquidityPool,
    token_amount: u64,
    sol_output: u64,
    token_decimals: u8,
    pool_lamports: u64,
    rent_exempt_minimum: u64,
    pool_token_balance: u64,
) -> Result<(u64, u64), LiquidityPoolError> {
    if !pool.is_active {
        Err(LiquidityPoolError::PoolInactive)
    } else if token_decimals > MAX_TOKEN_DECIMALS {
        Err(LiquidityPoolError::InvalidSwapParams)
    } else if token_amount == AUTO_VALUE || sol_output != AUTO_VALUE {
        Err(LiquidityPoolError::InvalidSwapParams)
    } else if token_amount == 0 {
        Err(LiquidityPoolError::InvalidSwapAmount)
    } else {
        match normalize_spec(token_amount, token_decimals) {
            Err(e) => Err(e),
            Ok(input) => match pricing_reserves_spec(
                pool,
                token_decimals,
                pool_lamports,
                rent_exempt_minimum,
                pool_token_balance,
            ) {
                Err(e) => Err(e),
                Ok(eff) => match swap_output_spec(input, eff.1, eff.0) {
                    Err(e) => Err(e),
                    Ok(out) => if out == 0 {
                        Err(LiquidityPoolError::InvalidSwapAmount)
                    } else if rent_exempt_minimum + out > u64::MAX {
                        Err(LiquidityPoolError::MathOverflow)
                    } else if pool_lamports < rent_exempt_minimum + out {
                        Err(LiquidityPoolError::InsufficientLiquidity)
                    } else if pool.token_reserve + input > u64::MAX {
                        Err(LiquidityPoolError::MathOverflow)
                    } else {
                        Ok((out, (pool.token_reserve + input) as u64))
                    },
                },
            },
        }
    }
}

/// Sells asset for quote. On `Ok` the host moves the event's asset amount from
/// the trader to the pool's custody and its quote amount back; on `Err` the
/// record is unchanged and nothing moves. Only the received (asset) side of the
/// virtual reserves changes.
pub fn swap_tokens_for_sol(
    pool: &mut LiquidityPool,
    trader: &Pubkey,
    token_amount: u64,
    sol_output: u64,
    token_decimals: u8,
    pool_lamports: u64,
    rent_exempt_minimum: u64,
    pool_token_balance: u64,
    timestamp: i64,
) -> (r: Result<SwapExecuted, LiquidityPoolError>)
    ensures
        match sell_spec(
            *old(pool),
            token_amount,
            sol_output,
            token_decimals,
            pool_lamports,
            rent_exempt_minimum,
            pool_token_balance,
        ) {
            Ok((out, new_token_reserve)) => *final(pool) == (LiquidityPool {
                token_reserve: new_token_reserve,
                ..*old(pool)
            }).with_trade(out, token_amount, timestamp) && r == Ok::<
                SwapExecuted,
                LiquidityPoolError,
            >(
                SwapExecuted {
                    trader: *trader,
                    token_mint: old(pool).token_mint,
                    trade_direction: TradeDirection::Sell,
                    token_amount,
                    sol_amount: out,
                    exchange_rate: trade_price_spec(out, token_amount),
                    timestamp,
                    fee_amount: 0,
                },
            ),
            Err(e) => *final(pool) == *old(pool) && r == Err::<SwapExecuted, LiquidityPoolError>(e),
        },
        old(pool).wf() ==> final(pool).wf(),
{
    if !pool.is_active {
        return Err(LiquidityPoolError::PoolInactive);
    }
    if token_decimals > MAX_TOKEN_DECIMALS {
        return Err(LiquidityPoolError::InvalidSwapParams);
    }
    if token_amount == AUTO_VALUE || sol_output != AUTO_VALUE {
        return Err(LiquidityPoolError::InvalidSwapParams);
    }
    if token_amount == 0 {
        return Err(LiquidityPoolError::InvalidSwapAmount);
    }
    let input = normalize_token_amount(token_amount, token_decimals)?;
    let (effective_sol, effective_token) = pricing_reserves(
        pool,
        token_decimals,
        pool_lamports,
        rent_exempt_minimum,
        pool_token_balance,
    )?;
    let out = calculate_swap_output_amount(input, effective_token, effective_sol)?;
    if out == 0 {
        return Err(LiquidityPoolError::InvalidSwapAmount);
    }
    let required = match rent_exempt_minimum.checked_add(out) {
        Some(v) => v,
        None => return Err(LiquidityPoolError::MathOverflow),
    };
    if pool_lamports < required {
        return Err(LiquidityPoolError::InsufficientLiquidity);
    }
    let new_token_reserve = match pool.token_reserve.checked_add(input) {
        Some(v) => v,
        None => return Err(LiquidityPoolError::MathOverflow),
    };
    pool.token_reserve = new_token_reserve;
    pool.update_trade_stats(out, token_amount, timestamp);
    Ok(
        SwapExecuted {
            trader: *trader,
            token_mint: pool.token_mint,
            trade_direction: TradeDirection::Sell,
            token_amount,
            sol_amount: out,
            exchange_rate: calculate_trade_price(out, token_amount),
            timestamp,
            fee_amount: 0,
        },
    )
}

/// The outcome of buying `token_output` native asset units with quote: the
/// quote to pay in and the pool's new virtual quote reserve, or why the swap
/// is refused. The asset amount is given and the quote side must be
/// `AUTO_VALUE`; the pool must be active; the asset custody must hold what is
/// bought.
pub open spec fn buy_spec(
    pool: LiquidityPool,
    sol_amount: u64,
    token_output: u64,
    token_decimals: u8,
    pool_lamports: u64,
    rent_exempt_minimum: u64,
    pool_token_balance: u64,
) -> Result<(u64, u64), LiquidityPoolError> {
    if !pool.is_active {
        Err(LiquidityPoolError::PoolInactive)
    } else if token_decimals > MAX_TOKEN_DECIMALS {
        Err(LiquidityPoolError::InvalidSwapParams)
    } else if sol_amount != AUTO_VALUE || token_output == AUTO_VALUE {
        Err(LiquidityPoolError::InvalidSwapParams)
    } else if token_output == 0 {
        Err(LiquidityPoolError::InvalidSwapAmount)
    } else {
        match normalize_spec(token_output, token_decimals) {
            Err(e) => Err(e),
            Ok(output) => match pricing_reserves_spec(
                pool,
                token_decimals,
                pool_lamports,
                rent_exempt_minimum,
                pool_token_balance,
            ) {
                Err(e) => Err(e),
                Ok(eff) => match swap_input_spec(output, eff.0, eff.1) {
                    Err(e) => Err(e),
                    Ok(cost) => if token_output > pool_token_balance {
                        Err(LiquidityPoolError::InsufficientLiquidity)
                    } else if cost == 0 {
                        Err(LiquidityPoolError::InvalidSwapAmount)
                    } else if pool.sol_reserve + cost > u64::MAX {
                        Err(LiquidityPoolError::MathOverflow)
                    } else {
                        Ok((cost, (pool.sol_reserve + cost) as u64))
                    },
                },
            },
        }
    }
}

/// Buys asset with quote. On `Ok` the host moves the event's quote amount from
/// the trader to the pool and its asset amount from the pool's custody to the
/// trader; on `Err` the record is unchanged and nothing moves. Only the
/// received (quote) side of the virtual reserves changes.
pub fn swap_sol_for_tokens(
    pool: &mut LiquidityPool,
    trader: &Pubkey,
    sol_amount: u64,
    token_output: u64,
    token_decimals: u8,
    pool_lamports: u64,
    rent_exempt_minimum: u64,
    pool_token_balance: u64,
    timestamp: i64,
) -> (r: Result<SwapExecuted, LiquidityPoolError>)
    ensures
        match buy_spec(
            *old(pool),
            sol_amount,
            token_output,
            token_decimals,
            pool_lamports,
            rent_exempt_minimum,
            pool_token_balance,
        ) {
            Ok((cost, new_sol_reserve)) => *final(pool) == (LiquidityPool {
                sol_reserve: new_sol_reserve,
                ..*old(pool)
            }).with_trade(cost, token_output, timestamp) && r == Ok::<
                SwapExecuted,
                LiquidityPoolError,
            >(
                SwapExecuted {
                    trader: *trader,
                    token_mint: old(pool).token_mint,
                    trade_direction: TradeDirection::Buy,
                    token_amount: token_output,
                    sol_amount: cost,
                    exchange_rate: trade_price_spec(cost, token_output),
                    timestamp,
                    fee_amount: 0,
                },
            ),
            Err(e) => *final(pool) == *old(pool) && r == Err::<SwapExecuted, LiquidityPoolError>(e),
        },
        old(pool).wf() ==> final(pool).wf(),
{
    if !pool.is_active {
        return Err(LiquidityPoolError::PoolInactive);
    }
    if token_decimals > MAX_TOKEN_DECIMALS {
        return Err(LiquidityPoolError::InvalidSwapParams);
    }
    if sol_amount != AUTO_VALUE || token_output == AUTO_VALUE {
        return Err(LiquidityPoolError::InvalidSwapParams);
    }
    if token_output == 0 {
        return Err(LiquidityPoolError::InvalidSwapAmount);
    }
    let output = normalize_token_amount(token_output, token_decimals)?;
    let (effective_sol, effective_token) = pricing_reserves(
        pool,
        token_decimals,
        pool_lamports,
        rent_exempt_minimum,
        pool_token_balance,
    )?;
    let cost = calculate_swap_input_amount(output, effective_sol, effective_token)?;
    if token_output > pool_token_balance {
        return Err(LiquidityPoolError::InsufficientLiquidity);
    }
    if cost == 0 {
        return Err(LiquidityPoolError::InvalidSwapAmount);
    }
    let new_sol_reserve = match pool.sol_reserve.checked_add(cost) {
        Some(v) => v,
        None => return Err(LiquidityPoolError::MathOverflow),
    };
    pool.sol_reserve = new_sol_reserve;
    pool.update_trade_stats(cost, token_output, timestamp);
    Ok(
        SwapExecuted {
            trader: *trader,
            token_mint: pool.token_mint,
            trade_direction: TradeDirection::Buy,
            token_amount: token_output,
            sol_amount: cost,
            exchange_rate: calculate_trade_price(cost, token_output),
            timestamp,
            fee_amount: 0,
        },
    )
}

} // verus!
