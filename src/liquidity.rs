use vstd::prelude::*;

use crate::error::LiquidityPoolError;
use crate::events::{LiquidityAdded, LiquidityRemoved};
use crate::math::{
    calculate_exchange_rate,
    exchange_rate_spec,
    normalize_spec,
    normalize_token_amount,
    MAX_TOKEN_DECIMALS,
};
use crate::state::{LiquidityPool, Pubkey};
use crate::validation::{check_authority, validate_liquidity_params};

verus! {

/// The record after the authority deposits `sol_amount` quote units and
/// `token_amount` native asset units, or why the deposit is refused. Real
/// backing replaces virtual liquidity: each deposit (the asset side normalised)
/// is taken off its virtual reserve, which it may not exceed, and the rate is
/// derived anew. The caller's balances must cover the deposit.
pub open spec fn add_liquidity_spec(
    pool: LiquidityPool,
    caller: Pubkey,
    sol_amount: u64,
    token_amount: u64,
    token_decimals: u8,
    caller_token_balance: u64,
    caller_lamports: u64,
) -> Result<LiquidityPool, LiquidityPoolError> {
    if caller@ != pool.authority@ {
        Err(LiquidityPoolError::UnauthorizedAccess)
    } else if sol_amount == 0 && token_amount == 0 {
        Err(LiquidityPoolError::InvalidReserves)
    } else if token_decimals > MAX_TOKEN_DECIMALS {
        Err(LiquidityPoolError::InvalidSwapParams)
    } else if token_amount > 0 && normalize_spec(token_amount, token_decimals) is Err {
        Err(normalize_spec(token_amount, token_decimals)->Err_0)
    } else {
        let normalized: u64 = if token_amount > 0 {
            normalize_spec(token_amount, token_decimals)->Ok_0
        } else {
            0
        };
        if caller_token_balance < token_amount || caller_lamports < sol_amount
            || sol_amount > pool.sol_reserve || normalized > pool.token_reserve {
            Err(LiquidityPoolError::InsufficientLiquidity)
        } else {
            let sol_reserve = (pool.sol_reserve - sol_amount) as u64;
            let token_reserve = (pool.token_reserve - normalized) as u64;
            match exchange_rate_spec(sol_reserve, token_reserve) {
                Ok(rate) => Ok(
                    LiquidityPool {
                        sol_reserve,
                        token_reserve,
                        exchange_rate: rate,
                        is_active: true,
                        ..pool
                    },
                ),
                Err(e) => Err(e),
            }
        }
    }
}

/// Deposits backing liquidity. The host has moved nothing yet: on `Ok` it moves
/// the deposit from the caller to the pool's custody, on `Err` nothing.
pub fn add_liquidity(
    pool: &mut LiquidityPool,
    caller: &Pubkey,
    sol_amount: u64,
    token_amount: u64,
    token_decimals: u8,
    caller_token_balance: u64,
    caller_lamports: u64,
) -> (r: Result<LiquidityAdded, LiquidityPoolError>)
    ensures
        match add_liquidity_spec(
            *old(pool),
            *caller,
            sol_amount,
            token_amount,
            token_decimals,
            caller_token_balance,
            caller_lamports,
        ) {
            Ok(p) => *final(pool) == p && r == Ok::<LiquidityAdded, LiquidityPoolError>(
                LiquidityAdded { liquidity_provider: *caller, sol_amount, token_amount },
            ),
            Err(e) => *final(pool) == *old(pool) && r == Err::<LiquidityAdded, LiquidityPoolError>(
                e,
            ),
        },
        old(pool).wf() ==> final(pool).wf(),
        r is Ok ==> final(pool).exchange_rate > 0,
{
    check_authority(caller, &pool.authority)?;
    validate_liquidity_params(sol_amount, token_amount)?;
    if token_decimals > MAX_TOKEN_DECIMALS {
        return Err(LiquidityPoolError::InvalidSwapParams);
    }
    let normalized = if token_amount > 0 {
        normalize_token_amount(token_amount, token_decimals)?
    } else {
        0
    };
    if caller_token_balance < token_amount || caller_lamports < sol_amount {
        return Err(LiquidityPoolError::InsufficientLiquidity);
    }
    if sol_amount > pool.sol_reserve || normalized > pool.token_reserve {
        return Err(LiquidityPoolError::InsufficientLiquidity);
    }
    let sol_reserve = pool.sol_reserve - sol_amount;
    let token_reserve = pool.token_reserve - normalized;
    let rate = calculate_exchange_rate(sol_reserve, token_reserve)?;
    pool.sol_reserve = sol_reserve;
    pool.token_reserve = token_reserve;
    pool.exchange_rate = rate;
    pool.is_active = true;
    Ok(LiquidityAdded { liquidity_provider: *caller, sol_amount, token_amount })
}

/// The record after a full withdrawal, or why it is refused. Only the authority
/// may drain, and the pool must hold the quote reserve it records. The drain
/// happens whatever the amounts, nothing at all included: a drained pool has no
/// virtual reserves and is inactive.
pub open spec fn remove_liquidity_spec(
    pool: LiquidityPool,
    caller: Pubkey,
    token_decimals: u8,
    pool_lamports: u64,
    pool_token_balance: u64,
) -> Result<LiquidityPool, LiquidityPoolError> {
    if caller@ != pool.authority@ {
        Err(LiquidityPoolError::UnauthorizedAccess)
    } else if token_decimals > MAX_TOKEN_DECIMALS {
        Err(LiquidityPoolError::InvalidSwapParams)
    } else if pool_lamports < pool.sol_reserve {
        Err(LiquidityPoolError::InsufficientLiquidity)
    } else {
        Ok(LiquidityPool { sol_reserve: 0, token_reserve: 0, is_active: false, ..pool })
    }
}

/// Drains the pool to its authority. On `Ok` the host moves the event's amounts
/// (the recorded quote reserve and the whole asset custody balance) to the
/// caller; on `Err` nothing.
pub fn remove_liquidity(
    pool: &mut LiquidityPool,
    caller: &Pubkey,
    token_decimals: u8,
    pool_lamports: u64,
    pool_token_balance: u64,
) -> (r: Result<LiquidityRemoved, LiquidityPoolError>)
    ensures
        match remove_liquidity_spec(
            *old(pool),
            *caller,
            token_decimals,
            pool_lamports,
            pool_token_balance,
        ) {
            Ok(p) => *final(pool) == p && r == Ok::<LiquidityRemoved, LiquidityPoolError>(
                LiquidityRemoved {
                    liquidity_provider: *caller,
                    sol_amount: old(pool).sol_reserve,
                    token_amount: pool_token_balance,
                },
            ),
            Err(e) => *final(pool) == *old(pool) && r == Err::<LiquidityRemoved, LiquidityPoolError>(
                e,
            ),
        },
        old(pool).wf() ==> final(pool).wf(),
{
    check_authority(caller, &pool.authority)?;
    if token_decimals > MAX_TOKEN_DECIMALS {
        return Err(LiquidityPoolError::InvalidSwapParams);
    }
    let sol_to_withdraw = pool.sol_reserve;
    if pool_lamports < sol_to_withdraw {
        return Err(LiquidityPoolError::InsufficientLiquidity);
    }
    pool.sol_reserve = 0;
    pool.token_reserve = 0;
    pool.is_active = false;
    Ok(
        LiquidityRemoved {
            liquidity_provider: *caller,
            sol_amount: sol_to_withdraw,
            token_amount: pool_token_balance,
        },
    )
}

} // verus!
