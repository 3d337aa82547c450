use vstd::prelude::*;

use crate::error::LiquidityPoolError;
use crate::events::{ExchangeRateUpdated, PoolClosed, PoolCreated, PoolToggled};
use crate::math::{calculate_exchange_rate, calculate_trade_price, exchange_rate_spec, trade_price_spec};
use crate::state::{LiquidityPool, Pubkey, DEFAULT_VIRTUAL_SOL, DEFAULT_VIRTUAL_TOKEN};
use crate::validation::check_authority;

verus! {

/// The record of a pool just created with the given virtual reserves and rate:
/// active, no fee, no trades.
pub open spec fn created_pool(
    authority: Pubkey,
    token_mint: Pubkey,
    sol_reserve: u64,
    token_reserve: u64,
    exchange_rate: u64,
    created_at: i64,
    bump: u8,
) -> LiquidityPool {
    LiquidityPool {
        authority,
        token_mint,
        exchange_rate,
        sol_reserve,
        token_reserve,
        is_active: true,
        created_at,
        fee_basis_points: 0,
        bump,
        total_volume_sol: 0,
        total_volume_token: 0,
        trade_count: 0,
        last_trade_timestamp: 0,
        current_price: trade_price_spec(sol_reserve, token_reserve),
    }
}

/// A virtual reserve as given, or its default.
pub open spec fn reserve_or(given: Option<u64>, default: u64) -> u64 {
    match given {
        Some(v) => v,
        None => default,
    }
}

/// Creates a pool owned by `authority` for the asset `token_mint`. Reserves not
/// given take their defaults; the rate is derived from the reserves and the
/// creation fails only where that derivation overflows.
pub fn create_pool(
    authority: Pubkey,
    token_mint: Pubkey,
    virtual_token_reserve: Option<u64>,
    virtual_sol_reserve: Option<u64>,
    created_at: i64,
    bump: u8,
) -> (r: Result<(LiquidityPool, PoolCreated), LiquidityPoolError>)
    ensures
        ({
            let sol = reserve_or(virtual_sol_reserve, DEFAULT_VIRTUAL_SOL);
            let tok = reserve_or(virtual_token_reserve, DEFAULT_VIRTUAL_TOKEN);
            match exchange_rate_spec(sol, tok) {
                Ok(rate) => r is Ok && r->Ok_0.0 == created_pool(
                    authority,
                    token_mint,
                    sol,
                    tok,
                    rate,
                    created_at,
                    bump,
                ) && r->Ok_0.1 == (PoolCreated {
                    authority,
                    token_mint,
                    initial_exchange_rate: rate,
                    initial_sol: sol,
                    initial_tokens: tok,
                }),
                Err(e) => r == Err::<(LiquidityPool, PoolCreated), LiquidityPoolError>(e),
            }
        }),
        r is Ok ==> r->Ok_0.0.wf(),
        r is Ok ==> r->Ok_0.0.exchange_rate > 0,
{
    let sol = match virtual_sol_reserve {
        Some(v) => v,
        None => DEFAULT_VIRTUAL_SOL,
    };
    let tok = match virtual_token_reserve {
        Some(v) => v,
        None => DEFAULT_VIRTUAL_TOKEN,
    };
    let rate = calculate_exchange_rate(sol, tok)?;
    let pool = LiquidityPool {
        authority,
        token_mint,
        exchange_rate: rate,
        sol_reserve: sol,
        token_reserve: tok,
        is_active: true,
        created_at,
        fee_basis_points: 0,
        bump,
        total_volume_sol: 0,
        total_volume_token: 0,
        trade_count: 0,
        last_trade_timestamp: 0,
        current_price: calculate_trade_price(sol, tok),
    };
    let event = PoolCreated {
        authority,
        token_mint,
        initial_exchange_rate: rate,
        initial_sol: sol,
        initial_tokens: tok,
    };
    Ok((pool, event))
}

/// The record with its activity flag flipped and nothing else changed.
pub open spec fn toggled(pool: LiquidityPool) -> LiquidityPool {
    LiquidityPool { is_active: !pool.is_active, ..pool }
}

/// Replaces the advisory exchange rate. Only the authority may, and the new
/// rate must be positive.
pub fn update_exchange_rate(pool: &mut LiquidityPool, caller: &Pubkey, new_rate: u64) -> (r: Result<
    ExchangeRateUpdated,
    LiquidityPoolError,
>)
    ensures
        caller@ != old(pool).authority@ ==> r == Err::<ExchangeRateUpdated, LiquidityPoolError>(
            LiquidityPoolError::UnauthorizedAccess,
        ),
        caller@ == old(pool).authority@ && new_rate == 0 ==> r == Err::<
            ExchangeRateUpdated,
            LiquidityPoolError,
        >(LiquidityPoolError::InvalidExchangeRate),
        caller@ == old(pool).authority@ && new_rate > 0 ==> r is Ok,
        r is Ok ==> *final(pool) == (LiquidityPool { exchange_rate: new_rate, ..*old(pool) })
            && r->Ok_0 == (ExchangeRateUpdated {
            authority: *caller,
            old_rate: old(pool).exchange_rate,
            new_rate,
        }),
        r is Err ==> *final(pool) == *old(pool),
        old(pool).wf() ==> final(pool).wf(),
{
    check_authority(caller, &pool.authority)?;
    if new_rate == 0 {
        return Err(LiquidityPoolError::InvalidExchangeRate);
    }
    let old_rate = pool.exchange_rate;
    pool.exchange_rate = new_rate;
    Ok(ExchangeRateUpdated { authority: *caller, old_rate, new_rate })
}

/// Flips whether the pool accepts swaps. Only the authority may.
pub fn toggle_pool(pool: &mut LiquidityPool, caller: &Pubkey) -> (r: Result<PoolToggled, LiquidityPoolError>)
    ensures
        r is Ok <==> caller@ == old(pool).authority@,
        r is Err ==> r == Err::<PoolToggled, LiquidityPoolError>(LiquidityPoolError::UnauthorizedAccess)
            && *final(pool) == *old(pool),
        r is Ok ==> *final(pool) == toggled(*old(pool)) && r->Ok_0 == (PoolToggled {
            authority: *caller,
            is_active: !old(pool).is_active,
        }),
{
    check_authority(caller, &pool.authority)?;
    pool.is_active = !pool.is_active;
    Ok(PoolToggled { authority: *caller, is_active: pool.is_active })
}

/// Two toggles in a row restore the activity flag: the first keeps the
/// authority, so the same caller is granted the second, and the record comes
/// back as it was.
pub proof fn lemma_toggle_twice(pool: LiquidityPool)
    ensures
        toggled(pool).authority == pool.authority,
        toggled(toggled(pool)) == pool,
{
}

/// The final snapshot of a pool that its authority closes. The record itself is
/// not touched: reclaiming its storage is the host's part.
pub fn close_pool(pool: &LiquidityPool, caller: &Pubkey) -> (r: Result<PoolClosed, LiquidityPoolError>)
    ensures
        r is Ok <==> caller@ == pool.authority@,
        r is Err ==> r == Err::<PoolClosed, LiquidityPoolError>(LiquidityPoolError::UnauthorizedAccess),
        r is Ok ==> r->Ok_0 == (PoolClosed {
            authority: *caller,
            final_sol_reserve: pool.sol_reserve,
            final_token_reserve: pool.token_reserve,
        }),
{
    check_authority(caller, &pool.authority)?;
    Ok(
        PoolClosed {
            authority: *caller,
            final_sol_reserve: pool.sol_reserve,
            final_token_reserve: pool.token_reserve,
        },
    )
}

} // verus!
