use vstd::prelude::*;

use crate::error::LiquidityPoolError;
use crate::state::{Pubkey, MAX_FEE_BASIS_POINTS, MIN_SWAP_AMOUNT};

verus! {

/// Access is granted exactly when the caller is the stored authority.
pub fn check_authority(user: &Pubkey, authority: &Pubkey) -> (r: Result<(), LiquidityPoolError>)
    ensures
        r is Ok <==> user@ == authority@,
        r is Err ==> r == Err::<(), LiquidityPoolError>(LiquidityPoolError::UnauthorizedAccess),
{
    if *user == *authority {
        Ok(())
    } else {
        Err(LiquidityPoolError::UnauthorizedAccess)
    }
}

pub fn validate_swap_params(amount: u64, reserve: u64) -> (r: Result<(), LiquidityPoolError>)
    ensures
        amount < MIN_SWAP_AMOUNT ==> r == Err::<(), LiquidityPoolError>(LiquidityPoolError::InvalidSwapAmount),
        MIN_SWAP_AMOUNT <= amount && amount > reserve ==> r == Err::<(), LiquidityPoolError>(
            LiquidityPoolError::InsufficientLiquidity,
        ),
        MIN_SWAP_AMOUNT <= amount <= reserve ==> r is Ok,
{
    if amount < MIN_SWAP_AMOUNT {
        return Err(LiquidityPoolError::InvalidSwapAmount);
    }
    if amount > reserve {
        return Err(LiquidityPoolError::InsufficientLiquidity);
    }
    Ok(())
}

pub fn validate_fee(fee_basis_points: u16) -> (r: Result<(), LiquidityPoolError>)
    ensures
        r is Ok <==> fee_basis_points <= MAX_FEE_BASIS_POINTS,
        r is Err ==> r == Err::<(), LiquidityPoolError>(LiquidityPoolError::FeeExceedsMaximum),
{
    if fee_basis_points > MAX_FEE_BASIS_POINTS {
        return Err(LiquidityPoolError::FeeExceedsMaximum);
    }
    Ok(())
}

pub fn validate_reserves(sol_reserve: u64, token_reserve: u64) -> (r: Result<(), LiquidityPoolError>)
    ensures
        r is Ok <==> (sol_reserve > 0 || token_reserve > 0),
        r is Err ==> r == Err::<(), LiquidityPoolError>(LiquidityPoolError::InvalidReserves),
{
    if sol_reserve > 0 || token_reserve > 0 {
        Ok(())
    } else {
        Err(LiquidityPoolError::InvalidReserves)
    }
}

pub fn validate_liquidity_params(sol_amount: u64, token_amount: u64) -> (r: Result<(), LiquidityPoolError>)
    ensures
        r is Ok <==> (sol_amount > 0 || token_amount > 0),
        r is Err ==> r == Err::<(), LiquidityPoolError>(LiquidityPoolError::InvalidReserves),
{
    if sol_amount > 0 || token_amount > 0 {
        Ok(())
    } else {
        Err(LiquidityPoolError::InvalidReserves)
    }
}

} // verus!
