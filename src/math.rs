use vstd::prelude::*;

use crate::error::LiquidityPoolError;
use crate::state::MIN_EXCHANGE_RATE;

verus! {

/// `a * b / c` with the product taken at double width: fails with `MathOverflow`
/// when `c` is zero or the quotient does not fit in 64 bits.
pub open spec fn mul_div_spec(a: u64, b: u64, c: u64) -> Result<u64, LiquidityPoolError> {
    if c == 0 {
        Err(LiquidityPoolError::MathOverflow)
    } else if (a as int) * (b as int) / (c as int) > u64::MAX {
        Err(LiquidityPoolError::MathOverflow)
    } else {
        Ok(((a as int) * (b as int) / (c as int)) as u64)
    }
}

pub fn safe_add(a: u64, b: u64) -> (r: Result<u64, LiquidityPoolError>)
    ensures
        a + b <= u64::MAX ==> r == Ok::<u64, LiquidityPoolError>((a + b) as u64),
        a + b > u64::MAX ==> r == Err::<u64, LiquidityPoolError>(LiquidityPoolError::MathOverflow),
{
    match a.checked_add(b) {
        Some(v) => Ok(v),
        None => Err(LiquidityPoolError::MathOverflow),
    }
}

pub fn safe_sub(a: u64, b: u64) -> (r: Result<u64, LiquidityPoolError>)
    ensures
        b <= a ==> r == Ok::<u64, LiquidityPoolError>((a - b) as u64),
        b > a ==> r == Err::<u64, LiquidityPoolError>(LiquidityPoolError::MathOverflow),
{
    match a.checked_sub(b) {
        Some(v) => Ok(v),
        None => Err(LiquidityPoolError::MathOverflow),
    }
}

pub fn safe_mul(a: u64, b: u64) -> (r: Result<u64, LiquidityPoolError>)
    ensures
        a * b <= u64::MAX ==> r == Ok::<u64, LiquidityPoolError>((a * b) as u64),
        a * b > u64::MAX ==> r == Err::<u64, LiquidityPoolError>(LiquidityPoolError::MathOverflow),
{
    match a.checked_mul(b) {
        Some(v) => Ok(v),
        None => Err(LiquidityPoolError::MathOverflow),
    }
}

pub fn safe_div(a: u64, b: u64) -> (r: Result<u64, LiquidityPoolError>)
    ensures
        b != 0 ==> r == Ok::<u64, LiquidityPoolError>(a / b),
        b == 0 ==> r == Err::<u64, LiquidityPoolError>(LiquidityPoolError::MathOverflow),
{
    if b == 0 {
        return Err(LiquidityPoolError::MathOverflow);
    }
    Ok(a / b)
}

pub fn safe_mul_div(a: u64, b: u64, c: u64) -> (r: Result<u64, LiquidityPoolError>)
    ensures
        r == mul_div_spec(a, b, c),
{
    if c == 0 {
        return Err(LiquidityPoolError::MathOverflow);
    }
    let a_wide = a as u128;
    let b_wide = b as u128;
    let c_wide = c as u128;
    proof {
        assert((a as int) * (b as int) <= (u64::MAX as int) * (u64::MAX as int)) by (nonlinear_arith)
            requires a <= u64::MAX, b <= u64::MAX, 0 <= a, 0 <= b;
        assert((u64::MAX as int) * (u64::MAX as int) <= u128::MAX);
    }
    let product = a_wide * b_wide;
    let result = product / c_wide;
    if result > u64::MAX as u128 {
        return Err(LiquidityPoolError::MathOverflow);
    }
    Ok(result as u64)
}


/// The number of fractional digits of the canonical scale (that of the quote asset).
pub const CANONICAL_DECIMALS: u8 = 9;

/// The largest native decimal count that an asset may have.
pub const MAX_TOKEN_DECIMALS: u8 = 18;

pub open spec fn pow10(n: nat) -> nat
    decreases n,
{
    if n == 0 {
        1
    } else {
        10 * pow10((n - 1) as nat)
    }
}

pub proof fn lemma_pow10_positive(n: nat)
    ensures
        pow10(n) >= 1,
    decreases n,
{
    if n > 0 {
        lemma_pow10_positive((n - 1) as nat);
    }
}

proof fn lemma_pow10_small(n: nat)
    requires
        n <= 9,
    ensures
        pow10(n) <= 1_000_000_000,
{
    reveal_with_fuel(pow10, 10);
}

/// `10^e` for the exponents that rescaling between decimal counts needs.
fn pow10_u64(e: u8) -> (r: u64)
    requires
        e <= 9,
    ensures
        r as nat == pow10(e as nat),
{
    let mut r: u64 = 1;
    let mut i: u8 = 0;
    while i < e
        invariant
            i <= e <= 9,
            r as nat == pow10(i as nat),
        decreases e - i,
    {
        proof {
            lemma_pow10_small((i + 1) as nat);
        }
        r = r * 10;
        i = i + 1;
    }
    r
}

/// An amount in `decimals` native fractional digits, rescaled to the canonical
/// scale: unchanged at nine digits, truncated when the asset has more digits,
/// multiplied (and checked) when it has fewer. More than eighteen digits is
/// rejected.
pub open spec fn normalize_spec(amount: u64, decimals: u8) -> Result<u64, LiquidityPoolError> {
    if decimals > MAX_TOKEN_DECIMALS {
        Err(LiquidityPoolError::InvalidSwapParams)
    } else if decimals == CANONICAL_DECIMALS {
        Ok(amount)
    } else if decimals > CANONICAL_DECIMALS {
        Ok((amount as nat / pow10((decimals - CANONICAL_DECIMALS) as nat)) as u64)
    } else if amount as nat * pow10((CANONICAL_DECIMALS - decimals) as nat) > u64::MAX {
        Err(LiquidityPoolError::MathOverflow)
    } else {
        Ok((amount as nat * pow10((CANONICAL_DECIMALS - decimals) as nat)) as u64)
    }
}

/// A canonical amount rescaled back to `decimals` native fractional digits: the
/// inverse direction of `normalize_spec`, truncating when the asset has fewer
/// digits than the canonical scale.
pub open spec fn denormalize_spec(amount: u64, decimals: u8) -> Result<u64, LiquidityPoolError> {
    if decimals > MAX_TOKEN_DECIMALS {
        Err(LiquidityPoolError::InvalidSwapParams)
    } else if decimals == CANONICAL_DECIMALS {
        Ok(amount)
    } else if decimals < CANONICAL_DECIMALS {
        Ok((amount as nat / pow10((CANONICAL_DECIMALS - decimals) as nat)) as u64)
    } else if amount as nat * pow10((decimals - CANONICAL_DECIMALS) as nat) > u64::MAX {
        Err(LiquidityPoolError::MathOverflow)
    } else {
        Ok((amount as nat * pow10((decimals - CANONICAL_DECIMALS) as nat)) as u64)
    }
}

pub fn normalize_token_amount(amount: u64, token_decimals: u8) -> (r: Result<u64, LiquidityPoolError>)
    ensures
        r == normalize_spec(amount, token_decimals),
{
    if token_decimals > MAX_TOKEN_DECIMALS {
        return Err(LiquidityPoolError::InvalidSwapParams);
    }
    if token_decimals == CANONICAL_DECIMALS {
        return Ok(amount);
    }
    if token_decimals > CANONICAL_DECIMALS {
        let scale_down = pow10_u64(token_decimals - CANONICAL_DECIMALS);
        proof {
            lemma_pow10_positive((token_decimals - CANONICAL_DECIMALS) as nat);
        }
        Ok(amount / scale_down)
    } else {
        let scale_up = pow10_u64(CANONICAL_DECIMALS - token_decimals);
        match amount.checked_mul(scale_up) {
            Some(v) => Ok(v),
            None => Err(LiquidityPoolError::MathOverflow),
        }
    }
}

pub fn denormalize_token_amount(amount: u64, token_decimals: u8) -> (r: Result<u64, LiquidityPoolError>)
    ensures
        r == denormalize_spec(amount, token_decimals),
{
    if token_decimals > MAX_TOKEN_DECIMALS {
        return Err(LiquidityPoolError::InvalidSwapParams);
    }
    if token_decimals == CANONICAL_DECIMALS {
        return Ok(amount);
    }
    if token_decimals < CANONICAL_DECIMALS {
        let scale_down = pow10_u64(CANONICAL_DECIMALS - token_decimals);
        proof {
            lemma_pow10_positive((CANONICAL_DECIMALS - token_decimals) as nat);
        }
        Ok(amount / scale_down)
    } else {
        let scale_up = pow10_u64(token_decimals - CANONICAL_DECIMALS);
        match amount.checked_mul(scale_up) {
            Some(v) => Ok(v),
            None => Err(LiquidityPoolError::MathOverflow),
        }
    }
}


/// For an asset with at most nine decimals, taking a canonical amount to native
/// units and back gives the amount again, whenever the trip to native units
/// truncates nothing (the amount is a multiple of the scale factor).
pub proof fn lemma_normalize_round_trip(x: u64, decimals: u8)
    requires
        decimals <= CANONICAL_DECIMALS,
        x as nat % pow10((CANONICAL_DECIMALS - decimals) as nat) == 0,
    ensures
        denormalize_spec(x, decimals) is Ok,
        normalize_spec(denormalize_spec(x, decimals)->Ok_0, decimals) == Ok::<u64, LiquidityPoolError>(x),
{
    if decimals < CANONICAL_DECIMALS {
        let p = pow10((CANONICAL_DECIMALS - decimals) as nat);
        lemma_pow10_positive((CANONICAL_DECIMALS - decimals) as nat);
        let y = x as nat / p;
        assert(x as nat == p * y + x as nat % p) by (nonlinear_arith)
            requires p > 0, y == x as nat / p;
        assert(y * p == x as nat) by (nonlinear_arith)
            requires x as nat == p * y + 0;
    }
}

/// For an asset with more than nine decimals normalisation truncates; a value
/// that it produced survives the trip to native units and back unchanged.
pub proof fn lemma_normalize_idempotent_on_lossy(amount: u64, decimals: u8)
    requires
        CANONICAL_DECIMALS < decimals <= MAX_TOKEN_DECIMALS,
    ensures
        normalize_spec(amount, decimals) is Ok,
        denormalize_spec(normalize_spec(amount, decimals)->Ok_0, decimals) is Ok,
        normalize_spec(
            denormalize_spec(normalize_spec(amount, decimals)->Ok_0, decimals)->Ok_0,
            decimals,
        ) == normalize_spec(amount, decimals),
{
    let p = pow10((decimals - CANONICAL_DECIMALS) as nat);
    lemma_pow10_positive((decimals - CANONICAL_DECIMALS) as nat);
    let n = amount as nat / p;
    assert(n * p <= amount as nat) by (nonlinear_arith)
        requires p > 0, n == amount as nat / p;
    assert((n * p) / p == n) by (nonlinear_arith)
        requires p > 0;
}


/// The reserves fed to the curve: each virtual reserve plus the real settled
/// balance of the same asset, both sums checked.
pub open spec fn effective_reserves_spec(
    virtual_sol_reserve: u64,
    virtual_token_reserve: u64,
    real_sol_balance: u64,
    real_token_balance: u64,
) -> Result<(u64, u64), LiquidityPoolError> {
    if virtual_sol_reserve + real_sol_balance > u64::MAX
        || virtual_token_reserve + real_token_balance > u64::MAX {
        Err(LiquidityPoolError::MathOverflow)
    } else {
        Ok(((virtual_sol_reserve + real_sol_balance) as u64, (virtual_token_reserve
            + real_token_balance) as u64))
    }
}

pub fn get_effective_pool_reserves(
    virtual_sol_reserve: u64,
    virtual_token_reserve: u64,
    real_sol_balance: u64,
    real_token_balance: u64,
) -> (r: Result<(u64, u64), LiquidityPoolError>)
    ensures
        r == effective_reserves_spec(
            virtual_sol_reserve,
            virtual_token_reserve,
            real_sol_balance,
            real_token_balance,
        ),
{
    let effective_sol = safe_add(virtual_sol_reserve, real_sol_balance)?;
    let effective_token = safe_add(virtual_token_reserve, real_token_balance)?;
    Ok((effective_sol, effective_token))
}

/// Forward quote on the constant-product curve: what `input_amount` buys out of
/// `output_reserve`, rounded down.
pub open spec fn swap_output_spec(input_amount: u64, input_reserve: u64, output_reserve: u64) -> Result<
    u64,
    LiquidityPoolError,
> {
    if input_reserve == 0 || output_reserve == 0 {
        Err(LiquidityPoolError::InsufficientLiquidity)
    } else if input_reserve + input_amount > u64::MAX {
        Err(LiquidityPoolError::MathOverflow)
    } else {
        mul_div_spec(output_reserve, input_amount, (input_reserve + input_amount) as u64)
    }
}

/// Inverse quote on the constant-product curve: what must be paid in to take
/// `output_amount` out of `output_reserve`, rounded down. The curve never yields
/// a reserve's whole balance.
pub open spec fn swap_input_spec(output_amount: u64, input_reserve: u64, output_reserve: u64) -> Result<
    u64,
    LiquidityPoolError,
> {
    if input_reserve == 0 || output_reserve == 0 || output_amount >= output_reserve {
        Err(LiquidityPoolError::InsufficientLiquidity)
    } else {
        mul_div_spec(input_reserve, output_amount, (output_reserve - output_amount) as u64)
    }
}

pub fn calculate_swap_output_amount(input_amount: u64, input_reserve: u64, output_reserve: u64) -> (r:
    Result<u64, LiquidityPoolError>)
    ensures
        r == swap_output_spec(input_amount, input_reserve, output_reserve),
{
    if input_reserve == 0 || output_reserve == 0 {
        return Err(LiquidityPoolError::InsufficientLiquidity);
    }
    let new_input_reserve = safe_add(input_reserve, input_amount)?;
    safe_mul_div(output_reserve, input_amount, new_input_reserve)
}

pub fn calculate_swap_input_amount(output_amount: u64, input_reserve: u64, output_reserve: u64) -> (r:
    Result<u64, LiquidityPoolError>)
    ensures
        r == swap_input_spec(output_amount, input_reserve, output_reserve),
{
    if input_reserve == 0 || output_reserve == 0 {
        return Err(LiquidityPoolError::InsufficientLiquidity);
    }
    if output_amount >= output_reserve {
        return Err(LiquidityPoolError::InsufficientLiquidity);
    }
    let new_output_reserve = output_reserve - output_amount;
    safe_mul_div(input_reserve, output_amount, new_output_reserve)
}

/// A forward quote that succeeds never overflows, and quoting its result back
/// through the inverse curve never asks for more than was put in: integer
/// truncation only ever favours the pool.
pub proof fn lemma_curve_consistency(x: u64, input_reserve: u64, output_reserve: u64)
    requires
        input_reserve > 0,
        output_reserve > 0,
        0 < x < input_reserve,
        swap_output_spec(x, input_reserve, output_reserve) is Ok,
    ensures
        swap_input_spec(swap_output_spec(x, input_reserve, output_reserve)->Ok_0, input_reserve, output_reserve) is Ok,
        swap_input_spec(swap_output_spec(x, input_reserve, output_reserve)->Ok_0, input_reserve, output_reserve)->Ok_0
            <= x,
{
    let ri = input_reserve as int;
    let ro = output_reserve as int;
    let xi = x as int;
    let y = ro * xi / (ri + xi);
    assert(y * (ri + xi) <= ro * xi) by (nonlinear_arith)
        requires ri + xi > 0, y == ro * xi / (ri + xi);
    assert(y < ro) by (nonlinear_arith)
        requires y * (ri + xi) <= ro * xi, ri > 0, xi > 0, ro > 0;
    assert(ri * y <= xi * (ro - y)) by (nonlinear_arith)
        requires y * (ri + xi) <= ro * xi;
    assert(y >= 0) by (nonlinear_arith)
        requires ro >= 0, xi >= 0, ri + xi > 0, y == ro * xi / (ri + xi);
    assert(ri * y / (ro - y) <= xi) by (nonlinear_arith)
        requires ri * y <= xi * (ro - y), ro - y > 0, xi >= 0;
    assert(ri * y / (ro - y) >= 0) by (nonlinear_arith)
        requires ri * y >= 0, ro - y > 0;
    assert(ri * y >= 0) by (nonlinear_arith)
        requires ri >= 0, y >= 0;
}


/// One unit of a fixed-point exchange rate (six fractional digits).
pub const RATE_SCALE: u64 = 1_000_000;

/// One unit of a fixed-point price (nine fractional digits, the canonical scale).
pub const PRICE_SCALE: u64 = 1_000_000_000;

/// The denominator of a fee in basis points.
pub const BASIS_POINTS: u64 = 10_000;

/// The real balances behind the pool: the settled quote balance net of the
/// reserved minimum (zero when below it), and the asset balance normalised to
/// the canonical scale.
pub open spec fn real_reserves_spec(
    pool_lamports: u64,
    rent_exempt_minimum: u64,
    pool_token_amount: u64,
    token_decimals: u8,
) -> Result<(u64, u64), LiquidityPoolError> {
    match normalize_spec(pool_token_amount, token_decimals) {
        Ok(real_tokens) => Ok(
            (
                if pool_lamports >= rent_exempt_minimum {
                    (pool_lamports - rent_exempt_minimum) as u64
                } else {
                    0u64
                },
                real_tokens,
            ),
        ),
        Err(e) => Err(e),
    }
}

pub fn get_real_reserves_from_accounts(
    pool_lamports: u64,
    rent_exempt_minimum: u64,
    pool_token_amount: u64,
    token_decimals: u8,
) -> (r: Result<(u64, u64), LiquidityPoolError>)
    ensures
        r == real_reserves_spec(pool_lamports, rent_exempt_minimum, pool_token_amount, token_decimals),
{
    let real_sol = if pool_lamports >= rent_exempt_minimum {
        pool_lamports - rent_exempt_minimum
    } else {
        0
    };
    let real_tokens = normalize_token_amount(pool_token_amount, token_decimals)?;
    Ok((real_sol, real_tokens))
}

/// The quote value of `token_amount` at a fixed-point `exchange_rate` (asset
/// units per quote unit, six fractional digits), the product taken at double
/// width; a zero rate or a result beyond 64 bits is `MathOverflow`.
pub open spec fn tokens_to_sol_spec(token_amount: u64, exchange_rate: u64) -> Result<u64, LiquidityPoolError> {
    mul_div_spec(token_amount, RATE_SCALE, exchange_rate)
}

/// The asset value of `sol_amount` at a fixed-point `exchange_rate`, the product
/// taken at double width; a zero rate or a result beyond 64 bits is
/// `MathOverflow`.
pub open spec fn sol_to_tokens_spec(sol_amount: u64, exchange_rate: u64) -> Result<u64, LiquidityPoolError> {
    if exchange_rate == 0 {
        Err(LiquidityPoolError::MathOverflow)
    } else {
        mul_div_spec(sol_amount, exchange_rate, RATE_SCALE)
    }
}

pub fn calculate_tokens_to_sol(token_amount: u64, exchange_rate: u64) -> (r: Result<u64, LiquidityPoolError>)
    ensures
        r == tokens_to_sol_spec(token_amount, exchange_rate),
{
    safe_mul_div(token_amount, RATE_SCALE, exchange_rate)
}

pub fn calculate_sol_to_tokens(sol_amount: u64, exchange_rate: u64) -> (r: Result<u64, LiquidityPoolError>)
    ensures
        r == sol_to_tokens_spec(sol_amount, exchange_rate),
{
    if exchange_rate == 0 {
        return Err(LiquidityPoolError::MathOverflow);
    }
    safe_mul_div(sol_amount, exchange_rate, RATE_SCALE)
}

/// The fee on `amount` at `fee_basis_points`, rounded down.
pub open spec fn fee_spec(amount: u64, fee_basis_points: u16) -> Result<u64, LiquidityPoolError> {
    if fee_basis_points == 0 {
        Ok(0)
    } else if amount * fee_basis_points > u64::MAX {
        Err(LiquidityPoolError::MathOverflow)
    } else {
        Ok((amount * fee_basis_points / (BASIS_POINTS as int)) as u64)
    }
}

pub fn calculate_fee(amount: u64, fee_basis_points: u16) -> (r: Result<u64, LiquidityPoolError>)
    ensures
        r == fee_spec(amount, fee_basis_points),
{
    if fee_basis_points == 0 {
        return Ok(0);
    }
    let scaled = safe_mul(amount, fee_basis_points as u64)?;
    Ok(scaled / BASIS_POINTS)
}

/// The advisory exchange rate derived from a pair of virtual reserves: asset
/// reserve per quote reserve with six fractional digits, the product taken at
/// double width and the result never below `MIN_EXCHANGE_RATE`; that minimum
/// where either reserve is zero.
pub open spec fn exchange_rate_spec(sol_reserve: u64, token_reserve: u64) -> Result<u64, LiquidityPoolError> {
    if sol_reserve == 0 || token_reserve == 0 {
        Ok(MIN_EXCHANGE_RATE)
    } else {
        match mul_div_spec(token_reserve, RATE_SCALE, sol_reserve) {
            Ok(rate) => Ok(
                if rate < MIN_EXCHANGE_RATE {
                    MIN_EXCHANGE_RATE
                } else {
                    rate
                },
            ),
            Err(e) => Err(e),
        }
    }
}

pub fn calculate_exchange_rate(sol_reserve: u64, token_reserve: u64) -> (r: Result<u64, LiquidityPoolError>)
    ensures
        r == exchange_rate_spec(sol_reserve, token_reserve),
        r is Ok ==> r->Ok_0 >= MIN_EXCHANGE_RATE,
{
    if sol_reserve == 0 || token_reserve == 0 {
        return Ok(MIN_EXCHANGE_RATE);
    }
    let rate = safe_mul_div(token_reserve, RATE_SCALE, sol_reserve)?;
    if rate < MIN_EXCHANGE_RATE {
        Ok(MIN_EXCHANGE_RATE)
    } else {
        Ok(rate)
    }
}

/// The price of the last trade, quote per asset with nine fractional digits:
/// zero when no asset moved, saturating at the largest value.
pub open spec fn trade_price_spec(sol_amount: u64, token_amount: u64) -> u64 {
    if token_amount == 0 {
        0
    } else {
        match mul_div_spec(sol_amount, PRICE_SCALE, token_amount) {
            Ok(p) => p,
            Err(_) => u64::MAX,
        }
    }
}

pub fn calculate_trade_price(sol_amount: u64, token_amount: u64) -> (r: u64)
    ensures
        r == trade_price_spec(sol_amount, token_amount),
{
    if token_amount == 0 {
        return 0;
    }
    match safe_mul_div(sol_amount, PRICE_SCALE, token_amount) {
        Ok(p) => p,
        Err(_) => u64::MAX,
    }
}

} // verus!
