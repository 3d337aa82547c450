use liquidity_pool::admin::{close_pool, create_pool, toggle_pool, update_exchange_rate};
use liquidity_pool::error::LiquidityPoolError;
use liquidity_pool::events::TradeDirection;
use liquidity_pool::liquidity::{add_liquidity, remove_liquidity};
use liquidity_pool::query::{calculate_swap, get_pool_info};
use liquidity_pool::state::{get_network_name, LiquidityPool, Pubkey};
use liquidity_pool::swap::{swap_sol_for_tokens, swap_tokens_for_sol, AUTO_VALUE};
use liquidity_pool::validation::{
    check_authority, validate_fee, validate_liquidity_params, validate_reserves,
    validate_swap_params,
};

const RENT: u64 = 890_880;

fn key(b: u8) -> Pubkey {
    Pubkey::new([b; 32])
}

fn pool_with(sol: u64, token: u64) -> LiquidityPool {
    create_pool(key(1), key(9), Some(token), Some(sol), 1_700_000_000, 254).unwrap().0
}

#[test]
fn create_with_defaults() {
    let (pool, event) = create_pool(key(1), key(9), None, None, 1_700_000_000, 254).unwrap();
    assert_eq!(pool.sol_reserve, 30_000_000_000);
    assert_eq!(pool.token_reserve, 1_073_000_000_000_000);
    assert_eq!(pool.exchange_rate, 35_766_666_666);
    assert!(pool.is_active);
    assert_eq!(pool.fee_basis_points, 0);
    assert_eq!(pool.trade_count, 0);
    assert_eq!(pool.created_at, 1_700_000_000);
    assert_eq!(pool.current_price, 27_958);
    assert!(pool.authority == key(1));
    assert_eq!(event.initial_exchange_rate, 35_766_666_666);
    assert_eq!(event.initial_sol, 30_000_000_000);
    assert_eq!(event.initial_tokens, 1_073_000_000_000_000);
}

#[test]
fn create_with_explicit_reserves() {
    let pool = pool_with(1_000_000, 2_000_000);
    assert_eq!(pool.sol_reserve, 1_000_000);
    assert_eq!(pool.token_reserve, 2_000_000);
    assert_eq!(pool.exchange_rate, 2_000_000);
    let zero = pool_with(0, 5);
    assert_eq!(zero.exchange_rate, 1);
    let tiny = pool_with(2_000_000, 1);
    assert_eq!(tiny.exchange_rate, 1);
    assert_eq!(
        create_pool(key(1), key(9), Some(u64::MAX), Some(1), 0, 0).map(|p| p.0.sol_reserve),
        Err(LiquidityPoolError::MathOverflow)
    );
}

#[test]
fn toggle_twice_restores() {
    let mut pool = pool_with(1_000_000, 1_000_000);
    let event = toggle_pool(&mut pool, &key(1)).unwrap();
    assert!(!event.is_active);
    assert!(!pool.is_active);
    toggle_pool(&mut pool, &key(1)).unwrap();
    assert!(pool.is_active);
}

#[test]
fn toggle_requires_authority() {
    let mut pool = pool_with(1_000_000, 1_000_000);
    assert_eq!(
        toggle_pool(&mut pool, &key(2)).map(|e| e.is_active),
        Err(LiquidityPoolError::UnauthorizedAccess)
    );
    assert!(pool.is_active);
}

#[test]
fn update_rate_by_authority() {
    let mut pool = pool_with(1_000_000, 1_000_000);
    let event = update_exchange_rate(&mut pool, &key(1), 42).unwrap();
    assert_eq!(event.old_rate, 1_000_000);
    assert_eq!(event.new_rate, 42);
    assert_eq!(pool.exchange_rate, 42);
    assert_eq!(
        update_exchange_rate(&mut pool, &key(1), 0).map(|e| e.new_rate),
        Err(LiquidityPoolError::InvalidExchangeRate)
    );
    assert_eq!(
        update_exchange_rate(&mut pool, &key(3), 7).map(|e| e.new_rate),
        Err(LiquidityPoolError::UnauthorizedAccess)
    );
    assert_eq!(pool.exchange_rate, 42);
}

#[test]
fn close_reports_final_reserves() {
    let pool = pool_with(1_000_000, 3_000_000);
    let event = close_pool(&pool, &key(1)).unwrap();
    assert_eq!(event.final_sol_reserve, 1_000_000);
    assert_eq!(event.final_token_reserve, 3_000_000);
    assert_eq!(
        close_pool(&pool, &key(4)).map(|e| e.final_sol_reserve),
        Err(LiquidityPoolError::UnauthorizedAccess)
    );
}

#[test]
fn add_liquidity_replaces_virtual_reserves() {
    let (mut pool, _) = create_pool(key(1), key(9), None, None, 0, 0).unwrap();
    toggle_pool(&mut pool, &key(1)).unwrap();
    let event = add_liquidity(&mut pool, &key(1), 1_000_000_000, 1_000_000, 6, 1_000_000, 1_000_000_000)
        .unwrap();
    assert_eq!(event.sol_amount, 1_000_000_000);
    assert_eq!(event.token_amount, 1_000_000);
    assert_eq!(pool.sol_reserve, 29_000_000_000);
    assert_eq!(pool.token_reserve, 1_072_999_000_000_000);
    assert_eq!(pool.exchange_rate, 36_999_965_517);
    assert!(pool.is_active);
}

#[test]
fn add_liquidity_errors() {
    let mut pool = pool_with(1_000, 1_000);
    let before = pool;
    let r = |p: &mut LiquidityPool, caller: u8, sol: u64, tok: u64, dec: u8, bal: u64, lam: u64| {
        add_liquidity(p, &key(caller), sol, tok, dec, bal, lam).map(|e| e.sol_amount)
    };
    assert_eq!(r(&mut pool, 2, 1, 1, 9, 10, 10), Err(LiquidityPoolError::UnauthorizedAccess));
    assert_eq!(r(&mut pool, 1, 0, 0, 9, 10, 10), Err(LiquidityPoolError::InvalidReserves));
    assert_eq!(r(&mut pool, 1, 1, 1, 19, 10, 10), Err(LiquidityPoolError::InvalidSwapParams));
    assert_eq!(r(&mut pool, 1, 0, u64::MAX, 0, u64::MAX, 10), Err(LiquidityPoolError::MathOverflow));
    assert_eq!(r(&mut pool, 1, 0, 5, 9, 4, 10), Err(LiquidityPoolError::InsufficientLiquidity));
    assert_eq!(r(&mut pool, 1, 5, 0, 9, 10, 4), Err(LiquidityPoolError::InsufficientLiquidity));
    assert_eq!(r(&mut pool, 1, 1_001, 0, 9, 10, 5_000), Err(LiquidityPoolError::InsufficientLiquidity));
    assert_eq!(r(&mut pool, 1, 0, 1_001, 9, 5_000, 10), Err(LiquidityPoolError::InsufficientLiquidity));
    assert_eq!(pool.sol_reserve, before.sol_reserve);
    assert_eq!(pool.token_reserve, before.token_reserve);
    assert_eq!(r(&mut pool, 1, 1_000, 0, 9, 0, 1_000), Ok(1_000));
    assert_eq!(pool.sol_reserve, 0);
    assert_eq!(pool.exchange_rate, 1);
}

#[test]
fn remove_liquidity_drains() {
    let mut pool = pool_with(1_000_000, 2_000_000);
    let event = remove_liquidity(&mut pool, &key(1), 9, 5_000_000, 700).unwrap();
    assert_eq!(event.sol_amount, 1_000_000);
    assert_eq!(event.token_amount, 700);
    assert_eq!(pool.sol_reserve, 0);
    assert_eq!(pool.token_reserve, 0);
    assert!(!pool.is_active);
}

#[test]
fn remove_liquidity_twice() {
    let mut pool = pool_with(1_000_000, 2_000_000);
    remove_liquidity(&mut pool, &key(1), 9, 5_000_000, 700).unwrap();
    // Everything has been withdrawn: the second drain moves nothing.
    let second = remove_liquidity(&mut pool, &key(1), 9, RENT, 0).unwrap();
    assert_eq!(second.sol_amount, 0);
    assert_eq!(second.token_amount, 0);
    assert_eq!(pool.sol_reserve, 0);
    assert_eq!(pool.token_reserve, 0);
    assert!(!pool.is_active);
}

#[test]
fn remove_liquidity_errors() {
    let mut pool = pool_with(1_000_000, 2_000_000);
    let r = |p: &mut LiquidityPool, caller: u8, dec: u8, lam: u64, bal: u64| {
        remove_liquidity(p, &key(caller), dec, lam, bal).map(|e| e.sol_amount)
    };
    assert_eq!(r(&mut pool, 2, 9, 5_000_000, 0), Err(LiquidityPoolError::UnauthorizedAccess));
    assert_eq!(r(&mut pool, 1, 19, 5_000_000, 0), Err(LiquidityPoolError::InvalidSwapParams));
    assert_eq!(r(&mut pool, 1, 9, 999_999, 0), Err(LiquidityPoolError::InsufficientLiquidity));
    assert!(pool.is_active);
    assert_eq!(pool.sol_reserve, 1_000_000);
}

#[test]
fn sell_tokens_for_sol() {
    let mut pool = pool_with(1_000_000, 1_000_000);
    let event = swap_tokens_for_sol(&mut pool, &key(7), 1_000, AUTO_VALUE, 9, RENT + 2_000, RENT, 0, 55)
        .unwrap();
    assert_eq!(event.trade_direction, TradeDirection::Sell);
    assert_eq!(event.sol_amount, 1_000);
    assert_eq!(event.token_amount, 1_000);
    assert_eq!(event.exchange_rate, 1_000_000_000);
    assert_eq!(event.timestamp, 55);
    assert_eq!(event.fee_amount, 0);
    assert!(event.trader == key(7));
    assert_eq!(pool.token_reserve, 1_001_000);
    assert_eq!(pool.sol_reserve, 1_000_000);
    assert_eq!(pool.total_volume_sol, 1_000);
    assert_eq!(pool.total_volume_token, 1_000);
    assert_eq!(pool.trade_count, 1);
    assert_eq!(pool.last_trade_timestamp, 55);
    assert_eq!(pool.current_price, 1_000_000_000);
}

#[test]
fn sell_with_six_decimal_asset() {
    let mut pool = pool_with(1_000_000, 1_000_000);
    let event = swap_tokens_for_sol(&mut pool, &key(7), 1, AUTO_VALUE, 6, RENT + 2_000, RENT, 0, 1)
        .unwrap();
    assert_eq!(event.sol_amount, 1_000);
    assert_eq!(event.token_amount, 1);
    assert_eq!(pool.token_reserve, 1_001_000);
    assert_eq!(pool.total_volume_token, 1);
}

#[test]
fn sell_errors() {
    let mut pool = pool_with(1_000_000, 1_000_000);
    let r = |p: &mut LiquidityPool, amount: u64, out: u64, dec: u8, lam: u64| {
        swap_tokens_for_sol(p, &key(7), amount, out, dec, lam, RENT, 0, 0).map(|e| e.sol_amount)
    };
    assert_eq!(r(&mut pool, 1_000, AUTO_VALUE, 19, RENT + 2_000), Err(LiquidityPoolError::InvalidSwapParams));
    assert_eq!(r(&mut pool, 1_000, 5, 9, RENT + 2_000), Err(LiquidityPoolError::InvalidSwapParams));
    assert_eq!(r(&mut pool, AUTO_VALUE, AUTO_VALUE, 9, RENT + 2_000), Err(LiquidityPoolError::InvalidSwapParams));
    assert_eq!(r(&mut pool, 0, AUTO_VALUE, 9, RENT + 2_000), Err(LiquidityPoolError::InvalidSwapAmount));
    assert_eq!(r(&mut pool, 1, AUTO_VALUE, 12, RENT + 2_000), Err(LiquidityPoolError::InvalidSwapAmount));
    assert_eq!(r(&mut pool, 1_000, AUTO_VALUE, 9, RENT + 10), Err(LiquidityPoolError::InsufficientLiquidity));
    assert_eq!(pool.trade_count, 0);
    toggle_pool(&mut pool, &key(1)).unwrap();
    assert_eq!(r(&mut pool, 1_000, AUTO_VALUE, 9, RENT + 2_000), Err(LiquidityPoolError::PoolInactive));
}

#[test]
fn buy_tokens_with_sol() {
    let mut pool = pool_with(1_000_000, 1_000_000);
    let event = swap_sol_for_tokens(&mut pool, &key(7), AUTO_VALUE, 1_000, 9, RENT, RENT, 5_000, 77)
        .unwrap();
    assert_eq!(event.trade_direction, TradeDirection::Buy);
    assert_eq!(event.sol_amount, 996);
    assert_eq!(event.token_amount, 1_000);
    assert_eq!(event.exchange_rate, 996_000_000);
    assert_eq!(pool.sol_reserve, 1_000_996);
    assert_eq!(pool.token_reserve, 1_000_000);
    assert_eq!(pool.trade_count, 1);
    assert_eq!(pool.current_price, 996_000_000);
}

#[test]
fn buy_errors() {
    let mut pool = pool_with(1_000_000, 1_000_000);
    let r = |p: &mut LiquidityPool, sol: u64, out: u64, bal: u64| {
        swap_sol_for_tokens(p, &key(7), sol, out, 9, RENT, RENT, bal, 0).map(|e| e.sol_amount)
    };
    assert_eq!(r(&mut pool, 5, 1_000, 5_000), Err(LiquidityPoolError::InvalidSwapParams));
    assert_eq!(r(&mut pool, AUTO_VALUE, AUTO_VALUE, 5_000), Err(LiquidityPoolError::InvalidSwapParams));
    assert_eq!(r(&mut pool, AUTO_VALUE, 0, 5_000), Err(LiquidityPoolError::InvalidSwapAmount));
    assert_eq!(r(&mut pool, AUTO_VALUE, 1_000, 999), Err(LiquidityPoolError::InsufficientLiquidity));
    assert_eq!(r(&mut pool, AUTO_VALUE, 1_005_000, 5_000), Err(LiquidityPoolError::InsufficientLiquidity));
    assert_eq!(r(&mut pool, AUTO_VALUE, 1, 5_000), Err(LiquidityPoolError::InvalidSwapAmount));
    assert_eq!(pool.sol_reserve, 1_000_000);
    let mut empty = pool_with(0, 0);
    assert_eq!(r(&mut empty, AUTO_VALUE, 1, 0), Err(LiquidityPoolError::InsufficientLiquidity));
}

#[test]
fn operation_sequence_keeps_reserves_in_range() {
    let mut pool = pool_with(1_000_000, 1_000_000);
    swap_tokens_for_sol(&mut pool, &key(7), 1_000, AUTO_VALUE, 9, RENT + 2_000, RENT, 0, 1).unwrap();
    swap_sol_for_tokens(&mut pool, &key(7), AUTO_VALUE, 500, 9, RENT + 1_000, RENT, 1_000, 2).unwrap();
    add_liquidity(&mut pool, &key(1), 1_000, 1_000, 9, 1_000, 1_000).unwrap();
    let sold = swap_tokens_for_sol(&mut pool, &key(7), u64::MAX - 1, AUTO_VALUE, 9, RENT + 2_000, RENT, 0, 3);
    assert_eq!(sold.map(|e| e.sol_amount), Err(LiquidityPoolError::MathOverflow));
    remove_liquidity(&mut pool, &key(1), 9, u64::MAX, 1_000).unwrap();
    assert_eq!(pool.sol_reserve, 0);
    assert_eq!(pool.token_reserve, 0);
    assert_eq!(pool.trade_count, 2);
}

#[test]
fn query_projections() {
    let pool = pool_with(1_000_000, 2_000_000);
    let info = get_pool_info(&pool);
    assert_eq!(info.exchange_rate, 2_000_000);
    assert_eq!(info.sol_reserve, 1_000_000);
    assert!(info.is_active);
    assert_eq!(calculate_swap(&pool, 4_000_000, true), Ok(2_000_000));
    assert_eq!(calculate_swap(&pool, 3_000_000, false), Ok(6_000_000));
    assert_eq!(get_network_name(), "localnet");
}

#[test]
fn validation_rules() {
    assert_eq!(check_authority(&key(1), &key(1)), Ok(()));
    assert_eq!(check_authority(&key(1), &key(2)), Err(LiquidityPoolError::UnauthorizedAccess));
    assert_eq!(validate_swap_params(0, 10), Err(LiquidityPoolError::InvalidSwapAmount));
    assert_eq!(validate_swap_params(11, 10), Err(LiquidityPoolError::InsufficientLiquidity));
    assert_eq!(validate_swap_params(10, 10), Ok(()));
    assert_eq!(validate_fee(1_000), Ok(()));
    assert_eq!(validate_fee(1_001), Err(LiquidityPoolError::FeeExceedsMaximum));
    assert_eq!(validate_reserves(0, 0), Err(LiquidityPoolError::InvalidReserves));
    assert_eq!(validate_reserves(0, 1), Ok(()));
    assert_eq!(validate_liquidity_params(0, 0), Err(LiquidityPoolError::InvalidReserves));
    assert_eq!(validate_liquidity_params(1, 0), Ok(()));
    assert_eq!(LiquidityPoolError::MathOverflow.message(), "Mathematical overflow");
}
