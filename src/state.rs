use vstd::prelude::*;

use crate::math::{calculate_trade_price, trade_price_spec};

verus! {

/// The largest fee a pool may charge, in basis points (10%).
pub const MAX_FEE_BASIS_POINTS: u16 = 1000;

/// The smallest exchange rate a pool may hold.
pub const MIN_EXCHANGE_RATE: u64 = 1;

pub const MAX_EXCHANGE_RATE: u64 = 0xffff_ffff_ffff_ffff;

/// The smallest amount a swap may move.
pub const MIN_SWAP_AMOUNT: u64 = 1;

pub const DEX_NAME: &'static str = "Liquidity Pool";

pub const PROGRAM_NAME: &'static str = "Liquidity Pool";

pub const DEX_TYPE: &'static str = "AMM";

pub const POOL_TYPE: &'static str = "AMM";

pub const TRANSACTION_TYPE: &'static str = "swap";

pub const PROGRAM_VERSION: &'static str = "1.0.0";

/// The virtual quote reserve of a pool created without one.
pub const DEFAULT_VIRTUAL_SOL: u64 = 30_000_000_000;

/// The virtual asset reserve of a pool created without one.
pub const DEFAULT_VIRTUAL_TOKEN: u64 = 1_073_000_000_000_000;

/// The identity of an account or an asset: 32 bytes, compared as a whole.
#[derive(Debug, Clone, Copy)]
pub struct Pubkey {
    pub bytes: [u8; 32],
}

impl View for Pubkey {
    type V = Seq<u8>;

    open spec fn view(&self) -> Seq<u8> {
        self.bytes@
    }
}

impl PartialEq for Pubkey {
    fn eq(&self, o: &Pubkey) -> (r: bool) {
        let mut i: usize = 0;
        while i < 32
            invariant
                0 <= i <= 32,
                self@.len() == 32,
                o@.len() == 32,
                forall|j: int| 0 <= j < i ==> self@[j] == o@[j],
            decreases 32 - i,
        {
            if self.bytes[i] != o.bytes[i] {
                return false;
            }
            i = i + 1;
        }
        proof {
            assert(self@ =~= o@);
        }
        true
    }
}

impl vstd::std_specs::cmp::PartialEqSpecImpl for Pubkey {
    open spec fn obeys_eq_spec() -> bool {
        true
    }

    open spec fn eq_spec(&self, o: &Pubkey) -> bool {
        self@ == o@
    }
}

impl Pubkey {
    pub fn new(bytes: [u8; 32]) -> (r: Pubkey)
        ensures
            r@ == bytes@,
    {
        Pubkey { bytes }
    }
}

/// The name of the network this build talks to.
pub fn get_network_name() -> (r: String)
    ensures
        r@ == "localnet"@,
{
    "localnet".to_string()
}

/// The pool record: virtual reserves in canonical units, the advisory exchange
/// rate, the activity gate, the fee setting, the authority, and cumulative
/// trade statistics.
#[derive(Debug, Clone, Copy)]
pub struct LiquidityPool {
    pub authority: Pubkey,
    pub token_mint: Pubkey,
    /// Asset reserve per quote reserve, six fractional digits; advisory.
    pub exchange_rate: u64,
    /// The virtual quote reserve.
    pub sol_reserve: u64,
    /// The virtual asset reserve.
    pub token_reserve: u64,
    pub is_active: bool,
    pub created_at: i64,
    pub fee_basis_points: u16,
    pub bump: u8,
    pub total_volume_sol: u64,
    pub total_volume_token: u64,
    pub trade_count: u64,
    pub last_trade_timestamp: i64,
    /// Quote per asset of the last trade, nine fractional digits; advisory.
    pub current_price: u64,
}

/// `a + b`, or the largest value where the sum does not fit.
pub open spec fn saturating_sum(a: u64, b: u64) -> u64 {
    if a + b > u64::MAX {
        u64::MAX
    } else {
        (a + b) as u64
    }
}

impl LiquidityPool {
    /// The pool's own invariant: its fee is within the allowed maximum and its
    /// exchange rate is positive.
    pub open spec fn wf(&self) -> bool {
        self.fee_basis_points <= MAX_FEE_BASIS_POINTS && self.exchange_rate >= MIN_EXCHANGE_RATE
    }

    /// The record after a trade of `sol_amount` quote units against
    /// `token_amount` asset units at `timestamp` has been counted.
    pub open spec fn with_trade(self, sol_amount: u64, token_amount: u64, timestamp: i64) -> LiquidityPool {
        LiquidityPool {
            total_volume_sol: saturating_sum(self.total_volume_sol, sol_amount),
            total_volume_token: saturating_sum(self.total_volume_token, token_amount),
            trade_count: saturating_sum(self.trade_count, 1),
            last_trade_timestamp: timestamp,
            current_price: trade_price_spec(sol_amount, token_amount),
            ..self
        }
    }

    pub fn update_trade_stats(&mut self, sol_amount: u64, token_amount: u64, timestamp: i64)
        ensures
            *final(self) == old(self).with_trade(sol_amount, token_amount, timestamp),
    {
        self.total_volume_sol = self.total_volume_sol.saturating_add(sol_amount);
        self.total_volume_token = self.total_volume_token.saturating_add(token_amount);
        self.trade_count = self.trade_count.saturating_add(1);
        self.last_trade_timestamp = timestamp;
        self.current_price = calculate_trade_price(sol_amount, token_amount);
    }
}

} // verus!
