use crate::address::Address;
use crate::error::SniperError;
use vstd::prelude::*;

verus! {

/// Protocol-wide configuration account, fetched fresh at execution time.
/// Invariant owed by the chain: the fee is at most 10000 basis points.
#[derive(Debug, Clone, Copy)]
pub struct GlobalAccount {
    pub discriminator: u64,
    pub initialized: bool,
    pub authority: Address,
    pub fee_recipient: Address,
    pub initial_virtual_token_reserves: u64,
    pub initial_virtual_sol_reserves: u64,
    pub initial_real_token_reserves: u64,
    pub token_total_supply: u64,
    pub fee_basis_points: u64,
    pub withdraw_authority: Address,
    pub enable_migrate: bool,
    pub pool_migration_fee: u64,
    pub creator_fee_basis_points: u64,
    pub fee_recipients: [Address; 7],
    pub set_creator_authority: Address,
}

/// Initial virtual token reserves every new curve starts from.
pub open spec fn spec_initial_virtual_token_reserves() -> int {
    1_073_000_000_000_000
}

/// Initial virtual base-unit reserves every new curve starts from.
pub open spec fn spec_initial_virtual_sol_reserves() -> int {
    30_000_000_000
}

/// Total token supply every new curve starts from.
pub open spec fn spec_initial_token_total_supply() -> int {
    1_000_000_000_000_000
}

/// Tokens returned for `amount` base units against the account's initial
/// reserve constants, before a live curve account has materialized.
pub open spec fn spec_initial_buy_price(g: GlobalAccount, amount: u64) -> int {
    if amount == 0 {
        0
    } else {
        let n = g.initial_virtual_sol_reserves * g.initial_virtual_token_reserves;
        let i = g.initial_virtual_sol_reserves + amount;
        let r = n / i + 1;
        let s = g.initial_virtual_token_reserves - r;
        if s < g.initial_real_token_reserves {
            s
        } else {
            g.initial_real_token_reserves as int
        }
    }
}

impl GlobalAccount {
    /// Fee in base units for a trade of `trade_value`, at the account's
    /// basis-point rate.
    pub fn calculate_fee(&self, trade_value: u64) -> (r: u64)
        requires
            self.fee_basis_points <= 10000,
        ensures
            r == trade_value * self.fee_basis_points / 10000,
    {
        proof {
            assert((trade_value as int) * (self.fee_basis_points as int) <= (trade_value as int)
                * 10000) by (nonlinear_arith)
                requires
                    self.fee_basis_points <= 10000,
            ;
            assert((trade_value as int) * 10000 / 10000 == trade_value as int);
        }
        ((trade_value as u128) * (self.fee_basis_points as u128) / 10000) as u64
    }

    /// Market capitalization in base units of a token that still sits on
    /// the protocol's initial reserve constants.
    pub fn get_initial_market_cap_sol(&self) -> (r: u64)
        ensures
            r == spec_initial_token_total_supply() * spec_initial_virtual_sol_reserves()
                / spec_initial_virtual_token_reserves(),
    {
        let cap: u128 = (1_000_000_000_000_000u128 * 30_000_000_000u128)
            / 1_073_000_000_000_000u128;
        cap as u64
    }

    /// Tokens returned for `amount` base units against the initial reserve
    /// constants; 0 for a zero input, never more than the initial real
    /// token reserves.
    pub fn get_initial_buy_price(&self, amount: u64) -> (r: u64)
        requires
            amount > 0 ==> self.initial_virtual_token_reserves > 0,
        ensures
            r == spec_initial_buy_price(*self, amount),
            r <= self.initial_real_token_reserves || amount == 0,
            amount == 0 ==> r == 0,
    {
        if amount == 0 {
            return 0;
        }
        proof {
            crate::bonding_curve::lemma_u64_mul_fits_u128(
                self.initial_virtual_sol_reserves as int,
                self.initial_virtual_token_reserves as int,
            );
        }
        let n: u128 = (self.initial_virtual_sol_reserves as u128)
            * (self.initial_virtual_token_reserves as u128);
        let i: u128 = (self.initial_virtual_sol_reserves as u128) + (amount as u128);
        proof {
            assert(n < i * (self.initial_virtual_token_reserves as u128)) by (nonlinear_arith)
                requires
                    n == (self.initial_virtual_sol_reserves as int)
                        * (self.initial_virtual_token_reserves as int),
                    i == self.initial_virtual_sol_reserves + amount,
                    amount > 0,
                    self.initial_virtual_token_reserves > 0,
            ;
            assert(n / i < self.initial_virtual_token_reserves as u128) by (nonlinear_arith)
                requires
                    i > 0,
                    n < i * (self.initial_virtual_token_reserves as u128),
            ;
        }
        let r: u128 = n / i + 1;
        let s: u128 = (self.initial_virtual_token_reserves as u128) - r;
        if s < (self.initial_real_token_reserves as u128) {
            s as u64
        } else {
            self.initial_real_token_reserves
        }
    }
}

} // verus!
