use crate::address::Address;
use crate::error::SniperError;
use vstd::prelude::*;

verus! {

/// Point-in-time state of an on-chain bonding curve account.
/// Replaced wholesale on every update; never mutated in place.
#[derive(Debug, Clone, Copy, PartialEq, Eq, Structural)]
pub struct BondingCurveAccount {
    pub discriminator: u64,
    pub virtual_token_reserves: u64,
    pub virtual_sol_reserves: u64,
    pub real_token_reserves: u64,
    pub real_sol_reserves: u64,
    pub token_total_supply: u64,
    pub complete: bool,
    pub creator: Address,
}

/// Market capitalization in base units:
/// `floor(total_supply * virtual_sol / virtual_token)`, truncated to 64 bits
/// as the on-chain math does, and 0 when the virtual token reserves are 0.
pub open spec fn spec_market_cap_sol(c: BondingCurveAccount) -> int {
    if c.virtual_token_reserves == 0 {
        0
    } else {
        (c.token_total_supply * c.virtual_sol_reserves / c.virtual_token_reserves as int)
            % 0x10000000000000000
    }
}

/// Tokens returned for `sol_amount` base units on curve `c`:
/// the constant-product inverse with a `+ 1` rounding bias toward the pool,
/// capped by the real token reserves.
pub open spec fn spec_buy_price(c: BondingCurveAccount, sol_amount: u64) -> int {
    if sol_amount == 0 {
        0
    } else {
        let n = c.virtual_sol_reserves * c.virtual_token_reserves;
        let i = c.virtual_sol_reserves + sol_amount;
        let r = n / i + 1;
        let s = c.virtual_token_reserves - r;
        if s < c.real_token_reserves {
            s
        } else {
            c.real_token_reserves as int
        }
    }
}

/// Base units returned for selling `token_amount` tokens on curve `c`,
/// after the basis-point fee.
pub open spec fn spec_sell_price(c: BondingCurveAccount, token_amount: u64, fee_bps: u64) -> int {
    if token_amount == 0 {
        0
    } else {
        let n = token_amount * c.virtual_sol_reserves / (c.virtual_token_reserves
            + token_amount) as int;
        n - n * fee_bps / 10000
    }
}

/// Numerator of the curve-progress percentage, an exact fraction.
pub open spec fn spec_progress_num(c: BondingCurveAccount) -> int {
    if c.token_total_supply == 0 {
        0
    } else {
        (c.token_total_supply - c.real_token_reserves) * 100
    }
}

/// Denominator of the curve-progress percentage, an exact fraction.
pub open spec fn spec_progress_den(c: BondingCurveAccount) -> int {
    if c.token_total_supply == 0 {
        1
    } else {
        c.token_total_supply as int
    }
}

/// The product of two 64-bit values fits in 128 bits.
pub(crate) proof fn lemma_u64_mul_fits_u128(a: int, b: int)
    requires
        0 <= a <= 0xffffffffffffffff,
        0 <= b <= 0xffffffffffffffff,
    ensures
        a * b < 0x100000000000000000000000000000000,
{
    assert(a * b <= 0xffffffffffffffff * 0xffffffffffffffff) by (nonlinear_arith)
        requires
            0 <= a <= 0xffffffffffffffff,
            0 <= b <= 0xffffffffffffffff,
    ;
}

impl BondingCurveAccount {
    /// Market capitalization in base units; 0 when the virtual token
    /// reserves are 0, so no division by zero can occur.
    pub fn get_market_cap_sol(&self) -> (r: u64)
        ensures
            r == spec_market_cap_sol(*self),
            self.virtual_token_reserves == 0 ==> r == 0,
    {
        if self.virtual_token_reserves == 0 {
            return 0;
        }
        proof {
            lemma_u64_mul_fits_u128(
                self.token_total_supply as int,
                self.virtual_sol_reserves as int,
            );
        }
        let q: u128 = (self.token_total_supply as u128) * (self.virtual_sol_reserves as u128)
            / (self.virtual_token_reserves as u128);
        (q % 0x10000000000000000) as u64
    }

    /// Tokens received for `sol_amount` base units.
    /// Fails exactly when the curve is complete; returns 0 for a zero input;
    /// the result never exceeds the real token reserves.
    pub fn get_buy_price(&self, sol_amount: u64) -> (r: Result<u64, SniperError>)
        requires
            !self.complete && sol_amount > 0 ==> self.virtual_token_reserves > 0,
        ensures
            self.complete <==> r == Err::<u64, SniperError>(SniperError::BondingCurveComplete),
            !self.complete ==> (r matches Ok(v) && v == spec_buy_price(*self, sol_amount)),
            !self.complete ==> (r matches Ok(v) && v <= self.real_token_reserves),
            !self.complete && sol_amount == 0 ==> r == Ok::<u64, SniperError>(0),
    {
        if self.complete {
            return Err(SniperError::BondingCurveComplete);
        }
        if sol_amount == 0 {
            return Ok(0);
        }
        proof {
            lemma_u64_mul_fits_u128(
                self.virtual_sol_reserves as int,
                self.virtual_token_reserves as int,
            );
        }
        let n: u128 = (self.virtual_sol_reserves as u128) * (self.virtual_token_reserves as u128);
        let i: u128 = (self.virtual_sol_reserves as u128) + (sol_amount as u128);
        proof {
            assert(n < i * (self.virtual_token_reserves as u128)) by (nonlinear_arith)
                requires
                    n == (self.virtual_sol_reserves as int) * (self.virtual_token_reserves as int),
                    i == self.virtual_sol_reserves + sol_amount,
                    sol_amount > 0,
                    self.virtual_token_reserves > 0,
            ;
            assert(n / i < self.virtual_token_reserves as u128) by (nonlinear_arith)
                requires
                    i > 0,
                    n < i * (self.virtual_token_reserves as u128),
            ;
        }
        let r: u128 = n / i + 1;
        let s: u128 = (self.virtual_token_reserves as u128) - r;
        let token_amount: u64 = s as u64;
        Ok(
            if token_amount < self.real_token_reserves {
                token_amount
            } else {
                self.real_token_reserves
            },
        )
    }

    /// Base units received for selling `token_amount` tokens at the given
    /// basis-point fee. Fails exactly when the curve is complete; a zero
    /// input returns 0 whatever the fee.
    pub fn get_sell_price(&self, token_amount: u64, fee_basis_points: u64) -> (r: Result<
        u64,
        SniperError,
    >)
        requires
            !self.complete && token_amount > 0 ==> fee_basis_points <= 10000,
        ensures
            self.complete <==> r == Err::<u64, SniperError>(SniperError::BondingCurveComplete),
            !self.complete ==> (r matches Ok(v) && v == spec_sell_price(
                *self,
                token_amount,
                fee_basis_points,
            )),
            !self.complete && token_amount == 0 ==> r == Ok::<u64, SniperError>(0),
    {
        if self.complete {
            return Err(SniperError::BondingCurveComplete);
        }
        if token_amount == 0 {
            return Ok(0);
        }
        let denom: u128 = (self.virtual_token_reserves as u128) + (token_amount as u128);
        proof {
            lemma_u64_mul_fits_u128(token_amount as int, self.virtual_sol_reserves as int);
        }
        let n: u128 = (token_amount as u128) * (self.virtual_sol_reserves as u128) / denom;
        proof {
            assert(n <= self.virtual_sol_reserves as u128) by (nonlinear_arith)
                requires
                    denom > 0,
                    token_amount as u128 <= denom,
                    n == (token_amount as int) * (self.virtual_sol_reserves as int) / (denom as int),
            ;
        }
        proof {
            lemma_u64_mul_fits_u128(n as int, fee_basis_points as int);
        }
        let fee: u128 = n * (fee_basis_points as u128) / 10000;
        proof {
            assert(fee <= n) by (nonlinear_arith)
                requires
                    fee == (n as int) * (fee_basis_points as int) / 10000,
                    fee_basis_points <= 10000,
            ;
        }
        Ok((n - fee) as u64)
    }

    /// True exactly when the curve is not complete and the real base-unit
    /// reserves cover `sol_amount`.
    pub fn has_sufficient_liquidity(&self, sol_amount: u64) -> (r: bool)
        ensures
            r == (!self.complete && sol_amount <= self.real_sol_reserves),
    {
        !self.complete && sol_amount <= self.real_sol_reserves
    }

    /// Progress of the curve toward graduation, as the exact percentage
    /// fraction `numerator / denominator`; 0 when the total supply is 0.
    pub fn get_curve_progress(&self) -> (r: (u128, u64))
        requires
            self.token_total_supply > 0 ==> self.real_token_reserves <= self.token_total_supply,
        ensures
            r.0 == spec_progress_num(*self),
            r.1 == spec_progress_den(*self),
            self.token_total_supply == 0 ==> r.0 == 0,
    {
        if self.token_total_supply == 0 {
            return (0, 1);
        }
        let tokens_sold: u64 = self.token_total_supply - self.real_token_reserves;
        ((tokens_sold as u128) * 100, self.token_total_supply)
    }
}

/// With the total supply held fixed and positive, the progress fraction
/// strictly increases as the real token reserves decrease: the denominator
/// is unchanged and the numerator strictly grows.
pub proof fn lemma_curve_progress_strictly_increases(
    before: BondingCurveAccount,
    after: BondingCurveAccount,
)
    requires
        before.token_total_supply == after.token_total_supply,
        before.token_total_supply > 0,
        before.real_token_reserves <= before.token_total_supply,
        after.real_token_reserves < before.real_token_reserves,
    ensures
        spec_progress_den(after) == spec_progress_den(before),
        spec_progress_num(after) > spec_progress_num(before),
{
}

} // verus!
