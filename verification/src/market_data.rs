use crate::bonding_curve::{
    spec_market_cap_sol, spec_progress_den, spec_progress_num, BondingCurveAccount,
};
use crate::token_info::TokenInfo;
use vstd::prelude::*;

verus! {

/// Derived market view of one token: recomputed wholesale whenever new
/// curve data arrives, never patched incrementally.
#[derive(Debug)]
pub struct MarketData {
    pub token_info: TokenInfo,
    pub bonding_curve_data: BondingCurveAccount,
    /// Market capitalization in base units.
    pub current_market_cap_sol: u64,
    /// Unix time of the last recomputation, in seconds.
    pub last_updated: u64,
    /// Price per token in base units: market cap over total supply when
    /// the supply is positive, else 0.
    pub price_per_token_sol: u64,
    pub volume_24h: Option<u64>,
}

/// Price per token implied by a curve: market cap over total supply when
/// the supply is positive, else 0.
pub open spec fn spec_price_per_token(c: BondingCurveAccount) -> int {
    if c.token_total_supply > 0 {
        spec_market_cap_sol(c) / c.token_total_supply as int
    } else {
        0
    }
}

impl Clone for MarketData {
    /// Cloning keeps every field.
    fn clone(&self) -> (r: Self)
        ensures
            r == *self,
    {
        MarketData {
            token_info: self.token_info.clone(),
            bonding_curve_data: self.bonding_curve_data,
            current_market_cap_sol: self.current_market_cap_sol,
            last_updated: self.last_updated,
            price_per_token_sol: self.price_per_token_sol,
            volume_24h: self.volume_24h,
        }
    }
}

impl MarketData {
    /// Build the market view of `token_info` from curve data; `now_unix`
    /// is the caller's clock reading in Unix seconds.
    pub fn new(token_info: TokenInfo, bonding_curve_data: BondingCurveAccount, now_unix: u64) -> (r:
        MarketData)
        ensures
            r.token_info == token_info,
            r.bonding_curve_data == bonding_curve_data,
            r.current_market_cap_sol == spec_market_cap_sol(bonding_curve_data),
            r.price_per_token_sol == spec_price_per_token(bonding_curve_data),
            r.last_updated == now_unix,
            r.volume_24h is None,
    {
        let current_market_cap_sol = bonding_curve_data.get_market_cap_sol();
        let price_per_token_sol = if bonding_curve_data.token_total_supply > 0 {
            current_market_cap_sol / bonding_curve_data.token_total_supply
        } else {
            0
        };
        MarketData {
            token_info,
            bonding_curve_data,
            current_market_cap_sol,
            last_updated: now_unix,
            price_per_token_sol,
            volume_24h: None,
        }
    }

    /// Replace the curve data and recompute every derived field; the token
    /// and volume are untouched.
    pub fn update(&mut self, bonding_curve_data: BondingCurveAccount, now_unix: u64)
        ensures
            final(self).token_info == old(self).token_info,
            final(self).volume_24h == old(self).volume_24h,
            final(self).bonding_curve_data == bonding_curve_data,
            final(self).current_market_cap_sol == spec_market_cap_sol(bonding_curve_data),
            final(self).price_per_token_sol == spec_price_per_token(bonding_curve_data),
            final(self).last_updated == now_unix,
    {
        self.bonding_curve_data = bonding_curve_data;
        self.current_market_cap_sol = self.bonding_curve_data.get_market_cap_sol();
        self.price_per_token_sol = if self.bonding_curve_data.token_total_supply > 0 {
            self.current_market_cap_sol / self.bonding_curve_data.token_total_supply
        } else {
            0
        };
        self.last_updated = now_unix;
    }

    /// Progress of the underlying curve, as the exact percentage fraction
    /// `numerator / denominator`.
    pub fn curve_progress(&self) -> (r: (u128, u64))
        requires
            self.bonding_curve_data.token_total_supply > 0
                ==> self.bonding_curve_data.real_token_reserves
                <= self.bonding_curve_data.token_total_supply,
        ensures
            r.0 == spec_progress_num(self.bonding_curve_data),
            r.1 == spec_progress_den(self.bonding_curve_data),
    {
        self.bonding_curve_data.get_curve_progress()
    }

    /// True exactly when the market cap reaches `threshold_sol` base units.
    pub fn meets_threshold(&self, threshold_sol: u64) -> (r: bool)
        ensures
            r == (self.current_market_cap_sol >= threshold_sol),
    {
        self.current_market_cap_sol >= threshold_sol
    }

    /// Seconds since the last recomputation at clock reading `now_unix`;
    /// 0 when the clock reads earlier than that.
    pub fn age_seconds(&self, now_unix: u64) -> (r: u64)
        ensures
            r == if now_unix >= self.last_updated {
                now_unix - self.last_updated
            } else {
                0
            },
    {
        if now_unix >= self.last_updated {
            now_unix - self.last_updated
        } else {
            0
        }
    }

    /// True exactly when the view is older than `max_age_seconds` at clock
    /// reading `now_unix`.
    pub fn is_stale(&self, now_unix: u64, max_age_seconds: u64) -> (r: bool)
        ensures
            r == (if now_unix >= self.last_updated {
                now_unix - self.last_updated
            } else {
                0
            } > max_age_seconds),
    {
        self.age_seconds(now_unix) > max_age_seconds
    }
}

} // verus!
