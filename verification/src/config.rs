use crate::error::SniperError;
use vstd::prelude::*;

verus! {

/// Configuration surface consumed by the core. The USD threshold is held
/// in cents so that the comparison against a converted market cap is
/// exact integer arithmetic.
#[derive(Debug)]
pub struct Config {
    /// Streaming endpoint.
    pub grpc_endpoint: String,
    /// Account-read and submission endpoint.
    pub rpc_endpoint: String,
    /// Market-cap threshold in USD cents.
    pub market_cap_threshold_usd_cents: u64,
    /// Slippage ceiling in basis points.
    pub max_slippage_bps: u64,
    /// Buy amount in base units.
    pub buy_amount_sol: u64,
    /// Priority fee in base units.
    pub priority_fee_sol: u64,
    /// Compute-unit limit for buy transactions.
    pub compute_unit_limit: u32,
}

/// True exactly when a configuration passes validation: a positive
/// threshold, slippage within 100%, a positive buy amount and a positive
/// priority fee.
pub open spec fn spec_config_valid(c: Config) -> bool {
    &&& c.market_cap_threshold_usd_cents > 0
    &&& c.max_slippage_bps <= 10000
    &&& c.buy_amount_sol > 0
    &&& c.priority_fee_sol > 0
}

impl Clone for Config {
    /// Cloning keeps every field.
    fn clone(&self) -> (r: Self)
        ensures
            r == *self,
    {
        Config {
            grpc_endpoint: self.grpc_endpoint.clone(),
            rpc_endpoint: self.rpc_endpoint.clone(),
            market_cap_threshold_usd_cents: self.market_cap_threshold_usd_cents,
            max_slippage_bps: self.max_slippage_bps,
            buy_amount_sol: self.buy_amount_sol,
            priority_fee_sol: self.priority_fee_sol,
            compute_unit_limit: self.compute_unit_limit,
        }
    }
}

impl Default for Config {
    /// Empty endpoints, an 8000 USD threshold, 5% slippage, a 0.05 SOL
    /// buy, a 0.005 SOL priority fee and a 200000 compute-unit limit.
    fn default() -> (r: Config)
        ensures
            r.grpc_endpoint@ == Seq::<char>::empty(),
            r.rpc_endpoint@ == Seq::<char>::empty(),
            r.market_cap_threshold_usd_cents == 800_000,
            r.max_slippage_bps == 500,
            r.buy_amount_sol == 50_000_000,
            r.priority_fee_sol == 5_000_000,
            r.compute_unit_limit == 200_000,
    {
        Config {
            grpc_endpoint: String::new(),
            rpc_endpoint: String::new(),
            market_cap_threshold_usd_cents: 800_000,
            max_slippage_bps: 500,
            buy_amount_sol: 50_000_000,
            priority_fee_sol: 5_000_000,
            compute_unit_limit: 200_000,
        }
    }
}

impl Config {
    /// Accept the configuration exactly when it is valid; each rejection
    /// names the offending setting.
    pub fn validate(&self) -> (r: Result<(), SniperError>)
        ensures
            r is Ok <==> spec_config_valid(*self),
            r matches Err(e) ==> e is InvalidConfig,
    {
        if self.market_cap_threshold_usd_cents == 0 {
            return Err(
                SniperError::InvalidConfig(
                    String::from_str("Market cap threshold must be positive"),
                ),
            );
        }
        if self.max_slippage_bps > 10000 {
            return Err(
                SniperError::InvalidConfig(String::from_str("Slippage cannot exceed 100%")),
            );
        }
        if self.buy_amount_sol == 0 {
            return Err(
                SniperError::InvalidConfig(String::from_str("Buy amount cannot be zero")),
            );
        }
        if self.priority_fee_sol == 0 {
            return Err(
                SniperError::InvalidConfig(String::from_str("Priority fee cannot be zero")),
            );
        }
        Ok(())
    }
}

} // verus!
