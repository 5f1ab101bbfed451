use crate::address::Address;
use crate::bonding_curve::BondingCurveAccount;
use crate::market_data::MarketData;
use crate::token_info::TokenInfo;
use vstd::prelude::*;

verus! {

/// Domain events flowing from the stream and the executor into the
/// decision engine. Consumers must name every variant: no variant may be
/// dropped by a catch-all.
#[derive(Debug)]
pub enum SniperEvent {
    TokenCreated(TokenInfo),
    BondingCurveUpdated { bonding_curve: Address, data: BondingCurveAccount },
    MarketCapUpdated(MarketData),
    BuyTriggered { token_info: TokenInfo, market_cap: u64, buy_amount: u64 },
    BuyExecuted {
        token_info: TokenInfo,
        transaction_signature: String,
        amount_spent: u64,
        tokens_received: u64,
    },
    BuyFailed { token_info: TokenInfo, error: String, retry_count: u32 },
    ConnectionStatusChanged { connected: bool, endpoint: String },
    StatsUpdate {
        tokens_tracked: usize,
        successful_buys: usize,
        failed_buys: usize,
        uptime_seconds: u64,
    },
}

impl Clone for SniperEvent {
    /// Cloning keeps the variant and every field.
    fn clone(&self) -> (r: Self)
        ensures
            r == *self,
    {
        match self {
            SniperEvent::TokenCreated(t) => SniperEvent::TokenCreated(t.clone()),
            SniperEvent::BondingCurveUpdated { bonding_curve, data } => {
                SniperEvent::BondingCurveUpdated { bonding_curve: *bonding_curve, data: *data }
            },
            SniperEvent::MarketCapUpdated(m) => SniperEvent::MarketCapUpdated(m.clone()),
            SniperEvent::BuyTriggered { token_info, market_cap, buy_amount } => {
                SniperEvent::BuyTriggered {
                    token_info: token_info.clone(),
                    market_cap: *market_cap,
                    buy_amount: *buy_amount,
                }
            },
            SniperEvent::BuyExecuted {
                token_info,
                transaction_signature,
                amount_spent,
                tokens_received,
            } => {
                SniperEvent::BuyExecuted {
                    token_info: token_info.clone(),
                    transaction_signature: transaction_signature.clone(),
                    amount_spent: *amount_spent,
                    tokens_received: *tokens_received,
                }
            },
            SniperEvent::BuyFailed { token_info, error, retry_count } => {
                SniperEvent::BuyFailed {
                    token_info: token_info.clone(),
                    error: error.clone(),
                    retry_count: *retry_count,
                }
            },
            SniperEvent::ConnectionStatusChanged { connected, endpoint } => {
                SniperEvent::ConnectionStatusChanged {
                    connected: *connected,
                    endpoint: endpoint.clone(),
                }
            },
            SniperEvent::StatsUpdate {
                tokens_tracked,
                successful_buys,
                failed_buys,
                uptime_seconds,
            } => {
                SniperEvent::StatsUpdate {
                    tokens_tracked: *tokens_tracked,
                    successful_buys: *successful_buys,
                    failed_buys: *failed_buys,
                    uptime_seconds: *uptime_seconds,
                }
            },
        }
    }
}

impl SniperEvent {
    /// A fixed label for each event kind.
    pub fn event_type(&self) -> (r: &'static str)
        ensures
            self is TokenCreated ==> r@ == "token_created"@,
            self is BondingCurveUpdated ==> r@ == "bonding_curve_updated"@,
            self is MarketCapUpdated ==> r@ == "market_cap_updated"@,
            self is BuyTriggered ==> r@ == "buy_triggered"@,
            self is BuyExecuted ==> r@ == "buy_executed"@,
            self is BuyFailed ==> r@ == "buy_failed"@,
            self is ConnectionStatusChanged ==> r@ == "connection_status_changed"@,
            self is StatsUpdate ==> r@ == "stats_update"@,
    {
        match self {
            SniperEvent::TokenCreated(_) => "token_created",
            SniperEvent::BondingCurveUpdated { .. } => "bonding_curve_updated",
            SniperEvent::MarketCapUpdated(_) => "market_cap_updated",
            SniperEvent::BuyTriggered { .. } => "buy_triggered",
            SniperEvent::BuyExecuted { .. } => "buy_executed",
            SniperEvent::BuyFailed { .. } => "buy_failed",
            SniperEvent::ConnectionStatusChanged { .. } => "connection_status_changed",
            SniperEvent::StatsUpdate { .. } => "stats_update",
        }
    }

    /// True exactly for the events on the buy path.
    pub fn is_critical(&self) -> (r: bool)
        ensures
            r == (self is BuyTriggered || self is BuyExecuted || self is BuyFailed),
    {
        match self {
            SniperEvent::BuyTriggered { .. } => true,
            SniperEvent::BuyExecuted { .. } => true,
            SniperEvent::BuyFailed { .. } => true,
            SniperEvent::TokenCreated(_) => false,
            SniperEvent::BondingCurveUpdated { .. } => false,
            SniperEvent::MarketCapUpdated(_) => false,
            SniperEvent::ConnectionStatusChanged { .. } => false,
            SniperEvent::StatsUpdate { .. } => false,
        }
    }
}

} // verus!
