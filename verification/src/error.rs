use vstd::prelude::*;

verus! {

/// Error taxonomy of the sniper library.
#[derive(Debug)]
pub enum SniperError {
    /// The streaming transport failed; the caller decides whether to restart.
    GrpcConnectionFailed(String),
    /// A chain update payload could not be parsed.
    TransactionParseError(String),
    /// The bonding curve has graduated; price functions are terminal.
    BondingCurveComplete,
    /// The wallet cannot cover the requested trade.
    InsufficientFunds,
    /// A submitted transaction was rejected or could not be sent.
    TransactionFailed(String),
    /// An account read failed after the retry schedule was exhausted.
    RpcError(String),
    /// An account or instruction payload did not match its expected layout.
    SerializationError(String),
    /// The configuration is rejected before any component runs.
    InvalidConfig(String),
    /// A tracked token could not be found.
    TokenNotFound(String),
    /// The market capitalization could not be computed.
    MarketCapCalculationFailed,
    /// The trade cost moved beyond the configured tolerance.
    SlippageExceeded,
}

impl Clone for SniperError {
    /// Cloning keeps the variant and its message.
    fn clone(&self) -> (r: Self)
        ensures
            r == *self,
    {
        match self {
            SniperError::GrpcConnectionFailed(m) => SniperError::GrpcConnectionFailed(m.clone()),
            SniperError::TransactionParseError(m) => SniperError::TransactionParseError(m.clone()),
            SniperError::BondingCurveComplete => SniperError::BondingCurveComplete,
            SniperError::InsufficientFunds => SniperError::InsufficientFunds,
            SniperError::TransactionFailed(m) => SniperError::TransactionFailed(m.clone()),
            SniperError::RpcError(m) => SniperError::RpcError(m.clone()),
            SniperError::SerializationError(m) => SniperError::SerializationError(m.clone()),
            SniperError::InvalidConfig(m) => SniperError::InvalidConfig(m.clone()),
            SniperError::TokenNotFound(m) => SniperError::TokenNotFound(m.clone()),
            SniperError::MarketCapCalculationFailed => SniperError::MarketCapCalculationFailed,
            SniperError::SlippageExceeded => SniperError::SlippageExceeded,
        }
    }
}

} // verus!
