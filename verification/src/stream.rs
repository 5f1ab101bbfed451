use crate::constants::{CURVE_ACCOUNT_SIZE, PUMPFUN_PROGRAM_ID};
use vstd::prelude::*;

verus! {

/// What the stream subscription asks of the chain: bonding-curve accounts
/// of the owning program filtered by their exact byte size, and the
/// program's transactions with votes and failures excluded, all at the
/// weakest commitment level for minimum latency.
#[derive(Debug)]
pub struct SubscriptionSpec {
    /// Owning program whose accounts are watched, in base58.
    pub account_owner_program: String,
    /// Exact account size filter, the bonding-curve layout's size.
    pub account_data_size: u64,
    /// Program whose transactions are included, in base58.
    pub transaction_program: String,
    /// Vote transactions are excluded.
    pub exclude_votes: bool,
    /// Failed transactions are excluded.
    pub exclude_failed: bool,
    /// The weakest ("processed") commitment level is requested.
    pub commitment_processed: bool,
}

/// The decision-level face of the stream client: it owns the subscription
/// shape; the transport loop around it performs the connecting, reading
/// and back-off.
#[derive(Debug)]
pub struct StreamClient {
    /// Streaming endpoint the client connects to.
    pub grpc_endpoint: String,
}

impl StreamClient {
    /// A client for the given endpoint.
    pub fn new(grpc_endpoint: String) -> (r: StreamClient)
        ensures
            r.grpc_endpoint@ == grpc_endpoint@,
    {
        StreamClient { grpc_endpoint }
    }

    /// The one subscription request the stream client sends.
    pub fn create_subscription_request(&self) -> (r: SubscriptionSpec)
        ensures
            r.account_owner_program@ == PUMPFUN_PROGRAM_ID@,
            r.account_data_size == CURVE_ACCOUNT_SIZE,
            r.transaction_program@ == PUMPFUN_PROGRAM_ID@,
            r.exclude_votes,
            r.exclude_failed,
            r.commitment_processed,
    {
        SubscriptionSpec {
            account_owner_program: String::from_str(PUMPFUN_PROGRAM_ID),
            account_data_size: CURVE_ACCOUNT_SIZE,
            transaction_program: String::from_str(PUMPFUN_PROGRAM_ID),
            exclude_votes: true,
            exclude_failed: true,
            commitment_processed: true,
        }
    }
}

} // verus!
