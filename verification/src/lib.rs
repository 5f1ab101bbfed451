//! Core library of a bonding-curve token sniper: deterministic address
//! derivation, bonding-curve economics, payload codecs, the creation-event
//! parser, the buy-decision state machine, and the transaction plan builder.

pub mod address;
pub mod bonding_curve;
pub mod codec;
pub mod config;
pub mod constants;
pub mod error;
pub mod events;
pub mod global;
pub mod instructions;
pub mod market_data;
pub mod parser;
pub mod pda;
pub mod sniper;
pub mod stream;
pub mod token_info;
pub mod transaction;
