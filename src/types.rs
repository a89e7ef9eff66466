//! The entities that relay responses are normalised into.
use vstd::prelude::*;

pub use crate::query::{BuilderBidsReceivedOptions, PayloadDeliveredQueryOptions};

verus! {

/// Entry message of a registered validator.
#[derive(Debug, Clone)]
pub struct EntryMessage {
    pub fee_recipient: String,
    pub gas_limit: u64,
    /// Registration time as whole seconds since the Unix epoch, UTC; always a
    /// value that a UTC date-time can represent.
    pub timestamp: i64,
    pub pubkey: String,
}

/// A validator's signed registration.
#[derive(Debug, Clone)]
pub struct ValidatorEntry {
    pub message: EntryMessage,
    pub signature: String,
}

/// A validator scheduled to propose at `slot`, with its registration.
#[derive(Debug, Clone)]
pub struct RegisteredValidator {
    pub slot: u64,
    pub validator_index: Option<String>,
    pub entry: ValidatorEntry,
}

/// Bid-trace of a payload that a relay delivered to a proposer.
#[derive(Debug, Clone)]
pub struct PayloadBidtrace {
    pub slot: u64,
    pub parent_hash: String,
    pub block_hash: String,
    pub builder_pubkey: String,
    pub proposer_pubkey: String,
    pub proposer_fee_recipient: String,
    pub gas_limit: u64,
    pub gas_used: u64,
    /// Value in wei, as decimal text: it may exceed every fixed-width integer.
    pub value: String,
    pub num_tx: u64,
    pub block_number: u64,
}

/// Bid-trace of a block that a builder submitted to a relay.
#[derive(Debug, Clone)]
pub struct BuilderBlockBidtrace {
    pub payload: PayloadBidtrace,
    /// Submission time, in milliseconds since the Unix epoch.
    pub timestamp_ms: u128,
    pub optimistic_submission: Option<bool>,
}

} // verus!
