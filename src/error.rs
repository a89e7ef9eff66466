//! Error kinds of relay queries.
use vstd::prelude::*;

verus! {

/// Why a response body could not be turned into the expected entities.
#[derive(Debug, Clone, PartialEq, Eq)]
pub enum ParseError {
    /// The body is not a JSON document.
    NotJson,
    /// The document does not have the expected overall shape (an array or an object).
    UnexpectedShape,
    /// The named field is missing or does not hold a value of its expected encoding.
    Malformed(String),
}

/// Why a single-relay call failed.
#[derive(Debug, Clone, PartialEq, Eq)]
pub enum RelayError {
    /// The relay name is not in the registry.
    UnknownRelay(String),
    /// The fetch of the named relay failed at the network or HTTP layer.
    TransportFailure { relay: String, cause: String },
    /// The relay's response could not be decoded.
    Parse(ParseError),
    /// The relay reports no registration for the validator.
    NotRegistered,
    /// A payload was delivered by the relay for the slot, but it holds no matching builder bid.
    CorrelationFailure { slot: u64, relay: String },
}

} // verus!
