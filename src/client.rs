//! The relay API client: endpoint construction for each single-relay operation.
use vstd::prelude::*;
use vstd::string::*;
use crate::error::RelayError;
use crate::query::{BuilderBidsReceivedOptions, PayloadDeliveredQueryOptions};
use crate::registry::{default_relay_table, lookup_in, RelayRegistry};

verus! {

/// Path of the validator registrations for the current and next epoch.
pub const GET_VALIDATORS_ENDPOINT: &'static str = "/relay/v1/builder/validators";

/// Path of the validator registration check.
pub const CHECK_VALIDATOR_REGISTRATION: &'static str = "/relay/v1/data/validator_registration";

/// Path of the payloads delivered to proposers.
pub const GET_DELIVERED_PAYLOADS: &'static str = "/relay/v1/data/bidtraces/proposer_payload_delivered";

/// Path of the block bid submissions received from builders.
pub const GET_BUILDER_BLOCKS_RECEIVED: &'static str = "/relay/v1/data/bidtraces/builder_blocks_received";

/// `base` followed by `path` and `query`, where the relay is known.
pub open spec fn endpoint_result(
    relays: Seq<(Seq<char>, Seq<char>)>,
    name: Seq<char>,
    path: Seq<char>,
    query: Seq<char>,
    r: Result<String, RelayError>,
) -> bool {
    match lookup_in(relays, name) {
        Some(base) => r matches Ok(u) && u@ == base + path + query,
        None => r matches Err(RelayError::UnknownRelay(n)) && n@ == name,
    }
}

/// Client for the MEV-Boost relay data API over a set of named relays.
#[derive(Debug, Clone)]
pub struct Client {
    /// The relays that queries go to.
    pub relays: RelayRegistry,
}

impl Default for Client {
    fn default() -> (r: Self)
        ensures
            r.relays@ == default_relay_table(),
    {
        Client { relays: RelayRegistry::default_relays() }
    }
}

impl Client {
    /// A client over the given relays, which replace the built-in ones.
    pub fn with_relays(relays: RelayRegistry) -> (r: Self)
        ensures
            r.relays@ == relays@,
    {
        Client { relays }
    }

    /// The base endpoint of the relay named `relay_name`.
    pub fn get_relay_url(&self, relay_name: &str) -> (r: Result<String, RelayError>)
        ensures
            endpoint_result(self.relays@, relay_name@, Seq::empty(), Seq::empty(), r),
    {
        let r = self.relays.lookup(relay_name);
        assert(r matches Ok(u) ==> u@ =~= u@ + Seq::<char>::empty() + Seq::<char>::empty());
        r
    }

    fn url_with(&self, relay_name: &str, path: &str, query: &str) -> (r: Result<String, RelayError>)
        ensures
            endpoint_result(self.relays@, relay_name@, path@, query@, r),
    {
        match self.relays.lookup(relay_name) {
            Ok(base) => {
                let mut u = base;
                u.append(path);
                u.append(query);
                Ok(u)
            },
            Err(e) => Err(e),
        }
    }

    /// The URL of the validator registrations of the current and next epoch on a relay.
    pub fn validators_url(&self, relay_name: &str) -> (r: Result<String, RelayError>)
        ensures
            endpoint_result(self.relays@, relay_name@, GET_VALIDATORS_ENDPOINT@, Seq::empty(), r),
    {
        proof {
            reveal_strlit("");
        }
        self.url_with(relay_name, GET_VALIDATORS_ENDPOINT, "")
    }

    /// The URL of the registration check of the validator `pubkey` on a relay.
    pub fn validator_registration_url(&self, relay_name: &str, pubkey: &str) -> (r: Result<
        String,
        RelayError,
    >)
        ensures
            endpoint_result(
                self.relays@,
                relay_name@,
                CHECK_VALIDATOR_REGISTRATION@,
                seq!['?', 'p', 'u', 'b', 'k', 'e', 'y', '='] + pubkey@,
                r,
            ),
    {
        proof {
            reveal_strlit("?pubkey=");
        }
        let mut q = String::from_str("?pubkey=");
        q.append(pubkey);
        assert(q@ =~= seq!['?', 'p', 'u', 'b', 'k', 'e', 'y', '='] + pubkey@);
        self.url_with(relay_name, CHECK_VALIDATOR_REGISTRATION, q.as_str())
    }

    /// The URL of the delivered-payload query with the filters `opts` on a relay.
    pub fn payload_delivered_url(&self, relay_name: &str, opts: &PayloadDeliveredQueryOptions) -> (r:
        Result<String, RelayError>)
        ensures
            endpoint_result(self.relays@, relay_name@, GET_DELIVERED_PAYLOADS@, opts.query(), r),
    {
        let q = opts.to_string();
        self.url_with(relay_name, GET_DELIVERED_PAYLOADS, q.as_str())
    }

    /// The URL of the builder-bid query with the filters `opts` on a relay.
    pub fn builder_blocks_url(&self, relay_name: &str, opts: &BuilderBidsReceivedOptions) -> (r:
        Result<String, RelayError>)
        ensures
            endpoint_result(self.relays@, relay_name@, GET_BUILDER_BLOCKS_RECEIVED@, opts.query(), r),
    {
        let q = opts.to_string();
        self.url_with(relay_name, GET_BUILDER_BLOCKS_RECEIVED, q.as_str())
    }
}

} // verus!
