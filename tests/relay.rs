use mevboost_relay_api::aggregate::collect_relay_outcomes;
use mevboost_relay_api::client::{GET_BUILDER_BLOCKS_RECEIVED, GET_DELIVERED_PAYLOADS};
use mevboost_relay_api::correlate::{winning_bid_queries, winning_bid_timestamps};
use mevboost_relay_api::error::{ParseError, RelayError};
use mevboost_relay_api::json::{Json, ResponseBody};
use mevboost_relay_api::normalize::{
    parse_builder_bids, parse_payloads, parse_validator_registration, parse_validators,
};
use mevboost_relay_api::registry::RelayRegistry;
use mevboost_relay_api::slots::{
    slot_registrations, validator_registration_for_all_slots, vanilla_slots,
    vanilla_slots_for_current_and_next_epoch,
};
use mevboost_relay_api::text::{parse_i64, parse_unsigned, push_decimal};
use mevboost_relay_api::types::{
    BuilderBidsReceivedOptions, BuilderBlockBidtrace, EntryMessage, PayloadBidtrace,
    PayloadDeliveredQueryOptions, RegisteredValidator, ValidatorEntry,
};
use mevboost_relay_api::Client;

fn s(x: &str) -> String {
    x.to_string()
}

fn obj(members: Vec<(&str, Json)>) -> Json {
    Json::Object(members.into_iter().map(|(k, v)| (s(k), v)).collect())
}

fn jstr(x: &str) -> Json {
    Json::Str(s(x))
}

fn payload_members(slot: Json, block_hash: &str) -> Vec<(&'static str, Json)> {
    vec![
        ("slot", slot),
        ("parent_hash", jstr("0xparent")),
        ("block_hash", jstr(block_hash)),
        ("builder_pubkey", jstr("0xbuilder")),
        ("proposer_pubkey", jstr("0xproposer")),
        ("proposer_fee_recipient", jstr("0xfee")),
        ("gas_limit", jstr("30000000")),
        ("gas_used", Json::Number(s("12345"))),
        ("value", jstr("123456789012345678901234567890")),
        ("num_tx", jstr("150")),
        ("block_number", jstr("17777777")),
    ]
}

fn payload(slot: u64, block_hash: &str) -> PayloadBidtrace {
    PayloadBidtrace {
        slot,
        parent_hash: s("0xparent"),
        block_hash: s(block_hash),
        builder_pubkey: s("0xbuilder"),
        proposer_pubkey: s("0xproposer"),
        proposer_fee_recipient: s("0xfee"),
        gas_limit: 30000000,
        gas_used: 12345,
        value: s("1"),
        num_tx: 1,
        block_number: 1,
    }
}

fn bid(slot: u64, block_hash: &str, timestamp_ms: u128) -> BuilderBlockBidtrace {
    BuilderBlockBidtrace { payload: payload(slot, block_hash), timestamp_ms, optimistic_submission: None }
}

fn validator(slot: u64) -> RegisteredValidator {
    RegisteredValidator {
        slot,
        validator_index: None,
        entry: ValidatorEntry {
            message: EntryMessage {
                fee_recipient: s("0xfee"),
                gas_limit: 30000000,
                timestamp: 1690000000,
                pubkey: s("0xpub"),
            },
            signature: s("0xsig"),
        },
    }
}

fn entry_json(timestamp: Json) -> Json {
    obj(vec![
        (
            "message",
            obj(vec![
                ("fee_recipient", jstr("0xfee")),
                ("gas_limit", jstr("30000000")),
                ("timestamp", timestamp),
                ("pubkey", jstr("0xpub")),
            ]),
        ),
        ("signature", jstr("0xsig")),
    ])
}

#[test]
fn payload_options_encode_set_fields_in_declaration_order() {
    let opts = PayloadDeliveredQueryOptions { slot: Some(7761220), ..Default::default() };
    assert_eq!(opts.to_string(), "?slot=7761220&");
    let all = PayloadDeliveredQueryOptions {
        slot: Some(1),
        cursor: Some(2),
        limit: Some(3),
        block_hash: Some(s("0xabc")),
        block_number: Some(4),
        proposer_pubkey: Some(s("0xp")),
        builder_pubkey: Some(s("0xb")),
        order_by: Some(s("-value")),
    };
    assert_eq!(
        all.to_string(),
        "?slot=1&cursor=2&limit=3&block_hash=0xabc&block_number=4&proposer_pubkey=0xp&builder_pubkey=0xb&order_by=-value&"
    );
    assert_eq!(PayloadDeliveredQueryOptions::default().to_string(), "?");
}

#[test]
fn builder_options_encode_set_fields_in_declaration_order() {
    let opts = BuilderBidsReceivedOptions {
        limit: Some(10),
        block_hash: Some(s("0xabc")),
        slot: Some(7761220),
        ..Default::default()
    };
    assert_eq!(opts.to_string(), "?slot=7761220&block_hash=0xabc&limit=10&");
    assert_eq!(BuilderBidsReceivedOptions::default().to_string(), "?");
}

#[test]
fn encoding_does_not_depend_on_the_order_fields_are_written() {
    let a = PayloadDeliveredQueryOptions {
        order_by: Some(s("value")),
        slot: Some(9),
        builder_pubkey: Some(s("0xb")),
        ..Default::default()
    };
    let b = PayloadDeliveredQueryOptions {
        builder_pubkey: Some(s("0xb")),
        slot: Some(9),
        order_by: Some(s("value")),
        ..Default::default()
    };
    assert_eq!(a.to_string(), b.to_string());
    assert_eq!(a.to_string(), "?slot=9&builder_pubkey=0xb&order_by=value&");
}

#[test]
fn unset_filters_leave_no_key() {
    let opts = PayloadDeliveredQueryOptions { slot: Some(5), ..Default::default() };
    let q = opts.to_string();
    for key in ["cursor", "limit", "block_hash", "block_number", "proposer_pubkey", "builder_pubkey", "order_by"] {
        assert!(!q.contains(key), "{} in {}", key, q);
    }
    let opts = BuilderBidsReceivedOptions { block_number: Some(5), ..Default::default() };
    let q = opts.to_string();
    for key in ["slot", "block_hash", "builder_pubkey", "limit"] {
        assert!(!q.contains(key), "{} in {}", key, q);
    }
}

#[test]
fn decimal_text_round_trip() {
    let mut out = s("n=");
    push_decimal(&mut out, 0);
    assert_eq!(out, "n=0");
    let mut out = String::new();
    push_decimal(&mut out, u64::MAX as u128);
    assert_eq!(out, "18446744073709551615");
    assert_eq!(parse_unsigned("18446744073709551615", u64::MAX as u128), Some(u64::MAX as u128));
    assert_eq!(parse_unsigned("18446744073709551616", u64::MAX as u128), None);
    assert_eq!(parse_unsigned("+42", 100), Some(42));
    assert_eq!(parse_unsigned("", 100), None);
    assert_eq!(parse_unsigned("+", 100), None);
    assert_eq!(parse_unsigned("-1", 100), None);
    assert_eq!(parse_unsigned("4a", 100), None);
    assert_eq!(parse_i64("-9223372036854775808"), Some(i64::MIN));
    assert_eq!(parse_i64("9223372036854775808"), None);
    assert_eq!(parse_i64("-12"), Some(-12));
}

#[test]
fn unknown_relay_lookup_has_no_fallback() {
    let client = Client::default();
    assert_eq!(client.relays.lookup("nonexistent"), Err(RelayError::UnknownRelay(s("nonexistent"))));
    assert_eq!(client.get_relay_url("nonexistent"), Err(RelayError::UnknownRelay(s("nonexistent"))));
    let empty = RelayRegistry::new();
    assert_eq!(empty.lookup("ultrasound"), Err(RelayError::UnknownRelay(s("ultrasound"))));
}

#[test]
fn default_registry_holds_the_builtin_relays() {
    let reg = RelayRegistry::default_relays();
    assert_eq!(reg.len(), 6);
    let names = reg.names();
    assert_eq!(
        names,
        vec!["ultrasound", "flashbots", "aestus", "agnostic", "bloxroute-max-profit", "bloxroute-regulated"]
    );
    let url = reg.lookup("ultrasound").unwrap();
    assert!(url.starts_with("https://0x"));
    assert!(url.ends_with("@relay.ultrasound.money"));
    assert!(reg.lookup("Ultrasound").is_err());
}

#[test]
fn registry_insert_adds_and_replaces() {
    let mut reg = RelayRegistry::new();
    reg.insert(s("a"), s("https://a.example"));
    reg.insert(s("b"), s("https://b.example"));
    reg.insert(s("a"), s("https://a2.example"));
    assert_eq!(reg.len(), 2);
    assert_eq!(reg.lookup("a"), Ok(s("https://a2.example")));
    assert_eq!(reg.lookup("b"), Ok(s("https://b.example")));
    assert_eq!(reg.name_at(0), "a");
}

#[test]
fn client_builds_endpoint_urls() {
    let mut reg = RelayRegistry::new();
    reg.insert(s("ultrasound"), s("https://key@relay.example"));
    let client = Client::with_relays(reg);
    let opts = PayloadDeliveredQueryOptions { slot: Some(7761220), ..Default::default() };
    assert_eq!(
        client.payload_delivered_url("ultrasound", &opts).unwrap(),
        format!("https://key@relay.example{}?slot=7761220&", GET_DELIVERED_PAYLOADS)
    );
    let opts = BuilderBidsReceivedOptions { slot: Some(7761220), ..Default::default() };
    assert_eq!(
        client.builder_blocks_url("ultrasound", &opts).unwrap(),
        format!("https://key@relay.example{}?slot=7761220&", GET_BUILDER_BLOCKS_RECEIVED)
    );
    assert_eq!(
        client.validator_registration_url("ultrasound", "0xpk").unwrap(),
        "https://key@relay.example/relay/v1/data/validator_registration?pubkey=0xpk"
    );
    assert_eq!(
        client.validators_url("ultrasound").unwrap(),
        "https://key@relay.example/relay/v1/builder/validators"
    );
    assert_eq!(
        client.validators_url("flashbots"),
        Err(RelayError::UnknownRelay(s("flashbots")))
    );
}

#[test]
fn numeric_string_slot_decodes() {
    let body = ResponseBody::Document(Json::Array(vec![obj(payload_members(jstr("123"), "0xabc"))]));
    let payloads = parse_payloads(&body).unwrap();
    assert_eq!(payloads.len(), 1);
    assert_eq!(payloads[0].slot, 123);
    assert_eq!(payloads[0].gas_used, 12345);
    assert_eq!(payloads[0].value, "123456789012345678901234567890");
    assert_eq!(payloads[0].block_hash, "0xabc");
}

#[test]
fn non_numeric_slot_is_malformed() {
    let body = ResponseBody::Document(Json::Array(vec![obj(payload_members(jstr("abc"), "0xabc"))]));
    assert_eq!(parse_payloads(&body).unwrap_err(), ParseError::Malformed(s("slot")));
    let body = ResponseBody::Document(Json::Array(vec![obj(payload_members(Json::Bool(true), "0xabc"))]));
    assert_eq!(parse_payloads(&body).unwrap_err(), ParseError::Malformed(s("slot")));
}

#[test]
fn list_responses_reject_other_shapes() {
    assert_eq!(parse_payloads(&ResponseBody::NotJson).unwrap_err(), ParseError::NotJson);
    assert_eq!(parse_payloads(&ResponseBody::Blank).unwrap_err(), ParseError::NotJson);
    assert_eq!(
        parse_payloads(&ResponseBody::Document(obj(vec![]))).unwrap_err(),
        ParseError::UnexpectedShape
    );
    assert_eq!(
        parse_payloads(&ResponseBody::Document(Json::Array(vec![Json::Null]))).unwrap_err(),
        ParseError::UnexpectedShape
    );
    assert_eq!(parse_payloads(&ResponseBody::Document(Json::Array(vec![]))).unwrap().len(), 0);
}

#[test]
fn builder_bids_are_flattened() {
    let mut members = payload_members(jstr("7761220"), "0xabc");
    members.push(("timestamp_ms", jstr("1690000000000")));
    members.push(("optimistic_submission", Json::Bool(true)));
    let body = ResponseBody::Document(Json::Array(vec![obj(members)]));
    let bids = parse_builder_bids(&body).unwrap();
    assert_eq!(bids[0].payload.slot, 7761220);
    assert_eq!(bids[0].timestamp_ms, 1690000000000);
    assert_eq!(bids[0].optimistic_submission, Some(true));

    let mut members = payload_members(jstr("7761220"), "0xabc");
    members.push(("timestamp_ms", Json::Number(s("5"))));
    let bids = parse_builder_bids(&ResponseBody::Document(Json::Array(vec![obj(members)]))).unwrap();
    assert_eq!(bids[0].optimistic_submission, None);

    let members = payload_members(jstr("7761220"), "0xabc");
    assert_eq!(
        parse_builder_bids(&ResponseBody::Document(Json::Array(vec![obj(members)]))).unwrap_err(),
        ParseError::Malformed(s("timestamp_ms"))
    );
}

#[test]
fn validators_decode_with_nested_entry() {
    let item = obj(vec![
        ("slot", jstr("100")),
        ("validator_index", jstr("42")),
        ("entry", entry_json(jstr("1690000000"))),
    ]);
    let vs = parse_validators(&ResponseBody::Document(Json::Array(vec![item]))).unwrap();
    assert_eq!(vs[0].slot, 100);
    assert_eq!(vs[0].validator_index, Some(s("42")));
    assert_eq!(vs[0].entry.message.timestamp, 1690000000);
    assert_eq!(vs[0].entry.message.gas_limit, 30000000);
    assert_eq!(vs[0].entry.signature, "0xsig");

    let item = obj(vec![("slot", jstr("100")), ("entry", jstr("x"))]);
    assert_eq!(
        parse_validators(&ResponseBody::Document(Json::Array(vec![item]))).unwrap_err(),
        ParseError::Malformed(s("entry"))
    );
}

#[test]
fn registration_check_outcomes() {
    let body = ResponseBody::Document(entry_json(Json::Number(s("1690000000"))));
    let entry = parse_validator_registration(&body).unwrap();
    assert_eq!(entry.message.pubkey, "0xpub");
    assert_eq!(entry.message.timestamp, 1690000000);
    assert_eq!(parse_validator_registration(&ResponseBody::Blank).unwrap_err(), RelayError::NotRegistered);
    assert_eq!(
        parse_validator_registration(&ResponseBody::Document(Json::Null)).unwrap_err(),
        RelayError::NotRegistered
    );
    assert_eq!(
        parse_validator_registration(&ResponseBody::NotJson).unwrap_err(),
        RelayError::Parse(ParseError::NotJson)
    );
    assert_eq!(
        parse_validator_registration(&ResponseBody::Document(Json::Array(vec![]))).unwrap_err(),
        RelayError::Parse(ParseError::UnexpectedShape)
    );
}

#[test]
fn out_of_range_timestamp_is_malformed() {
    let body = ResponseBody::Document(entry_json(jstr("9223372036854775807")));
    assert_eq!(
        parse_validator_registration(&body).unwrap_err(),
        RelayError::Parse(ParseError::Malformed(s("timestamp")))
    );
    let body = ResponseBody::Document(entry_json(jstr("-86400")));
    assert_eq!(parse_validator_registration(&body).unwrap().message.timestamp, -86400);
}

#[test]
fn failing_relay_is_left_out() {
    let outcomes: Vec<(String, Result<Vec<u64>, RelayError>)> = vec![
        (s("A"), Ok(vec![1, 2])),
        (s("B"), Err(RelayError::TransportFailure { relay: s("B"), cause: s("timeout") })),
    ];
    let r = collect_relay_outcomes(outcomes);
    assert_eq!(r.results, vec![(s("A"), vec![1, 2])]);
    assert_eq!(r.skipped.len(), 1);
    assert_eq!(r.skipped[0].0, "B");
}

#[test]
fn vanilla_slots_in_the_window() {
    let regs = vec![(s("X"), vec![validator(100)]), (s("Y"), vec![validator(105)])];
    let vanilla = vanilla_slots(&regs);
    let expected: Vec<u64> = (101..=104).chain(106..=163).collect();
    assert_eq!(vanilla.len(), 62);
    assert_eq!(vanilla, expected);

    let map = slot_registrations(&regs);
    assert_eq!(map.len(), 64);
    assert_eq!(map[0], (100, vec![s("X")]));
    assert_eq!(map[5], (105, vec![s("Y")]));
    assert_eq!(map[63], (163, vec![]));
}

#[test]
fn registrations_beyond_the_window_are_kept() {
    let regs = vec![(s("X"), vec![validator(100), validator(300)]), (s("Y"), vec![validator(300), validator(100)])];
    let map = slot_registrations(&regs);
    assert_eq!(map.len(), 65);
    assert_eq!(map[0], (100, vec![s("X"), s("Y")]));
    assert_eq!(map[64], (300, vec![s("X"), s("Y")]));
    let vanilla = vanilla_slots(&regs);
    let expected: Vec<u64> = (101..=163).collect();
    assert_eq!(vanilla, expected);
}

#[test]
fn no_registrations_give_no_vanilla_slots() {
    let regs: Vec<(String, Vec<RegisteredValidator>)> = vec![(s("X"), vec![]), (s("Y"), vec![])];
    assert!(vanilla_slots(&regs).is_empty());
    assert!(slot_registrations(&regs).is_empty());
    assert!(vanilla_slots(&vec![]).is_empty());
}

#[test]
fn window_stops_at_the_top_of_the_slot_range() {
    let regs = vec![(s("X"), vec![validator(u64::MAX - 1)])];
    assert_eq!(vanilla_slots(&regs), vec![u64::MAX]);
}

#[test]
fn first_relay_failure_fails_the_slot_map() {
    let err = RelayError::TransportFailure { relay: s("X"), cause: s("down") };
    let outcomes = vec![(s("X"), Err(err.clone())), (s("Y"), Ok(vec![validator(100)]))];
    assert_eq!(validator_registration_for_all_slots(outcomes).unwrap_err(), err);
    let outcomes = vec![(s("X"), Err(err.clone())), (s("Y"), Ok(vec![validator(100)]))];
    assert_eq!(vanilla_slots_for_current_and_next_epoch(outcomes).unwrap_err(), err);

    let outcomes = vec![(s("Y"), Ok(vec![validator(100)])), (s("X"), Err(err.clone()))];
    let map = validator_registration_for_all_slots(outcomes).unwrap();
    assert_eq!(map.len(), 64);
    assert_eq!(map[0], (100, vec![s("Y")]));
    let outcomes = vec![(s("Y"), Ok(vec![validator(100)])), (s("X"), Err(err))];
    assert_eq!(vanilla_slots_for_current_and_next_epoch(outcomes).unwrap().len(), 63);
}

#[test]
fn winning_bid_timestamp_end_to_end() {
    let delivered = vec![(s("ultrasound"), vec![payload(7761220, "0xabc")]), (s("flashbots"), vec![])];
    let queries = winning_bid_queries(7761220, &delivered);
    assert_eq!(queries.len(), 1);
    assert_eq!(queries[0].0, "ultrasound");
    assert_eq!(queries[0].1.to_string(), "?slot=7761220&block_hash=0xabc&");
    let answers = vec![(s("ultrasound"), Ok(vec![bid(7761220, "0xabc", 1690000000000)]))];
    assert_eq!(
        winning_bid_timestamps(7761220, answers).unwrap(),
        vec![(s("ultrasound"), 1690000000000u128)]
    );
}

#[test]
fn missing_bid_is_a_correlation_failure() {
    let answers = vec![(s("ultrasound"), Ok(vec![]))];
    assert_eq!(
        winning_bid_timestamps(7761220, answers).unwrap_err(),
        RelayError::CorrelationFailure { slot: 7761220, relay: s("ultrasound") }
    );
    let answers = vec![(s("ultrasound"), Err(RelayError::UnknownRelay(s("ultrasound"))))];
    assert_eq!(
        winning_bid_timestamps(7761220, answers).unwrap_err(),
        RelayError::UnknownRelay(s("ultrasound"))
    );
}

