//! The response normaliser: parsed relay responses to entities. Numeric fields
//! may come as JSON numbers or as decimal strings; registration times come as
//! whole seconds since the Unix epoch.
use vstd::prelude::*;
use crate::error::{ParseError, RelayError};
use crate::json::{find_member, member, Json, ResponseBody};
use crate::text::{parse_i64, parse_unsigned, signed_within, unsigned_within};
use crate::types::{
    BuilderBlockBidtrace, EntryMessage, PayloadBidtrace, RegisteredValidator, ValidatorEntry,
};

verus! {

/// What went wrong in decoding, as the contracts speak of it.
pub enum Fault {
    NotJson,
    Shape,
    Field(Seq<char>),
}

pub open spec fn fault_of(e: ParseError) -> Fault {
    match e {
        ParseError::NotJson => Fault::NotJson,
        ParseError::UnexpectedShape => Fault::Shape,
        ParseError::Malformed(s) => Fault::Field(s@),
    }
}

/// Whether `secs` seconds after the Unix epoch is a date-time that chrono's
/// `DateTime<Utc>` can represent.
pub uninterp spec fn utc_representable(secs: int) -> bool;

/// Relies on chrono's `DateTime::<Utc>::from_timestamp`, which returns `None`
/// exactly for out-of-range seconds when the nanoseconds are 0.
#[verifier::external_body]
fn utc_seconds_valid(secs: i64) -> (r: bool)
    ensures
        r == utc_representable(secs as int),
{
    chrono::DateTime::<chrono::Utc>::from_timestamp(secs, 0).is_some()
}

pub type Fields = Seq<(String, Json)>;

/// The text of a member that holds a number or a string.
pub open spec fn numeric_text(j: Option<Json>) -> Option<Seq<char>> {
    match j {
        Some(Json::Str(s)) => Some(s@),
        Some(Json::Number(s)) => Some(s@),
        _ => None,
    }
}

pub open spec fn u64_member(f: Fields, key: Seq<char>) -> Option<u64> {
    match numeric_text(member(f, key)) {
        Some(t) => match unsigned_within(t, u64::MAX as nat) {
            Some(v) => Some(v as u64),
            None => None,
        },
        None => None,
    }
}

pub open spec fn u128_member(f: Fields, key: Seq<char>) -> Option<u128> {
    match numeric_text(member(f, key)) {
        Some(t) => match unsigned_within(t, u128::MAX as nat) {
            Some(v) => Some(v as u128),
            None => None,
        },
        None => None,
    }
}

/// Whole seconds since the epoch that fit `i64` and name a representable UTC date-time.
pub open spec fn seconds_member(f: Fields, key: Seq<char>) -> Option<i64> {
    match numeric_text(member(f, key)) {
        Some(t) => match signed_within(t, i64::MIN as int, i64::MAX as int) {
            Some(v) => if utc_representable(v) { Some(v as i64) } else { None },
            None => None,
        },
        None => None,
    }
}

pub open spec fn text_member(f: Fields, key: Seq<char>) -> Option<String> {
    match member(f, key) {
        Some(Json::Str(s)) => Some(s),
        _ => None,
    }
}

/// An optional string member: absent or `null` is `None`.
pub open spec fn opt_text_member(f: Fields, key: Seq<char>) -> Option<Option<String>> {
    match member(f, key) {
        None => Some(None),
        Some(Json::Null) => Some(None),
        Some(Json::Str(s)) => Some(Some(s)),
        _ => None,
    }
}

/// An optional boolean member: absent or `null` is `None`.
pub open spec fn opt_bool_member(f: Fields, key: Seq<char>) -> Option<Option<bool>> {
    match member(f, key) {
        None => Some(None),
        Some(Json::Null) => Some(None),
        Some(Json::Bool(b)) => Some(Some(b)),
        _ => None,
    }
}

pub open spec fn object_member(f: Fields, key: Seq<char>) -> Option<Fields> {
    match member(f, key) {
        Some(Json::Object(g)) => Some(g@),
        _ => None,
    }
}

fn malformed(key: &str) -> (r: ParseError)
    ensures
        fault_of(r) == Fault::Field(key@),
{
    ParseError::Malformed(key.to_owned())
}

fn read_u64(f: &Vec<(String, Json)>, key: &str) -> (r: Result<u64, ParseError>)
    ensures
        match u64_member(f@, key@) {
            Some(v) => r == Ok::<u64, ParseError>(v),
            None => r matches Err(e) && fault_of(e) == Fault::Field(key@),
        },
{
    match find_member(f, key) {
        Some(i) => match &f[i].1 {
            Json::Str(s) => match parse_unsigned(s.as_str(), u64::MAX as u128) {
                Some(v) => Ok(v as u64),
                None => Err(malformed(key)),
            },
            Json::Number(s) => match parse_unsigned(s.as_str(), u64::MAX as u128) {
                Some(v) => Ok(v as u64),
                None => Err(malformed(key)),
            },
            _ => Err(malformed(key)),
        },
        None => Err(malformed(key)),
    }
}

fn read_u128(f: &Vec<(String, Json)>, key: &str) -> (r: Result<u128, ParseError>)
    ensures
        match u128_member(f@, key@) {
            Some(v) => r == Ok::<u128, ParseError>(v),
            None => r matches Err(e) && fault_of(e) == Fault::Field(key@),
        },
{
    match find_member(f, key) {
        Some(i) => match &f[i].1 {
            Json::Str(s) => match parse_unsigned(s.as_str(), u128::MAX) {
                Some(v) => Ok(v),
                None => Err(malformed(key)),
            },
            Json::Number(s) => match parse_unsigned(s.as_str(), u128::MAX) {
                Some(v) => Ok(v),
                None => Err(malformed(key)),
            },
            _ => Err(malformed(key)),
        },
        None => Err(malformed(key)),
    }
}

fn seconds_of_text(s: &String, key: &str) -> (r: Result<i64, ParseError>)
    ensures
        match signed_within(s@, i64::MIN as int, i64::MAX as int) {
            Some(v) => if utc_representable(v) {
                r == Ok::<i64, ParseError>(v as i64)
            } else {
                r matches Err(e) && fault_of(e) == Fault::Field(key@)
            },
            None => r matches Err(e) && fault_of(e) == Fault::Field(key@),
        },
{
    match parse_i64(s.as_str()) {
        Some(v) => if utc_seconds_valid(v) {
            Ok(v)
        } else {
            Err(malformed(key))
        },
        None => Err(malformed(key)),
    }
}

fn read_seconds(f: &Vec<(String, Json)>, key: &str) -> (r: Result<i64, ParseError>)
    ensures
        match seconds_member(f@, key@) {
            Some(v) => r == Ok::<i64, ParseError>(v),
            None => r matches Err(e) && fault_of(e) == Fault::Field(key@),
        },
{
    match find_member(f, key) {
        Some(i) => match &f[i].1 {
            Json::Str(s) => seconds_of_text(s, key),
            Json::Number(s) => seconds_of_text(s, key),
            _ => Err(malformed(key)),
        },
        None => Err(malformed(key)),
    }
}

fn read_text(f: &Vec<(String, Json)>, key: &str) -> (r: Result<String, ParseError>)
    ensures
        match text_member(f@, key@) {
            Some(v) => r == Ok::<String, ParseError>(v),
            None => r matches Err(e) && fault_of(e) == Fault::Field(key@),
        },
{
    match find_member(f, key) {
        Some(i) => match &f[i].1 {
            Json::Str(s) => Ok(s.clone()),
            _ => Err(malformed(key)),
        },
        None => Err(malformed(key)),
    }
}

fn read_opt_text(f: &Vec<(String, Json)>, key: &str) -> (r: Result<Option<String>, ParseError>)
    ensures
        match opt_text_member(f@, key@) {
            Some(v) => r == Ok::<Option<String>, ParseError>(v),
            None => r matches Err(e) && fault_of(e) == Fault::Field(key@),
        },
{
    match find_member(f, key) {
        Some(i) => match &f[i].1 {
            Json::Null => Ok(None),
            Json::Str(s) => Ok(Some(s.clone())),
            _ => Err(malformed(key)),
        },
        None => Ok(None),
    }
}

fn read_opt_bool(f: &Vec<(String, Json)>, key: &str) -> (r: Result<Option<bool>, ParseError>)
    ensures
        match opt_bool_member(f@, key@) {
            Some(v) => r == Ok::<Option<bool>, ParseError>(v),
            None => r matches Err(e) && fault_of(e) == Fault::Field(key@),
        },
{
    match find_member(f, key) {
        Some(i) => match &f[i].1 {
            Json::Null => Ok(None),
            Json::Bool(b) => Ok(Some(*b)),
            _ => Err(malformed(key)),
        },
        None => Ok(None),
    }
}

/// The first payload field, in declaration order, that is missing or malformed.
pub open spec fn payload_fault(f: Fields) -> Option<Seq<char>> {
    if u64_member(f, "slot"@) is None {
        Some("slot"@)
    } else if text_member(f, "parent_hash"@) is None {
        Some("parent_hash"@)
    } else if text_member(f, "block_hash"@) is None {
        Some("block_hash"@)
    } else if text_member(f, "builder_pubkey"@) is None {
        Some("builder_pubkey"@)
    } else if text_member(f, "proposer_pubkey"@) is None {
        Some("proposer_pubkey"@)
    } else if text_member(f, "proposer_fee_recipient"@) is None {
        Some("proposer_fee_recipient"@)
    } else if u64_member(f, "gas_limit"@) is None {
        Some("gas_limit"@)
    } else if u64_member(f, "gas_used"@) is None {
        Some("gas_used"@)
    } else if text_member(f, "value"@) is None {
        Some("value"@)
    } else if u64_member(f, "num_tx"@) is None {
        Some("num_tx"@)
    } else if u64_member(f, "block_number"@) is None {
        Some("block_number"@)
    } else {
        None
    }
}

pub open spec fn payload_value(f: Fields) -> PayloadBidtrace {
    PayloadBidtrace {
        slot: u64_member(f, "slot"@).unwrap(),
        parent_hash: text_member(f, "parent_hash"@).unwrap(),
        block_hash: text_member(f, "block_hash"@).unwrap(),
        builder_pubkey: text_member(f, "builder_pubkey"@).unwrap(),
        proposer_pubkey: text_member(f, "proposer_pubkey"@).unwrap(),
        proposer_fee_recipient: text_member(f, "proposer_fee_recipient"@).unwrap(),
        gas_limit: u64_member(f, "gas_limit"@).unwrap(),
        gas_used: u64_member(f, "gas_used"@).unwrap(),
        value: text_member(f, "value"@).unwrap(),
        num_tx: u64_member(f, "num_tx"@).unwrap(),
        block_number: u64_member(f, "block_number"@).unwrap(),
    }
}

/// The payload bid-trace that an object's members give.
pub open spec fn payload_of(f: Fields) -> Result<PayloadBidtrace, Fault> {
    match payload_fault(f) {
        Some(k) => Err(Fault::Field(k)),
        None => Ok(payload_value(f)),
    }
}

/// Decodes a payload bid-trace from an object's members.
pub fn decode_payload(f: &Vec<(String, Json)>) -> (r: Result<PayloadBidtrace, ParseError>)
    ensures
        match payload_of(f@) {
            Ok(p) => r == Ok::<PayloadBidtrace, ParseError>(p),
            Err(x) => r matches Err(e) && fault_of(e) == x,
        },
{
    let slot = match read_u64(f, "slot") {
        Ok(v) => v,
        Err(e) => return Err(e),
    };
    let parent_hash = match read_text(f, "parent_hash") {
        Ok(v) => v,
        Err(e) => return Err(e),
    };
    let block_hash = match read_text(f, "block_hash") {
        Ok(v) => v,
        Err(e) => return Err(e),
    };
    let builder_pubkey = match read_text(f, "builder_pubkey") {
        Ok(v) => v,
        Err(e) => return Err(e),
    };
    let proposer_pubkey = match read_text(f, "proposer_pubkey") {
        Ok(v) => v,
        Err(e) => return Err(e),
    };
    let proposer_fee_recipient = match read_text(f, "proposer_fee_recipient") {
        Ok(v) => v,
        Err(e) => return Err(e),
    };
    let gas_limit = match read_u64(f, "gas_limit") {
        Ok(v) => v,
        Err(e) => return Err(e),
    };
    let gas_used = match read_u64(f, "gas_used") {
        Ok(v) => v,
        Err(e) => return Err(e),
    };
    let value = match read_text(f, "value") {
        Ok(v) => v,
        Err(e) => return Err(e),
    };
    let num_tx = match read_u64(f, "num_tx") {
        Ok(v) => v,
        Err(e) => return Err(e),
    };
    let block_number = match read_u64(f, "block_number") {
        Ok(v) => v,
        Err(e) => return Err(e),
    };
    Ok(PayloadBidtrace { slot, parent_hash, block_hash, builder_pubkey, proposer_pubkey, proposer_fee_recipient, gas_limit, gas_used, value, num_tx, block_number })
}

/// The builder bid-trace that an object's members give: the payload fields
/// stand beside the submission fields in the same object.
pub open spec fn builder_bid_of(f: Fields) -> Result<BuilderBlockBidtrace, Fault> {
    match payload_of(f) {
        Err(x) => Err(x),
        Ok(p) => if u128_member(f, "timestamp_ms"@) is None {
            Err(Fault::Field("timestamp_ms"@))
        } else if opt_bool_member(f, "optimistic_submission"@) is None {
            Err(Fault::Field("optimistic_submission"@))
        } else {
            Ok(BuilderBlockBidtrace {
                payload: p,
                timestamp_ms: u128_member(f, "timestamp_ms"@).unwrap(),
                optimistic_submission: opt_bool_member(f, "optimistic_submission"@).unwrap(),
            })
        },
    }
}

/// Decodes a builder bid-trace from an object's members.
pub fn decode_builder_bid(f: &Vec<(String, Json)>) -> (r: Result<BuilderBlockBidtrace, ParseError>)
    ensures
        match builder_bid_of(f@) {
            Ok(b) => r == Ok::<BuilderBlockBidtrace, ParseError>(b),
            Err(x) => r matches Err(e) && fault_of(e) == x,
        },
{
    let payload = match decode_payload(f) {
        Ok(p) => p,
        Err(e) => return Err(e),
    };
    let timestamp_ms = match read_u128(f, "timestamp_ms") {
        Ok(v) => v,
        Err(e) => return Err(e),
    };
    let optimistic_submission = match read_opt_bool(f, "optimistic_submission") {
        Ok(v) => v,
        Err(e) => return Err(e),
    };
    Ok(BuilderBlockBidtrace { payload, timestamp_ms, optimistic_submission })
}

/// The entry message that an object's members give.
pub open spec fn message_of(f: Fields) -> Result<EntryMessage, Fault> {
    if text_member(f, "fee_recipient"@) is None {
        Err(Fault::Field("fee_recipient"@))
    } else if u64_member(f, "gas_limit"@) is None {
        Err(Fault::Field("gas_limit"@))
    } else if seconds_member(f, "timestamp"@) is None {
        Err(Fault::Field("timestamp"@))
    } else if text_member(f, "pubkey"@) is None {
        Err(Fault::Field("pubkey"@))
    } else {
        Ok(EntryMessage {
            fee_recipient: text_member(f, "fee_recipient"@).unwrap(),
            gas_limit: u64_member(f, "gas_limit"@).unwrap(),
            timestamp: seconds_member(f, "timestamp"@).unwrap(),
            pubkey: text_member(f, "pubkey"@).unwrap(),
        })
    }
}

/// The validator entry that an object's members give.
pub open spec fn entry_of(f: Fields) -> Result<ValidatorEntry, Fault> {
    match object_member(f, "message"@) {
        None => Err(Fault::Field("message"@)),
        Some(g) => match message_of(g) {
            Err(x) => Err(x),
            Ok(m) => if text_member(f, "signature"@) is None {
                Err(Fault::Field("signature"@))
            } else {
                Ok(ValidatorEntry { message: m, signature: text_member(f, "signature"@).unwrap() })
            },
        },
    }
}

/// The registered validator that an object's members give.
pub open spec fn validator_of(f: Fields) -> Result<RegisteredValidator, Fault> {
    if u64_member(f, "slot"@) is None {
        Err(Fault::Field("slot"@))
    } else if opt_text_member(f, "validator_index"@) is None {
        Err(Fault::Field("validator_index"@))
    } else {
        match object_member(f, "entry"@) {
            None => Err(Fault::Field("entry"@)),
            Some(g) => match entry_of(g) {
                Err(x) => Err(x),
                Ok(e) => Ok(
                    RegisteredValidator {
                        slot: u64_member(f, "slot"@).unwrap(),
                        validator_index: opt_text_member(f, "validator_index"@).unwrap(),
                        entry: e,
                    },
                ),
            },
        }
    }
}

fn read_object<'a>(f: &'a Vec<(String, Json)>, key: &str) -> (r: Result<&'a Vec<(String, Json)>, ParseError>)
    ensures
        match object_member(f@, key@) {
            Some(g) => r matches Ok(v) && v@ == g,
            None => r matches Err(e) && fault_of(e) == Fault::Field(key@),
        },
{
    match find_member(f, key) {
        Some(i) => match &f[i].1 {
            Json::Object(g) => Ok(g),
            _ => Err(malformed(key)),
        },
        None => Err(malformed(key)),
    }
}

fn decode_message(f: &Vec<(String, Json)>) -> (r: Result<EntryMessage, ParseError>)
    ensures
        match message_of(f@) {
            Ok(m) => r == Ok::<EntryMessage, ParseError>(m),
            Err(x) => r matches Err(e) && fault_of(e) == x,
        },
{
    let fee_recipient = match read_text(f, "fee_recipient") {
        Ok(v) => v,
        Err(e) => return Err(e),
    };
    let gas_limit = match read_u64(f, "gas_limit") {
        Ok(v) => v,
        Err(e) => return Err(e),
    };
    let timestamp = match read_seconds(f, "timestamp") {
        Ok(v) => v,
        Err(e) => return Err(e),
    };
    let pubkey = match read_text(f, "pubkey") {
        Ok(v) => v,
        Err(e) => return Err(e),
    };
    Ok(EntryMessage { fee_recipient, gas_limit, timestamp, pubkey })
}

/// Decodes a validator entry from an object's members.
pub fn decode_entry(f: &Vec<(String, Json)>) -> (r: Result<ValidatorEntry, ParseError>)
    ensures
        match entry_of(f@) {
            Ok(v) => r == Ok::<ValidatorEntry, ParseError>(v),
            Err(x) => r matches Err(e) && fault_of(e) == x,
        },
{
    let g = match read_object(f, "message") {
        Ok(g) => g,
        Err(e) => return Err(e),
    };
    let message = match decode_message(g) {
        Ok(m) => m,
        Err(e) => return Err(e),
    };
    let signature = match read_text(f, "signature") {
        Ok(v) => v,
        Err(e) => return Err(e),
    };
    Ok(ValidatorEntry { message, signature })
}

/// Decodes a registered validator from an object's members.
pub fn decode_validator(f: &Vec<(String, Json)>) -> (r: Result<RegisteredValidator, ParseError>)
    ensures
        match validator_of(f@) {
            Ok(v) => r == Ok::<RegisteredValidator, ParseError>(v),
            Err(x) => r matches Err(e) && fault_of(e) == x,
        },
{
    let slot = match read_u64(f, "slot") {
        Ok(v) => v,
        Err(e) => return Err(e),
    };
    let validator_index = match read_opt_text(f, "validator_index") {
        Ok(v) => v,
        Err(e) => return Err(e),
    };
    let g = match read_object(f, "entry") {
        Ok(g) => g,
        Err(e) => return Err(e),
    };
    let entry = match decode_entry(g) {
        Ok(v) => v,
        Err(e) => return Err(e),
    };
    Ok(RegisteredValidator { slot, validator_index, entry })
}

pub open spec fn payload_decoder() -> spec_fn(Fields) -> Result<PayloadBidtrace, Fault> {
    |f: Fields| payload_of(f)
}

pub open spec fn builder_bid_decoder() -> spec_fn(Fields) -> Result<BuilderBlockBidtrace, Fault> {
    |f: Fields| builder_bid_of(f)
}

pub open spec fn validator_decoder() -> spec_fn(Fields) -> Result<RegisteredValidator, Fault> {
    |f: Fields| validator_of(f)
}

/// The entities that an array's items give, each item an object; the first
/// item that fails decides the fault.
pub open spec fn objects_of<T>(items: Seq<Json>, dec: spec_fn(Fields) -> Result<T, Fault>) -> Result<
    Seq<T>,
    Fault,
>
    decreases items.len(),
{
    if items.len() == 0 {
        Ok(Seq::empty())
    } else {
        match objects_of(items.drop_last(), dec) {
            Err(x) => Err(x),
            Ok(prev) => match items.last() {
                Json::Object(f) => match dec(f@) {
                    Ok(v) => Ok(prev.push(v)),
                    Err(x) => Err(x),
                },
                _ => Err(Fault::Shape),
            },
        }
    }
}

/// The entities of a list response: a JSON array of objects.
pub open spec fn list_body<T>(b: ResponseBody, dec: spec_fn(Fields) -> Result<T, Fault>) -> Result<
    Seq<T>,
    Fault,
> {
    match b {
        ResponseBody::Document(Json::Array(items)) => objects_of(items@, dec),
        ResponseBody::Document(_) => Err(Fault::Shape),
        _ => Err(Fault::NotJson),
    }
}

proof fn lemma_objects_prefix_err<T>(items: Seq<Json>, j: int, dec: spec_fn(Fields) -> Result<T, Fault>)
    requires
        0 <= j <= items.len(),
        objects_of(items.subrange(0, j), dec) is Err,
    ensures
        objects_of(items, dec) == objects_of(items.subrange(0, j), dec),
    decreases items.len() - j,
{
    if j == items.len() {
        assert(items.subrange(0, j) =~= items);
    } else {
        assert(items.subrange(0, j + 1).drop_last() =~= items.subrange(0, j));
        lemma_objects_prefix_err(items, j + 1, dec);
    }
}

fn decode_payloads_list(items: &Vec<Json>) -> (r: Result<Vec<PayloadBidtrace>, ParseError>)
    ensures
        match objects_of(items@, payload_decoder()) {
            Ok(v) => r matches Ok(x) && x@ == v,
            Err(x) => r matches Err(e) && fault_of(e) == x,
        },
{
    let ghost dec = payload_decoder();
    let mut out: Vec<PayloadBidtrace> = Vec::new();
    let mut i: usize = 0;
    while i < items.len()
        invariant
            i <= items@.len(),
            dec == payload_decoder(),
            objects_of(items@.subrange(0, i as int), dec) == Ok::<Seq<PayloadBidtrace>, Fault>(out@),
        decreases items@.len() - i,
    {
        proof {
            let t = items@.subrange(0, i + 1);
            assert(t.drop_last() =~= items@.subrange(0, i as int));
            assert(t.last() == items@[i as int]);
        }
        match &items[i] {
            Json::Object(f) => {
                assert(items@[i as int] == Json::Object(*f));
                assert(dec(f@) == payload_of(f@));
                match decode_payload(f) {
                Ok(v) => out.push(v),
                Err(e) => {
                    proof {
                        lemma_objects_prefix_err(items@, i + 1, dec);
                    }
                    return Err(e);
                },
                }
            },
            _ => {
                proof {
                    lemma_objects_prefix_err(items@, i + 1, dec);
                }
                return Err(ParseError::UnexpectedShape);
            },
        }
        i = i + 1;
    }
    assert(items@.subrange(0, i as int) =~= items@);
    Ok(out)
}

fn decode_builder_bids_list(items: &Vec<Json>) -> (r: Result<Vec<BuilderBlockBidtrace>, ParseError>)
    ensures
        match objects_of(items@, builder_bid_decoder()) {
            Ok(v) => r matches Ok(x) && x@ == v,
            Err(x) => r matches Err(e) && fault_of(e) == x,
        },
{
    let ghost dec = builder_bid_decoder();
    let mut out: Vec<BuilderBlockBidtrace> = Vec::new();
    let mut i: usize = 0;
    while i < items.len()
        invariant
            i <= items@.len(),
            dec == builder_bid_decoder(),
            objects_of(items@.subrange(0, i as int), dec) == Ok::<Seq<BuilderBlockBidtrace>, Fault>(out@),
        decreases items@.len() - i,
    {
        proof {
            let t = items@.subrange(0, i + 1);
            assert(t.drop_last() =~= items@.subrange(0, i as int));
            assert(t.last() == items@[i as int]);
        }
        match &items[i] {
            Json::Object(f) => {
                assert(items@[i as int] == Json::Object(*f));
                assert(dec(f@) == builder_bid_of(f@));
                match decode_builder_bid(f) {
                Ok(v) => out.push(v),
                Err(e) => {
                    proof {
                        lemma_objects_prefix_err(items@, i + 1, dec);
                    }
                    return Err(e);
                },
                }
            },
            _ => {
                proof {
                    lemma_objects_prefix_err(items@, i + 1, dec);
                }
                return Err(ParseError::UnexpectedShape);
            },
        }
        i = i + 1;
    }
    assert(items@.subrange(0, i as int) =~= items@);
    Ok(out)
}

fn decode_validators_list(items: &Vec<Json>) -> (r: Result<Vec<RegisteredValidator>, ParseError>)
    ensures
        match objects_of(items@, validator_decoder()) {
            Ok(v) => r matches Ok(x) && x@ == v,
            Err(x) => r matches Err(e) && fault_of(e) == x,
        },
{
    let ghost dec = validator_decoder();
    let mut out: Vec<RegisteredValidator> = Vec::new();
    let mut i: usize = 0;
    while i < items.len()
        invariant
            i <= items@.len(),
            dec == validator_decoder(),
            objects_of(items@.subrange(0, i as int), dec) == Ok::<Seq<RegisteredValidator>, Fault>(out@),
        decreases items@.len() - i,
    {
        proof {
            let t = items@.subrange(0, i + 1);
            assert(t.drop_last() =~= items@.subrange(0, i as int));
            assert(t.last() == items@[i as int]);
        }
        match &items[i] {
            Json::Object(f) => {
                assert(items@[i as int] == Json::Object(*f));
                assert(dec(f@) == validator_of(f@));
                match decode_validator(f) {
                Ok(v) => out.push(v),
                Err(e) => {
                    proof {
                        lemma_objects_prefix_err(items@, i + 1, dec);
                    }
                    return Err(e);
                },
                }
            },
            _ => {
                proof {
                    lemma_objects_prefix_err(items@, i + 1, dec);
                }
                return Err(ParseError::UnexpectedShape);
            },
        }
        i = i + 1;
    }
    assert(items@.subrange(0, i as int) =~= items@);
    Ok(out)
}

/// Decodes a list of delivered-payload bid-traces.
pub fn parse_payloads(body: &ResponseBody) -> (r: Result<Vec<PayloadBidtrace>, ParseError>)
    ensures
        match list_body(*body, payload_decoder()) {
            Ok(v) => r matches Ok(x) && x@ == v,
            Err(x) => r matches Err(e) && fault_of(e) == x,
        },
{
    match body {
        ResponseBody::Document(Json::Array(items)) => decode_payloads_list(items),
        ResponseBody::Document(_) => Err(ParseError::UnexpectedShape),
        _ => Err(ParseError::NotJson),
    }
}

/// Decodes a list of builder bid-traces.
pub fn parse_builder_bids(body: &ResponseBody) -> (r: Result<Vec<BuilderBlockBidtrace>, ParseError>)
    ensures
        match list_body(*body, builder_bid_decoder()) {
            Ok(v) => r matches Ok(x) && x@ == v,
            Err(x) => r matches Err(e) && fault_of(e) == x,
        },
{
    match body {
        ResponseBody::Document(Json::Array(items)) => decode_builder_bids_list(items),
        ResponseBody::Document(_) => Err(ParseError::UnexpectedShape),
        _ => Err(ParseError::NotJson),
    }
}

/// Decodes a list of registered validators.
pub fn parse_validators(body: &ResponseBody) -> (r: Result<Vec<RegisteredValidator>, ParseError>)
    ensures
        match list_body(*body, validator_decoder()) {
            Ok(v) => r matches Ok(x) && x@ == v,
            Err(x) => r matches Err(e) && fault_of(e) == x,
        },
{
    match body {
        ResponseBody::Document(Json::Array(items)) => decode_validators_list(items),
        ResponseBody::Document(_) => Err(ParseError::UnexpectedShape),
        _ => Err(ParseError::NotJson),
    }
}

/// The outcome of a registration check: `None` where the relay reports no
/// registration (a blank body or `null`), else the decoded entry or its fault.
pub open spec fn registration_body(b: ResponseBody) -> Option<Result<ValidatorEntry, Fault>> {
    match b {
        ResponseBody::Blank => None,
        ResponseBody::NotJson => Some(Err(Fault::NotJson)),
        ResponseBody::Document(Json::Null) => None,
        ResponseBody::Document(Json::Object(f)) => Some(entry_of(f@)),
        ResponseBody::Document(_) => Some(Err(Fault::Shape)),
    }
}

/// Decodes the answer to a registration check. "Not registered" is an error
/// of its own, apart from a response that could not be decoded.
pub fn parse_validator_registration(body: &ResponseBody) -> (r: Result<ValidatorEntry, RelayError>)
    ensures
        match registration_body(*body) {
            None => r matches Err(RelayError::NotRegistered),
            Some(Ok(v)) => r == Ok::<ValidatorEntry, RelayError>(v),
            Some(Err(x)) => r matches Err(RelayError::Parse(e)) && fault_of(e) == x,
        },
{
    match body {
        ResponseBody::Blank => Err(RelayError::NotRegistered),
        ResponseBody::NotJson => Err(RelayError::Parse(ParseError::NotJson)),
        ResponseBody::Document(Json::Null) => Err(RelayError::NotRegistered),
        ResponseBody::Document(Json::Object(f)) => match decode_entry(f) {
            Ok(v) => Ok(v),
            Err(e) => Err(RelayError::Parse(e)),
        },
        ResponseBody::Document(_) => Err(RelayError::Parse(ParseError::UnexpectedShape)),
    }
}

} // verus!
