//! Query filters for the relay data API and their encoding into query strings.
use vstd::prelude::*;
use vstd::string::*;
use crate::text::{decimal, push_decimal};

verus! {

/// An encoded query parameter: its key and its value, as text.
pub type Param = (Seq<char>, Seq<char>);

/// `key=value&` for each parameter, in order.
pub open spec fn encode_params(ps: Seq<Param>) -> Seq<char>
    decreases ps.len(),
{
    if ps.len() == 0 {
        Seq::empty()
    } else {
        encode_params(ps.drop_last()) + ps.last().0 + seq!['='] + ps.last().1 + seq!['&']
    }
}

/// The parameter of a numeric filter, if it is set.
pub open spec fn num_param(key: Seq<char>, v: Option<u64>) -> Seq<Param> {
    match v {
        Some(n) => seq![(key, decimal(n as nat))],
        None => Seq::empty(),
    }
}

/// The parameter of a text filter, if it is set; the text goes in verbatim.
pub open spec fn text_param(key: Seq<char>, v: Option<String>) -> Seq<Param> {
    match v {
        Some(s) => seq![(key, s@)],
        None => Seq::empty(),
    }
}

/// The text held by an optional string field.
pub open spec fn opt_text(v: Option<String>) -> Option<Seq<char>> {
    match v {
        Some(s) => Some(s@),
        None => None,
    }
}

pub proof fn lemma_encode_append(a: Seq<Param>, b: Seq<Param>)
    ensures
        encode_params(a + b) == encode_params(a) + encode_params(b),
    decreases b.len(),
{
    if b.len() == 0 {
        assert(a + b =~= a);
    } else {
        lemma_encode_append(a, b.drop_last());
        assert((a + b).drop_last() =~= a + b.drop_last());
        assert((a + b).last() == b.last());
    }
}

proof fn lemma_encode_single(p: Param)
    ensures
        encode_params(seq![p]) == p.0 + seq!['='] + p.1 + seq!['&'],
{
    let e = Seq::<Param>::empty();
    assert(seq![p].drop_last() =~= e);
    assert(encode_params(e) == Seq::<char>::empty());
    assert(Seq::<char>::empty() + p.0 + seq!['='] + p.1 + seq!['&'] =~= p.0 + seq!['='] + p.1
        + seq!['&']);
}

fn push_num_param(q: &mut String, key: &str, v: Option<u64>)
    ensures
        final(q)@ == old(q)@ + encode_params(num_param(key@, v)),
{
    proof {
        reveal_strlit("=");
        reveal_strlit("&");
    }
    match v {
        Some(n) => {
            proof {
                lemma_encode_single((key@, decimal(n as nat)));
            }
            q.append(key);
            q.append("=");
            push_decimal(q, n as u128);
            q.append("&");
            assert(final(q)@ =~= old(q)@ + encode_params(num_param(key@, v)));
        },
        None => {
            assert(old(q)@ + encode_params(num_param(key@, v)) =~= old(q)@);
        },
    }
}

fn push_text_param(q: &mut String, key: &str, v: &Option<String>)
    ensures
        final(q)@ == old(q)@ + encode_params(text_param(key@, *v)),
{
    proof {
        reveal_strlit("=");
        reveal_strlit("&");
    }
    match v {
        Some(s) => {
            proof {
                lemma_encode_single((key@, s@));
            }
            q.append(key);
            q.append("=");
            q.append(s.as_str());
            q.append("&");
            assert(final(q)@ =~= old(q)@ + encode_params(text_param(key@, *v)));
        },
        None => {
            assert(old(q)@ + encode_params(text_param(key@, *v)) =~= old(q)@);
        },
    }
}

fn start_query() -> (q: String)
    ensures
        q@ == seq!['?'],
{
    proof {
        reveal_strlit("?");
    }
    let mut q = String::new();
    q.append("?");
    q
}

/// Filters for the delivered-payload bid-trace query. Every field is optional;
/// an unset field is left out of the query.
#[derive(Debug, Default, Clone)]
pub struct PayloadDeliveredQueryOptions {
    /// A specific slot number.
    pub slot: Option<u64>,
    /// A starting slot for multiple results.
    pub cursor: Option<u64>,
    /// The number of results.
    pub limit: Option<u64>,
    /// A block hash.
    pub block_hash: Option<String>,
    /// A specific block number.
    pub block_number: Option<u64>,
    /// A specific proposer public key.
    pub proposer_pubkey: Option<String>,
    /// A specific builder public key.
    pub builder_pubkey: Option<String>,
    /// Sort results in order of: `value` or `-value`.
    pub order_by: Option<String>,
}

impl PayloadDeliveredQueryOptions {
    /// The parameters that the set fields give, in declaration order.
    pub open spec fn params(&self) -> Seq<Param> {
        num_param("slot"@, self.slot)
            + num_param("cursor"@, self.cursor)
            + num_param("limit"@, self.limit)
            + text_param("block_hash"@, self.block_hash)
            + num_param("block_number"@, self.block_number)
            + text_param("proposer_pubkey"@, self.proposer_pubkey)
            + text_param("builder_pubkey"@, self.builder_pubkey)
            + text_param("order_by"@, self.order_by)
    }

    /// The query string: `?` and then `key=value&` for each set field.
    pub open spec fn query(&self) -> Seq<char> {
        seq!['?'] + encode_params(self.params())
    }

    /// Encodes the set filters as a query string.
    pub fn to_string(&self) -> (r: String)
        ensures
            r@ == self.query(),
    {
        let mut q = start_query();
        let ghost ps: Seq<Param> = Seq::empty();
        push_num_param(&mut q, "slot", self.slot);
        proof {
            lemma_encode_append(ps, num_param("slot"@, self.slot));
            ps = ps + num_param("slot"@, self.slot);
            assert(q@ =~= seq!['?'] + encode_params(ps));
        }
        push_num_param(&mut q, "cursor", self.cursor);
        proof {
            lemma_encode_append(ps, num_param("cursor"@, self.cursor));
            ps = ps + num_param("cursor"@, self.cursor);
            assert(q@ =~= seq!['?'] + encode_params(ps));
        }
        push_num_param(&mut q, "limit", self.limit);
        proof {
            lemma_encode_append(ps, num_param("limit"@, self.limit));
            ps = ps + num_param("limit"@, self.limit);
            assert(q@ =~= seq!['?'] + encode_params(ps));
        }
        push_text_param(&mut q, "block_hash", &self.block_hash);
        proof {
            lemma_encode_append(ps, text_param("block_hash"@, self.block_hash));
            ps = ps + text_param("block_hash"@, self.block_hash);
            assert(q@ =~= seq!['?'] + encode_params(ps));
        }
        push_num_param(&mut q, "block_number", self.block_number);
        proof {
            lemma_encode_append(ps, num_param("block_number"@, self.block_number));
            ps = ps + num_param("block_number"@, self.block_number);
            assert(q@ =~= seq!['?'] + encode_params(ps));
        }
        push_text_param(&mut q, "proposer_pubkey", &self.proposer_pubkey);
        proof {
            lemma_encode_append(ps, text_param("proposer_pubkey"@, self.proposer_pubkey));
            ps = ps + text_param("proposer_pubkey"@, self.proposer_pubkey);
            assert(q@ =~= seq!['?'] + encode_params(ps));
        }
        push_text_param(&mut q, "builder_pubkey", &self.builder_pubkey);
        proof {
            lemma_encode_append(ps, text_param("builder_pubkey"@, self.builder_pubkey));
            ps = ps + text_param("builder_pubkey"@, self.builder_pubkey);
            assert(q@ =~= seq!['?'] + encode_params(ps));
        }
        push_text_param(&mut q, "order_by", &self.order_by);
        proof {
            lemma_encode_append(ps, text_param("order_by"@, self.order_by));
            ps = ps + text_param("order_by"@, self.order_by);
            assert(ps =~= self.params());
            assert(q@ =~= seq!['?'] + encode_params(ps));
        }
        q
    }
}

/// Filters for the builder bid-submission query. Every field is optional;
/// an unset field is left out of the query.
#[derive(Debug, Default, Clone)]
pub struct BuilderBidsReceivedOptions {
    /// A specific slot number.
    pub slot: Option<u64>,
    /// A block hash.
    pub block_hash: Option<String>,
    /// A specific block number.
    pub block_number: Option<u64>,
    /// A specific builder public key.
    pub builder_pubkey: Option<String>,
    /// The number of results.
    pub limit: Option<u64>,
}

impl BuilderBidsReceivedOptions {
    /// The parameters that the set fields give, in declaration order.
    pub open spec fn params(&self) -> Seq<Param> {
        num_param("slot"@, self.slot)
            + text_param("block_hash"@, self.block_hash)
            + num_param("block_number"@, self.block_number)
            + text_param("builder_pubkey"@, self.builder_pubkey)
            + num_param("limit"@, self.limit)
    }

    /// The query string: `?` and then `key=value&` for each set field.
    pub open spec fn query(&self) -> Seq<char> {
        seq!['?'] + encode_params(self.params())
    }

    /// Encodes the set filters as a query string.
    pub fn to_string(&self) -> (r: String)
        ensures
            r@ == self.query(),
    {
        let mut q = start_query();
        let ghost ps: Seq<Param> = Seq::empty();
        push_num_param(&mut q, "slot", self.slot);
        proof {
            lemma_encode_append(ps, num_param("slot"@, self.slot));
            ps = ps + num_param("slot"@, self.slot);
            assert(q@ =~= seq!['?'] + encode_params(ps));
        }
        push_text_param(&mut q, "block_hash", &self.block_hash);
        proof {
            lemma_encode_append(ps, text_param("block_hash"@, self.block_hash));
            ps = ps + text_param("block_hash"@, self.block_hash);
            assert(q@ =~= seq!['?'] + encode_params(ps));
        }
        push_num_param(&mut q, "block_number", self.block_number);
        proof {
            lemma_encode_append(ps, num_param("block_number"@, self.block_number));
            ps = ps + num_param("block_number"@, self.block_number);
            assert(q@ =~= seq!['?'] + encode_params(ps));
        }
        push_text_param(&mut q, "builder_pubkey", &self.builder_pubkey);
        proof {
            lemma_encode_append(ps, text_param("builder_pubkey"@, self.builder_pubkey));
            ps = ps + text_param("builder_pubkey"@, self.builder_pubkey);
            assert(q@ =~= seq!['?'] + encode_params(ps));
        }
        push_num_param(&mut q, "limit", self.limit);
        proof {
            lemma_encode_append(ps, num_param("limit"@, self.limit));
            ps = ps + num_param("limit"@, self.limit);
            assert(ps =~= self.params());
            assert(q@ =~= seq!['?'] + encode_params(ps));
        }
        q
    }
}

/// No parameter in `ps` has the key `key`.
pub open spec fn key_absent(ps: Seq<Param>, key: Seq<char>) -> bool {
    forall|i: int| 0 <= i < ps.len() ==> (#[trigger] ps[i]).0 != key
}

proof fn lemma_key_absent_concat(a: Seq<Param>, b: Seq<Param>, key: Seq<char>)
    requires
        key_absent(a, key),
        key_absent(b, key),
    ensures
        key_absent(a + b, key),
{
    assert forall|i: int| 0 <= i < (a + b).len() implies (#[trigger] (a + b)[i]).0 != key by {
        if i >= a.len() {
            assert((a + b)[i] == b[i - a.len()]);
        }
    }
}

proof fn lemma_num_key_absent(k: Seq<char>, v: Option<u64>, key: Seq<char>)
    requires
        k != key || v is None,
    ensures
        key_absent(num_param(k, v), key),
{
}

proof fn lemma_text_key_absent(k: Seq<char>, v: Option<String>, key: Seq<char>)
    requires
        k != key || v is None,
    ensures
        key_absent(text_param(k, v), key),
{
}

/// Two delivered-payload filters whose fields hold the same values encode to
/// the same query, whatever order their fields were written in.
pub proof fn lemma_payload_query_deterministic(
    a: PayloadDeliveredQueryOptions,
    b: PayloadDeliveredQueryOptions,
)
    requires
        a.slot == b.slot,
        a.cursor == b.cursor,
        a.limit == b.limit,
        opt_text(a.block_hash) == opt_text(b.block_hash),
        a.block_number == b.block_number,
        opt_text(a.proposer_pubkey) == opt_text(b.proposer_pubkey),
        opt_text(a.builder_pubkey) == opt_text(b.builder_pubkey),
        opt_text(a.order_by) == opt_text(b.order_by),
    ensures
        a.query() == b.query(),
{
    assert(a.params() =~= b.params());
}

/// Two builder-bid filters whose fields hold the same values encode to the
/// same query, whatever order their fields were written in.
pub proof fn lemma_builder_query_deterministic(
    a: BuilderBidsReceivedOptions,
    b: BuilderBidsReceivedOptions,
)
    requires
        a.slot == b.slot,
        opt_text(a.block_hash) == opt_text(b.block_hash),
        a.block_number == b.block_number,
        opt_text(a.builder_pubkey) == opt_text(b.builder_pubkey),
        a.limit == b.limit,
    ensures
        a.query() == b.query(),
{
    assert(a.params() =~= b.params());
}

/// The key of every unset delivered-payload filter is absent from the encoded parameters.
pub proof fn lemma_payload_unset_omitted(o: PayloadDeliveredQueryOptions)
    ensures
        o.slot is None ==> key_absent(o.params(), "slot"@),
        o.cursor is None ==> key_absent(o.params(), "cursor"@),
        o.limit is None ==> key_absent(o.params(), "limit"@),
        o.block_hash is None ==> key_absent(o.params(), "block_hash"@),
        o.block_number is None ==> key_absent(o.params(), "block_number"@),
        o.proposer_pubkey is None ==> key_absent(o.params(), "proposer_pubkey"@),
        o.builder_pubkey is None ==> key_absent(o.params(), "builder_pubkey"@),
        o.order_by is None ==> key_absent(o.params(), "order_by"@),
{
    reveal_strlit("slot");
    reveal_strlit("cursor");
    reveal_strlit("limit");
    reveal_strlit("block_hash");
    reveal_strlit("block_number");
    reveal_strlit("proposer_pubkey");
    reveal_strlit("builder_pubkey");
    reveal_strlit("order_by");
    let keys = seq![
        "slot"@,
        "cursor"@,
        "limit"@,
        "block_hash"@,
        "block_number"@,
        "proposer_pubkey"@,
        "builder_pubkey"@,
        "order_by"@,
    ];
    assert forall|j: int, k: int| 0 <= j < 8 && 0 <= k < 8 && j != k implies keys[j] != keys[k] by {
        if keys[j] == keys[k] {
            assert(keys[j].len() == keys[k].len());
            assert(keys[j][0] == keys[k][0]);
            assert(keys[j][1] == keys[k][1]);
            assert(keys[j][7] == keys[k][7]);
        }
    }
    assert forall|j: int| 0 <= j < 8 && payload_field_unset(o, j) implies key_absent(o.params(), #[trigger] keys[j]) by {
        let key = keys[j];
        lemma_num_key_absent("slot"@, o.slot, key);
        lemma_num_key_absent("cursor"@, o.cursor, key);
        lemma_num_key_absent("limit"@, o.limit, key);
        lemma_text_key_absent("block_hash"@, o.block_hash, key);
        lemma_num_key_absent("block_number"@, o.block_number, key);
        lemma_text_key_absent("proposer_pubkey"@, o.proposer_pubkey, key);
        lemma_text_key_absent("builder_pubkey"@, o.builder_pubkey, key);
        lemma_text_key_absent("order_by"@, o.order_by, key);
        let p1 = num_param("slot"@, o.slot) + num_param("cursor"@, o.cursor);
        lemma_key_absent_concat(num_param("slot"@, o.slot), num_param("cursor"@, o.cursor), key);
        let p2 = p1 + num_param("limit"@, o.limit);
        lemma_key_absent_concat(p1, num_param("limit"@, o.limit), key);
        let p3 = p2 + text_param("block_hash"@, o.block_hash);
        lemma_key_absent_concat(p2, text_param("block_hash"@, o.block_hash), key);
        let p4 = p3 + num_param("block_number"@, o.block_number);
        lemma_key_absent_concat(p3, num_param("block_number"@, o.block_number), key);
        let p5 = p4 + text_param("proposer_pubkey"@, o.proposer_pubkey);
        lemma_key_absent_concat(p4, text_param("proposer_pubkey"@, o.proposer_pubkey), key);
        let p6 = p5 + text_param("builder_pubkey"@, o.builder_pubkey);
        lemma_key_absent_concat(p5, text_param("builder_pubkey"@, o.builder_pubkey), key);
        lemma_key_absent_concat(p6, text_param("order_by"@, o.order_by), key);
    }
    assert(payload_field_unset(o, 0) == (o.slot is None));
    assert(keys[0] == "slot"@);
    assert(keys[1] == "cursor"@);
    assert(keys[2] == "limit"@);
    assert(keys[3] == "block_hash"@);
    assert(keys[4] == "block_number"@);
    assert(keys[5] == "proposer_pubkey"@);
    assert(keys[6] == "builder_pubkey"@);
    assert(keys[7] == "order_by"@);
}

spec fn payload_field_unset(o: PayloadDeliveredQueryOptions, j: int) -> bool {
    if j == 0 { o.slot is None }
    else if j == 1 { o.cursor is None }
    else if j == 2 { o.limit is None }
    else if j == 3 { o.block_hash is None }
    else if j == 4 { o.block_number is None }
    else if j == 5 { o.proposer_pubkey is None }
    else if j == 6 { o.builder_pubkey is None }
    else { o.order_by is None }
}

/// The key of every unset builder-bid filter is absent from the encoded parameters.
pub proof fn lemma_builder_unset_omitted(o: BuilderBidsReceivedOptions)
    ensures
        o.slot is None ==> key_absent(o.params(), "slot"@),
        o.block_hash is None ==> key_absent(o.params(), "block_hash"@),
        o.block_number is None ==> key_absent(o.params(), "block_number"@),
        o.builder_pubkey is None ==> key_absent(o.params(), "builder_pubkey"@),
        o.limit is None ==> key_absent(o.params(), "limit"@),
{
    reveal_strlit("slot");
    reveal_strlit("block_hash");
    reveal_strlit("block_number");
    reveal_strlit("builder_pubkey");
    reveal_strlit("limit");
    let keys = seq!["slot"@, "block_hash"@, "block_number"@, "builder_pubkey"@, "limit"@];
    assert forall|j: int, k: int| 0 <= j < 5 && 0 <= k < 5 && j != k implies keys[j] != keys[k] by {
        if keys[j] == keys[k] {
            assert(keys[j].len() == keys[k].len());
            assert(keys[j][0] == keys[k][0]);
            assert(keys[j][1] == keys[k][1]);
        }
    }
    assert forall|j: int| 0 <= j < 5 && builder_field_unset(o, j) implies key_absent(o.params(), #[trigger] keys[j]) by {
        let key = keys[j];
        lemma_num_key_absent("slot"@, o.slot, key);
        lemma_text_key_absent("block_hash"@, o.block_hash, key);
        lemma_num_key_absent("block_number"@, o.block_number, key);
        lemma_text_key_absent("builder_pubkey"@, o.builder_pubkey, key);
        lemma_num_key_absent("limit"@, o.limit, key);
        let p1 = num_param("slot"@, o.slot) + text_param("block_hash"@, o.block_hash);
        lemma_key_absent_concat(num_param("slot"@, o.slot), text_param("block_hash"@, o.block_hash), key);
        let p2 = p1 + num_param("block_number"@, o.block_number);
        lemma_key_absent_concat(p1, num_param("block_number"@, o.block_number), key);
        let p3 = p2 + text_param("builder_pubkey"@, o.builder_pubkey);
        lemma_key_absent_concat(p2, text_param("builder_pubkey"@, o.builder_pubkey), key);
        lemma_key_absent_concat(p3, num_param("limit"@, o.limit), key);
    }
    assert(keys[0] == "slot"@);
    assert(keys[1] == "block_hash"@);
    assert(keys[2] == "block_number"@);
    assert(keys[3] == "builder_pubkey"@);
    assert(keys[4] == "limit"@);
}

spec fn builder_field_unset(o: BuilderBidsReceivedOptions, j: int) -> bool {
    if j == 0 { o.slot is None }
    else if j == 1 { o.block_hash is None }
    else if j == 2 { o.block_number is None }
    else if j == 3 { o.builder_pubkey is None }
    else { o.limit is None }
}

} // verus!
