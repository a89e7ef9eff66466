//! The relay registry: relay names and their base endpoints.
use vstd::prelude::*;
use crate::error::RelayError;
use crate::text::text_eq;
use vstd::string::*;

verus! {

/// A relay name and its base endpoint, as text.
pub type RelayEntry = (Seq<char>, Seq<char>);

/// The endpoint of the first entry named `name`.
pub open spec fn lookup_in(es: Seq<RelayEntry>, name: Seq<char>) -> Option<Seq<char>>
    decreases es.len(),
{
    if es.len() == 0 {
        None
    } else if es[0].0 == name {
        Some(es[0].1)
    } else {
        lookup_in(es.drop_first(), name)
    }
}

/// No two entries share a name.
pub open spec fn names_unique(es: Seq<RelayEntry>) -> bool {
    forall|i: int, j: int| 0 <= i < j < es.len() ==> es[i].0 != es[j].0
}

/// Relay names mapped to base endpoints (`https://<credential>@<host>`), in the
/// order they were added. Names are case-sensitive and unique.
#[derive(Debug, Clone)]
pub struct RelayRegistry {
    entries: Vec<(String, String)>,
}

impl View for RelayRegistry {
    type V = Seq<RelayEntry>;

    closed spec fn view(&self) -> Seq<RelayEntry> {
        self.entries@.map_values(|e: (String, String)| (e.0@, e.1@))
    }
}

proof fn lemma_lookup_suffix(es: Seq<RelayEntry>, i: int, name: Seq<char>)
    requires
        0 <= i < es.len(),
        forall|k: int| 0 <= k < i ==> es[k].0 != name,
    ensures
        lookup_in(es, name) == lookup_in(es.subrange(i, es.len() as int), name),
    decreases i,
{
    if i > 0 {
        let t = es.drop_first();
        assert forall|k: int| 0 <= k < i - 1 implies t[k].0 != name by {
            assert(t[k] == es[k + 1]);
        }
        lemma_lookup_suffix(t, i - 1, name);
        assert(t.subrange(i - 1, t.len() as int) =~= es.subrange(i, es.len() as int));
    } else {
        assert(es.subrange(0, es.len() as int) =~= es);
    }
}

proof fn lemma_lookup_absent(es: Seq<RelayEntry>, name: Seq<char>)
    requires
        forall|k: int| 0 <= k < es.len() ==> es[k].0 != name,
    ensures
        lookup_in(es, name) is None,
    decreases es.len(),
{
    if es.len() > 0 {
        let t = es.drop_first();
        assert forall|k: int| 0 <= k < t.len() implies t[k].0 != name by {
            assert(t[k] == es[k + 1]);
        }
        lemma_lookup_absent(t, name);
    }
}

impl RelayRegistry {
    /// A registry with no relays.
    pub fn new() -> (r: RelayRegistry)
        ensures
            r@ == Seq::<RelayEntry>::empty(),
    {
        let r = RelayRegistry { entries: Vec::new() };
        assert(r@ =~= Seq::<RelayEntry>::empty());
        r
    }

    /// The number of relays.
    pub fn len(&self) -> (r: usize)
        ensures
            r == self@.len(),
    {
        self.entries.len()
    }

    /// The name of the relay at position `i`.
    pub fn name_at(&self, i: usize) -> (r: &String)
        requires
            i < self@.len(),
        ensures
            r@ == self@[i as int].0,
    {
        &self.entries[i].0
    }

    /// The names of all relays, in order.
    pub fn names(&self) -> (r: Vec<String>)
        ensures
            r@.len() == self@.len(),
            forall|i: int| 0 <= i < r@.len() ==> (#[trigger] r@[i])@ == self@[i].0,
    {
        let mut r: Vec<String> = Vec::new();
        let mut i: usize = 0;
        while i < self.entries.len()
            invariant
                i <= self.entries@.len(),
                r@.len() == i,
                forall|k: int| 0 <= k < i ==> (#[trigger] r@[k])@ == self@[k].0,
            decreases self.entries@.len() - i,
        {
            r.push(self.entries[i].0.clone());
            i = i + 1;
        }
        r
    }

    /// Position of the relay named `name`, if any.
    fn position(&self, name: &str) -> (r: Option<usize>)
        ensures
            match r {
                Some(i) => i < self@.len() && self@[i as int].0 == name@
                    && lookup_in(self@, name@) == Some(self@[i as int].1)
                    && forall|k: int| 0 <= k < i ==> self@[k].0 != name@,
                None => lookup_in(self@, name@) is None
                    && forall|k: int| 0 <= k < self@.len() ==> self@[k].0 != name@,
            },
    {
        let mut i: usize = 0;
        while i < self.entries.len()
            invariant
                i <= self.entries@.len(),
                self@.len() == self.entries@.len(),
                forall|k: int| 0 <= k < i ==> self@[k].0 != name@,
            decreases self.entries@.len() - i,
        {
            if text_eq(self.entries[i].0.as_str(), name) {
                proof {
                    lemma_lookup_suffix(self@, i as int, name@);
                }
                return Some(i);
            }
            i = i + 1;
        }
        proof {
            lemma_lookup_absent(self@, name@);
        }
        None
    }

    /// The base endpoint of the relay named `name`; `UnknownRelay(name)` when
    /// no relay has that name. There is no fallback endpoint.
    pub fn lookup(&self, name: &str) -> (r: Result<String, RelayError>)
        ensures
            match lookup_in(self@, name@) {
                Some(url) => r matches Ok(u) && u@ == url,
                None => r matches Err(RelayError::UnknownRelay(n)) && n@ == name@,
            },
    {
        match self.position(name) {
            Some(i) => Ok(self.entries[i].1.clone()),
            None => Err(RelayError::UnknownRelay(name.to_owned())),
        }
    }

    /// Adds a relay, or replaces the endpoint of the relay of that name in place.
    pub fn insert(&mut self, name: String, endpoint: String)
        ensures
            lookup_in(old(self)@, name@) is Some ==> final(self)@.len() == old(self)@.len(),
            lookup_in(old(self)@, name@) is None ==> final(self)@ == old(self)@.push((name@, endpoint@)),
            lookup_in(final(self)@, name@) == Some(endpoint@),
            names_unique(old(self)@) ==> names_unique(final(self)@),
            forall|n: Seq<char>| n != name@ ==> lookup_in(#[trigger] final(self)@, n) == lookup_in(old(self)@, n),
    {
        match self.position(name.as_str()) {
            Some(i) => {
                let ghost pre = self@;
                self.entries.set(i, (name, endpoint));
                proof {
                    let post = self@;
                    assert(post =~= pre.update(i as int, (name@, endpoint@)));
                    lemma_lookup_update(pre, i as int, name@, endpoint@);
                }
            },
            None => {
                let ghost pre = self@;
                self.entries.push((name, endpoint));
                proof {
                    assert(self@ =~= pre.push((name@, endpoint@)));
                    lemma_lookup_push(pre, name@, endpoint@);
                }
            },
        }
    }
}

proof fn lemma_lookup_update(es: Seq<RelayEntry>, i: int, name: Seq<char>, url: Seq<char>)
    requires
        0 <= i < es.len(),
        es[i].0 == name,
        forall|k: int| 0 <= k < i ==> es[k].0 != name,
    ensures
        lookup_in(es.update(i, (name, url)), name) == Some(url),
        names_unique(es) ==> names_unique(es.update(i, (name, url))),
        forall|n: Seq<char>| n != name ==> lookup_in(#[trigger] es.update(i, (name, url)), n) == lookup_in(es, n),
    decreases es.len(),
{
    let u = es.update(i, (name, url));
    if i > 0 {
        let t = es.drop_first();
        assert forall|k: int| 0 <= k < i - 1 implies t[k].0 != name by {
            assert(t[k] == es[k + 1]);
        }
        lemma_lookup_update(t, i - 1, name, url);
        assert(u.drop_first() =~= t.update(i - 1, (name, url)));
        assert forall|n: Seq<char>| n != name implies #[trigger] lookup_in(u, n) == lookup_in(es, n) by {
            assert(lookup_in(t.update(i - 1, (name, url)), n) == lookup_in(t, n));
        }
    } else {
        assert(u.drop_first() =~= es.drop_first());
    }
}

proof fn lemma_lookup_push(es: Seq<RelayEntry>, name: Seq<char>, url: Seq<char>)
    requires
        forall|k: int| 0 <= k < es.len() ==> es[k].0 != name,
    ensures
        lookup_in(es.push((name, url)), name) == Some(url),
        names_unique(es) ==> names_unique(es.push((name, url))),
        forall|n: Seq<char>| n != name ==> lookup_in(#[trigger] es.push((name, url)), n) == lookup_in(es, n),
    decreases es.len(),
{
    let p = es.push((name, url));
    if es.len() > 0 {
        let t = es.drop_first();
        assert forall|k: int| 0 <= k < t.len() implies t[k].0 != name by {
            assert(t[k] == es[k + 1]);
        }
        lemma_lookup_push(t, name, url);
        assert(p.drop_first() =~= t.push((name, url)));
    } else {
        assert(p.drop_first() =~= Seq::<RelayEntry>::empty());
    }
    assert forall|n: Seq<char>| n != name implies #[trigger] lookup_in(p, n) == lookup_in(es, n) by {
        if es.len() == 0 {
            assert(lookup_in(p.drop_first(), n) is None);
        } else {
            assert(lookup_in(es.drop_first().push((name, url)), n) == lookup_in(es.drop_first(), n));
        }
    }
}

/// The built-in relays: ultrasound, flashbots, aestus, agnostic and the two bloXroute relays.
pub open spec fn default_relay_table() -> Seq<RelayEntry> {
    seq![
        ("ultrasound"@, "https://0xa1559ace749633b997cb3fdacffb890aeebdb0f5a3b6aaa7eeeaf1a38af0a8fe88b9e4b1f61f236d2e64d95733327a62@relay.ultrasound.money"@),
        ("flashbots"@, "https://0xac6e77dfe25ecd6110b8e780608cce0dab71fdd5ebea22a16c0205200f2f8e2e3ad3b71d3499c54ad14d6c21b41a37ae@boost-relay.flashbots.net"@),
        ("aestus"@, "https://0xa15b52576bcbf1072f4a011c0f99f9fb6c66f3e1ff321f11f461d15e31b1cb359caa092c71bbded0bae5b5ea401aab7e@aestus.live"@),
        ("agnostic"@, "https://0xa7ab7a996c8584251c8f925da3170bdfd6ebc75d50f5ddc4050a6fdc77f2a3b5fce2cc750d0865e05d7228af97d69561@agnostic-relay.net"@),
        ("bloxroute-max-profit"@, "https://0x8b5d2e73e2a3a55c6c87b8b6eb92e0149a125c852751db1422fa951e42a09b82c142c3ea98d0d9930b056a3bc9896b8f@bloxroute.max-profit.blxrbdn.com"@),
        ("bloxroute-regulated"@, "https://0xb0b07cd0abef743db4260b0ed50619cf6ad4d82064cb4fbec9d3ec530f7c5e6793d9f286c4e082c0244ffb9f2658fe88@bloxroute.regulated.blxrbdn.com"@),
    ]
}

impl RelayRegistry {
    /// The registry of the built-in relays.
    pub fn default_relays() -> (r: RelayRegistry)
        ensures
            r@ == default_relay_table(),
    {
        let entries = vec![
        (String::from_str("ultrasound"), String::from_str("https://0xa1559ace749633b997cb3fdacffb890aeebdb0f5a3b6aaa7eeeaf1a38af0a8fe88b9e4b1f61f236d2e64d95733327a62@relay.ultrasound.money")),
        (String::from_str("flashbots"), String::from_str("https://0xac6e77dfe25ecd6110b8e780608cce0dab71fdd5ebea22a16c0205200f2f8e2e3ad3b71d3499c54ad14d6c21b41a37ae@boost-relay.flashbots.net")),
        (String::from_str("aestus"), String::from_str("https://0xa15b52576bcbf1072f4a011c0f99f9fb6c66f3e1ff321f11f461d15e31b1cb359caa092c71bbded0bae5b5ea401aab7e@aestus.live")),
        (String::from_str("agnostic"), String::from_str("https://0xa7ab7a996c8584251c8f925da3170bdfd6ebc75d50f5ddc4050a6fdc77f2a3b5fce2cc750d0865e05d7228af97d69561@agnostic-relay.net")),
        (String::from_str("bloxroute-max-profit"), String::from_str("https://0x8b5d2e73e2a3a55c6c87b8b6eb92e0149a125c852751db1422fa951e42a09b82c142c3ea98d0d9930b056a3bc9896b8f@bloxroute.max-profit.blxrbdn.com")),
        (String::from_str("bloxroute-regulated"), String::from_str("https://0xb0b07cd0abef743db4260b0ed50619cf6ad4d82064cb4fbec9d3ec530f7c5e6793d9f286c4e082c0244ffb9f2658fe88@bloxroute.regulated.blxrbdn.com")),
        ];
        let r = RelayRegistry { entries };
        assert(r@ =~= default_relay_table());
        r
    }
}

} // verus!
