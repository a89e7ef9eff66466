//! Fan-in of per-relay outcomes: a failing relay is left out, never fatal.
use vstd::prelude::*;
use crate::error::RelayError;

verus! {

/// The relays whose call succeeded, with their results, in order.
pub open spec fn successes<T>(os: Seq<(String, Result<T, RelayError>)>) -> Seq<(String, T)>
    decreases os.len(),
{
    if os.len() == 0 {
        Seq::empty()
    } else {
        let prev = successes(os.drop_last());
        match os.last().1 {
            Ok(v) => prev.push((os.last().0, v)),
            Err(_) => prev,
        }
    }
}

/// The relays whose call failed, with their errors, in order.
pub open spec fn failures<T>(os: Seq<(String, Result<T, RelayError>)>) -> Seq<(String, RelayError)>
    decreases os.len(),
{
    if os.len() == 0 {
        Seq::empty()
    } else {
        let prev = failures(os.drop_last());
        match os.last().1 {
            Ok(_) => prev,
            Err(e) => prev.push((os.last().0, e)),
        }
    }
}

/// Result of a query over many relays: the relays that answered, and those
/// that were skipped, with the reason.
#[derive(Debug)]
pub struct RelayResults<T> {
    pub results: Vec<(String, T)>,
    pub skipped: Vec<(String, RelayError)>,
}

/// Splits per-relay outcomes into results and skipped relays. Each result
/// stays attributed to its own relay; no failure aborts the others.
pub fn collect_relay_outcomes<T>(outcomes: Vec<(String, Result<T, RelayError>)>) -> (r: RelayResults<T>)
    ensures
        r.results@ == successes(outcomes@),
        r.skipped@ == failures(outcomes@),
{
    let ghost all = outcomes@;
    let mut rest = outcomes;
    let mut results: Vec<(String, T)> = Vec::new();
    let mut skipped: Vec<(String, RelayError)> = Vec::new();
    let ghost k: int = 0;
    while rest.len() > 0
        invariant
            0 <= k <= all.len(),
            rest@ == all.subrange(k, all.len() as int),
            results@ == successes(all.subrange(0, k)),
            skipped@ == failures(all.subrange(0, k)),
        decreases rest@.len(),
    {
        let (name, outcome) = rest.remove(0);
        proof {
            assert(all[k] == (name, outcome));
            assert(all.subrange(0, k + 1).drop_last() =~= all.subrange(0, k));
            assert(all.subrange(0, k + 1).last() == all[k]);
        }
        match outcome {
            Ok(v) => results.push((name, v)),
            Err(e) => skipped.push((name, e)),
        }
        proof {
            k = k + 1;
            assert(rest@ =~= all.subrange(k, all.len() as int));
        }
    }
    assert(all.subrange(0, k) =~= all);
    RelayResults { results, skipped }
}

} // verus!
