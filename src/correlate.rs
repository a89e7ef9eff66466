//! Winning-bid correlation: the payload a relay delivered for a slot is matched,
//! by block hash, to the builder bid that the same relay received.
use vstd::prelude::*;
use crate::error::RelayError;
use crate::query::{opt_text, BuilderBidsReceivedOptions};
use crate::types::{BuilderBlockBidtrace, PayloadBidtrace};

verus! {

/// For each relay that delivered at least one payload: its name and the block
/// hash of the first payload it returned, in relay order.
pub open spec fn delivered_hashes(d: Seq<(String, Vec<PayloadBidtrace>)>) -> Seq<(Seq<char>, Seq<char>)>
    decreases d.len(),
{
    if d.len() == 0 {
        Seq::empty()
    } else if d.last().1@.len() > 0 {
        delivered_hashes(d.drop_last()).push((d.last().0@, d.last().1@[0].block_hash@))
    } else {
        delivered_hashes(d.drop_last())
    }
}

/// The builder-bid filter for one slot and block hash, nothing else set.
pub open spec fn is_bid_filter(o: BuilderBidsReceivedOptions, slot: u64, hash: Seq<char>) -> bool {
    &&& o.slot == Some(slot)
    &&& opt_text(o.block_hash) == Some(hash)
    &&& o.block_number is None
    &&& o.builder_pubkey is None
    &&& o.limit is None
}

/// The builder-bid queries that find the winning bid of `slot`: one for each
/// relay that delivered a payload, filtered by the slot and that payload's
/// block hash. Relays without a delivered payload get none.
pub fn winning_bid_queries(slot: u64, delivered: &Vec<(String, Vec<PayloadBidtrace>)>) -> (r: Vec<
    (String, BuilderBidsReceivedOptions),
>)
    ensures
        r@.len() == delivered_hashes(delivered@).len(),
        forall|k: int|
            0 <= k < r@.len() ==> (#[trigger] r@[k]).0@ == delivered_hashes(delivered@)[k].0
                && is_bid_filter(r@[k].1, slot, delivered_hashes(delivered@)[k].1),
{
    let mut r: Vec<(String, BuilderBidsReceivedOptions)> = Vec::new();
    let mut i: usize = 0;
    while i < delivered.len()
        invariant
            i <= delivered@.len(),
            r@.len() == delivered_hashes(delivered@.subrange(0, i as int)).len(),
            forall|k: int|
                0 <= k < r@.len() ==> (#[trigger] r@[k]).0@ == delivered_hashes(
                    delivered@.subrange(0, i as int),
                )[k].0 && is_bid_filter(
                    r@[k].1,
                    slot,
                    delivered_hashes(delivered@.subrange(0, i as int))[k].1,
                ),
        decreases delivered@.len() - i,
    {
        proof {
            let t = delivered@.subrange(0, i + 1);
            assert(t.drop_last() =~= delivered@.subrange(0, i as int));
            assert(t.last() == delivered@[i as int]);
        }
        let payloads = &delivered[i].1;
        if payloads.len() > 0 {
            let opts = BuilderBidsReceivedOptions {
                slot: Some(slot),
                block_hash: Some(payloads[0].block_hash.clone()),
                block_number: None,
                builder_pubkey: None,
                limit: None,
            };
            r.push((delivered[i].0.clone(), opts));
        }
        i = i + 1;
    }
    assert(delivered@.subrange(0, i as int) =~= delivered@);
    r
}

/// One answer to a builder-bid query: the relay and the bids it returned.
pub type BidAnswer = (String, Result<Vec<BuilderBlockBidtrace>, RelayError>);

/// The winning-bid timestamps, relay by relay: the submission time of the
/// first bid each relay returned. The first relay whose query failed, or that
/// returned no bid for a payload it delivered, decides the error.
pub open spec fn winning_bids(slot: u64, answers: Seq<BidAnswer>) -> Result<Seq<(Seq<char>, u128)>, RelayError>
    decreases answers.len(),
{
    if answers.len() == 0 {
        Ok(Seq::empty())
    } else {
        match answers[0].1 {
            Err(e) => Err(e),
            Ok(bids) => if bids@.len() == 0 {
                Err(RelayError::CorrelationFailure { slot, relay: answers[0].0 })
            } else {
                prepend(seq![(answers[0].0@, bids@[0].timestamp_ms)], winning_bids(slot, answers.drop_first()))
            },
        }
    }
}

/// `t` in front of the timestamps of `r`, or the error of `r`.
pub open spec fn prepend(t: Seq<(Seq<char>, u128)>, r: Result<Seq<(Seq<char>, u128)>, RelayError>) -> Result<
    Seq<(Seq<char>, u128)>,
    RelayError,
> {
    match r {
        Ok(x) => Ok(t + x),
        Err(e) => Err(e),
    }
}

pub open spec fn timestamps_view(v: Seq<(String, u128)>) -> Seq<(Seq<char>, u128)> {
    v.map_values(|p: (String, u128)| (p.0@, p.1))
}

/// Turns the answers to [`winning_bid_queries`] into the winning-bid timestamp
/// of each relay. A relay that delivered a payload but returned no matching bid
/// is reported as `CorrelationFailure(slot, relay)`.
pub fn winning_bid_timestamps(slot: u64, answers: Vec<BidAnswer>) -> (r: Result<Vec<(String, u128)>, RelayError>)
    ensures
        match winning_bids(slot, answers@) {
            Ok(t) => r matches Ok(v) && timestamps_view(v@) == t,
            Err(e) => r == Err::<Vec<(String, u128)>, RelayError>(e),
        },
{
    let ghost all = answers@;
    let mut rest = answers;
    let mut acc: Vec<(String, u128)> = Vec::new();
    while rest.len() > 0
        invariant
            all == answers@,
            winning_bids(slot, all) == prepend(timestamps_view(acc@), winning_bids(slot, rest@)),
        decreases rest@.len(),
    {
        let ghost before = rest@;
        let (relay, outcome) = rest.remove(0);
        proof {
            assert(before.drop_first() =~= rest@);
            assert(before[0] == (relay, outcome));
        }
        match outcome {
            Err(e) => {
                assert(winning_bids(slot, before) == Err::<Seq<(Seq<char>, u128)>, RelayError>(e));
                return Err(e);
            },
            Ok(bids) => {
                if bids.len() == 0 {
                    assert(winning_bids(slot, before) == Err::<Seq<(Seq<char>, u128)>, RelayError>(
                        RelayError::CorrelationFailure { slot, relay },
                    ));
                    return Err(RelayError::CorrelationFailure { slot, relay });
                }
                let ghost pre = acc@;
                acc.push((relay, bids[0].timestamp_ms));
                proof {
                    let t = seq![(before[0].0@, bids@[0].timestamp_ms)];
                    assert(timestamps_view(acc@) =~= timestamps_view(pre) + t);
                    match winning_bids(slot, rest@) {
                        Ok(x) => {
                            assert(timestamps_view(pre) + (t + x) =~= timestamps_view(pre) + t + x);
                        },
                        Err(_) => {},
                    }
                }
            },
        }
    }
    assert(timestamps_view(acc@) + Seq::<(Seq<char>, u128)>::empty() =~= timestamps_view(acc@));
    Ok(acc)
}

} // verus!
