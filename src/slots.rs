//! Slot coverage of the current and next epoch: which relays have a validator
//! registered for each slot, and the slots that no relay covers.
use vstd::prelude::*;
use crate::aggregate::{collect_relay_outcomes, successes};
use crate::error::RelayError;
use crate::types::RegisteredValidator;

verus! {

/// Slots in the current and next epoch: two epochs of 32 slots.
pub const WINDOW_SLOTS: u64 = 64;

/// Registrations returned by each relay, in relay order.
pub type Registrations = Seq<(String, Vec<RegisteredValidator>)>;

/// Whether `vs` holds a validator for slot `s`.
pub open spec fn lists_slot(vs: Seq<RegisteredValidator>, s: u64) -> bool {
    exists|j: int| 0 <= j < vs.len() && (#[trigger] vs[j]).slot == s
}

/// Whether some relay has a validator registered for slot `s`.
pub open spec fn registered(regs: Registrations, s: u64) -> bool {
    exists|i: int| 0 <= i < regs.len() && lists_slot((#[trigger] regs[i]).1@, s)
}

/// `m` is the least registered slot.
pub open spec fn is_anchor(regs: Registrations, m: u64) -> bool {
    registered(regs, m) && forall|s: u64| #[trigger] registered(regs, s) ==> m <= s
}

/// The slots from `m` on that the window covers (fewer at the top of the `u64` range).
pub open spec fn window_len(m: u64) -> nat {
    if u64::MAX - m + 1 < WINDOW_SLOTS { (u64::MAX - m + 1) as nat } else { WINDOW_SLOTS as nat }
}

pub open spec fn in_window(m: u64, s: u64) -> bool {
    m <= s && s < m + WINDOW_SLOTS
}

/// Names of the relays with a validator registered for slot `s`, in relay order.
pub open spec fn relays_at(regs: Registrations, s: u64) -> Seq<Seq<char>>
    decreases regs.len(),
{
    if regs.len() == 0 {
        Seq::empty()
    } else if lists_slot(regs.last().1@, s) {
        relays_at(regs.drop_last(), s).push(regs.last().0@)
    } else {
        relays_at(regs.drop_last(), s)
    }
}

pub open spec fn names_view(v: Vec<String>) -> Seq<Seq<char>> {
    v@.map_values(|x: String| x@)
}

/// Whether `r` has an entry for slot `x`.
pub open spec fn has_slot(r: Seq<(u64, Vec<String>)>, x: u64) -> bool {
    exists|q: int| 0 <= q < r.len() && (#[trigger] r[q]).0 == x
}

/// `r` maps slots to the relays registered for them: first each slot of the
/// window anchored at the least registered slot, in slot order, then each
/// registered slot beyond the window. Every slot has one entry, and the map is
/// empty when no slot is registered.
pub open spec fn is_slot_map(regs: Registrations, r: Seq<(u64, Vec<String>)>) -> bool {
    &&& (forall|s: u64| !registered(regs, s)) ==> r.len() == 0
    &&& forall|i: int, j: int| 0 <= i < j < r.len() ==> r[i].0 != r[j].0
    &&& forall|m: u64| #[trigger] is_anchor(regs, m) ==> {
        &&& r.len() >= window_len(m)
        &&& forall|k: int| 0 <= k < window_len(m) ==> (#[trigger] r[k]).0 == m + k && names_view(
            r[k].1,
        ) == relays_at(regs, (m + k) as u64)
        &&& forall|k: int| window_len(m) <= k < r.len() ==> !in_window(m, (#[trigger] r[k]).0)
            && registered(regs, r[k].0) && names_view(r[k].1) == relays_at(regs, r[k].0)
        &&& forall|x: u64| #[trigger] registered(regs, x) ==> has_slot(r, x)
    }
}

/// `r` lists, in increasing order, the slots of the window anchored at the
/// least registered slot that no relay covers; it is empty when no slot is registered.
pub open spec fn is_vanilla_set(regs: Registrations, r: Seq<u64>) -> bool {
    &&& forall|i: int, j: int| 0 <= i < j < r.len() ==> r[i] < r[j]
    &&& (forall|s: u64| !registered(regs, s)) ==> r.len() == 0
    &&& forall|m: u64| #[trigger] is_anchor(regs, m) ==> forall|x: u64| #[trigger] r.contains(x) <==> (
    in_window(m, x) && !registered(regs, x))
}

proof fn lemma_relays_at_empty(regs: Registrations, s: u64)
    ensures
        (relays_at(regs, s).len() == 0) == !registered(regs, s),
    decreases regs.len(),
{
    if regs.len() > 0 {
        let t = regs.drop_last();
        lemma_relays_at_empty(t, s);
        if registered(t, s) {
            let i = choose|i: int| 0 <= i < t.len() && lists_slot((#[trigger] t[i]).1@, s);
            assert(regs[i] == t[i]);
        }
        if registered(regs, s) && !lists_slot(regs.last().1@, s) {
            let i = choose|i: int| 0 <= i < regs.len() && lists_slot((#[trigger] regs[i]).1@, s);
            assert(t[i] == regs[i]);
        }
        if lists_slot(regs.last().1@, s) {
            assert(regs[regs.len() - 1] == regs.last());
        }
    }
}

fn lists(vs: &Vec<RegisteredValidator>, s: u64) -> (r: bool)
    ensures
        r == lists_slot(vs@, s),
{
    let mut j: usize = 0;
    while j < vs.len()
        invariant
            j <= vs@.len(),
            forall|k: int| 0 <= k < j ==> (#[trigger] vs@[k]).slot != s,
        decreases vs@.len() - j,
    {
        if vs[j].slot == s {
            return true;
        }
        j = j + 1;
    }
    false
}

/// The least registered slot, if any slot is registered.
fn least_slot(regs: &Vec<(String, Vec<RegisteredValidator>)>) -> (r: Option<u64>)
    ensures
        r is None ==> forall|s: u64| !registered(regs@, s),
        r matches Some(m) ==> is_anchor(regs@, m),
{
    let mut best: Option<u64> = None;
    let mut i: usize = 0;
    while i < regs.len()
        invariant
            i <= regs@.len(),
            best is None ==> forall|k: int| 0 <= k < i ==> (#[trigger] regs@[k]).1@.len() == 0,
            best matches Some(m) ==> exists|k: int| 0 <= k < i && lists_slot((#[trigger] regs@[k]).1@, m),
            best matches Some(m) ==> forall|k: int, j: int|
                0 <= k < i && 0 <= j < regs@[k].1@.len() ==> m <= (#[trigger] regs@[k].1@[j]).slot,
        decreases regs@.len() - i,
    {
        let vs = &regs[i].1;
        let mut j: usize = 0;
        while j < vs.len()
            invariant
                i < regs@.len(),
                vs@ == regs@[i as int].1@,
                j <= vs@.len(),
                best is None ==> forall|k: int| 0 <= k < i ==> (#[trigger] regs@[k]).1@.len() == 0,
                best is None ==> j == 0,
                best matches Some(m) ==> exists|k: int| 0 <= k <= i && lists_slot((#[trigger] regs@[k]).1@, m),
                best matches Some(m) ==> forall|k: int, jj: int|
                    0 <= k < i && 0 <= jj < regs@[k].1@.len() ==> m <= (#[trigger] regs@[k].1@[jj]).slot,
                best matches Some(m) ==> forall|jj: int| 0 <= jj < j ==> m <= (#[trigger] vs@[jj]).slot,
            decreases vs@.len() - j,
        {
            let s = vs[j].slot;
            let replace = match best {
                None => true,
                Some(m) => s < m,
            };
            if replace {
                best = Some(s);
                assert(lists_slot(regs@[i as int].1@, s)) by {
                    assert(vs@[j as int].slot == s);
                }
            }
            j = j + 1;
        }
        i = i + 1;
    }
    match best {
        None => {
            assert forall|s: u64| !registered(regs@, s) by {
                if registered(regs@, s) {
                    let k = choose|k: int| 0 <= k < regs@.len() && lists_slot((#[trigger] regs@[k]).1@, s);
                    let j = choose|j: int| 0 <= j < regs@[k].1@.len() && (#[trigger] regs@[k].1@[j]).slot == s;
                }
            }
        },
        Some(m) => {
            assert forall|s: u64| #[trigger] registered(regs@, s) implies m <= s by {
                let k = choose|k: int| 0 <= k < regs@.len() && lists_slot((#[trigger] regs@[k]).1@, s);
                let j = choose|j: int| 0 <= j < regs@[k].1@.len() && (#[trigger] regs@[k].1@[j]).slot == s;
            }
        },
    }
    best
}

/// The names of the relays with a validator registered for slot `s`.
fn relays_registered_at(regs: &Vec<(String, Vec<RegisteredValidator>)>, s: u64) -> (r: Vec<String>)
    ensures
        names_view(r) == relays_at(regs@, s),
{
    let mut r: Vec<String> = Vec::new();
    let mut i: usize = 0;
    while i < regs.len()
        invariant
            i <= regs@.len(),
            names_view(r) == relays_at(regs@.subrange(0, i as int), s),
        decreases regs@.len() - i,
    {
        proof {
            let t = regs@.subrange(0, i + 1);
            assert(t.drop_last() =~= regs@.subrange(0, i as int));
            assert(t.last() == regs@[i as int]);
        }
        if lists(&regs[i].1, s) {
            r.push(regs[i].0.clone());
            assert(names_view(r) =~= relays_at(regs@.subrange(0, i as int), s).push(regs@[i as int].0@));
        }
        i = i + 1;
    }
    assert(regs@.subrange(0, i as int) =~= regs@);
    r
}

fn holds_slot(r: &Vec<(u64, Vec<String>)>, x: u64) -> (b: bool)
    ensures
        b == has_slot(r@, x),
{
    let mut q: usize = 0;
    while q < r.len()
        invariant
            q <= r@.len(),
            forall|k: int| 0 <= k < q ==> (#[trigger] r@[k]).0 != x,
        decreases r@.len() - q,
    {
        if r[q].0 == x {
            return true;
        }
        q = q + 1;
    }
    false
}

/// Maps slots to the relays that have a validator registered for them: every
/// slot of the current and next epoch, the window starting at the least
/// registered slot, and after it any registered slot beyond the window. With no
/// registration at all there is no window and the map is empty.
pub fn slot_registrations(regs: &Vec<(String, Vec<RegisteredValidator>)>) -> (r: Vec<(u64, Vec<String>)>)
    ensures
        is_slot_map(regs@, r@),
        r@.len() > 0 ==> exists|m: u64| is_anchor(regs@, m),
        forall|i: int, j: int| 0 <= i < j < r@.len() && r@[i].1@.len() == 0 ==> r@[i].0 < r@[j].0,
{
    let mut r: Vec<(u64, Vec<String>)> = Vec::new();
    let m = match least_slot(regs) {
        None => {
            return r;
        },
        Some(m) => m,
    };
    let mut k: u64 = 0;
    while k < WINDOW_SLOTS && k <= u64::MAX - m
        invariant
            is_anchor(regs@, m),
            k <= WINDOW_SLOTS,
            k <= window_len(m),
            r@.len() == k,
            forall|i: int, j: int| 0 <= i < j < r@.len() ==> r@[i].0 < r@[j].0,
            forall|q: int| 0 <= q < k ==> (#[trigger] r@[q]).0 == m + q && names_view(r@[q].1)
                == relays_at(regs@, (m + q) as u64),
        decreases WINDOW_SLOTS - k,
    {
        let s = m + k;
        let names = relays_registered_at(regs, s);
        r.push((s, names));
        k = k + 1;
    }
    let ghost wl = window_len(m);
    assert(r@.len() == wl);
    let mut i: usize = 0;
    while i < regs.len()
        invariant
            is_anchor(regs@, m),
            wl == window_len(m),
            i <= regs@.len(),
            r@.len() >= wl,
            forall|a: int, b: int| 0 <= a < b < r@.len() ==> r@[a].0 != r@[b].0,
            forall|a: int, b: int| 0 <= a < b < wl ==> r@[a].0 < r@[b].0,
            forall|q: int| 0 <= q < wl ==> (#[trigger] r@[q]).0 == m + q && names_view(r@[q].1)
                == relays_at(regs@, (m + q) as u64),
            forall|q: int| wl <= q < r@.len() ==> !in_window(m, (#[trigger] r@[q]).0)
                && registered(regs@, r@[q].0) && names_view(r@[q].1) == relays_at(regs@, r@[q].0),
            forall|ii: int, jj: int|
                0 <= ii < i && 0 <= jj < regs@[ii].1@.len() && !in_window(m, (#[trigger] regs@[ii].1@[jj]).slot)
                    ==> has_slot(r@, regs@[ii].1@[jj].slot),
        decreases regs@.len() - i,
    {
        let vs = &regs[i].1;
        let mut j: usize = 0;
        while j < vs.len()
            invariant
                is_anchor(regs@, m),
                wl == window_len(m),
                i < regs@.len(),
                vs@ == regs@[i as int].1@,
                j <= vs@.len(),
                r@.len() >= wl,
                forall|a: int, b: int| 0 <= a < b < r@.len() ==> r@[a].0 != r@[b].0,
                forall|a: int, b: int| 0 <= a < b < wl ==> r@[a].0 < r@[b].0,
                forall|q: int| 0 <= q < wl ==> (#[trigger] r@[q]).0 == m + q && names_view(r@[q].1)
                    == relays_at(regs@, (m + q) as u64),
                forall|q: int| wl <= q < r@.len() ==> !in_window(m, (#[trigger] r@[q]).0)
                    && registered(regs@, r@[q].0) && names_view(r@[q].1) == relays_at(regs@, r@[q].0),
                forall|ii: int, jj: int|
                    0 <= ii < i && 0 <= jj < regs@[ii].1@.len() && !in_window(m, (#[trigger] regs@[ii].1@[jj]).slot)
                        ==> has_slot(r@, regs@[ii].1@[jj].slot),
                forall|jj: int| 0 <= jj < j && !in_window(m, (#[trigger] vs@[jj]).slot) ==> has_slot(r@, vs@[jj].slot),
            decreases vs@.len() - j,
        {
            let x = vs[j].slot;
            proof {
                assert(lists_slot(regs@[i as int].1@, x)) by {
                    assert(vs@[j as int].slot == x);
                }
                assert(registered(regs@, x));
            }
            if x - m >= WINDOW_SLOTS && !holds_slot(&r, x) {
                let ghost pre = r@;
                let names = relays_registered_at(regs, x);
                r.push((x, names));
                proof {
                    assert(r@[pre.len() as int].0 == x);
                    assert forall|ii: int, jj: int|
                        0 <= ii < i && 0 <= jj < regs@[ii].1@.len() && !in_window(m, (#[trigger] regs@[ii].1@[jj]).slot)
                            implies has_slot(r@, regs@[ii].1@[jj].slot) by {
                        let q = choose|q: int| 0 <= q < pre.len() && (#[trigger] pre[q]).0 == regs@[ii].1@[jj].slot;
                        assert(r@[q] == pre[q]);
                    }
                    assert forall|jj: int| 0 <= jj < j + 1 && !in_window(m, (#[trigger] vs@[jj]).slot) implies has_slot(r@, vs@[jj].slot) by {
                        if jj < j {
                            let q = choose|q: int| 0 <= q < pre.len() && (#[trigger] pre[q]).0 == vs@[jj].slot;
                            assert(r@[q] == pre[q]);
                        } else {
                            assert(r@[pre.len() as int].0 == vs@[jj].slot);
                        }
                    }
                }
            }
            j = j + 1;
        }
        i = i + 1;
    }
    proof {
        assert forall|m2: u64| #[trigger] is_anchor(regs@, m2) implies m2 == m by {
            assert(registered(regs@, m2) ==> m <= m2);
            assert(registered(regs@, m) ==> m2 <= m);
        }
        assert forall|x: u64| #[trigger] registered(regs@, x) implies has_slot(r@, x) by {
            if in_window(m, x) {
                assert(r@[x - m].0 == x);
            } else {
                let ii = choose|ii: int| 0 <= ii < regs@.len() && lists_slot((#[trigger] regs@[ii]).1@, x);
                let jj = choose|jj: int| 0 <= jj < regs@[ii].1@.len() && (#[trigger] regs@[ii].1@[jj]).slot == x;
            }
        }
        assert forall|a: int, b: int| 0 <= a < b < r@.len() && r@[a].1@.len() == 0 implies r@[a].0 < r@[b].0 by {
            if a >= wl {
                lemma_relays_at_empty(regs@, r@[a].0);
                assert(names_view(r@[a].1).len() == r@[a].1@.len());
            } else if b >= wl {
                assert(!in_window(m, r@[b].0));
                assert(registered(regs@, r@[b].0));
            }
        }
    }
    r
}

spec fn empty_before(map: Seq<(u64, Vec<String>)>, k: int, x: u64) -> bool {
    exists|q: int| 0 <= q < k && (#[trigger] map[q]).0 == x && map[q].1@.len() == 0
}

/// The slots of the current and next epoch for which no relay has a
/// validator registered, in increasing order; none when nothing is registered.
pub fn vanilla_slots(regs: &Vec<(String, Vec<RegisteredValidator>)>) -> (r: Vec<u64>)
    ensures
        is_vanilla_set(regs@, r@),
{
    let map = slot_registrations(regs);
    let mut r: Vec<u64> = Vec::new();
    let mut k: usize = 0;
    while k < map.len()
        invariant
            is_slot_map(regs@, map@),
            k <= map@.len(),
            forall|i: int, j: int| 0 <= i < j < r@.len() ==> r@[i] < r@[j],
            forall|i: int| 0 <= i < r@.len() ==> empty_before(map@, k as int, #[trigger] r@[i]),
            forall|q: int| 0 <= q < k && (#[trigger] map@[q]).1@.len() == 0 ==> r@.contains(map@[q].0),
            r@.len() > 0 ==> exists|q: int| 0 <= q < k && (#[trigger] map@[q]).0 == r@.last(),
            forall|i: int, j: int| 0 <= i < j < map@.len() && map@[i].1@.len() == 0 ==> map@[i].0 < map@[j].0,
            forall|i: int, q: int| 0 <= i < r@.len() && k <= q < map@.len() ==> #[trigger] r@[i] < #[trigger] map@[q].0,
        decreases map@.len() - k,
    {
        if map[k].1.len() == 0 {
            let ghost pre = r@;
            r.push(map[k].0);
            proof {
                assert forall|i: int| 0 <= i < r@.len() implies empty_before(map@, k + 1, #[trigger] r@[i]) by {
                    if i < pre.len() {
                        assert(r@[i] == pre[i]);
                    } else {
                        assert(map@[k as int].0 == r@[i]);
                    }
                }
                assert forall|q: int| 0 <= q < k + 1 && (#[trigger] map@[q]).1@.len() == 0 implies r@.contains(map@[q].0) by {
                    if q < k {
                        let i = choose|i: int| 0 <= i < pre.len() && pre[i] == map@[q].0;
                        assert(r@[i] == pre[i]);
                    } else {
                        assert(r@[pre.len() as int] == map@[q].0);
                    }
                }
            }
        }
        k = k + 1;
    }
    proof {
        assert forall|m: u64| #[trigger] is_anchor(regs@, m) implies forall|x: u64| #[trigger] r@.contains(x) <==> (
        in_window(m, x) && !registered(regs@, x)) by {
            assert forall|x: u64| #[trigger] r@.contains(x) implies in_window(m, x) && !registered(regs@, x) by {
                let i = choose|i: int| 0 <= i < r@.len() && r@[i] == x;
                assert(empty_before(map@, map@.len() as int, r@[i]));
                let q = choose|q: int| 0 <= q < map@.len() && (#[trigger] map@[q]).0 == x && map@[q].1@.len() == 0;
                lemma_relays_at_empty(regs@, x);
                assert(names_view(map@[q].1).len() == map@[q].1@.len());
            }
            assert forall|x: u64| in_window(m, x) && !registered(regs@, x) implies #[trigger] r@.contains(x) by {
                let q = x - m;
                assert(0 <= q < map@.len());
                assert(map@[q].0 == x);
                lemma_relays_at_empty(regs@, x);
                assert(names_view(map@[q].1).len() == map@[q].1@.len());
            }
        }
    }
    r
}

/// Slot map over the relays' registrations: the first relay's failure fails
/// the whole call, since the window is anchored on what the relays report;
/// a later relay's failure leaves that relay out.
pub fn validator_registration_for_all_slots(
    outcomes: Vec<(String, Result<Vec<RegisteredValidator>, RelayError>)>,
) -> (r: Result<Vec<(u64, Vec<String>)>, RelayError>)
    ensures
        outcomes@.len() > 0 && outcomes@[0].1 is Err ==> r == Err::<Vec<(u64, Vec<String>)>, RelayError>(
            outcomes@[0].1->Err_0,
        ),
        !(outcomes@.len() > 0 && outcomes@[0].1 is Err) ==> (r matches Ok(m) && is_slot_map(
            successes(outcomes@),
            m@,
        )),
{
    let mut outcomes = outcomes;
    if outcomes.len() > 0 && outcomes[0].1.is_err() {
        let (_, first) = outcomes.remove(0);
        match first {
            Err(e) => return Err(e),
            Ok(_) => {},
        }
    }
    let gathered = collect_relay_outcomes(outcomes);
    Ok(slot_registrations(&gathered.results))
}

/// Vanilla slots over the relays' registrations, with the failure policy of
/// [`validator_registration_for_all_slots`].
pub fn vanilla_slots_for_current_and_next_epoch(
    outcomes: Vec<(String, Result<Vec<RegisteredValidator>, RelayError>)>,
) -> (r: Result<Vec<u64>, RelayError>)
    ensures
        outcomes@.len() > 0 && outcomes@[0].1 is Err ==> r == Err::<Vec<u64>, RelayError>(
            outcomes@[0].1->Err_0,
        ),
        !(outcomes@.len() > 0 && outcomes@[0].1 is Err) ==> (r matches Ok(v) && is_vanilla_set(
            successes(outcomes@),
            v@,
        )),
{
    let mut outcomes = outcomes;
    if outcomes.len() > 0 && outcomes[0].1.is_err() {
        let (_, first) = outcomes.remove(0);
        match first {
            Err(e) => return Err(e),
            Ok(_) => {},
        }
    }
    let gathered = collect_relay_outcomes(outcomes);
    Ok(vanilla_slots(&gathered.results))
}

} // verus!
