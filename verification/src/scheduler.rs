//! Timing decisions of the repeating read scheduler.
//!
//! Times are nanoseconds on one monotonic clock; durations are nanoseconds.
use vstd::prelude::*;

verus! {

/// Orders faster than twice this period are refused.
pub const CAREFUL_CHECK_DUR: u64 = 250_000u64;
/// Two runs closer than this are run back to back.
pub const CAREFUL_DROP_DUR: u64 = 50_000u64;
/// The horizon within which the next run is looked for.
pub const HORIZON: u64 = 3_600_000_000_000u64;
/// At most this many orders can be scheduled at once.
pub const MAX_ORDERS: usize = 10;

/// Why a set of orders was refused.
#[derive(Eq, PartialEq, Debug, Clone, Copy, Structural)]
pub enum SchedulerError {
    TooMany,
    TooFast,
}

/// A group of orders that share offset and rate, with the time it was last scheduled.
#[derive(Clone, Copy, Debug, PartialEq, Eq, Structural)]
pub struct Orders {
    pub last_scheduled: Option<u64>,
    pub offset: u64,
    pub rate: u64,
}

/// The first slot `base + k * rate` (k >= 0) that is not before `now`.
pub open spec fn next_slot(base: int, rate: int, now: int) -> int
    decreases now + rate - base,
    when rate > 0
{
    if base >= now {
        base
    } else {
        next_slot(base + rate, rate, now)
    }
}

/// A slot found this way is not before `now`, not before `base`, and less than one period past
/// `now` unless it is `base` itself.
pub proof fn lemma_next_slot_bounds(base: int, rate: int, now: int)
    requires
        rate > 0,
    ensures
        next_slot(base, rate, now) >= now,
        next_slot(base, rate, now) >= base,
        next_slot(base, rate, now) == base || next_slot(base, rate, now) < now + rate,
    decreases now + rate - base,
{
    if base < now {
        lemma_next_slot_bounds(base + rate, rate, now);
    }
}

/// The slot found is on the grid of `base` and `rate`: a whole number of periods after `base`.
/// With the bounds above, it is the first slot of that grid that is not before `now`.
pub proof fn lemma_next_slot_on_grid(base: int, rate: int, now: int)
    requires
        rate > 0,
    ensures
        (next_slot(base, rate, now) - base) % rate == 0,
        next_slot(base, rate, now) - rate < now || next_slot(base, rate, now) == base,
    decreases now + rate - base,
{
    lemma_next_slot_bounds(base, rate, now);
    if base < now {
        lemma_next_slot_on_grid(base + rate, rate, now);
        let r = next_slot(base, rate, now);
        assert((r - base) % rate == 0) by {
            vstd::arithmetic::div_mod::lemma_mod_sub_multiples_vanish(r - base, rate);
        }
    } else {
        vstd::arithmetic::div_mod::lemma_small_mod(0nat, rate as nat);
    }
}

impl Orders {
    /// A group for one order.
    pub fn new(offset: u64, rate: u64) -> (r: Orders)
        ensures
            r.last_scheduled is None,
            r.offset == offset,
            r.rate == rate,
    {
        Orders { last_scheduled: None, offset, rate }
    }

    /// The time the group would start from: `start + offset` before its first run, one period
    /// after the last scheduled run afterwards.
    pub open spec fn base(self, start: u64) -> int {
        match self.last_scheduled {
            None => start + self.offset,
            Some(t) => t + self.rate,
        }
    }

    /// The clock values involved stay below this bound.
    pub open spec fn fits(self, start: u64, now: u64) -> bool {
        &&& self.rate > 0
        &&& self.base(start) + self.rate <= u64::MAX
        &&& now + self.rate <= u64::MAX
    }

    /// The time of the next run: the first slot of the group not before `now`. Slots already
    /// missed are skipped.
    pub open spec fn spec_when(self, now: u64, start: u64) -> int {
        next_slot(self.base(start), self.rate as int, now as int)
    }

    /// The time of the next run: the first slot of the group not before `now`.
    pub fn when_would_run(&self, now: u64, start: u64) -> (r: u64)
        requires
            self.fits(start, now),
        ensures
            r == self.spec_when(now, start),
    {
        let mut would_run = match self.last_scheduled {
            None => start + self.offset,
            Some(it) => it + self.rate,
        };
        let ghost base = self.base(start);
        while would_run < now
            invariant
                self.rate > 0,
                now + self.rate <= u64::MAX,
                next_slot(would_run as int, self.rate as int, now as int) == next_slot(
                    base,
                    self.rate as int,
                    now as int,
                ),
            decreases now + self.rate - would_run,
        {
            would_run = would_run + self.rate;
        }
        would_run
    }
}

/// Every group fits the clock bounds at `start` and `now`, and `now` leaves room for the horizon.
pub open spec fn all_fit(orders: Seq<Orders>, start: u64, now: u64) -> bool {
    &&& now + HORIZON + CAREFUL_CHECK_DUR <= u64::MAX
    &&& forall|i: int| 0 <= i < orders.len() ==> #[trigger] orders[i].fits(start, now)
}

impl Orders {
    /// Whether the group fits the clock bounds at `start` and `now`.
    pub fn fits_now(&self, start: u64, now: u64) -> (r: bool)
        ensures
            r == self.fits(start, now),
    {
        if self.rate == 0 || now > u64::MAX - self.rate {
            return false;
        }
        match self.last_scheduled {
            None => start <= u64::MAX - self.offset && start + self.offset <= u64::MAX - self.rate,
            Some(t) => t <= u64::MAX - self.rate && t + self.rate <= u64::MAX - self.rate,
        }
    }
}

/// Whether `get_next_timer` can run on these groups at `now`: there is one, and all fit the
/// clock bounds.
pub fn all_fit_now(orders: &Vec<Orders>, start: u64, now: u64) -> (r: bool)
    ensures
        r == (orders@.len() > 0 && all_fit(orders@, start, now)),
{
    if orders.len() == 0 {
        return false;
    }
    if now > u64::MAX - HORIZON - CAREFUL_CHECK_DUR {
        return false;
    }
    let mut i: usize = 0;
    while i < orders.len()
        invariant
            i <= orders@.len(),
            forall|k: int| 0 <= k < i ==> #[trigger] orders@[k].fits(start, now),
        decreases orders@.len() - i,
    {
        if !orders[i].fits_now(start, now) {
            return false;
        }
        i = i + 1;
    }
    true
}

/// The earliest next run among the first `n` groups, or `now + HORIZON` if none is earlier,
/// and the first group that has it (group 0 if none).
pub open spec fn soonest(orders: Seq<Orders>, start: u64, now: u64, n: int) -> (int, int)
    decreases n,
{
    if n <= 0 {
        (now + HORIZON, 0)
    } else {
        let prev = soonest(orders, start, now, n - 1);
        let w = orders[n - 1].spec_when(now, start);
        if w < prev.0 {
            (w, n - 1)
        } else {
            prev
        }
    }
}

/// The soonest run is never later than any group's next run, nor than the horizon.
pub proof fn lemma_soonest_is_min(orders: Seq<Orders>, start: u64, now: u64, n: int, i: int)
    requires
        0 <= i < n <= orders.len(),
    ensures
        soonest(orders, start, now, n).0 <= orders[i].spec_when(now, start),
        soonest(orders, start, now, n).0 <= now + HORIZON,
        0 <= soonest(orders, start, now, n).1 < n,
    decreases n,
{
    if i < n - 1 {
        lemma_soonest_is_min(orders, start, now, n - 1, i);
    }
    if n - 1 > 0 {
        lemma_soonest_is_min(orders, start, now, n - 1, 0);
    } else {
        assert(soonest(orders, start, now, 0).0 == now + HORIZON);
    }
}

/// Strictly before: earlier time, or the same time and a lower group index.
pub open spec fn run_lt(x: (u64, usize), y: (u64, usize)) -> bool {
    x.0 < y.0 || (x.0 == y.0 && x.1 < y.1)
}

/// Not after: earlier time, or the same time and a group index that is not higher.
pub open spec fn run_le(x: (u64, usize), y: (u64, usize)) -> bool {
    x.0 < y.0 || (x.0 == y.0 && x.1 <= y.1)
}

/// Whether the pairs from position `from` on are in order of time, then of group index.
pub open spec fn sorted_from(v: Seq<(u64, usize)>, from: int) -> bool {
    forall|i: int, j: int| from <= i < j < v.len() ==> run_le(#[trigger] v[i], #[trigger] v[j])
}

/// Whether the pairs from position `from` on name pairwise different groups.
pub open spec fn distinct_groups_from(v: Seq<(u64, usize)>, from: int) -> bool {
    forall|a: int, b: int| #![trigger v[a], v[b]] from <= a < b < v.len() ==> v[a].1 != v[b].1
}

/// Whether `x` occurs in `s` at a position not before `from`.
pub open spec fn occurs_from(s: Seq<(u64, usize)>, from: int, x: (u64, usize)) -> bool {
    exists|k: int| from <= k < s.len() && #[trigger] s[k] == x
}

/// Sorts `v[from..]` by time, then group index; `v[..from]` stays, and every element of
/// `v[from..]` before the call is one after it, and the reverse.
fn sort_from(v: &mut Vec<(u64, usize)>, from: usize)
    requires
        from <= old(v)@.len(),
    ensures
        final(v)@.len() == old(v)@.len(),
        final(v)@.subrange(0, from as int) == old(v)@.subrange(0, from as int),
        forall|k: int| from <= k < final(v)@.len() ==> occurs_from(old(v)@, from as int, #[trigger] final(v)@[k]),
        forall|k: int| from <= k < old(v)@.len() ==> occurs_from(final(v)@, from as int, #[trigger] old(v)@[k]),
        sorted_from(final(v)@, from as int),
        distinct_groups_from(old(v)@, from as int) ==> distinct_groups_from(final(v)@, from as int),
{
    let ghost orig = v@;
    let mut i = from;
    while i < v.len()
        invariant
            from <= i <= v@.len(),
            v@.len() == orig.len(),
            v@.subrange(0, from as int) == orig.subrange(0, from as int),
            forall|k: int| from <= k < v@.len() ==> occurs_from(orig, from as int, #[trigger] v@[k]),
            forall|k: int| from <= k < orig.len() ==> occurs_from(v@, from as int, #[trigger] orig[k]),
            forall|a: int, b: int| from <= a < b < i ==> run_le(#[trigger] v@[a], #[trigger] v@[b]),
            distinct_groups_from(orig, from as int) ==> distinct_groups_from(v@, from as int),
        decreases v@.len() - i,
    {
        let mut j = i;
        while j > from && (v[j].0 < v[j - 1].0 || (v[j].0 == v[j - 1].0 && v[j].1 < v[j - 1].1))
            invariant
                from <= j <= i < v@.len(),
                v@.len() == orig.len(),
                v@.subrange(0, from as int) == orig.subrange(0, from as int),
                forall|k: int| from <= k < v@.len() ==> occurs_from(orig, from as int, #[trigger] v@[k]),
                forall|k: int| from <= k < orig.len() ==> occurs_from(v@, from as int, #[trigger] orig[k]),
                forall|a: int, b: int|
                    from <= a < b <= i && a != j && b != j ==> run_le(#[trigger] v@[a], #[trigger] v@[b]),
                forall|b: int| j < b <= i ==> run_le(v@[j as int], #[trigger] v@[b]),
                forall|a: int, b: int|
                    from <= a < j && j < b <= i ==> run_le(#[trigger] v@[a], #[trigger] v@[b]),
                distinct_groups_from(orig, from as int) ==> distinct_groups_from(v@, from as int),
            decreases j,
        {
            let ghost before = v@;
            let x = v[j];
            let y = v[j - 1];
            v.set(j, y);
            v.set(j - 1, x);
            proof {
                assert(v@ == before.update(j as int, y).update(j - 1, x));
                assert forall|k: int| from <= k < v@.len() implies occurs_from(orig, from as int, #[trigger] v@[k]) by {
                    if k == j {
                        assert(before[j - 1] == v@[k]);
                    } else if k == j - 1 {
                        assert(before[j as int] == v@[k]);
                    } else {
                        assert(before[k] == v@[k]);
                    }
                }
                assert forall|k: int| from <= k < orig.len() implies occurs_from(v@, from as int, #[trigger] orig[k]) by {
                    assert(occurs_from(before, from as int, orig[k]));
                    let m = choose|m: int| from <= m < before.len() && #[trigger] before[m] == orig[k];
                    if m == j {
                        assert(v@[j - 1] == orig[k]);
                    } else if m == j - 1 {
                        assert(v@[j as int] == orig[k]);
                    } else {
                        assert(v@[m] == orig[k]);
                    }
                }
                assert(v@.subrange(0, from as int) =~= before.subrange(0, from as int));
                if distinct_groups_from(orig, from as int) {
                    assert(distinct_groups_from(before, from as int));
                    assert forall|a: int, b: int| from <= a < b < v@.len() implies v@[a].1 != v@[b].1 by {
                        let pa = if a == j { j - 1 } else if a == j - 1 { j as int } else { a };
                        let pb = if b == j { j - 1 } else if b == j - 1 { j as int } else { b };
                        assert(v@[a] == before[pa]);
                        assert(v@[b] == before[pb]);
                        if pa < pb {
                            assert(before[pa].1 != before[pb].1);
                        } else {
                            assert(before[pb].1 != before[pa].1);
                        }
                    }
                }
            }
            j = j - 1;
        }
        proof {
            assert forall|a: int, b: int| from <= a < b < i + 1 implies run_le(#[trigger] v@[a], #[trigger] v@[b]) by {
                if b == j {
                    assert(run_le(v@[j - 1], v@[j as int]));
                    if a < j - 1 {
                        assert(run_le(v@[a], v@[j - 1]));
                    }
                } else if a == j {
                } else if a < j && j < b {
                } else {
                }
            }
        }
        i = i + 1;
    }
}

/// Whether group `i` starts close enough after the soonest run `s` to be run with it.
pub open spec fn is_close(orders: Seq<Orders>, start: u64, now: u64, s: (int, int), i: int) -> bool {
    &&& 0 <= i < orders.len()
    &&& i != s.1
    &&& orders[i].spec_when(now, start) < s.0 + CAREFUL_CHECK_DUR
}

/// The candidate list: the soonest run first, then exactly the close groups, each once, in
/// order of time, then of group index.
pub open spec fn candidate_list(t: Seq<(u64, usize)>, orders: Seq<Orders>, start: u64, now: u64) -> bool {
    let s = soonest(orders, start, now, orders.len() as int);
    &&& t.len() >= 1
    &&& t[0] == (s.0 as u64, s.1 as usize)
    &&& sorted_from(t, 1)
    &&& distinct_groups_from(t, 0)
    &&& forall|k: int|
        1 <= k < t.len() ==> is_close(orders, start, now, s, (#[trigger] t[k]).1 as int) && t[k].0
            == orders[t[k].1 as int].spec_when(now, start)
    &&& forall|i: int|
        is_close(orders, start, now, s, i) ==> #[trigger] t.contains(
            (orders[i].spec_when(now, start) as u64, i as usize),
        )
}

/// The gap from run `i` to run `i + 1` (zero if the later one is earlier).
pub open spec fn gap(v: Seq<(u64, usize)>, i: int) -> int {
    if v[i + 1].0 >= v[i].0 {
        v[i + 1].0 - v[i].0
    } else {
        0
    }
}

/// The first position at or after `i` followed by a gap longer than `CAREFUL_DROP_DUR`.
pub open spec fn first_gap_from(v: Seq<(u64, usize)>, i: int) -> Option<int>
    decreases v.len() - i,
{
    if i < 0 || i + 1 >= v.len() {
        None
    } else if gap(v, i) > CAREFUL_DROP_DUR {
        Some(i)
    } else {
        first_gap_from(v, i + 1)
    }
}

/// The runs that are carried out: the candidates up to the first long gap; only the first
/// candidate when there is no long gap.
pub open spec fn select_runs(v: Seq<(u64, usize)>) -> Seq<(u64, usize)> {
    match first_gap_from(v, 0) {
        Some(i) => v.subrange(0, i + 1),
        None => v.subrange(0, 1),
    }
}

/// Chooses the next runs and marks the soonest group as scheduled.
///
/// The soonest group (the first one whose next run is earliest, group 0 at the horizon when
/// none is earlier) comes first; the groups that start within `CAREFUL_CHECK_DUR` of it follow
/// in time order, up to the first gap longer than `CAREFUL_DROP_DUR`.
pub fn get_next_timer(start: u64, orders: &mut Vec<Orders>, now: u64) -> (r: Vec<(u64, usize)>)
    requires
        old(orders)@.len() > 0,
        all_fit(old(orders)@, start, now),
    ensures
        ({
            let s = soonest(old(orders)@, start, now, old(orders)@.len() as int);
            &&& final(orders)@ == old(orders)@.update(
                s.1,
                Orders { last_scheduled: Some(s.0 as u64), ..old(orders)@[s.1] },
            )
            &&& exists|t: Seq<(u64, usize)>|
                #[trigger] candidate_list(t, old(orders)@, start, now) && r@ == select_runs(t)
            &&& distinct_groups_from(r@, 0)
        }),
{
    let ghost old_orders = orders@;
    let n = orders.len();
    let mut best_id: usize = 0;
    let mut soonest_to_run: u64 = now + HORIZON;
    let mut id: usize = 0;
    while id < n
        invariant
            n == orders@.len(),
            orders@ == old_orders,
            all_fit(old_orders, start, now),
            id <= n,
            (soonest_to_run as int, best_id as int) == soonest(old_orders, start, now, id as int),
        decreases n - id,
    {
        proof {
            assert(old_orders[id as int].fits(start, now));
        }
        let would_run = orders[id].when_would_run(now, start);
        if would_run < soonest_to_run {
            soonest_to_run = would_run;
            best_id = id;
        }
        id = id + 1;
    }
    let ghost s = soonest(old_orders, start, now, n as int);
    proof {
        lemma_soonest_is_min(old_orders, start, now, n as int, 0);
    }
    let mut best = orders[best_id];
    best.last_scheduled = Some(soonest_to_run);
    orders.set(best_id, best);
    let ghost updated = orders@;
    assert(updated == old_orders.update(
        s.1,
        Orders { last_scheduled: Some(s.0 as u64), ..old_orders[s.1] },
    ));
    let mut to_run: Vec<(u64, usize)> = Vec::new();
    to_run.push((soonest_to_run, best_id));
    let mut id: usize = 0;
    while id < n
        invariant
            n == old_orders.len(),
            orders@ == updated,
            updated == old_orders.update(s.1, Orders { last_scheduled: Some(s.0 as u64), ..old_orders[s.1] }),
            updated.len() == n,
            forall|k: int| 0 <= k < n && k != best_id ==> updated[k] == old_orders[k],
            all_fit(old_orders, start, now),
            id <= n,
            best_id < n,
            s == (soonest_to_run as int, best_id as int),
            soonest_to_run <= now + HORIZON,
            to_run@.len() >= 1,
            to_run@[0] == (soonest_to_run, best_id),
            forall|k: int|
                1 <= k < to_run@.len() ==> is_close(old_orders, start, now, s, (#[trigger] to_run@[k]).1 as int)
                    && to_run@[k].0 == old_orders[to_run@[k].1 as int].spec_when(now, start)
                    && to_run@[k].1 < id,
            forall|a: int, b: int| 1 <= a < b < to_run@.len() ==> (#[trigger] to_run@[a]).1 < (#[trigger] to_run@[b]).1,
            forall|i: int|
                0 <= i < id && is_close(old_orders, start, now, s, i) ==> occurs_from(
                    to_run@,
                    1,
                    (old_orders[i].spec_when(now, start) as u64, i as usize),
                ),
        decreases n - id,
    {
        let ghost before = to_run@;
        if id != best_id {
            proof {
                assert(old_orders[id as int].fits(start, now));
            }
            let when = orders[id].when_would_run(now, start);
            if when < soonest_to_run + CAREFUL_CHECK_DUR {
                to_run.push((when, id));
                proof {
                    assert(to_run@[to_run@.len() - 1] == (when, id));
                }
            }
        }
        proof {
            assert forall|i: int|
                0 <= i < id + 1 && is_close(old_orders, start, now, s, i) implies occurs_from(
                to_run@,
                1,
                (old_orders[i].spec_when(now, start) as u64, i as usize),
            ) by {
                let x = (old_orders[i].spec_when(now, start) as u64, i as usize);
                if i < id {
                    assert(occurs_from(before, 1, x));
                    let k = choose|k: int| 1 <= k < before.len() && #[trigger] before[k] == x;
                    assert(to_run@[k] == before[k]);
                } else {
                    assert(to_run@[to_run@.len() - 1] == x);
                }
            }
        }
        id = id + 1;
    }
    let ghost unsorted = to_run@;
    if to_run.len() > 2 {
        sort_from(&mut to_run, 1);
    }
    let ghost sorted = to_run@;
    proof {
        if unsorted.len() > 2 {
            assert(sorted[0] == sorted.subrange(0, 1)[0]);
            assert(unsorted[0] == unsorted.subrange(0, 1)[0]);
            assert forall|k: int| 1 <= k < sorted.len() implies is_close(old_orders, start, now, s, (#[trigger] sorted[k]).1 as int)
                && sorted[k].0 == old_orders[sorted[k].1 as int].spec_when(now, start) by {
                assert(occurs_from(unsorted, 1, sorted[k]));
                let m = choose|m: int| 1 <= m < unsorted.len() && #[trigger] unsorted[m] == sorted[k];
                assert(unsorted[m] == sorted[k]);
            }
            assert forall|i: int| is_close(old_orders, start, now, s, i) implies #[trigger] sorted.contains(
                (old_orders[i].spec_when(now, start) as u64, i as usize),
            ) by {
                let x = (old_orders[i].spec_when(now, start) as u64, i as usize);
                assert(occurs_from(unsorted, 1, x));
                let m = choose|m: int| 1 <= m < unsorted.len() && #[trigger] unsorted[m] == x;
                assert(occurs_from(sorted, 1, unsorted[m]));
                let k = choose|k: int| 1 <= k < sorted.len() && #[trigger] sorted[k] == x;
                assert(sorted[k] == x);
            }
        } else {
            assert forall|i: int| is_close(old_orders, start, now, s, i) implies #[trigger] sorted.contains(
                (old_orders[i].spec_when(now, start) as u64, i as usize),
            ) by {
                let x = (old_orders[i].spec_when(now, start) as u64, i as usize);
                assert(occurs_from(unsorted, 1, x));
                let m = choose|m: int| 1 <= m < unsorted.len() && #[trigger] unsorted[m] == x;
                assert(sorted[m] == x);
            }
        }
        assert(candidate_list(sorted, old_orders, start, now));
    }
    let mut to_run_tmp: Vec<(u64, usize)> = Vec::new();
    to_run_tmp.push((soonest_to_run, best_id));
    let len = to_run.len();
    let mut i: usize = 0;
    while i < len - 1
        invariant
            len == to_run@.len(),
            to_run@ == sorted,
            candidate_list(sorted, old_orders, start, now),
            old(orders)@ == old_orders,
            s == soonest(old_orders, start, now, old_orders.len() as int),
            orders@ == updated,
            updated == old_orders.update(s.1, Orders { last_scheduled: Some(s.0 as u64), ..old_orders[s.1] }),
            len >= 1,
            i <= len - 1,
            to_run_tmp@ == seq![(soonest_to_run, best_id)],
            sorted[0] == (soonest_to_run, best_id),
            first_gap_from(sorted, 0) == first_gap_from(sorted, i as int),
        decreases len - 1 - i,
    {
        let g = if to_run[i + 1].0 >= to_run[i].0 {
            to_run[i + 1].0 - to_run[i].0
        } else {
            0
        };
        if g > CAREFUL_DROP_DUR {
            let mut k: usize = 1;
            while k < i + 1
                invariant
                    1 <= k <= i + 1 <= len - 1,
                    len == to_run@.len(),
                    to_run@ == sorted,
                    candidate_list(sorted, old_orders, start, now),
                    old(orders)@ == old_orders,
                    s == soonest(old_orders, start, now, old_orders.len() as int),
                    orders@ == updated,
            updated == old_orders.update(s.1, Orders { last_scheduled: Some(s.0 as u64), ..old_orders[s.1] }),
                    sorted[0] == (soonest_to_run, best_id),
                    to_run_tmp@ == sorted.subrange(0, k as int),
                decreases i + 1 - k,
            {
                to_run_tmp.push(to_run[k]);
                proof {
                    assert(to_run_tmp@ =~= sorted.subrange(0, k + 1));
                }
                k = k + 1;
            }
            proof {
                assert(first_gap_from(sorted, i as int) == Some(i as int));
                assert(to_run_tmp@ =~= select_runs(sorted));
            }
            return to_run_tmp;
        }
        i = i + 1;
    }
    proof {
        assert(first_gap_from(sorted, i as int) is None);
        assert(to_run_tmp@ =~= select_runs(sorted));
    }
    to_run_tmp
}


/// The soonest run is not before `now` when no group's next run is.
pub proof fn lemma_soonest_not_before_now(orders: Seq<Orders>, start: u64, now: u64, n: int)
    requires
        0 <= n <= orders.len(),
        all_fit(orders, start, now),
    ensures
        soonest(orders, start, now, n).0 >= now,
    decreases n,
{
    if n > 0 {
        lemma_soonest_not_before_now(orders, start, now, n - 1);
        assert(orders[n - 1].fits(start, now));
        lemma_next_slot_bounds(orders[n - 1].base(start), orders[n - 1].rate as int, now as int);
    }
}

/// The runs chosen from a candidate list start with the soonest run, none is before `now`, and
/// they come in time order.
pub proof fn lemma_selected_runs(t: Seq<(u64, usize)>, orders: Seq<Orders>, start: u64, now: u64)
    requires
        orders.len() > 0,
        all_fit(orders, start, now),
        candidate_list(t, orders, start, now),
    ensures
        select_runs(t).len() >= 1,
        select_runs(t)[0] == t[0],
        forall|k: int| 0 <= k < select_runs(t).len() ==> (#[trigger] select_runs(t)[k]).0 >= now,
        forall|a: int, b: int|
            0 <= a < b < select_runs(t).len() ==> (#[trigger] select_runs(t)[a]).0 <= (
            #[trigger] select_runs(t)[b]).0,
{
    let n = orders.len() as int;
    let s = soonest(orders, start, now, n);
    lemma_soonest_is_min(orders, start, now, n, 0);
    lemma_soonest_not_before_now(orders, start, now, n);
    assert forall|k: int| 0 <= k < t.len() implies (#[trigger] t[k]).0 >= now && t[k].0 >= t[0].0 by {
        if k >= 1 {
            let i = t[k].1 as int;
            assert(is_close(orders, start, now, s, i));
            assert(orders[i].fits(start, now));
            lemma_next_slot_bounds(orders[i].base(start), orders[i].rate as int, now as int);
            lemma_soonest_is_min(orders, start, now, n, i);
        }
    }
    assert forall|a: int, b: int| 0 <= a < b < t.len() implies (#[trigger] t[a]).0 <= (#[trigger] t[b]).0 by {
        if a >= 1 {
            assert(run_le(t[a], t[b]));
        }
    }
    let r = select_runs(t);
    let end: int = match first_gap_from(t, 0) {
        Some(i) => i + 1,
        None => 1,
    };
    lemma_first_gap_in_range(t, 0);
    assert(r == t.subrange(0, end));
    assert forall|k: int| 0 <= k < r.len() implies (#[trigger] r[k]).0 >= now by {
        assert(r[k] == t[k]);
    }
    assert forall|a: int, b: int| 0 <= a < b < r.len() implies (#[trigger] r[a]).0 <= (#[trigger] r[b]).0 by {
        assert(r[a] == t[a] && r[b] == t[b]);
    }
}

/// A long gap found from `i` lies before the last position.
pub proof fn lemma_first_gap_in_range(v: Seq<(u64, usize)>, i: int)
    ensures
        first_gap_from(v, i) matches Some(g) ==> 0 <= i <= g && g + 1 < v.len(),
    decreases v.len() - i,
{
    if !(i < 0 || i + 1 >= v.len()) && gap(v, i) <= CAREFUL_DROP_DUR {
        lemma_first_gap_in_range(v, i + 1);
    }
}

/// The timing of an order: when it first runs after the start, and its period.
#[derive(Clone, Copy, Debug, PartialEq, Eq, Structural)]
pub struct OrderTiming {
    pub offset: u64,
    pub rate: u64,
}

/// The (offset, rate) pairs of the orders, each once, in order of first appearance.
pub open spec fn group_keys(s: Seq<OrderTiming>) -> Seq<(u64, u64)>
    decreases s.len(),
{
    if s.len() == 0 {
        Seq::empty()
    } else {
        let prev = group_keys(s.drop_last());
        let k = (s.last().offset, s.last().rate);
        if prev.contains(k) {
            prev
        } else {
            prev.push(k)
        }
    }
}

/// Some order runs faster than twice `CAREFUL_CHECK_DUR` allows.
pub open spec fn some_too_fast(s: Seq<OrderTiming>) -> bool {
    exists|i: int| 0 <= i < s.len() && #[trigger] s[i].rate < 2 * CAREFUL_CHECK_DUR
}

/// The groups of a plan match the keys: same offset and rate, never scheduled yet.
pub open spec fn groups_match(g: Seq<Orders>, keys: Seq<(u64, u64)>) -> bool {
    &&& g.len() == keys.len()
    &&& forall|j: int|
        0 <= j < g.len() ==> (#[trigger] g[j]).last_scheduled is None && (g[j].offset, g[j].rate)
            == keys[j]
}

/// The pairs of `group_keys` are distinct.
pub proof fn lemma_group_keys_distinct(s: Seq<OrderTiming>)
    ensures
        group_keys(s).no_duplicates(),
    decreases s.len(),
{
    if s.len() > 0 {
        lemma_group_keys_distinct(s.drop_last());
    }
}

/// Groups the orders of a new schedule by offset and rate, in order of first appearance, and
/// gives the group of each order. An empty schedule gives no group; more than `MAX_ORDERS`
/// orders are refused as too many, and then any order faster than twice `CAREFUL_CHECK_DUR`
/// as too fast.
pub fn plan_orders(orders: &Vec<OrderTiming>) -> (r: Result<(Vec<Orders>, Vec<usize>), SchedulerError>)
    ensures
        orders@.len() > MAX_ORDERS ==> r == Err::<(Vec<Orders>, Vec<usize>), SchedulerError>(
            SchedulerError::TooMany,
        ),
        orders@.len() <= MAX_ORDERS && some_too_fast(orders@) ==> r == Err::<
            (Vec<Orders>, Vec<usize>),
            SchedulerError,
        >(SchedulerError::TooFast),
        orders@.len() <= MAX_ORDERS && !some_too_fast(orders@) ==> (r matches Ok((g, a)) && {
            let keys = group_keys(orders@);
            &&& groups_match(g@, keys)
            &&& keys.no_duplicates()
            &&& a@.len() == orders@.len()
            &&& forall|i: int|
                0 <= i < a@.len() ==> #[trigger] a@[i] < g@.len() && keys[a@[i] as int] == (
                    orders@[i].offset,
                    orders@[i].rate,
                )
        }),
{
    if orders.len() == 0 {
        proof {
            assert(group_keys(orders@) =~= Seq::<(u64, u64)>::empty());
        }
        return Ok((Vec::new(), Vec::new()));
    }
    if orders.len() > MAX_ORDERS {
        return Err(SchedulerError::TooMany);
    }
    let mut groups: Vec<Orders> = Vec::new();
    let mut assign: Vec<usize> = Vec::new();
    let mut i: usize = 0;
    while i < orders.len()
        invariant
            i <= orders@.len(),
            orders@.len() <= MAX_ORDERS,
            groups_match(groups@, group_keys(orders@.take(i as int))),
            assign@.len() == i,
            forall|k: int|
                0 <= k < i ==> #[trigger] assign@[k] < groups@.len() && group_keys(
                    orders@.take(i as int),
                )[assign@[k] as int] == (orders@[k].offset, orders@[k].rate),
            forall|k: int| 0 <= k < i ==> #[trigger] orders@[k].rate >= 2 * CAREFUL_CHECK_DUR,
        decreases orders@.len() - i,
    {
        let o = orders[i];
        if o.rate < CAREFUL_CHECK_DUR * 2 {
            proof {
                assert(orders@[i as int].rate < 2 * CAREFUL_CHECK_DUR);
            }
            return Err(SchedulerError::TooFast);
        }
        let ghost prev = group_keys(orders@.take(i as int));
        let ghost k = (o.offset, o.rate);
        proof {
            assert(orders@.take(i + 1).drop_last() =~= orders@.take(i as int));
            assert(orders@.take(i + 1).last() == o);
        }
        let mut j: usize = 0;
        while j < groups.len()
            invariant_except_break
                forall|m: int| 0 <= m < j ==> prev[m] != k,
            invariant
                j <= groups@.len(),
                groups_match(groups@, prev),
                k == (o.offset, o.rate),
            ensures
                (j < groups@.len() && prev[j as int] == k) || (j == groups@.len() && forall|m: int|
                    0 <= m < j ==> prev[m] != k),
            decreases groups@.len() - j,
        {
            proof {
                assert(prev[j as int] == (groups@[j as int].offset, groups@[j as int].rate));
            }
            if groups[j].offset == o.offset && groups[j].rate == o.rate {
                break;
            }
            j = j + 1;
        }
        let found = j < groups.len();
        if found {
            proof {
                assert(prev[j as int] == k);
                assert(prev.contains(k));
                assert(group_keys(orders@.take(i + 1)) == prev);
            }
            assign.push(j);
        } else {
            proof {
                assert(!prev.contains(k));
                assert(group_keys(orders@.take(i + 1)) == prev.push(k));
            }
            groups.push(Orders::new(o.offset, o.rate));
            assign.push(groups.len() - 1);
        }
        proof {
            let next = group_keys(orders@.take(i + 1));
            assert forall|m: int| 0 <= m < prev.len() implies next[m] == prev[m] by {}
        }
        i = i + 1;
    }
    proof {
        assert(orders@.take(orders@.len() as int) =~= orders@);
        lemma_group_keys_distinct(orders@);
        assert(!some_too_fast(orders@));
    }
    Ok((groups, assign))
}

/// The time an order is paused until, after a pause request for `instant` arrives at `now`:
/// a request for a time not after `now` is ignored; a later one replaces the pause.
pub fn note_pause_request(until: Option<u64>, instant: u64, now: u64) -> (r: Option<u64>)
    ensures
        r == if instant <= now {
            until
        } else {
            Some(instant)
        },
{
    if instant <= now {
        return until;
    }
    Some(instant)
}

/// Whether an order runs at `now`, and the pause it keeps: a pause that ended before `now` is
/// cleared and the order runs; a pause not yet over skips the run.
pub fn check_pause(until: Option<u64>, now: u64) -> (r: (Option<u64>, bool))
    ensures
        r == match until {
            None => (None::<u64>, true),
            Some(t) => if t < now {
                (None::<u64>, true)
            } else {
                (Some(t), false)
            },
        },
{
    match until {
        None => (None, true),
        Some(t) => {
            if t < now {
                (None, true)
            } else {
                (Some(t), false)
            }
        },
    }
}

} // verus!
