//! A clock for tests: the current time is set and advanced by hand, and
//! timers fire when the clock passes their time.

use vstd::prelude::*;
use crate::common::text::str_eq;
use crate::common::time::{clock_reading_nanos, unix_millis_from_reading};

verus! {

/// A timer waiting to fire: its ID and when it fires.
pub type TimerView = (Seq<char>, i64);

/// The IDs of the timers that are due at `t`, in registration order.
pub open spec fn due_ids(timers: Seq<TimerView>, t: i64) -> Seq<Seq<char>>
    decreases timers.len(),
{
    if timers.len() == 0 {
        Seq::empty()
    } else {
        let p = due_ids(timers.drop_last(), t);
        if timers.last().1 <= t {
            p.push(timers.last().0)
        } else {
            p
        }
    }
}

/// The timers that are not yet due at `t`, in registration order.
pub open spec fn not_due(timers: Seq<TimerView>, t: i64) -> Seq<TimerView>
    decreases timers.len(),
{
    if timers.len() == 0 {
        Seq::empty()
    } else {
        let p = not_due(timers.drop_last(), t);
        if timers.last().1 <= t {
            p
        } else {
            p.push(timers.last())
        }
    }
}

/// The timers other than those with ID `id`, in registration order.
pub open spec fn without_timer(timers: Seq<TimerView>, id: Seq<char>) -> Seq<TimerView>
    decreases timers.len(),
{
    if timers.len() == 0 {
        Seq::empty()
    } else {
        let p = without_timer(timers.drop_last(), id);
        if timers.last().0 == id {
            p
        } else {
            p.push(timers.last())
        }
    }
}

/// The position of the first timer with the earliest time.
pub open spec fn earliest(timers: Seq<TimerView>) -> int
    decreases timers.len(),
{
    if timers.len() <= 1 {
        0
    } else {
        let j = earliest(timers.drop_last());
        if timers.last().1 < timers[j].1 {
            timers.len() - 1
        } else {
            j
        }
    }
}

/// The latest time of any timer.
pub open spec fn latest_time(timers: Seq<TimerView>) -> i64
    decreases timers.len(),
{
    if timers.len() == 0 {
        0
    } else if timers.len() == 1 {
        timers[0].1
    } else {
        let m = latest_time(timers.drop_last());
        if timers.last().1 > m {
            timers.last().1
        } else {
            m
        }
    }
}

proof fn lemma_earliest(timers: Seq<TimerView>)
    requires
        timers.len() > 0,
    ensures
        0 <= earliest(timers) < timers.len(),
        forall|i: int| 0 <= i < timers.len() ==> timers[earliest(timers)].1 <= #[trigger] timers[i].1,
        forall|i: int| 0 <= i < earliest(timers) ==> timers[earliest(timers)].1 < #[trigger] timers[i].1,
    decreases timers.len(),
{
    if timers.len() > 1 {
        let d = timers.drop_last();
        lemma_earliest(d);
        assert forall|i: int| 0 <= i < d.len() implies d[i] == timers[i] by {}
    }
}

proof fn lemma_latest_time(timers: Seq<TimerView>)
    requires
        timers.len() > 0,
    ensures
        forall|i: int| 0 <= i < timers.len() ==> #[trigger] timers[i].1 <= latest_time(timers),
        exists|i: int| 0 <= i < timers.len() && #[trigger] timers[i].1 == latest_time(timers),
    decreases timers.len(),
{
    if timers.len() > 1 {
        let d = timers.drop_last();
        lemma_latest_time(d);
        assert forall|i: int| 0 <= i < d.len() implies d[i] == timers[i] by {}
        if timers.last().1 > latest_time(d) {
            assert(timers[timers.len() - 1].1 == latest_time(timers));
        } else {
            let i = choose|i: int| 0 <= i < d.len() && #[trigger] d[i].1 == latest_time(d);
            assert(timers[i] == d[i]);
        }
    } else {
        assert(timers[0].1 == latest_time(timers));
    }
}

/// Whether every timer fires no later than `t`.
proof fn lemma_all_due(timers: Seq<TimerView>, t: i64)
    requires
        forall|i: int| 0 <= i < timers.len() ==> #[trigger] timers[i].1 <= t,
    ensures
        not_due(timers, t) == Seq::<TimerView>::empty(),
        due_ids(timers, t) == timers.map_values(|x: TimerView| x.0),
    decreases timers.len(),
{
    if timers.len() > 0 {
        let d = timers.drop_last();
        assert forall|i: int| 0 <= i < d.len() implies #[trigger] d[i].1 <= t by {
            assert(d[i] == timers[i]);
        }
        lemma_all_due(d, t);
        assert(due_ids(timers, t) =~= timers.map_values(|x: TimerView| x.0));
    }
}

/// Of the timers due at the earliest time, the first is the earliest timer.
proof fn lemma_first_due(timers: Seq<TimerView>)
    requires
        timers.len() > 0,
    ensures
        due_ids(timers, timers[earliest(timers)].1).len() > 0,
        due_ids(timers, timers[earliest(timers)].1)[0] == timers[earliest(timers)].0,
    decreases timers.len(),
{
    lemma_earliest(timers);
    let e = earliest(timers);
    let t = timers[e].1;
    lemma_due_prefix(timers, t, e);
}

/// When no timer before `e` is due at `t` and the one at `e` is, the
/// first due ID is that of `e`.
proof fn lemma_due_prefix(timers: Seq<TimerView>, t: i64, e: int)
    requires
        0 <= e < timers.len(),
        timers[e].1 <= t,
        forall|i: int| 0 <= i < e ==> t < #[trigger] timers[i].1,
    ensures
        due_ids(timers, t).len() > 0,
        due_ids(timers, t)[0] == timers[e].0,
    decreases timers.len(),
{
    let d = timers.drop_last();
    if e < timers.len() - 1 {
        assert forall|i: int| 0 <= i < e implies t < #[trigger] d[i].1 by {
            assert(d[i] == timers[i]);
        }
        assert(d[e] == timers[e]);
        lemma_due_prefix(d, t, e);
    } else {
        lemma_none_due(d, t);
    }
}

proof fn lemma_none_due(timers: Seq<TimerView>, t: i64)
    requires
        forall|i: int| 0 <= i < timers.len() ==> t < #[trigger] timers[i].1,
    ensures
        due_ids(timers, t) == Seq::<Seq<char>>::empty(),
    decreases timers.len(),
{
    if timers.len() > 0 {
        let d = timers.drop_last();
        assert forall|i: int| 0 <= i < d.len() implies t < #[trigger] d[i].1 by {
            assert(d[i] == timers[i]);
        }
        lemma_none_due(d, t);
    }
}

struct PendingTimer {
    timer_id: String,
    fire_at_millis: i64,
}

/// A clock for tests.
pub struct TimeController {
    current_time_millis: i64,
    pending_timers: Vec<PendingTimer>,
}

/// A clock for tests as mathematical values: the time and the timers
/// waiting to fire, in registration order.
pub struct TimeControllerView {
    pub current_time_millis: i64,
    pub timers: Seq<TimerView>,
}

impl View for TimeController {
    type V = TimeControllerView;

    closed spec fn view(&self) -> TimeControllerView {
        TimeControllerView {
            current_time_millis: self.current_time_millis,
            timers: self.pending_timers@.map_values(|p: PendingTimer| (p.timer_id@, p.fire_at_millis)),
        }
    }
}

impl TimeController {
    /// A clock set to the current system time, with no timers.
    pub fn new() -> (r: Self)
        ensures
            r@.timers == Seq::<TimerView>::empty(),
    {
        Self::with_initial_time(unix_millis_from_reading(clock_reading_nanos()))
    }

    /// A clock set to `initial_time_millis`, with no timers.
    pub fn with_initial_time(initial_time_millis: i64) -> (r: Self)
        ensures
            r@.current_time_millis == initial_time_millis,
            r@.timers == Seq::<TimerView>::empty(),
    {
        let r = TimeController { current_time_millis: initial_time_millis, pending_timers: Vec::new() };
        assert(r@.timers =~= Seq::<TimerView>::empty());
        r
    }

    /// The current time in milliseconds.
    pub fn current_time_millis(&self) -> (r: i64)
        ensures
            r == self@.current_time_millis,
    {
        self.current_time_millis
    }

    /// Set the current time; no timer fires.
    pub fn set_current_time_millis(&mut self, time_millis: i64)
        ensures
            final(self)@ == (TimeControllerView { current_time_millis: time_millis, ..old(self)@ }),
    {
        self.current_time_millis = time_millis;
    }

    /// Advance the clock by `advance_millis` and fire every timer that is
    /// then due; answers their IDs in registration order.
    pub fn advance(&mut self, advance_millis: i64) -> (r: Vec<String>)
        requires
            i64::MIN <= old(self)@.current_time_millis + advance_millis <= i64::MAX,
        ensures
            final(self)@.current_time_millis == old(self)@.current_time_millis + advance_millis,
            r@.map_values(|s: String| s@) == due_ids(old(self)@.timers, final(self)@.current_time_millis),
            final(self)@.timers == not_due(old(self)@.timers, final(self)@.current_time_millis),
    {
        self.current_time_millis = self.current_time_millis + advance_millis;
        let t = self.current_time_millis;
        self.fire_timers_up_to(t)
    }

    /// Advance the clock to the earliest pending timer and fire the timers
    /// then due; answers the ID of the earliest timer (the first registered
    /// among equals), or nothing when no timer is pending.
    pub fn advance_to_next_timer(&mut self) -> (r: Option<String>)
        ensures
            old(self)@.timers.len() == 0 ==> r is None && final(self)@ == old(self)@,
            old(self)@.timers.len() > 0 ==> ({
                let e = old(self)@.timers[earliest(old(self)@.timers)];
                &&& r matches Some(id) && id@ == e.0
                &&& final(self)@.current_time_millis == e.1
                &&& final(self)@.timers == not_due(old(self)@.timers, e.1)
            }),
    {
        if self.pending_timers.len() == 0 {
            return None;
        }
        let ghost ts = self@.timers;
        proof {
            lemma_earliest(ts);
        }
        let mut best: usize = 0;
        let mut i: usize = 1;
        while i < self.pending_timers.len()
            invariant
                ts == self@.timers,
                ts.len() == self.pending_timers@.len(),
                1 <= i <= ts.len(),
                best as int == earliest(ts.take(i as int)),
                forall|k: int| 0 <= k < ts.len() ==> (#[trigger] ts[k]).1 == self.pending_timers@[k].fire_at_millis,
            decreases ts.len() - i,
        {
            let ghost p = ts.take(i + 1);
            proof {
                lemma_earliest(ts.take(i as int));
            }
            assert(p.drop_last() =~= ts.take(i as int));
            assert(p[best as int] == ts[best as int]);
            if self.pending_timers[i].fire_at_millis < self.pending_timers[best].fire_at_millis {
                best = i;
            }
            i = i + 1;
        }
        assert(ts.take(i as int) =~= ts);
        let fire_at = self.pending_timers[best].fire_at_millis;
        self.current_time_millis = fire_at;
        let fired = self.fire_timers_up_to(fire_at);
        proof {
            lemma_first_due(ts);
        }
        if fired.len() == 0 {
            assert(false);
            return None;
        }
        let mut fired = fired;
        Some(fired.remove(0))
    }

    /// Advance the clock to the latest pending timer and fire every timer;
    /// answers their IDs in registration order.
    pub fn skip_all_timers(&mut self) -> (r: Vec<String>)
        ensures
            old(self)@.timers.len() == 0 ==> r@.len() == 0 && final(self)@ == old(self)@,
            old(self)@.timers.len() > 0 ==> final(self)@.current_time_millis == latest_time(
                old(self)@.timers,
            ),
            r@.map_values(|s: String| s@) == old(self)@.timers.map_values(|x: TimerView| x.0),
            final(self)@.timers == Seq::<TimerView>::empty(),
    {
        if self.pending_timers.len() == 0 {
            let empty: Vec<String> = Vec::new();
            assert(self@.timers.map_values(|x: TimerView| x.0) =~= Seq::<Seq<char>>::empty());
            assert(empty@.map_values(|s: String| s@) =~= Seq::<Seq<char>>::empty());
            return empty;
        }
        let ghost ts = self@.timers;
        let mut max = self.pending_timers[0].fire_at_millis;
        let mut i: usize = 1;
        while i < self.pending_timers.len()
            invariant
                ts == self@.timers,
                ts.len() == self.pending_timers@.len(),
                1 <= i <= ts.len(),
                max == latest_time(ts.take(i as int)),
                forall|k: int| 0 <= k < ts.len() ==> (#[trigger] ts[k]).1 == self.pending_timers@[k].fire_at_millis,
            decreases ts.len() - i,
        {
            let ghost p = ts.take(i + 1);
            assert(p.drop_last() =~= ts.take(i as int));
            if self.pending_timers[i].fire_at_millis > max {
                max = self.pending_timers[i].fire_at_millis;
            }
            i = i + 1;
        }
        assert(ts.take(i as int) =~= ts);
        proof {
            lemma_latest_time(ts);
            lemma_all_due(ts, max);
        }
        self.current_time_millis = max;
        self.fire_timers_up_to(max)
    }

    /// Register the timer `timer_id`, firing at `fire_at_millis`.
    pub fn register_timer(&mut self, timer_id: &str, fire_at_millis: i64)
        ensures
            final(self)@ == (TimeControllerView {
                timers: old(self)@.timers.push((timer_id@, fire_at_millis)),
                ..old(self)@
            }),
    {
        self.pending_timers.push(
            PendingTimer { timer_id: String::from_str(timer_id), fire_at_millis },
        );
        assert(self@.timers =~= old(self)@.timers.push((timer_id@, fire_at_millis)));
    }

    /// Register the timer `timer_id`, firing `after_millis` from now.
    pub fn register_timer_after(&mut self, timer_id: &str, after_millis: i64)
        requires
            i64::MIN <= old(self)@.current_time_millis + after_millis <= i64::MAX,
        ensures
            final(self)@ == (TimeControllerView {
                timers: old(self)@.timers.push(
                    (timer_id@, (old(self)@.current_time_millis + after_millis) as i64),
                ),
                ..old(self)@
            }),
    {
        let fire_at = self.current_time_millis + after_millis;
        self.register_timer(timer_id, fire_at);
    }

    /// The IDs of the pending timers, in registration order.
    pub fn pending_timer_ids(&self) -> (r: Vec<String>)
        ensures
            r@.map_values(|s: String| s@) == self@.timers.map_values(|x: TimerView| x.0),
    {
        let mut r: Vec<String> = Vec::new();
        let mut i: usize = 0;
        while i < self.pending_timers.len()
            invariant
                i <= self.pending_timers@.len(),
                r@.len() == i,
                forall|j: int| 0 <= j < i ==> (#[trigger] r@[j])@ == self.pending_timers@[j].timer_id@,
            decreases self.pending_timers@.len() - i,
        {
            r.push(self.pending_timers[i].timer_id.clone());
            i = i + 1;
        }
        assert(r@.map_values(|s: String| s@) =~= self@.timers.map_values(|x: TimerView| x.0));
        r
    }

    /// Whether a timer `timer_id` is pending.
    pub fn is_timer_pending(&self, timer_id: &str) -> (r: bool)
        ensures
            r == exists|i: int| 0 <= i < self@.timers.len() && #[trigger] self@.timers[i].0 == timer_id@,
    {
        let mut i: usize = 0;
        while i < self.pending_timers.len()
            invariant
                i <= self.pending_timers@.len(),
                forall|j: int| 0 <= j < i ==> (#[trigger] self@.timers[j]).0 != timer_id@,
            decreases self.pending_timers@.len() - i,
        {
            if str_eq(self.pending_timers[i].timer_id.as_str(), timer_id) {
                assert(self@.timers[i as int].0 == timer_id@);
                return true;
            }
            i = i + 1;
        }
        false
    }

    /// Cancel every pending timer `timer_id`; answers whether there was one.
    pub fn cancel_timer(&mut self, timer_id: &str) -> (r: bool)
        ensures
            final(self)@ == (TimeControllerView {
                timers: without_timer(old(self)@.timers, timer_id@),
                ..old(self)@
            }),
            r == (without_timer(old(self)@.timers, timer_id@).len() < old(self)@.timers.len()),
    {
        let ghost ts = self@.timers;
        let mut kept: Vec<PendingTimer> = Vec::new();
        let mut old_timers: Vec<PendingTimer> = Vec::new();
        core::mem::swap(&mut old_timers, &mut self.pending_timers);
        let initial_len = old_timers.len();
        let ghost all = old_timers@;
        let mut i: usize = 0;
        assert(all.map_values(|p: PendingTimer| (p.timer_id@, p.fire_at_millis)).take(0) =~= Seq::<TimerView>::empty());
        proof {
            lemma_without_len(Seq::<TimerView>::empty(), timer_id@);
        }
        while i < initial_len
            invariant
                initial_len == all.len(),
                i <= initial_len,
                old_timers@ == all.skip(i as int),
                ts == all.map_values(|p: PendingTimer| (p.timer_id@, p.fire_at_millis)),
                kept@.map_values(|p: PendingTimer| (p.timer_id@, p.fire_at_millis)) == without_timer(ts.take(i as int), timer_id@),
                kept@.len() <= i,
            decreases initial_len - i,
        {
            let t = old_timers.remove(0);
            let ghost p = ts.take(i + 1);
            assert(p.drop_last() =~= ts.take(i as int));
            assert(old_timers@ =~= all.skip(i + 1));
            assert(t == all[i as int]);
            if !str_eq(t.timer_id.as_str(), timer_id) {
                let ghost before = kept@;
                kept.push(t);
                assert(kept@.map_values(|p: PendingTimer| (p.timer_id@, p.fire_at_millis)) =~= before.map_values(|p: PendingTimer| (p.timer_id@, p.fire_at_millis)).push((t.timer_id@, t.fire_at_millis)));
            }
            i = i + 1;
        }
        assert(ts.take(i as int) =~= ts);
        let removed = kept.len() < initial_len;
        self.pending_timers = kept;
        removed
    }

    fn fire_timers_up_to(&mut self, time_millis: i64) -> (r: Vec<String>)
        ensures
            final(self)@.current_time_millis == old(self)@.current_time_millis,
            r@.map_values(|s: String| s@) == due_ids(old(self)@.timers, time_millis),
            final(self)@.timers == not_due(old(self)@.timers, time_millis),
    {
        let ghost ts = self@.timers;
        let mut fired: Vec<String> = Vec::new();
        let mut remaining: Vec<PendingTimer> = Vec::new();
        let mut all_timers: Vec<PendingTimer> = Vec::new();
        core::mem::swap(&mut all_timers, &mut self.pending_timers);
        let n = all_timers.len();
        let ghost all = all_timers@;
        let mut i: usize = 0;
        assert(all.skip(0) =~= all);
        assert(fired@.map_values(|s: String| s@) =~= Seq::<Seq<char>>::empty());
        assert(remaining@.map_values(|p: PendingTimer| (p.timer_id@, p.fire_at_millis)) =~= Seq::<TimerView>::empty());
        while i < n
            invariant
                n == all.len(),
                i <= n,
                all_timers@ == all.skip(i as int),
                ts == all.map_values(|p: PendingTimer| (p.timer_id@, p.fire_at_millis)),
                fired@.map_values(|s: String| s@) == due_ids(ts.take(i as int), time_millis),
                remaining@.map_values(|p: PendingTimer| (p.timer_id@, p.fire_at_millis)) == not_due(ts.take(i as int), time_millis),
                self.current_time_millis == old(self).current_time_millis,
            decreases n - i,
        {
            let t = all_timers.remove(0);
            let ghost p = ts.take(i + 1);
            assert(p.drop_last() =~= ts.take(i as int));
            assert(all_timers@ =~= all.skip(i + 1));
            assert(t == all[i as int]);
            if t.fire_at_millis <= time_millis {
                let ghost before = fired@;
                fired.push(t.timer_id);
                assert(fired@.map_values(|s: String| s@) =~= before.map_values(|s: String| s@).push(all[i as int].timer_id@));
            } else {
                let ghost before = remaining@;
                remaining.push(t);
                assert(remaining@.map_values(|p: PendingTimer| (p.timer_id@, p.fire_at_millis)) =~= before.map_values(|p: PendingTimer| (p.timer_id@, p.fire_at_millis)).push((all[i as int].timer_id@, all[i as int].fire_at_millis)));
            }
            i = i + 1;
        }
        assert(ts.take(i as int) =~= ts);
        self.pending_timers = remaining;
        fired
    }
}

proof fn lemma_without_len(timers: Seq<TimerView>, id: Seq<char>)
    ensures
        without_timer(timers, id).len() <= timers.len(),
    decreases timers.len(),
{
    if timers.len() > 0 {
        lemma_without_len(timers.drop_last(), id);
    }
}


/// Advancing the clock to `t` splits the pending timers in two: each timer
/// due at `t` fires and each later one stays pending, and no timer is lost
/// or fired twice.
pub proof fn law_advance_partitions_timers(timers: Seq<TimerView>, t: i64)
    ensures
        due_ids(timers, t).len() + not_due(timers, t).len() == timers.len(),
        forall|i: int| 0 <= i < not_due(timers, t).len() ==> t < #[trigger] not_due(timers, t)[i].1,
        forall|i: int|
            0 <= i < timers.len() && #[trigger] timers[i].1 <= t ==> due_ids(timers, t).contains(
                timers[i].0,
            ),
        forall|i: int|
            0 <= i < timers.len() && t < #[trigger] timers[i].1 ==> not_due(timers, t).contains(
                timers[i],
            ),
    decreases timers.len(),
{
    if timers.len() > 0 {
        let d = timers.drop_last();
        law_advance_partitions_timers(d, t);
        let x = timers.last();
        assert forall|i: int| 0 <= i < timers.len() && #[trigger] timers[i].1 <= t implies due_ids(
            timers,
            t,
        ).contains(timers[i].0) by {
            if i < d.len() {
                assert(d[i] == timers[i]);
                let j = choose|j: int| 0 <= j < due_ids(d, t).len() && due_ids(d, t)[j] == d[i].0;
                if x.1 <= t {
                    assert(due_ids(timers, t)[j] == timers[i].0);
                }
            } else {
                assert(due_ids(timers, t).last() == timers[i].0);
            }
        }
        assert forall|i: int| 0 <= i < timers.len() && t < #[trigger] timers[i].1 implies not_due(
            timers,
            t,
        ).contains(timers[i]) by {
            if i < d.len() {
                assert(d[i] == timers[i]);
                let j = choose|j: int| 0 <= j < not_due(d, t).len() && not_due(d, t)[j] == d[i];
                if t < x.1 {
                    assert(not_due(timers, t)[j] == timers[i]);
                }
            } else {
                assert(not_due(timers, t).last() == timers[i]);
            }
        }
    }
}

/// Advancing the clock to `t1` and then to a later `t2` leaves the same
/// timers pending, in the same order, as advancing to `t2` at once.
pub proof fn law_advance_in_steps(timers: Seq<TimerView>, t1: i64, t2: i64)
    requires
        t1 <= t2,
    ensures
        not_due(not_due(timers, t1), t2) == not_due(timers, t2),
    decreases timers.len(),
{
    if timers.len() > 0 {
        let d = timers.drop_last();
        law_advance_in_steps(d, t1, t2);
        let x = timers.last();
        if t1 < x.1 {
            assert(not_due(timers, t1).drop_last() =~= not_due(d, t1));
        }
    }
}

/// Cancelling a timer that was just registered, under an ID no pending
/// timer had, leaves the pending timers as they were.
pub proof fn law_cancel_undoes_register(timers: Seq<TimerView>, id: Seq<char>, fire_at: i64)
    requires
        forall|i: int| 0 <= i < timers.len() ==> #[trigger] timers[i].0 != id,
    ensures
        without_timer(timers.push((id, fire_at)), id) == timers,
{
    assert(timers.push((id, fire_at)).drop_last() =~= timers);
    lemma_without_absent(timers, id);
}

proof fn lemma_without_absent(timers: Seq<TimerView>, id: Seq<char>)
    requires
        forall|i: int| 0 <= i < timers.len() ==> #[trigger] timers[i].0 != id,
    ensures
        without_timer(timers, id) == timers,
    decreases timers.len(),
{
    if timers.len() > 0 {
        let d = timers.drop_last();
        assert forall|i: int| 0 <= i < d.len() implies #[trigger] d[i].0 != id by {
            assert(d[i] == timers[i]);
        }
        lemma_without_absent(d, id);
        assert(timers.last().0 != id);
        assert(d.push(timers.last()) =~= timers);
    }
}

} // verus!
