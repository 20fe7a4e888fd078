//! Combinators over several workflow operations that run in parallel: wait
//! for all of them, for the first, for the first `n`, or for one with a
//! timeout.
//!
//! The inner operations are polled through a [`PollAt`] source, which polls
//! the operation at a given index once; each combinator keeps, as a ghost
//! log, what every poll it made answered, and its contract says which
//! operations a poll round polls, in which order, and what it answers.

use vstd::prelude::*;
use crate::error::{FlovynError, FlovynErrorView};

verus! {

/// The state of an operation after one poll.
#[derive(Debug)]
pub enum PollState<T> {
    /// The operation completed with this output.
    Ready(T),
    /// The operation has not completed yet.
    Pending,
}

/// What one poll of an inner operation answered.
#[derive(Debug, Clone, Copy, PartialEq, Eq, Structural)]
pub enum Polled {
    /// Not completed yet.
    Pending,
    /// Completed with a value.
    Succeeded,
    /// Completed with an error.
    Failed,
}

/// What a poll answered, without its value.
pub open spec fn polled<T>(p: PollState<Result<T, FlovynError>>) -> Polled {
    match p {
        PollState::Pending => Polled::Pending,
        PollState::Ready(Ok(_)) => Polled::Succeeded,
        PollState::Ready(Err(_)) => Polled::Failed,
    }
}

/// The value a poll answered, if it answered one.
pub open spec fn answered_value<T>(p: PollState<Result<T, FlovynError>>) -> Option<T> {
    match p {
        PollState::Ready(Ok(x)) => Some(x),
        _ => None,
    }
}

/// Whether `ans` are the answers behind the polls `obs`: one each, each
/// answering what `obs` records of it.
pub open spec fn answers_match<T>(obs: Seq<(int, Polled)>, ans: Seq<PollState<Result<T, FlovynError>>>) -> bool {
    &&& ans.len() == obs.len()
    &&& forall|k: int| 0 <= k < ans.len() ==> polled(#[trigger] ans[k]) == obs[k].1
}

/// A source of inner operations that can be polled by index.
pub trait PollAt<T> {
    /// Poll the operation at `index` once.
    fn poll_at(&mut self, index: usize) -> PollState<Result<T, FlovynError>>;
}

/// The positions of the operations still to be polled, in order.
pub open spec fn active_positions(active: Seq<bool>) -> Seq<int>
    decreases active.len(),
{
    if active.len() == 0 {
        Seq::empty()
    } else {
        let p = active_positions(active.drop_last());
        if active.last() {
            p.push(active.len() - 1)
        } else {
            p
        }
    }
}

pub proof fn lemma_active_positions(active: Seq<bool>)
    ensures
        active_positions(active).len() <= active.len(),
        forall|k: int|
            0 <= k < active_positions(active).len() ==> 0 <= #[trigger] active_positions(active)[k]
                < active.len() && active[active_positions(active)[k]],
        forall|k: int, l: int|
            0 <= k < l < active_positions(active).len() ==> #[trigger] active_positions(active)[k]
                < #[trigger] active_positions(active)[l],
        forall|i: int|
            0 <= i < active.len() && active[i] ==> exists|k: int|
                0 <= k < active_positions(active).len() && #[trigger] active_positions(active)[k]
                    == i,
    decreases active.len(),
{
    if active.len() > 0 {
        let d = active.drop_last();
        lemma_active_positions(d);
        assert forall|i: int| 0 <= i < active.len() && active[i] implies exists|k: int|
            0 <= k < active_positions(active).len() && #[trigger] active_positions(active)[k]
                == i by {
            if i < active.len() - 1 {
                assert(d[i] == active[i]);
                let k = choose|k: int|
                    0 <= k < active_positions(d).len() && #[trigger] active_positions(d)[k] == i;
                assert(active_positions(active)[k] == i);
            } else {
                assert(active_positions(active)[active_positions(d).len() as int] == i);
            }
        }
    }
}

/// The active positions of a prefix, extended by one flag.
proof fn lemma_active_positions_take(active: Seq<bool>, i: int)
    requires
        0 <= i < active.len(),
    ensures
        active_positions(active.take(i + 1)) == if active[i] {
            active_positions(active.take(i)).push(i)
        } else {
            active_positions(active.take(i))
        },
{
    assert(active.take(i + 1).drop_last() =~= active.take(i));
}

/// Whether `obs` is a poll round over the operations at `positions`: they
/// are polled in order, each once, until one fails or all have been polled.
pub open spec fn is_round(positions: Seq<int>, obs: Seq<(int, Polled)>) -> bool {
    &&& obs.len() <= positions.len()
    &&& forall|k: int| 0 <= k < obs.len() ==> (#[trigger] obs[k]).0 == positions[k]
    &&& forall|k: int| 0 <= k < obs.len() - 1 ==> (#[trigger] obs[k]).1 != Polled::Failed
    &&& obs.len() < positions.len() ==> obs.len() > 0 && obs.last().1 == Polled::Failed
}

/// Whether a poll round ended on a failure.
pub open spec fn round_failed(obs: Seq<(int, Polled)>) -> bool {
    obs.len() > 0 && obs.last().1 == Polled::Failed
}

/// Whether some poll of a round answered that its operation is pending.
pub open spec fn round_pending(obs: Seq<(int, Polled)>) -> bool {
    exists|k: int| 0 <= k < obs.len() && (#[trigger] obs[k]).1 == Polled::Pending
}

// ============================================================================
// JoinAll
// ============================================================================

/// Waits for all inner operations; answers their values in input order, or
/// the first error.
pub struct JoinAll<T> {
    active: Vec<bool>,
    results: Vec<Option<T>>,
    log: Ghost<Seq<(int, Polled)>>,
    answers: Ghost<Seq<PollState<Result<T, FlovynError>>>>,
}

impl<T> JoinAll<T> {
    /// Which inner operations have not completed yet.
    pub closed spec fn active(&self) -> Seq<bool> {
        self.active@
    }

    /// The values of the operations that completed, by position.
    pub closed spec fn results(&self) -> Seq<Option<T>> {
        self.results@
    }

    /// Every poll this combinator made: the index polled and what it answered.
    pub closed spec fn log(&self) -> Seq<(int, Polled)> {
        self.log@
    }

    /// What every poll this combinator made answered, in full.
    pub closed spec fn answers(&self) -> Seq<PollState<Result<T, FlovynError>>> {
        self.answers@
    }

    /// Whether the combinator still waits: each operation either completed
    /// with a value or is still to be polled.
    pub closed spec fn wf(&self) -> bool {
        &&& self.active@.len() == self.results@.len()
        &&& forall|i: int| 0 <= i < self.active@.len() ==> (#[trigger] self.active@[i]) == (
        self.results@[i] is None)
    }

    /// A combinator over `count` operations, none polled yet.
    pub fn new(count: usize) -> (r: Self)
        ensures
            r.wf(),
            r.active() == Seq::new(count as nat, |i: int| true),
            r.log() == Seq::<(int, Polled)>::empty(),
            r.answers() == Seq::<PollState<Result<T, FlovynError>>>::empty(),
    {
        let mut active: Vec<bool> = Vec::new();
        let mut results: Vec<Option<T>> = Vec::new();
        let mut i: usize = 0;
        while i < count
            invariant
                i <= count,
                active@ == Seq::new(i as nat, |j: int| true),
                results@.len() == i,
                forall|j: int| 0 <= j < i ==> (#[trigger] results@[j]) is None,
            decreases count - i,
        {
            active.push(true);
            results.push(None);
            i = i + 1;
            assert(active@ =~= Seq::new(i as nat, |j: int| true));
        }
        JoinAll { active, results, log: Ghost(Seq::empty()), answers: Ghost(Seq::empty()) }
    }

    /// Poll the operations that have not completed, in input order, until
    /// one fails. Answers the error of a failed one; all the values in input
    /// order once every operation has completed; otherwise pending.
    pub fn poll<P: PollAt<T>>(&mut self, source: &mut P) -> (r: PollState<
        Result<Vec<T>, FlovynError>,
    >)
        requires
            old(self).wf(),
        ensures
            ({
                let before = old(self).log().len();
                let obs = final(self).log().skip(before as int);
                &&& final(self).log().take(before as int) == old(self).log()
                &&& is_round(active_positions(old(self).active()), obs)
                &&& (r matches PollState::Ready(Err(_))) <==> round_failed(obs)
                &&& (r is Pending) <==> (!round_failed(obs) && round_pending(obs))
                &&& r matches PollState::Ready(Ok(v)) ==> v@.len() == old(self).active().len()
                    && forall|i: int|
                    0 <= i < v@.len() && old(self).results()[i] is Some ==> v@[i]
                        == old(self).results()[i]->0
                &&& !(r matches PollState::Ready(Ok(_))) ==> final(self).wf()
                    && final(self).active().len() == old(self).active().len()
                    && forall|i: int|
                    0 <= i < old(self).active().len() && old(self).results()[i] is Some
                        ==> final(self).results()[i] == old(self).results()[i]
                &&& final(self).answers().take(old(self).answers().len() as int) == old(
                    self,
                ).answers()
                &&& answers_match(obs, final(self).answers().skip(old(self).answers().len() as int))
                &&& r matches PollState::Ready(Err(e)) ==> final(self).answers().last()
                    == PollState::Ready(Err::<T, FlovynError>(e))
                &&& r matches PollState::Ready(Ok(v)) ==> forall|k: int|
                    0 <= k < obs.len() && #[trigger] answered_value(
                        final(self).answers()[old(self).answers().len() + k],
                    ) is Some ==> Some(v@[obs[k].0]) == answered_value(
                        final(self).answers()[old(self).answers().len() + k],
                    )
                &&& !(r matches PollState::Ready(Ok(_))) ==> forall|k: int|
                    0 <= k < obs.len() && #[trigger] answered_value(
                        final(self).answers()[old(self).answers().len() + k],
                    ) is Some ==> final(self).results()[obs[k].0] == answered_value(
                        final(self).answers()[old(self).answers().len() + k],
                    )
            }),
    {
        let ghost s0 = self.active@;
        let ghost r0 = self.results@;
        let ghost l0 = self.log@;
        let ghost a0 = self.answers@;
        let ghost mut round: Seq<(int, Polled)> = Seq::empty();
        let ghost mut rans: Seq<PollState<Result<T, FlovynError>>> = Seq::empty();
        proof {
            lemma_active_positions(s0);
        }
        let n = self.active.len();
        let mut all_done = true;
        let mut i: usize = 0;
        assert(self.log@ =~= l0 + round);
        assert(s0.take(0) =~= Seq::<bool>::empty());
        while i < n
            invariant
                self.wf(),
                s0 == old(self).active@,
                r0 == old(self).results@,
                l0 == old(self).log@,
                n == s0.len(),
                n == r0.len(),
                i <= n,
                self.active@.len() == n,
                self.log@ == l0 + round,
                forall|j: int| i <= j < n ==> #[trigger] self.active@[j] == s0[j],
                forall|j: int| i <= j < n ==> #[trigger] self.results@[j] == r0[j],
                forall|j: int| 0 <= j < n && r0[j] is Some ==> #[trigger] self.results@[j] == r0[j],
                round.len() == active_positions(s0.take(i as int)).len(),
                forall|k: int|
                    0 <= k < round.len() ==> (#[trigger] round[k]).0 == active_positions(
                        s0.take(i as int),
                    )[k] && round[k].1 != Polled::Failed && 0 <= round[k].0 < i && (round[k].1
                        == Polled::Succeeded ==> self.results@[round[k].0] is Some),
                all_done <==> !round_pending(round),
                a0 == old(self).answers@,
                self.answers@ == a0 + rans,
                answers_match(round, rans),
                forall|k: int|
                    0 <= k < rans.len() && #[trigger] answered_value(rans[k]) is Some
                        ==> self.results@[round[k].0] == answered_value(rans[k]),
            decreases n - i,
        {
            proof {
                lemma_active_positions_take(s0, i as int);
                lemma_active_positions(s0.take(i as int));
            }
            if self.active[i] {
                let p = source.poll_at(i);
                let ghost gp = p;
                let ghost prev = round;
                let ghost prev_ans = rans;
                proof {
                    round = round.push((i as int, polled(p)));
                    self.log@ = self.log@.push((i as int, polled(p)));
                    rans = rans.push(gp);
                    self.answers@ = self.answers@.push(gp);
                    lemma_round_pending_push(prev, (i as int, polled(p)));
                    assert forall|k: int| 0 <= k < rans.len() implies polled(#[trigger] rans[k])
                        == round[k].1 by {
                        if k < prev.len() {
                            assert(rans[k] == prev_ans[k]);
                        }
                    }
                }
                assert(self.log@ =~= l0 + round);
                assert(self.answers@ =~= a0 + rans);
                match p {
                    PollState::Ready(Ok(v)) => {
                        self.results.set(i, Some(v));
                        self.active.set(i, false);
                        proof {
                            assert forall|k: int|
                                0 <= k < rans.len() && #[trigger] answered_value(rans[k]) is Some
                                    implies self.results@[round[k].0] == answered_value(rans[k]) by {
                                if k < prev.len() {
                                    assert(rans[k] == prev_ans[k]);
                                    assert(round[k] == prev[k]);
                                }
                            }
                        }
                    },
                    PollState::Ready(Err(e)) => {
                        proof {
                            lemma_round_prefix(s0, i + 1, round);
                            assert((l0 + round).skip(l0.len() as int) =~= round);
                            assert((l0 + round).take(l0.len() as int) =~= l0);
                            assert((a0 + rans).skip(a0.len() as int) =~= rans);
                            assert((a0 + rans).take(a0.len() as int) =~= a0);
                        }
                        return PollState::Ready(Err(e));
                    },
                    PollState::Pending => {
                        all_done = false;
                        proof {
                            assert forall|k: int|
                                0 <= k < rans.len() && #[trigger] answered_value(rans[k]) is Some
                                    implies self.results@[round[k].0] == answered_value(rans[k]) by {
                                if k < prev.len() {
                                    assert(rans[k] == prev_ans[k]);
                                    assert(round[k] == prev[k]);
                                }
                            }
                        }
                    },
                }
            } else {
                assert(self.results@[i as int] is Some);
            }
            i = i + 1;
        }
        proof {
            assert(s0.take(n as int) =~= s0);
            assert((l0 + round).skip(l0.len() as int) =~= round);
            assert((l0 + round).take(l0.len() as int) =~= l0);
            assert((a0 + rans).skip(a0.len() as int) =~= rans);
            assert((a0 + rans).take(a0.len() as int) =~= a0);
            lemma_round_prefix(s0, n as int, round);
        }
        if all_done {
            assert forall|t: int| 0 <= t < n implies (#[trigger] self.results@[t]) is Some by {
                if s0[t] {
                    let ap = active_positions(s0);
                    let k = choose|k: int| 0 <= k < ap.len() && #[trigger] ap[k] == t;
                    assert(round[k].1 != Polled::Pending);
                }
            }
            let mut results: Vec<Option<T>> = Vec::new();
            core::mem::swap(&mut results, &mut self.results);
            let out = take_all(results);
            self.active = deactivated(n);
            PollState::Ready(Ok(out))
        } else {
            PollState::Pending
        }
    }
}

/// The values of slots that are all filled, in order.
fn take_all<T>(results: Vec<Option<T>>) -> (out: Vec<T>)
    requires
        forall|t: int| 0 <= t < results@.len() ==> (#[trigger] results@[t]) is Some,
    ensures
        out@.len() == results@.len(),
        forall|t: int| 0 <= t < out@.len() ==> Some(#[trigger] out@[t]) == results@[t],
{
    let ghost full = results@;
    let n = results.len();
    let mut results = results;
    let mut out: Vec<T> = Vec::new();
    let mut j: usize = 0;
    assert(full.skip(0) =~= full);
    while j < n
        invariant
            j <= n,
            n == full.len(),
            results@ == full.skip(j as int),
            out@.len() == j,
            forall|t: int| 0 <= t < n ==> (#[trigger] full[t]) is Some,
            forall|t: int| 0 <= t < j ==> Some(#[trigger] out@[t]) == full[t],
        decreases n - j,
    {
        let x = results.remove(0);
        assert(results@ =~= full.skip(j + 1));
        match x {
            Some(v) => out.push(v),
            None => {
                assert(false);
            },
        }
        j = j + 1;
    }
    out
}

/// `n` flags, all off.
fn deactivated(n: usize) -> (r: Vec<bool>)
    ensures
        r@ == Seq::new(n as nat, |i: int| false),
{
    let mut r: Vec<bool> = Vec::new();
    let mut i: usize = 0;
    while i < n
        invariant
            i <= n,
            r@ == Seq::new(i as nat, |j: int| false),
        decreases n - i,
    {
        r.push(false);
        i = i + 1;
        assert(r@ =~= Seq::new(i as nat, |j: int| false));
    }
    r
}

proof fn lemma_round_pending_push(round: Seq<(int, Polled)>, x: (int, Polled))
    ensures
        round_pending(round.push(x)) <==> (round_pending(round) || x.1 == Polled::Pending),
{
    let r = round.push(x);
    if round_pending(round) {
        let k = choose|k: int| 0 <= k < round.len() && (#[trigger] round[k]).1 == Polled::Pending;
        assert(r[k] == round[k]);
    }
    if x.1 == Polled::Pending {
        assert(r[round.len() as int] == x);
    }
    if round_pending(r) {
        let k = choose|k: int| 0 <= k < r.len() && (#[trigger] r[k]).1 == Polled::Pending;
        if k < round.len() {
            assert(r[k] == round[k]);
        }
    }
}

/// A round over the active positions of a prefix, each polled once in
/// order, is a round over all the active positions, provided only its last
/// poll may have failed and it stops early only on a failure.
proof fn lemma_round_prefix(active: Seq<bool>, i: int, round: Seq<(int, Polled)>)
    requires
        0 <= i <= active.len(),
        round.len() == active_positions(active.take(i)).len(),
        forall|k: int|
            0 <= k < round.len() ==> (#[trigger] round[k]).0 == active_positions(active.take(i))[k],
        forall|k: int| 0 <= k < round.len() - 1 ==> (#[trigger] round[k]).1 != Polled::Failed,
        i < active.len() ==> round.len() > 0 && round.last().1 == Polled::Failed,
    ensures
        is_round(active_positions(active), round),
{
    lemma_active_positions(active);
    assert forall|k: int| 0 <= k < round.len() implies (#[trigger] round[k]).0 == active_positions(
        active,
    )[k] by {
        lemma_active_positions_prefix(active, i, k);
    }
    if round.len() > 0 {
        lemma_active_positions_prefix(active, i, round.len() - 1);
    }
    if i == active.len() {
        assert(active.take(i) =~= active);
    }
}

/// A prefix of the flags has, as its active positions, a prefix of the
/// active positions of all of them.
proof fn lemma_active_positions_prefix(active: Seq<bool>, i: int, k: int)
    requires
        0 <= i <= active.len(),
        0 <= k < active_positions(active.take(i)).len(),
    ensures
        k < active_positions(active).len(),
        active_positions(active.take(i))[k] == active_positions(active)[k],
    decreases active.len() - i,
{
    if i < active.len() {
        lemma_active_positions_take(active, i);
        lemma_active_positions_prefix(active, i + 1, k);
    } else {
        assert(active.take(i) =~= active);
    }
}

/// Wait for all `count` operations.
pub fn join_all<T>(count: usize) -> (r: JoinAll<T>)
    ensures
        r.wf(),
        r.active() == Seq::new(count as nat, |i: int| true),
        r.log() == Seq::<(int, Polled)>::empty(),
        r.answers() == Seq::<PollState<Result<T, FlovynError>>>::empty(),
{
    JoinAll::new(count)
}

// ============================================================================
// Select
// ============================================================================

/// Whether `obs` is a select round over the operations at `positions`:
/// they are polled in order, each once, until one completes.
pub open spec fn is_select_round(positions: Seq<int>, obs: Seq<(int, Polled)>) -> bool {
    &&& obs.len() <= positions.len()
    &&& forall|k: int| 0 <= k < obs.len() ==> (#[trigger] obs[k]).0 == positions[k]
    &&& forall|k: int| 0 <= k < obs.len() - 1 ==> (#[trigger] obs[k]).1 == Polled::Pending
    &&& obs.len() < positions.len() ==> obs.len() > 0 && obs.last().1 != Polled::Pending
}

/// Waits for the first inner operation to complete; answers its index and
/// value, or its error. The other operations are left as they are.
pub struct Select<T> {
    active: Vec<bool>,
    log: Ghost<Seq<(int, Polled)>>,
    answers: Ghost<Seq<PollState<Result<T, FlovynError>>>>,
}

impl<T> Select<T> {
    /// Which inner operations have not completed yet.
    pub closed spec fn active(&self) -> Seq<bool> {
        self.active@
    }

    /// Every poll this combinator made: the index polled and what it answered.
    pub closed spec fn log(&self) -> Seq<(int, Polled)> {
        self.log@
    }

    /// What every poll this combinator made answered, in full.
    pub closed spec fn answers(&self) -> Seq<PollState<Result<T, FlovynError>>> {
        self.answers@
    }

    /// A combinator over `count` operations, none polled yet.
    pub fn new(count: usize) -> (r: Self)
        ensures
            r.active() == Seq::new(count as nat, |i: int| true),
            r.log() == Seq::<(int, Polled)>::empty(),
            r.answers() == Seq::<PollState<Result<T, FlovynError>>>::empty(),
    {
        Select { active: activated(count), log: Ghost(Seq::empty()), answers: Ghost(Seq::empty()) }
    }

    /// Poll the operations that have not completed, in input order, until
    /// one completes: answer its index and value, or its error; pending when
    /// none completes.
    pub fn poll<P: PollAt<T>>(&mut self, source: &mut P) -> (r: PollState<
        Result<(usize, T), FlovynError>,
    >)
        ensures
            ({
                let before = old(self).log().len();
                let obs = final(self).log().skip(before as int);
                &&& final(self).log().take(before as int) == old(self).log()
                &&& is_select_round(active_positions(old(self).active()), obs)
                &&& (r is Pending) <==> (obs.len() == 0 || obs.last().1 == Polled::Pending)
                &&& (r matches PollState::Ready(Err(_))) <==> (obs.len() > 0 && obs.last().1
                    == Polled::Failed)
                &&& r matches PollState::Ready(Ok((i, _))) ==> obs.len() > 0 && obs.last()
                    == (i as int, Polled::Succeeded)
                &&& final(self).active() == if r is Pending {
                    old(self).active()
                } else {
                    old(self).active().update(obs.last().0, false)
                }
                &&& final(self).answers().take(old(self).answers().len() as int) == old(
                    self,
                ).answers()
                &&& answers_match(obs, final(self).answers().skip(old(self).answers().len() as int))
                &&& r matches PollState::Ready(Ok((_, x))) ==> final(self).answers().last()
                    == PollState::Ready(Ok::<T, FlovynError>(x))
                &&& r matches PollState::Ready(Err(e)) ==> final(self).answers().last()
                    == PollState::Ready(Err::<T, FlovynError>(e))
            }),
    {
        let ghost s0 = self.active@;
        let ghost l0 = self.log@;
        let ghost a0 = self.answers@;
        let ghost mut round: Seq<(int, Polled)> = Seq::empty();
        let ghost mut rans: Seq<PollState<Result<T, FlovynError>>> = Seq::empty();
        proof {
            lemma_active_positions(s0);
        }
        let n = self.active.len();
        let mut i: usize = 0;
        assert(s0.take(0) =~= Seq::<bool>::empty());
        while i < n
            invariant
                s0 == old(self).active@,
                l0 == old(self).log@,
                self.active@ == s0,
                n == s0.len(),
                i <= n,
                self.log@ == l0 + round,
                round.len() == active_positions(s0.take(i as int)).len(),
                forall|k: int|
                    0 <= k < round.len() ==> (#[trigger] round[k]).0 == active_positions(
                        s0.take(i as int),
                    )[k] && round[k].1 == Polled::Pending,
                a0 == old(self).answers@,
                self.answers@ == a0 + rans,
                answers_match(round, rans),
            decreases n - i,
        {
            proof {
                lemma_active_positions_take(s0, i as int);
            }
            if self.active[i] {
                let p = source.poll_at(i);
                let ghost gp = p;
                let ghost prev_ans = rans;
                proof {
                    round = round.push((i as int, polled(p)));
                    self.log@ = self.log@.push((i as int, polled(p)));
                    rans = rans.push(gp);
                    self.answers@ = self.answers@.push(gp);
                    assert forall|k: int| 0 <= k < rans.len() implies polled(#[trigger] rans[k])
                        == round[k].1 by {
                        if k < prev_ans.len() {
                            assert(rans[k] == prev_ans[k]);
                        }
                    }
                    assert((a0 + rans).skip(a0.len() as int) =~= rans);
                    assert((a0 + rans).take(a0.len() as int) =~= a0);
                }
                assert(self.log@ =~= l0 + round);
                assert(self.answers@ =~= a0 + rans);
                match p {
                    PollState::Ready(Ok(v)) => {
                        self.active.set(i, false);
                        proof {
                            lemma_select_prefix(s0, i + 1, round);
                            assert((l0 + round).skip(l0.len() as int) =~= round);
                            assert((l0 + round).take(l0.len() as int) =~= l0);
                        }
                        return PollState::Ready(Ok((i, v)));
                    },
                    PollState::Ready(Err(e)) => {
                        self.active.set(i, false);
                        proof {
                            lemma_select_prefix(s0, i + 1, round);
                            assert((l0 + round).skip(l0.len() as int) =~= round);
                            assert((l0 + round).take(l0.len() as int) =~= l0);
                        }
                        return PollState::Ready(Err(e));
                    },
                    PollState::Pending => {},
                }
            }
            i = i + 1;
        }
        proof {
            lemma_select_prefix(s0, n as int, round);
            assert((l0 + round).skip(l0.len() as int) =~= round);
            assert((l0 + round).take(l0.len() as int) =~= l0);
            assert((a0 + rans).skip(a0.len() as int) =~= rans);
            assert((a0 + rans).take(a0.len() as int) =~= a0);
        }
        PollState::Pending
    }
}

proof fn lemma_select_prefix(active: Seq<bool>, i: int, round: Seq<(int, Polled)>)
    requires
        0 <= i <= active.len(),
        round.len() == active_positions(active.take(i)).len(),
        forall|k: int|
            0 <= k < round.len() ==> (#[trigger] round[k]).0 == active_positions(active.take(i))[k],
        forall|k: int| 0 <= k < round.len() - 1 ==> (#[trigger] round[k]).1 == Polled::Pending,
        i < active.len() ==> round.len() > 0 && round.last().1 != Polled::Pending,
    ensures
        is_select_round(active_positions(active), round),
{
    lemma_active_positions(active);
    assert forall|k: int| 0 <= k < round.len() implies (#[trigger] round[k]).0 == active_positions(
        active,
    )[k] by {
        lemma_active_positions_prefix(active, i, k);
    }
    if round.len() > 0 {
        lemma_active_positions_prefix(active, i, round.len() - 1);
    }
    if i == active.len() {
        assert(active.take(i) =~= active);
    }
}

/// `n` flags, all on.
fn activated(n: usize) -> (r: Vec<bool>)
    ensures
        r@ == Seq::new(n as nat, |i: int| true),
{
    let mut r: Vec<bool> = Vec::new();
    let mut i: usize = 0;
    while i < n
        invariant
            i <= n,
            r@ == Seq::new(i as nat, |j: int| true),
        decreases n - i,
    {
        r.push(true);
        i = i + 1;
        assert(r@ =~= Seq::new(i as nat, |j: int| true));
    }
    r
}

/// Wait for the first of `count` operations.
pub fn select<T>(count: usize) -> (r: Select<T>)
    ensures
        r.active() == Seq::new(count as nat, |i: int| true),
        r.log() == Seq::<(int, Polled)>::empty(),
        r.answers() == Seq::<PollState<Result<T, FlovynError>>>::empty(),
{
    Select::new(count)
}

// ============================================================================
// JoinN
// ============================================================================

/// The indices of the polls of a round that succeeded, in order.
pub open spec fn succeeded_indices(obs: Seq<(int, Polled)>) -> Seq<int>
    decreases obs.len(),
{
    if obs.len() == 0 {
        Seq::empty()
    } else {
        let p = succeeded_indices(obs.drop_last());
        if obs.last().1 == Polled::Succeeded {
            p.push(obs.last().0)
        } else {
            p
        }
    }
}

/// The values of the polls among `ans` that succeeded, in order.
pub open spec fn succeeded_values<T>(ans: Seq<PollState<Result<T, FlovynError>>>) -> Seq<T>
    decreases ans.len(),
{
    if ans.len() == 0 {
        Seq::empty()
    } else {
        let p = succeeded_values(ans.drop_last());
        match ans.last() {
            PollState::Ready(Ok(x)) => p.push(x),
            _ => p,
        }
    }
}

/// Whether `obs` is a round of a combinator that waits for `n` operations
/// and has `have` already: the operations at `positions` are polled in
/// order, each once, while fewer than `n` have completed, until one fails.
pub open spec fn is_join_n_round(
    positions: Seq<int>,
    have: int,
    n: int,
    obs: Seq<(int, Polled)>,
) -> bool {
    &&& obs.len() <= positions.len()
    &&& forall|k: int| 0 <= k < obs.len() ==> (#[trigger] obs[k]).0 == positions[k]
    &&& forall|k: int| 0 <= k < obs.len() - 1 ==> (#[trigger] obs[k]).1 != Polled::Failed
    &&& forall|k: int|
        0 <= k < obs.len() ==> have + (#[trigger] succeeded_indices(obs.take(k))).len() < n
    &&& obs.len() < positions.len() ==> (obs.len() > 0 && obs.last().1 == Polled::Failed) || have
        + succeeded_indices(obs).len() >= n
}

/// Waits for the first `n` inner operations to complete; answers their
/// indices and values in completion order, or the first error.
pub struct JoinN<T> {
    active: Vec<bool>,
    results: Vec<(usize, T)>,
    n: usize,
    log: Ghost<Seq<(int, Polled)>>,
    answers: Ghost<Seq<PollState<Result<T, FlovynError>>>>,
}

impl<T> JoinN<T> {
    /// Which inner operations have not completed yet.
    pub closed spec fn active(&self) -> Seq<bool> {
        self.active@
    }

    /// The completed operations kept so far: index and value.
    pub closed spec fn results(&self) -> Seq<(usize, T)> {
        self.results@
    }

    /// How many completions the combinator waits for.
    pub closed spec fn target(&self) -> nat {
        self.n as nat
    }

    /// Every poll this combinator made: the index polled and what it answered.
    pub closed spec fn log(&self) -> Seq<(int, Polled)> {
        self.log@
    }

    /// What every poll this combinator made answered, in full.
    pub closed spec fn answers(&self) -> Seq<PollState<Result<T, FlovynError>>> {
        self.answers@
    }

    /// A combinator over `count` operations that waits for `n` of them, or
    /// for all of them where there are fewer.
    pub fn new(count: usize, n: usize) -> (r: Self)
        ensures
            r.active() == Seq::new(count as nat, |i: int| true),
            r.results() == Seq::<(usize, T)>::empty(),
            r.target() == if n < count {
                n
            } else {
                count
            },
            r.log() == Seq::<(int, Polled)>::empty(),
            r.answers() == Seq::<PollState<Result<T, FlovynError>>>::empty(),
    {
        let n = if n < count {
            n
        } else {
            count
        };
        JoinN {
            active: activated(count),
            results: Vec::new(),
            n,
            log: Ghost(Seq::empty()),
            answers: Ghost(Seq::empty()),
        }
    }

    /// Poll, in input order, the operations that have not completed while
    /// fewer than the target have, until one fails. Answers the error of a
    /// failed one; the completed indices and values, in completion order, once
    /// the target is reached; otherwise pending.
    pub fn poll<P: PollAt<T>>(&mut self, source: &mut P) -> (r: PollState<
        Result<Vec<(usize, T)>, FlovynError>,
    >)
        ensures
            ({
                let before = old(self).log().len();
                let obs = final(self).log().skip(before as int);
                let have = old(self).results().len();
                let got = succeeded_indices(obs);
                &&& final(self).log().take(before as int) == old(self).log()
                &&& have >= old(self).target() ==> obs.len() == 0
                &&& have < old(self).target() ==> is_join_n_round(
                    active_positions(old(self).active()),
                    have as int,
                    old(self).target() as int,
                    obs,
                )
                &&& final(self).target() == old(self).target()
                &&& (r matches PollState::Ready(Err(_))) <==> round_failed(obs)
                &&& (r is Pending) <==> (!round_failed(obs) && have + got.len() < old(
                    self,
                ).target())
                &&& r matches PollState::Ready(Ok(v)) ==> v@.len() == have + got.len() && (
                forall|k: int| 0 <= k < have ==> #[trigger] v@[k] == old(self).results()[k]) && (
                forall|k: int| 0 <= k < got.len() ==> (#[trigger] v@[have + k]).0 == got[k])
                    && final(self).results().len() == 0
                &&& !(r matches PollState::Ready(Ok(_))) ==> final(self).results().len() == have
                    + got.len() && (forall|k: int|
                    0 <= k < have ==> #[trigger] final(self).results()[k] == old(
                        self,
                    ).results()[k]) && (forall|k: int|
                    0 <= k < got.len() ==> (#[trigger] final(self).results()[have + k]).0
                        == got[k])
                &&& final(self).answers().take(old(self).answers().len() as int) == old(
                    self,
                ).answers()
                &&& answers_match(obs, final(self).answers().skip(old(self).answers().len() as int))
                &&& succeeded_values(final(self).answers().skip(old(self).answers().len() as int)).len()
                    == got.len()
                &&& r matches PollState::Ready(Err(e)) ==> final(self).answers().last()
                    == PollState::Ready(Err::<T, FlovynError>(e))
                &&& r matches PollState::Ready(Ok(v)) ==> forall|k: int|
                    0 <= k < got.len() ==> (#[trigger] v@[have + k]).1 == succeeded_values(
                        final(self).answers().skip(old(self).answers().len() as int),
                    )[k]
                &&& !(r matches PollState::Ready(Ok(_))) ==> forall|k: int|
                    0 <= k < got.len() ==> (#[trigger] final(self).results()[have + k]).1
                        == succeeded_values(
                        final(self).answers().skip(old(self).answers().len() as int),
                    )[k]
            }),
    {
        let ghost s0 = self.active@;
        let ghost res0 = self.results@;
        let ghost l0 = self.log@;
        let ghost a0 = self.answers@;
        let ghost mut round: Seq<(int, Polled)> = Seq::empty();
        let ghost mut rans: Seq<PollState<Result<T, FlovynError>>> = Seq::empty();
        proof {
            lemma_active_positions(s0);
            assert(self.log@.skip(l0.len() as int) =~= round);
            assert(self.log@.take(l0.len() as int) =~= l0);
            assert(self.answers@.skip(a0.len() as int) =~= rans);
            assert(self.answers@.take(a0.len() as int) =~= a0);
        }
        if self.results.len() >= self.n {
            let mut out: Vec<(usize, T)> = Vec::new();
            core::mem::swap(&mut out, &mut self.results);
            return PollState::Ready(Ok(out));
        }
        let len = self.active.len();
        let mut i: usize = 0;
        assert(s0.take(0) =~= Seq::<bool>::empty());
        while i < len
            invariant
                s0 == old(self).active@,
                res0 == old(self).results@,
                l0 == old(self).log@,
                self.n == old(self).n,
                res0.len() < self.n,
                len == s0.len(),
                i <= len,
                self.active@.len() == len,
                forall|j: int| i <= j < len ==> #[trigger] self.active@[j] == s0[j],
                self.log@ == l0 + round,
                round.len() == active_positions(s0.take(i as int)).len(),
                forall|k: int|
                    0 <= k < round.len() ==> (#[trigger] round[k]).0 == active_positions(
                        s0.take(i as int),
                    )[k] && round[k].1 != Polled::Failed,
                forall|k: int|
                    0 <= k < round.len() ==> res0.len() + (#[trigger] succeeded_indices(
                        round.take(k),
                    )).len() < self.n,
                self.results@.len() == res0.len() + succeeded_indices(round).len(),
                forall|k: int| 0 <= k < res0.len() ==> #[trigger] self.results@[k] == res0[k],
                forall|k: int|
                    0 <= k < succeeded_indices(round).len() ==> (
                    #[trigger] self.results@[res0.len() + k]).0 == succeeded_indices(round)[k],
                a0 == old(self).answers@,
                self.answers@ == a0 + rans,
                answers_match(round, rans),
                succeeded_values(rans).len() == succeeded_indices(round).len(),
                forall|k: int|
                    0 <= k < succeeded_indices(round).len() ==> (
                    #[trigger] self.results@[res0.len() + k]).1 == succeeded_values(rans)[k],
            ensures
                i < len ==> self.results@.len() >= self.n,
            decreases len - i,
        {
            if self.results.len() >= self.n {
                break;
            }
            proof {
                lemma_active_positions_take(s0, i as int);
            }
            if self.active[i] {
                let p = source.poll_at(i);
                let ghost gp = p;
                let ghost prev = round;
                let ghost prev_ans = rans;
                proof {
                    round = round.push((i as int, polled(p)));
                    self.log@ = self.log@.push((i as int, polled(p)));
                    rans = rans.push(gp);
                    self.answers@ = self.answers@.push(gp);
                    assert(round.take(prev.len() as int) =~= prev);
                    assert(round.drop_last() =~= prev);
                    assert(rans.drop_last() =~= prev_ans);
                    assert forall|k: int| 0 <= k < prev.len() implies #[trigger] round.take(k)
                        =~= prev.take(k) by {}
                    assert forall|k: int| 0 <= k < rans.len() implies polled(#[trigger] rans[k])
                        == round[k].1 by {
                        if k < prev_ans.len() {
                            assert(rans[k] == prev_ans[k]);
                        }
                    }
                }
                assert(self.log@ =~= l0 + round);
                assert(self.answers@ =~= a0 + rans);
                match p {
                    PollState::Ready(Ok(v)) => {
                        self.active.set(i, false);
                        self.results.push((i, v));
                    },
                    PollState::Ready(Err(e)) => {
                        self.active.set(i, false);
                        proof {
                            lemma_join_n_prefix(s0, i + 1, round, res0.len() as int, self.n as int);
                            assert((l0 + round).skip(l0.len() as int) =~= round);
                            assert((l0 + round).take(l0.len() as int) =~= l0);
                            assert((a0 + rans).skip(a0.len() as int) =~= rans);
                            assert((a0 + rans).take(a0.len() as int) =~= a0);
                        }
                        return PollState::Ready(Err(e));
                    },
                    PollState::Pending => {},
                }
            }
            i = i + 1;
        }
        proof {
            lemma_join_n_prefix(s0, i as int, round, res0.len() as int, self.n as int);
            assert((l0 + round).skip(l0.len() as int) =~= round);
            assert((l0 + round).take(l0.len() as int) =~= l0);
            assert((a0 + rans).skip(a0.len() as int) =~= rans);
            assert((a0 + rans).take(a0.len() as int) =~= a0);
        }
        if self.results.len() >= self.n {
            let mut out: Vec<(usize, T)> = Vec::new();
            core::mem::swap(&mut out, &mut self.results);
            PollState::Ready(Ok(out))
        } else {
            PollState::Pending
        }
    }
}

proof fn lemma_join_n_prefix(active: Seq<bool>, i: int, round: Seq<(int, Polled)>, have: int, n: int)
    requires
        0 <= i <= active.len(),
        round.len() == active_positions(active.take(i)).len(),
        forall|k: int|
            0 <= k < round.len() ==> (#[trigger] round[k]).0 == active_positions(active.take(i))[k],
        forall|k: int| 0 <= k < round.len() - 1 ==> (#[trigger] round[k]).1 != Polled::Failed,
        forall|k: int|
            0 <= k < round.len() ==> have + (#[trigger] succeeded_indices(round.take(k))).len() < n,
        i < active.len() ==> (round.len() > 0 && round.last().1 == Polled::Failed) || have
            + succeeded_indices(round).len() >= n,
    ensures
        is_join_n_round(active_positions(active), have, n, round),
{
    lemma_active_positions(active);
    assert forall|k: int| 0 <= k < round.len() implies (#[trigger] round[k]).0 == active_positions(
        active,
    )[k] by {
        lemma_active_positions_prefix(active, i, k);
    }
    if round.len() > 0 {
        lemma_active_positions_prefix(active, i, round.len() - 1);
    }
    if i == active.len() {
        assert(active.take(i) =~= active);
    }
}

/// Wait for the first `n` of `count` operations.
pub fn join_n<T>(count: usize, n: usize) -> (r: JoinN<T>)
    ensures
        r.active() == Seq::new(count as nat, |i: int| true),
        r.results() == Seq::<(usize, T)>::empty(),
        r.target() == if n < count {
            n
        } else {
            count
        },
        r.log() == Seq::<(int, Polled)>::empty(),
        r.answers() == Seq::<PollState<Result<T, FlovynError>>>::empty(),
{
    JoinN::new(count, n)
}

// ============================================================================
// WithTimeout
// ============================================================================

/// One step of a timed operation's poll.
#[derive(Debug, Clone, Copy, PartialEq, Eq, Structural)]
pub enum TimeoutStep {
    /// The inner operation was polled.
    Inner(Polled),
    /// The timer was polled.
    Timer(Polled),
    /// The timer was cancelled.
    TimerCancelled,
}

/// An inner operation and the timer that bounds it.
pub trait TimeoutSource<T> {
    /// Poll the inner operation once.
    fn poll_inner(&mut self) -> PollState<Result<T, FlovynError>>;

    /// Poll the timer once.
    fn poll_timer(&mut self) -> PollState<Result<(), FlovynError>>;

    /// Cancel the timer.
    fn cancel_timer(&mut self);
}

/// The error of an operation whose timer fired first.
pub open spec fn timeout_error() -> FlovynErrorView {
    FlovynErrorView::Timeout("Operation timed out"@)
}

/// Whether `obs` and `r` are a poll of a timed operation that had not timed
/// out, whose timer was watched (`timer`), after which the timer is watched
/// (`timer_after`) and the operation has timed out (`timed_out`): the inner
/// operation is polled; if it completed, its result is answered and a watched
/// timer is cancelled; otherwise a watched timer is polled, and its firing
/// answers the timeout error.
pub open spec fn timeout_round<T>(
    timer: bool,
    obs: Seq<TimeoutStep>,
    r: PollState<Result<T, FlovynError>>,
    timer_after: bool,
    timed_out: bool,
) -> bool {
    obs.len() >= 1 && match obs[0] {
        TimeoutStep::Inner(k) => if k != Polled::Pending {
            &&& r is Ready && polled(r) == k
            &&& obs == if timer {
                seq![TimeoutStep::Inner(k), TimeoutStep::TimerCancelled]
            } else {
                seq![TimeoutStep::Inner(k)]
            }
            &&& timer_after == timer
            &&& !timed_out
        } else if timer {
            obs.len() == 2 && match obs[1] {
                TimeoutStep::Timer(t) => if t == Polled::Succeeded {
                    &&& r matches PollState::Ready(Err(e)) && e@ == timeout_error()
                    &&& timed_out && !timer_after
                } else {
                    &&& r is Pending && !timed_out
                    &&& timer_after == (t == Polled::Pending)
                },
                _ => false,
            }
        } else {
            &&& obs == seq![TimeoutStep::Inner(Polled::Pending)]
            &&& r is Pending
            &&& !timed_out && !timer_after
        },
        _ => false,
    }
}

/// Waits for an inner operation, bounded by a timer: answers the inner
/// operation's result if it completes first, a timeout error once the timer
/// fires first.
pub struct WithTimeout<T> {
    timer_present: bool,
    timed_out: bool,
    log: Ghost<Seq<TimeoutStep>>,
    answers: Ghost<Seq<PollState<Result<T, FlovynError>>>>,
}

impl<T> WithTimeout<T> {
    /// Whether the timer is still watched.
    pub closed spec fn timer_present(&self) -> bool {
        self.timer_present
    }

    /// Whether the timer fired before the inner operation completed.
    pub closed spec fn timed_out(&self) -> bool {
        self.timed_out
    }

    /// Every step this combinator took.
    pub closed spec fn log(&self) -> Seq<TimeoutStep> {
        self.log@
    }

    /// What every poll of the inner operation answered, in full.
    pub closed spec fn answers(&self) -> Seq<PollState<Result<T, FlovynError>>> {
        self.answers@
    }

    /// A timed operation whose timer is watched and has not fired.
    pub fn new() -> (r: Self)
        ensures
            r.timer_present(),
            !r.timed_out(),
            r.log() == Seq::<TimeoutStep>::empty(),
            r.answers() == Seq::<PollState<Result<T, FlovynError>>>::empty(),
    {
        WithTimeout {
            timer_present: true,
            timed_out: false,
            log: Ghost(Seq::empty()),
            answers: Ghost(Seq::empty()),
        }
    }

    /// Poll the inner operation, then, while it is pending, the timer.
    pub fn poll<P: TimeoutSource<T>>(&mut self, source: &mut P) -> (r: PollState<
        Result<T, FlovynError>,
    >)
        ensures
            ({
                let before = old(self).log().len();
                let obs = final(self).log().skip(before as int);
                &&& final(self).log().take(before as int) == old(self).log()
                &&& old(self).timed_out() ==> obs.len() == 0 && *final(self) == *old(self) && (
                r matches PollState::Ready(Err(e)) && e@ == timeout_error())
                &&& !old(self).timed_out() ==> timeout_round(
                    old(self).timer_present(),
                    obs,
                    r,
                    final(self).timer_present(),
                    final(self).timed_out(),
                )
                &&& old(self).timed_out() ==> final(self).answers() == old(self).answers()
                &&& !old(self).timed_out() ==> final(self).answers() == old(self).answers().push(
                    final(self).answers().last(),
                ) && obs[0] == TimeoutStep::Inner(polled(final(self).answers().last())) && (
                final(self).answers().last() is Ready ==> r == final(self).answers().last())
            }),
    {
        let ghost l0 = self.log@;
        if self.timed_out {
            assert(self.log@.skip(l0.len() as int) =~= Seq::<TimeoutStep>::empty());
            assert(self.log@.take(l0.len() as int) =~= l0);
            return PollState::Ready(
                Err(FlovynError::Timeout(String::from_str("Operation timed out"))),
            );
        }
        let p = source.poll_inner();
        let ghost gp = p;
        proof {
            self.log@ = self.log@.push(TimeoutStep::Inner(polled(p)));
            self.answers@ = self.answers@.push(gp);
        }
        match p {
            PollState::Ready(result) => {
                if self.timer_present {
                    source.cancel_timer();
                    proof {
                        self.log@ = self.log@.push(TimeoutStep::TimerCancelled);
                    }
                }
                assert(self.log@.take(l0.len() as int) =~= l0);
                assert(self.log@.skip(l0.len() as int) =~= if self.timer_present {
                    seq![TimeoutStep::Inner(polled(p)), TimeoutStep::TimerCancelled]
                } else {
                    seq![TimeoutStep::Inner(polled(p))]
                });
                return PollState::Ready(result);
            },
            PollState::Pending => {},
        }
        if self.timer_present {
            let t = source.poll_timer();
            proof {
                self.log@ = self.log@.push(TimeoutStep::Timer(polled(t)));
            }
            assert(self.log@.take(l0.len() as int) =~= l0);
            assert(self.log@.skip(l0.len() as int) =~= seq![
                TimeoutStep::Inner(Polled::Pending),
                TimeoutStep::Timer(polled(t)),
            ]);
            match t {
                PollState::Ready(Ok(())) => {
                    self.timed_out = true;
                    self.timer_present = false;
                    return PollState::Ready(
                        Err(FlovynError::Timeout(String::from_str("Operation timed out"))),
                    );
                },
                PollState::Ready(Err(_)) => {
                    self.timer_present = false;
                },
                PollState::Pending => {},
            }
        } else {
            assert(self.log@.take(l0.len() as int) =~= l0);
            assert(self.log@.skip(l0.len() as int) =~= seq![TimeoutStep::Inner(Polled::Pending)]);
        }
        PollState::Pending
    }
}

/// Bound an operation by a timer.
pub fn with_timeout<T>() -> (r: WithTimeout<T>)
    ensures
        r.timer_present(),
        !r.timed_out(),
        r.log() == Seq::<TimeoutStep>::empty(),
        r.answers() == Seq::<PollState<Result<T, FlovynError>>>::empty(),
{
    WithTimeout::new()
}

// ============================================================================
// Cancellation
// ============================================================================

/// An operation that can be cancelled.
pub trait Cancellable {
    /// Cancel the operation.
    fn cancel(&self);
}

/// Cancelling every operation of a collection.
pub trait CancelAll {
    /// Cancel every operation in the collection.
    fn cancel_all(&self);
}

impl<F: Cancellable> CancelAll for Vec<F> {
    fn cancel_all(&self) {
        let mut i: usize = 0;
        while i < self.len()
            invariant
                i <= self@.len(),
            decreases self@.len() - i,
        {
            self[i].cancel();
            i = i + 1;
        }
    }
}

impl<F: Cancellable> CancelAll for Vec<Option<F>> {
    fn cancel_all(&self) {
        let mut i: usize = 0;
        while i < self.len()
            invariant
                i <= self@.len(),
            decreases self@.len() - i,
        {
            match &self[i] {
                Some(f) => f.cancel(),
                None => {},
            }
            i = i + 1;
        }
    }
}

} // verus!
