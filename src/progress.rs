//! The bookkeeping shared by the workers of a batch: which track each
//! worker takes next, and how many tracks are done. Every track is handed
//! out once, and reporting a track moves the counter on by one exactly once,
//! whether the track succeeded or failed.

use vstd::prelude::*;
use crate::pipeline::Action;
use crate::report::{failure_line, status_line, success_line, ItemError};

verus! {

/// The number of workers when none is asked for.
pub const DEFAULT_WORKERS: usize = 5;

/// The number of workers of a batch: as asked, or [`DEFAULT_WORKERS`] where
/// none (or zero) is asked for.
pub fn worker_count(threads: Option<u16>) -> (r: usize)
    ensures
        r == match threads {
            Some(n) if n > 0 => n as usize,
            _ => DEFAULT_WORKERS,
        },
        r >= 1,
{
    match threads {
        Some(n) if n > 0 => n as usize,
        _ => DEFAULT_WORKERS,
    }
}

/// How many entries of `s` are set.
pub open spec fn count_true(s: Seq<bool>) -> nat
    decreases s.len(),
{
    if s.len() == 0 {
        0
    } else {
        count_true(s.drop_last()) + if s.last() { 1nat } else { 0nat }
    }
}

pub struct ProgressView {
    pub total: nat,
    /// Tracks `0..handed` have been handed out.
    pub handed: nat,
    /// Which tracks have been reported.
    pub finished: Seq<bool>,
    /// How many tracks have been reported.
    pub done: nat,
}

/// The state of a batch of `total` tracks before any work.
pub open spec fn fresh(total: nat) -> ProgressView {
    ProgressView { total, handed: 0, finished: Seq::new(total, |_i: int| false), done: 0 }
}

/// Taking the next track: the lowest one not yet handed out, if any.
pub open spec fn take_spec(v: ProgressView) -> (ProgressView, Option<nat>) {
    if v.handed < v.total {
        (ProgressView { handed: v.handed + 1, ..v }, Some(v.handed))
    } else {
        (v, None)
    }
}

/// Reporting track `i`: counted, with its 1-based place among the finished
/// tracks, if it was handed out and not yet reported; else refused.
pub open spec fn finish_spec(v: ProgressView, i: nat) -> (ProgressView, Option<nat>) {
    if i < v.handed && !v.finished[i as int] {
        (
            ProgressView { finished: v.finished.update(i as int, true), done: v.done + 1, ..v },
            Some(v.done + 1),
        )
    } else {
        (v, None)
    }
}

pub open spec fn wf(v: ProgressView) -> bool {
    &&& v.finished.len() == v.total
    &&& v.handed <= v.total
    &&& v.done == count_true(v.finished)
    &&& forall|i: int| 0 <= i < v.total && v.finished[i] ==> i < v.handed
}

/// The progress of one batch.
pub struct Progress {
    total: usize,
    handed: usize,
    finished: Vec<bool>,
    done: usize,
}

impl View for Progress {
    type V = ProgressView;

    closed spec fn view(&self) -> ProgressView {
        ProgressView {
            total: self.total as nat,
            handed: self.handed as nat,
            finished: self.finished@,
            done: self.done as nat,
        }
    }
}

proof fn lemma_count_bounded(s: Seq<bool>)
    ensures
        count_true(s) <= s.len(),
    decreases s.len(),
{
    if s.len() > 0 {
        lemma_count_bounded(s.drop_last());
    }
}

proof fn lemma_count_set(s: Seq<bool>, i: int)
    requires
        0 <= i < s.len(),
        !s[i],
    ensures
        count_true(s.update(i, true)) == count_true(s) + 1,
    decreases s.len(),
{
    let u = s.update(i, true);
    if i == s.len() - 1 {
        assert(u.drop_last() =~= s.drop_last());
    } else {
        assert(u.drop_last() =~= s.drop_last().update(i, true));
        lemma_count_set(s.drop_last(), i);
    }
}

proof fn lemma_count_none(n: nat)
    ensures
        count_true(Seq::new(n, |_i: int| false)) == 0,
    decreases n,
{
    if n > 0 {
        assert(Seq::new(n, |_i: int| false).drop_last() =~= Seq::new((n - 1) as nat, |_i: int| false));
        lemma_count_none((n - 1) as nat);
    }
}

/// A sequence with as many set entries as its length has all of them set.
proof fn lemma_count_full(s: Seq<bool>)
    requires
        count_true(s) == s.len(),
    ensures
        forall|i: int| 0 <= i < s.len() ==> s[i],
    decreases s.len(),
{
    if s.len() > 0 {
        lemma_count_bounded(s.drop_last());
        lemma_count_full(s.drop_last());
        assert forall|i: int| 0 <= i < s.len() implies s[i] by {
            if i < s.len() - 1 {
                assert(s[i] == s.drop_last()[i]);
            }
        }
    }
}

impl Progress {
    /// The record is consistent: the counter matches the finished tracks,
    /// and only handed-out tracks are finished. Every method keeps it so.
    pub open spec fn wf(&self) -> bool {
        wf(self@)
    }

    /// No track handed out nor reported yet.
    pub fn new(total: usize) -> (r: Progress)
        ensures
            r@ == fresh(total as nat),
            r.wf(),
    {
        let mut finished: Vec<bool> = Vec::new();
        let mut i: usize = 0;
        while i < total
            invariant
                i <= total,
                finished@ == Seq::new(i as nat, |_i: int| false),
            decreases total - i,
        {
            finished.push(false);
            i = i + 1;
            assert(finished@ =~= Seq::new(i as nat, |_i: int| false));
        }
        proof {
            lemma_count_none(total as nat);
        }
        Progress { total, handed: 0, finished, done: 0 }
    }

    pub fn total(&self) -> (r: usize)
        ensures
            r == self@.total,
    {
        self.total
    }

    /// How many tracks have been reported.
    pub fn done(&self) -> (r: usize)
        ensures
            r == self@.done,
    {
        self.done
    }

    /// The next track to work on (see [`take_spec`]).
    pub fn take(&mut self) -> (r: Option<usize>)
        requires
            old(self).wf(),
        ensures
            final(self).wf(),
            final(self)@ == take_spec(old(self)@).0,
            r matches Some(i) ==> take_spec(old(self)@).1 == Some(i as nat),
            r is None ==> take_spec(old(self)@).1 is None,
    {
        if self.handed < self.total {
            let i = self.handed;
            self.handed = self.handed + 1;
            Some(i)
        } else {
            None
        }
    }

    /// Counts track `index` as finished (see [`finish_spec`]), returning its
    /// place among the finished tracks.
    pub fn finish(&mut self, index: usize) -> (r: Option<usize>)
        requires
            old(self).wf(),
        ensures
            final(self).wf(),
            final(self)@ == finish_spec(old(self)@, index as nat).0,
            r matches Some(k) ==> finish_spec(old(self)@, index as nat).1 == Some(k as nat),
            r is None ==> finish_spec(old(self)@, index as nat).1 is None,
    {
        if index < self.handed && !self.finished[index] {
            proof {
                lemma_count_set(self.finished@, index as int);
                lemma_count_bounded(self.finished@.update(index as int, true));
            }
            self.finished.set(index, true);
            self.done = self.done + 1;
            Some(self.done)
        } else {
            None
        }
    }

    /// Counts track `index` as finished and gives the line that reports it
    /// (see [`status_line`]); `None` where the track was not handed out or
    /// was reported already. What moves the counter does not depend on the
    /// outcome: a failed track counts as a finished one.
    pub fn report(
        &mut self,
        index: usize,
        title: &str,
        width: usize,
        outcome: &Result<Vec<Action>, ItemError>,
    ) -> (r: Option<String>)
        requires
            old(self).wf(),
        ensures
            final(self).wf(),
            final(self)@ == finish_spec(old(self)@, index as nat).0,
            r is Some <==> finish_spec(old(self)@, index as nat).1 is Some,
            r matches Some(line) ==> ({
                let count = finish_spec(old(self)@, index as nat).1->0;
                &&& outcome matches Ok(a) ==> line@ == success_line(
                    count,
                    old(self)@.total,
                    title@,
                    width as nat,
                    a@,
                )
                &&& outcome matches Err(e) ==> line@ == failure_line(count, old(self)@.total, *e)
            }),
    {
        match self.finish(index) {
            Some(count) => Some(status_line(count, self.total, title, width, outcome)),
            None => None,
        }
    }
}

/// Taking `n` tracks in turn.
pub open spec fn take_n(v: ProgressView, n: nat) -> (ProgressView, Seq<Option<nat>>)
    decreases n,
{
    if n == 0 {
        (v, seq![])
    } else {
        let (v1, got) = take_n(v, (n - 1) as nat);
        let (v2, r) = take_spec(v1);
        (v2, got.push(r))
    }
}

/// Reporting the tracks of `order`, in that order.
pub open spec fn finish_all(v: ProgressView, order: Seq<nat>) -> (ProgressView, Seq<Option<nat>>)
    decreases order.len(),
{
    if order.len() == 0 {
        (v, seq![])
    } else {
        let (v1, got) = finish_all(v, order.drop_last());
        let (v2, r) = finish_spec(v1, order.last());
        (v2, got.push(r))
    }
}

/// Taking tracks hands out `0, 1, 2, ...` in turn, each once, then nothing.
pub proof fn lemma_takes_hand_out_each_once(total: nat, n: nat)
    ensures
        take_n(fresh(total), n).1.len() == n,
        forall|k: int| 0 <= k < n ==> take_n(fresh(total), n).1[k] == if k < total {
            Some(k as nat)
        } else {
            None::<nat>
        },
        take_n(fresh(total), n).0 == (ProgressView {
            handed: if n < total { n } else { total },
            ..fresh(total)
        }),
    decreases n,
{
    if n > 0 {
        lemma_takes_hand_out_each_once(total, (n - 1) as nat);
        let (v1, got1) = take_n(fresh(total), (n - 1) as nat);
        let (v2, got) = take_n(fresh(total), n);
        assert forall|k: int| 0 <= k < n implies got[k] == if k < total {
            Some(k as nat)
        } else {
            None::<nat>
        } by {
            if k < n - 1 {
                assert(got[k] == got1[k]);
            }
        }
    }
}

/// Reporting handed-out, not yet reported tracks, each once and in any
/// order, counts `done + 1, done + 2, ...` and finishes exactly those tracks.
pub proof fn lemma_reports_count_in_turn(v: ProgressView, order: Seq<nat>)
    requires
        wf(v),
        order.no_duplicates(),
        forall|k: int| 0 <= k < order.len() ==> order[k] < v.handed && !v.finished[order[k] as int],
    ensures
        wf(finish_all(v, order).0),
        finish_all(v, order).1 == Seq::new(order.len(), |k: int| Some((v.done + k + 1) as nat)),
        finish_all(v, order).0.done == v.done + order.len(),
        finish_all(v, order).0.handed == v.handed,
        finish_all(v, order).0.total == v.total,
        forall|j: int| 0 <= j < v.total ==> finish_all(v, order).0.finished[j] == (v.finished[j]
            || order.contains(j as nat)),
    decreases order.len(),
{
    if order.len() > 0 {
        let rest = order.drop_last();
        let i = order.last();
        assert forall|k: int| 0 <= k < rest.len() implies rest[k] < v.handed && !v.finished[rest[k] as int] && rest[k] != i by {
            assert(rest[k] == order[k]);
            assert(order[order.len() - 1] == i);
        }
        assert(rest.no_duplicates()) by {
            assert forall|a: int, b: int| 0 <= a < b < rest.len() implies rest[a] != rest[b] by {
                assert(rest[a] == order[a] && rest[b] == order[b]);
            }
        }
        lemma_reports_count_in_turn(v, rest);
        let (v1, got1) = finish_all(v, rest);
        assert(!rest.contains(i));
        assert(!v1.finished[i as int]);
        lemma_count_set(v1.finished, i as int);
        lemma_count_bounded(v1.finished.update(i as int, true));
        let (v2, got) = finish_all(v, order);
        assert(got =~= Seq::new(order.len(), |k: int| Some((v.done + k + 1) as nat)));
        assert forall|j: int| 0 <= j < v.total implies v2.finished[j] == (v.finished[j]
            || order.contains(j as nat)) by {
            if rest.contains(j as nat) {
                let k = choose|k: int| 0 <= k < rest.len() && rest[k] == j as nat;
                assert(order[k] == j as nat);
            }
            if order.contains(j as nat) && j as nat != i {
                let k = choose|k: int| 0 <= k < order.len() && order[k] == j as nat;
                assert(k != order.len() - 1);
                assert(rest[k] == j as nat);
            }
            if j as nat == i {
                assert(order[order.len() - 1] == i);
            }
        }
    }
}

/// A batch of `total` tracks, with every track handed out and each reported
/// once in any order (as a pool of any number of workers does), reports
/// exactly `total` lines, counted `1, 2, ..., total`; every track is then
/// finished, and reporting any track again is refused.
pub proof fn lemma_batch_reports_every_track_once(total: nat, order: Seq<nat>)
    requires
        order.len() == total,
        order.no_duplicates(),
        forall|k: int| 0 <= k < order.len() ==> order[k] < total,
    ensures
        ({
            let v1 = take_n(fresh(total), total).0;
            let (v2, got) = finish_all(v1, order);
            &&& got == Seq::new(total, |k: int| Some((k + 1) as nat))
            &&& v2.done == total
            &&& forall|i: int| 0 <= i < total ==> v2.finished[i]
            &&& forall|i: nat| finish_spec(v2, i).1 is None
        }),
{
    lemma_takes_hand_out_each_once(total, total);
    let v1 = take_n(fresh(total), total).0;
    lemma_count_none(total);
    assert(wf(v1));
    lemma_reports_count_in_turn(v1, order);
    let (v2, got) = finish_all(v1, order);
    assert(got =~= Seq::new(total, |k: int| Some((k + 1) as nat)));
    lemma_count_full(v2.finished);
}

} // verus!
