//! The history of runs and the picker over it.
//!
//! Runs are named by an id that their owner hands out. The history keeps them
//! in start order, most recent last; once it holds more than
//! `MAX_HISTORY_ENTRIES` runs, finished runs are dropped, oldest first. A run
//! that is still going is never dropped, since dropping it would kill it.

use vstd::prelude::*;

verus! {

/// How many runs the history keeps before it drops finished ones.
pub const MAX_HISTORY_ENTRIES: usize = 100;

/// The index of the first `false` in `running`, if any.
pub open spec fn first_finished(running: Seq<bool>) -> Option<int>
    decreases running.len(),
{
    if running.len() == 0 {
        None
    } else if !running[0] {
        Some(0)
    } else {
        match first_finished(running.drop_first()) {
            Some(i) => Some(i + 1),
            None => None,
        }
    }
}

/// The runs left once finished runs are dropped, oldest first, until at most
/// `max` remain or none of the remaining runs has finished. `running[i]` tells
/// whether `runs[i]` is still going.
pub open spec fn evict_finished(runs: Seq<u64>, running: Seq<bool>, max: nat) -> Seq<u64>
    decreases runs.len(),
{
    if runs.len() > max && runs.len() == running.len() {
        match first_finished(running) {
            Some(i) => if 0 <= i < runs.len() {
                evict_finished(runs.remove(i), running.remove(i), max)
            } else {
                runs
            },
            None => runs,
        }
    } else {
        runs
    }
}

/// The running flags that go with `evict_finished(runs, running, max)`.
pub open spec fn evict_finished_flags(runs: Seq<u64>, running: Seq<bool>, max: nat) -> Seq<bool>
    decreases runs.len(),
{
    if runs.len() > max && runs.len() == running.len() {
        match first_finished(running) {
            Some(i) => if 0 <= i < runs.len() {
                evict_finished_flags(runs.remove(i), running.remove(i), max)
            } else {
                running
            },
            None => running,
        }
    } else {
        running
    }
}

proof fn lemma_first_finished(running: Seq<bool>)
    ensures
        match first_finished(running) {
            Some(i) => 0 <= i < running.len() && !running[i] && forall|j: int|
                0 <= j < i ==> #[trigger] running[j],
            None => forall|j: int| 0 <= j < running.len() ==> #[trigger] running[j],
        },
    decreases running.len(),
{
    if running.len() > 0 && running[0] {
        let rest = running.drop_first();
        lemma_first_finished(rest);
        match first_finished(rest) {
            Some(i) => {
                assert forall|j: int| 0 <= j < i + 1 implies #[trigger] running[j] by {
                    if j > 0 {
                        assert(running[j] == rest[j - 1]);
                    }
                }
            },
            None => {
                assert forall|j: int| 0 <= j < running.len() implies #[trigger] running[j] by {
                    if j > 0 {
                        assert(running[j] == rest[j - 1]);
                    }
                }
            },
        }
    }
}

/// The number of `true` flags in `running`.
pub open spec fn count_running(running: Seq<bool>) -> nat
    decreases running.len(),
{
    if running.len() == 0 {
        0
    } else {
        (if running.last() {
            1nat
        } else {
            0nat
        }) + count_running(running.drop_last())
    }
}

proof fn lemma_count_running_remove_finished(running: Seq<bool>, i: int)
    requires
        0 <= i < running.len(),
        !running[i],
    ensures
        count_running(running.remove(i)) == count_running(running),
    decreases running.len(),
{
    if i < running.len() - 1 {
        let r = running.drop_last();
        lemma_count_running_remove_finished(r, i);
        assert(running.remove(i).drop_last() =~= r.remove(i));
        assert(running.remove(i).last() == running.last());
    } else {
        assert(running.remove(i) =~= running.drop_last());
    }
}

proof fn lemma_count_running_all(running: Seq<bool>)
    requires
        forall|j: int| 0 <= j < running.len() ==> #[trigger] running[j],
    ensures
        count_running(running) == running.len(),
    decreases running.len(),
{
    if running.len() > 0 {
        lemma_count_running_all(running.drop_last());
    }
}

/// Dropping finished runs keeps every run that is still going, keeps the
/// flags aligned with the runs, and leaves at most `max` runs unless every run
/// left is still going.
pub proof fn lemma_eviction_keeps_running_runs(runs: Seq<u64>, running: Seq<bool>, max: nat)
    requires
        runs.len() == running.len(),
    ensures
        evict_finished(runs, running, max).len() == evict_finished_flags(runs, running, max).len(),
        count_running(evict_finished_flags(runs, running, max)) == count_running(running),
        evict_finished(runs, running, max).len() <= max || forall|j: int|
            0 <= j < evict_finished_flags(runs, running, max).len()
                ==> #[trigger] evict_finished_flags(runs, running, max)[j],
        evict_finished(runs, running, max).len() <= runs.len(),
    decreases runs.len(),
{
    lemma_first_finished(running);
    if runs.len() > max {
        match first_finished(running) {
            Some(i) => {
                lemma_count_running_remove_finished(running, i);
                lemma_eviction_keeps_running_runs(runs.remove(i), running.remove(i), max);
            },
            None => {},
        }
    }
}

/// Every run the eviction leaves comes from the runs it was given, in the same
/// order.
pub open spec fn is_subsequence(small: Seq<u64>, big: Seq<u64>) -> bool {
    exists|idx: Seq<int>|
        idx.len() == small.len() && (forall|k: int|
            0 <= k < idx.len() ==> 0 <= #[trigger] idx[k] < big.len() && big[idx[k]] == small[k])
            && (forall|k: int, l: int| 0 <= k < l < idx.len() ==> idx[k] < idx[l])
}

proof fn lemma_subsequence_refl(s: Seq<u64>)
    ensures
        is_subsequence(s, s),
{
    let idx = Seq::new(s.len(), |k: int| k);
    assert(idx.len() == s.len());
}

proof fn lemma_subsequence_remove(small: Seq<u64>, big: Seq<u64>, i: int)
    requires
        is_subsequence(small, big.remove(i)),
        0 <= i < big.len(),
    ensures
        is_subsequence(small, big),
{
    let b2 = big.remove(i);
    let idx = choose|idx: Seq<int>|
        idx.len() == small.len() && (forall|k: int|
            0 <= k < idx.len() ==> 0 <= #[trigger] idx[k] < b2.len() && b2[idx[k]] == small[k])
            && (forall|k: int, l: int| 0 <= k < l < idx.len() ==> idx[k] < idx[l]);
    let idx2 = idx.map_values(|x: int| if x < i { x } else { x + 1 });
    assert forall|k: int| 0 <= k < idx2.len() implies 0 <= #[trigger] idx2[k] < big.len()
        && big[idx2[k]] == small[k] by {
        assert(b2[idx[k]] == small[k]);
        if idx[k] < i {
            assert(big[idx[k]] == b2[idx[k]]);
        } else {
            assert(big[idx[k] + 1] == b2[idx[k]]);
        }
    }
    assert forall|k: int, l: int| 0 <= k < l < idx2.len() implies idx2[k] < idx2[l] by {
        assert(idx[k] < idx[l]);
    }
}

/// The runs the eviction leaves are a subsequence of the runs it was given.
pub proof fn lemma_eviction_keeps_order(runs: Seq<u64>, running: Seq<bool>, max: nat)
    requires
        runs.len() == running.len(),
    ensures
        is_subsequence(evict_finished(runs, running, max), runs),
    decreases runs.len(),
{
    lemma_first_finished(running);
    if runs.len() > max {
        match first_finished(running) {
            Some(i) => {
                lemma_eviction_keeps_order(runs.remove(i), running.remove(i), max);
                lemma_subsequence_remove(evict_finished(runs, running, max), runs, i);
            },
            None => {
                lemma_subsequence_refl(runs);
            },
        }
    } else {
        lemma_subsequence_refl(runs);
    }
}

/// Runs started in this session, most recent last.
pub struct CommandHistory {
    runs: Vec<u64>,
}

impl CommandHistory {
    /// The runs held, oldest first.
    pub closed spec fn runs_view(&self) -> Seq<u64> {
        self.runs@
    }

    /// An empty history.
    pub fn new() -> (r: Self)
        ensures
            r.runs_view() == Seq::<u64>::empty(),
    {
        CommandHistory { runs: Vec::new() }
    }

    /// The runs held, oldest first.
    pub fn runs(&self) -> (r: &Vec<u64>)
        ensures
            r@ == self.runs_view(),
    {
        &self.runs
    }

    /// Records a new run and drops finished runs past the limit. `running`
    /// tells, for every run held after `run` is appended, whether it is still
    /// going.
    pub fn push(&mut self, run: u64, running: &Vec<bool>)
        requires
            running.len() == old(self).runs_view().len() + 1,
        ensures
            final(self).runs_view() == evict_finished(
                old(self).runs_view().push(run),
                running@,
                MAX_HISTORY_ENTRIES as nat,
            ),
    {
        self.runs.push(run);
        let mut flags: Vec<bool> = running.clone();
        assert(flags@ =~= running@);
        loop
            invariant
                self.runs.len() == flags.len(),
                evict_finished(self.runs@, flags@, MAX_HISTORY_ENTRIES as nat) == evict_finished(
                    old(self).runs_view().push(run),
                    running@,
                    MAX_HISTORY_ENTRIES as nat,
                ),
            ensures
                self.runs@ == evict_finished(
                    old(self).runs_view().push(run),
                    running@,
                    MAX_HISTORY_ENTRIES as nat,
                ),
            decreases self.runs.len(),
        {
            if self.runs.len() <= MAX_HISTORY_ENTRIES {
                break;
            }
            proof {
                lemma_first_finished(flags@);
            }
            let mut i: usize = 0;
            while i < flags.len() && flags[i]
                invariant
                    i <= flags.len(),
                    forall|j: int| 0 <= j < i ==> #[trigger] flags@[j],
                decreases flags.len() - i,
            {
                i = i + 1;
            }
            if i == flags.len() {
                proof {
                    match first_finished(flags@) {
                        Some(k) => {
                            assert(flags@[k]);
                        },
                        None => {},
                    }
                }
                break;
            }
            proof {
                match first_finished(flags@) {
                    Some(k) => {
                        if k < i {
                            assert(flags@[k]);
                        }
                        if i < k {
                            assert(flags@[i as int]);
                        }
                    },
                    None => {
                        assert(flags@[i as int]);
                    },
                }
            }
            self.runs.remove(i);
            flags.remove(i);
        }
    }
}

/// The picker over past runs: the runs, most recent first, the runs matching
/// the current query (by position in `runs`) and the selected match.
pub struct CommandHistoryDelegate {
    pub runs: Vec<u64>,
    pub matches: Vec<usize>,
    pub selected_index: usize,
}

/// `0, 1, ..., n - 1`.
pub open spec fn all_positions(n: nat) -> Seq<usize> {
    Seq::new(n, |i: int| i as usize)
}

fn positions(n: usize) -> (r: Vec<usize>)
    ensures
        r@ == all_positions(n as nat),
{
    let mut r: Vec<usize> = Vec::new();
    let mut i: usize = 0;
    while i < n
        invariant
            i <= n,
            r@ == all_positions(i as nat),
        decreases n - i,
    {
        r.push(i);
        i = i + 1;
        assert(r@ =~= all_positions(i as nat));
    }
    r
}

/// The run that match `ix` points at, if both exist.
pub open spec fn matched_run(runs: Seq<u64>, matches: Seq<usize>, ix: int) -> Option<u64> {
    if 0 <= ix < matches.len() && matches[ix] < runs.len() {
        Some(runs[matches[ix] as int])
    } else {
        None
    }
}

impl CommandHistoryDelegate {
    /// A picker over `history`, most recent run first, with every run matching
    /// and the first one selected.
    pub fn new(history: &CommandHistory) -> (r: Self)
        ensures
            r.runs@ == history.runs_view().reverse(),
            r.matches@ == all_positions(history.runs_view().len()),
            r.selected_index == 0,
    {
        let src = history.runs();
        let mut runs: Vec<u64> = Vec::new();
        let mut i: usize = src.len();
        while i > 0
            invariant
                i <= src.len(),
                runs@ == src@.subrange(i as int, src.len() as int).reverse(),
            decreases i,
        {
            i = i - 1;
            runs.push(src[i]);
            assert(runs@ =~= src@.subrange(i as int, src.len() as int).reverse());
        }
        assert(src@.subrange(0, src.len() as int) =~= src@);
        let n = runs.len();
        CommandHistoryDelegate { runs, matches: positions(n), selected_index: 0 }
    }

    /// The number of rows shown.
    pub fn match_count(&self) -> (r: usize)
        ensures
            r == self.matches.len(),
    {
        self.matches.len()
    }

    /// Selects row `ix`.
    pub fn set_selected_index(&mut self, ix: usize)
        ensures
            final(self).selected_index == ix,
            final(self).runs == old(self).runs,
            final(self).matches == old(self).matches,
    {
        self.selected_index = ix;
    }

    /// Shows every run again, for an empty query, and selects the first.
    pub fn clear_query(&mut self)
        ensures
            final(self).matches@ == all_positions(old(self).runs.len() as nat),
            final(self).selected_index == 0,
            final(self).runs == old(self).runs,
    {
        self.matches = positions(self.runs.len());
        self.selected_index = 0;
    }

    /// Shows the runs that matched a query, given as positions in `runs` in
    /// the order the matcher ranked them, and selects the first.
    pub fn set_matches(&mut self, candidate_ids: Vec<usize>)
        ensures
            final(self).matches@ == candidate_ids@,
            final(self).selected_index == 0,
            final(self).runs == old(self).runs,
    {
        self.matches = candidate_ids;
        self.selected_index = 0;
    }

    /// The run shown in row `ix`, if any.
    pub fn run_at(&self, ix: usize) -> (r: Option<u64>)
        ensures
            r == matched_run(self.runs@, self.matches@, ix as int),
    {
        if ix < self.matches.len() && self.matches[ix] < self.runs.len() {
            Some(self.runs[self.matches[ix]])
        } else {
            None
        }
    }

    /// The run to open on confirm: the one in the selected row, if any.
    pub fn selected_run(&self) -> (r: Option<u64>)
        ensures
            r == matched_run(self.runs@, self.matches@, self.selected_index as int),
    {
        self.run_at(self.selected_index)
    }
}

} // verus!
