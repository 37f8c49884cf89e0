//! The open-buffer switcher: a fuzzy picker over the items open in the
//! workspace. The items other than the active one come first, most recently
//! used first, and the active item last, so switching defaults to the most
//! recently used other buffer.
//!
//! Items are named by ids that the workspace hands out, and each carries the
//! stamp of its last activation (a larger stamp is more recent). Every row
//! carries a candidate id for the matcher, equal to its position.

use vstd::prelude::*;
use crate::picker::{candidate_at, first_index_of, lemma_first_index_of_positions, match_ids, position_of, Match};

verus! {

/// An open item: its id, its tab title and the stamp of its last activation
/// (larger is more recent; 0 for an item never activated).
pub struct OpenItem {
    pub item: u64,
    pub title: String,
    pub last_active: u64,
}

/// A row of the switcher: the item, its title, and its candidate id.
pub struct BufferEntry {
    pub item: u64,
    pub title: String,
    pub id: usize,
}

/// The items other than the active one, in workspace order, and the active
/// item (the last one with the active id, if any).
pub open spec fn split_active(items: Seq<(u64, Seq<char>, u64)>, active: Option<u64>) -> (Seq<(u64, Seq<char>, u64)>, Option<(u64, Seq<char>, u64)>)
    decreases items.len(),
{
    if items.len() == 0 {
        (Seq::empty(), None)
    } else {
        let (rest, act) = split_active(items.drop_last(), active);
        if Some(items.last().0) == active {
            (rest, Some(items.last()))
        } else {
            (rest.push(items.last()), act)
        }
    }
}

/// Whether `rest[i]` comes before `rest[j]`: it was used more recently, or
/// as recently and comes first in workspace order.
pub open spec fn more_recent(rest: Seq<(u64, Seq<char>, u64)>, i: int, j: int) -> bool {
    rest[i].2 > rest[j].2 || (rest[i].2 == rest[j].2 && i < j)
}

/// Whether position `j` occurs in `order`.
pub open spec fn listed(order: Seq<int>, j: int) -> bool {
    exists|k: int| 0 <= k < order.len() && order[k] == j
}

/// `order` lists every position of `rest` once, most recently used first
/// (ties in workspace order).
pub open spec fn is_recency_order(rest: Seq<(u64, Seq<char>, u64)>, order: Seq<int>) -> bool {
    &&& order.len() == rest.len()
    &&& forall|k: int| 0 <= k < order.len() ==> 0 <= #[trigger] order[k] < rest.len()
    &&& forall|j: int| 0 <= j < rest.len() ==> #[trigger] listed(order, j)
    &&& forall|k: int, l: int|
        0 <= k < l < order.len() ==> more_recent(rest, #[trigger] order[k], #[trigger] order[l])
}

/// The rows for the other items taken in `order`, then the active item, each
/// with its position as candidate id.
pub open spec fn listing(rest: Seq<(u64, Seq<char>, u64)>, order: Seq<int>, act: Option<(u64, Seq<char>, u64)>) -> Seq<(u64, Seq<char>, usize)> {
    let others = Seq::new(order.len(), |k: int| (rest[order[k]].0, rest[order[k]].1, k as usize));
    match act {
        Some(a) => others.push((a.0, a.1, order.len() as usize)),
        None => others,
    }
}

/// The rows of the switcher for `items` (in workspace order) and the active
/// item's id: the other items, most recently used first, then the active
/// item.
pub open spec fn rows_in_recency_order(items: Seq<(u64, Seq<char>, u64)>, active: Option<u64>, rows: Seq<(u64, Seq<char>, usize)>) -> bool {
    let (rest, act) = split_active(items, active);
    exists|order: Seq<int>| #[trigger] is_recency_order(rest, order) && rows == listing(rest, order, act)
}

/// The views of open items.
pub open spec fn items_view(items: Seq<OpenItem>) -> Seq<(u64, Seq<char>, u64)> {
    items.map_values(|it: OpenItem| (it.item, it.title@, it.last_active))
}

/// The views of rows.
pub open spec fn entries_view(entries: Seq<BufferEntry>) -> Seq<(u64, Seq<char>, usize)> {
    entries.map_values(|e: BufferEntry| (e.item, e.title@, e.id))
}

proof fn lemma_split_active_len(items: Seq<(u64, Seq<char>, u64)>, active: Option<u64>)
    ensures
        split_active(items, active).0.len() <= items.len(),
        forall|i: int| 0 <= i < split_active(items, active).0.len() ==> Some(
            #[trigger] split_active(items, active).0[i].0,
        ) != active,
        split_active(items, active).1 matches Some(a) ==> Some(a.0) == active,
    decreases items.len(),
{
    if items.len() > 0 {
        lemma_split_active_len(items.drop_last(), active);
    }
}

proof fn lemma_split_active_found(items: Seq<(u64, Seq<char>, u64)>, active: Option<u64>)
    ensures
        (exists|i: int| 0 <= i < items.len() && Some(#[trigger] items[i].0) == active)
            ==> split_active(items, active).1 is Some,
    decreases items.len(),
{
    if items.len() > 0 {
        lemma_split_active_found(items.drop_last(), active);
        if exists|i: int| 0 <= i < items.len() && Some(#[trigger] items[i].0) == active {
            let i = choose|i: int| 0 <= i < items.len() && Some(#[trigger] items[i].0) == active;
            if i < items.len() - 1 {
                assert(items.drop_last()[i] == items[i]);
            }
        }
    }
}

/// The element views of `o`, as positions.
pub open spec fn positions_of(o: Seq<usize>) -> Seq<int> {
    o.map_values(|x: usize| x as int)
}

/// Where a new position `m` goes in `order`: the first place whose item was
/// used less recently than `rest[m]`.
fn insertion_point(rest: &Vec<OpenItem>, order: &Vec<usize>, m: usize) -> (p: usize)
    requires
        m < rest.len(),
        forall|k: int| 0 <= k < order.len() ==> #[trigger] order@[k] < rest.len(),
    ensures
        p <= order.len(),
        forall|k: int| 0 <= k < p ==> rest@[#[trigger] order@[k] as int].last_active >= rest@[m as int].last_active,
        p < order.len() ==> rest@[m as int].last_active > rest@[order@[p as int] as int].last_active,
{
    let stamp = rest[m].last_active;
    let mut p: usize = 0;
    while p < order.len() && !(stamp > rest[order[p]].last_active)
        invariant
            p <= order.len(),
            stamp == rest@[m as int].last_active,
            forall|k: int| 0 <= k < order.len() ==> #[trigger] order@[k] < rest.len(),
            forall|k: int| 0 <= k < p ==> rest@[#[trigger] order@[k] as int].last_active >= stamp,
        decreases order.len() - p,
    {
        p = p + 1;
    }
    p
}

/// The positions of `rest`, most recently used first.
fn recency_order(rest: &Vec<OpenItem>) -> (order: Vec<usize>)
    ensures
        is_recency_order(items_view(rest@), positions_of(order@)),
{
    let ghost rv = items_view(rest@);
    let n = rest.len();
    let mut order: Vec<usize> = Vec::new();
    let mut m: usize = 0;
    while m < n
        invariant
            n == rest.len(),
            rv == items_view(rest@),
            m <= n,
            order.len() == m,
            forall|k: int| 0 <= k < order.len() ==> #[trigger] order@[k] < m,
            forall|j: int| 0 <= j < m ==> #[trigger] listed(positions_of(order@), j),
            forall|k: int, l: int|
                0 <= k < l < order.len() ==> more_recent(rv, #[trigger] order@[k] as int, #[trigger] order@[l] as int),
        decreases n - m,
    {
        let p = insertion_point(rest, &order, m);
        let ghost o = order@;
        order.insert(p, m);
        proof {
            let o2 = order@;
            assert(o2 =~= o.insert(p as int, m));
            assert forall|k: int| 0 <= k < o2.len() implies #[trigger] o2[k] < m + 1 by {
                if k < p {
                    assert(o2[k] == o[k]);
                } else if k > p {
                    assert(o2[k] == o[k - 1]);
                }
            }
            assert forall|j: int| 0 <= j < m + 1 implies #[trigger] listed(positions_of(o2), j) by {
                if j < m {
                    assert(listed(positions_of(o), j));
                    let k = choose|k: int| 0 <= k < positions_of(o).len() && positions_of(o)[k] == j;
                    if k < p {
                        assert(positions_of(o2)[k] == j);
                    } else {
                        assert(positions_of(o2)[k + 1] == j);
                    }
                } else {
                    assert(positions_of(o2)[p as int] == j);
                }
            }
            assert forall|k: int, l: int| 0 <= k < l < o2.len() implies more_recent(
                rv,
                #[trigger] o2[k] as int,
                #[trigger] o2[l] as int,
            ) by {
                assert(rv[m as int].2 == rest@[m as int].last_active);
                if l < p {
                    assert(o2[k] == o[k] && o2[l] == o[l]);
                } else if l == p {
                    assert(o2[k] == o[k] && o2[l] == m);
                    assert(rv[o[k] as int].2 == rest@[o[k] as int].last_active);
                } else if k > p {
                    assert(o2[k] == o[k - 1] && o2[l] == o[l - 1]);
                } else if k == p {
                    assert(o2[k] == m && o2[l] == o[l - 1]);
                    assert(rv[o[p as int] as int].2 == rest@[o[p as int] as int].last_active);
                    if l - 1 > p {
                        assert(more_recent(rv, o[p as int] as int, o[l - 1] as int));
                    }
                } else {
                    assert(o2[k] == o[k] && o2[l] == o[l - 1]);
                }
            }
        }
        m = m + 1;
    }
    proof {
        let po = positions_of(order@);
        assert forall|k: int| 0 <= k < po.len() implies 0 <= #[trigger] po[k] < rv.len() by {
            assert(po[k] == order@[k] as int);
        }
        assert forall|k: int, l: int| 0 <= k < l < po.len() implies more_recent(
            rv,
            #[trigger] po[k],
            #[trigger] po[l],
        ) by {
            assert(po[k] == order@[k] as int && po[l] == order@[l] as int);
        }
    }
    order
}

/// Gathers the switcher's rows from the workspace's items, given in
/// workspace order, and the id of the active item: the other items, most
/// recently used first, then the active item.
pub fn collect_entries(items: &Vec<OpenItem>, active: Option<u64>) -> (r: Vec<BufferEntry>)
    ensures
        rows_in_recency_order(items_view(items@), active, entries_view(r@)),
{
    let ghost iv = items_view(items@);
    let mut rest: Vec<OpenItem> = Vec::new();
    let mut active_item: Option<OpenItem> = None;
    let n = items.len();
    let mut i: usize = 0;
    while i < n
        invariant
            0 <= i <= n,
            n == items.len(),
            iv == items_view(items@),
            items_view(rest@) == split_active(iv.take(i as int), active).0,
            match active_item {
                Some(e) => split_active(iv.take(i as int), active).1 == Some((e.item, e.title@, e.last_active)),
                None => split_active(iv.take(i as int), active).1 is None,
            },
        decreases n - i,
    {
        let ghost prefix = iv.take(i as int);
        let ghost next = iv.take(i + 1);
        proof {
            assert(next.drop_last() =~= prefix);
            assert(next.last() == iv[i as int]);
        }
        let copy = OpenItem { item: items[i].item, title: items[i].title.clone(), last_active: items[i].last_active };
        if Some(items[i].item) == active {
            active_item = Some(copy);
        } else {
            let ghost before = rest@;
            rest.push(copy);
            proof {
                assert(items_view(rest@) =~= items_view(before).push((copy.item, copy.title@, copy.last_active)));
            }
        }
        i = i + 1;
    }
    proof {
        assert(iv.take(n as int) =~= iv);
    }
    let ghost rv = items_view(rest@);
    let ghost act = split_active(iv, active).1;
    let order = recency_order(&rest);
    let ghost po = positions_of(order@);
    let mut entries: Vec<BufferEntry> = Vec::new();
    let mut k: usize = 0;
    while k < order.len()
        invariant
            k <= order.len(),
            order.len() == rest.len(),
            rv == items_view(rest@),
            po == positions_of(order@),
            is_recency_order(rv, po),
            entries_view(entries@) == Seq::new(k as nat, |q: int| (rv[po[q]].0, rv[po[q]].1, q as usize)),
        decreases order.len() - k,
    {
        let ix = order[k];
        assert(po[k as int] == ix as int);
        let ghost before = entries@;
        let e = BufferEntry { item: rest[ix].item, title: rest[ix].title.clone(), id: k };
        entries.push(e);
        k = k + 1;
        proof {
            assert(entries_view(entries@) =~= entries_view(before).push((e.item, e.title@, e.id)));
            assert(entries_view(entries@) =~= Seq::new(k as nat, |q: int| (rv[po[q]].0, rv[po[q]].1, q as usize)));
        }
    }
    match active_item {
        Some(a) => {
            let ghost before = entries@;
            let id = entries.len();
            let e = BufferEntry { item: a.item, title: a.title, id };
            entries.push(e);
            proof {
                assert(entries_view(entries@) =~= entries_view(before).push((e.item, e.title@, e.id)));
                assert(entries_view(entries@) =~= listing(rv, po, act));
            }
        },
        None => {
            proof {
                assert(entries_view(entries@) =~= listing(rv, po, act));
            }
        },
    }
    proof {
        assert(is_recency_order(rv, po) && entries_view(entries@) == listing(rv, po, act));
    }
    entries
}

/// The active item is listed last and no other row holds it, and every
/// row's candidate id is its position, so a match's candidate id is the row
/// it points at.
pub proof fn lemma_active_item_is_last(items: Seq<(u64, Seq<char>, u64)>, active: Option<u64>, rows: Seq<(u64, Seq<char>, usize)>)
    requires
        rows_in_recency_order(items, active, rows),
    ensures
        (exists|i: int| 0 <= i < items.len() && Some(#[trigger] items[i].0) == active) ==> {
            rows.len() > 0 && Some(rows.last().0) == active
        },
        forall|i: int| 0 <= i < rows.len() - 1 ==> Some(#[trigger] rows[i].0) != active,
        forall|i: int| 0 <= i < rows.len() ==> #[trigger] rows[i].2 == i as usize,
{
    lemma_split_active_len(items, active);
    lemma_split_active_found(items, active);
    let (rest, act) = split_active(items, active);
    let order = choose|order: Seq<int>| #[trigger] is_recency_order(rest, order) && rows == listing(rest, order, act);
    assert forall|i: int| 0 <= i < rows.len() - 1 implies Some(#[trigger] rows[i].0) != active by {
        assert(rows[i].0 == rest[order[i]].0);
    }
}

/// Switching defaults to the most recently used other buffer: the first row
/// holds an item other than the active one that was used at least as
/// recently as every other one.
pub proof fn lemma_first_row_is_most_recent(items: Seq<(u64, Seq<char>, u64)>, active: Option<u64>, rows: Seq<(u64, Seq<char>, usize)>)
    requires
        rows_in_recency_order(items, active, rows),
    ensures
        ({
            let rest = split_active(items, active).0;
            rest.len() > 0 ==> exists|f: int|
                0 <= f < rest.len() && rows[0] == (rest[f].0, rest[f].1, 0usize) && forall|j: int|
                    0 <= j < rest.len() ==> rest[f].2 >= #[trigger] rest[j].2
        }),
{
    let (rest, act) = split_active(items, active);
    let order = choose|order: Seq<int>| #[trigger] is_recency_order(rest, order) && rows == listing(rest, order, act);
    if rest.len() > 0 {
        let f = order[0];
        assert(rows[0] == (rest[f].0, rest[f].1, 0usize));
        assert forall|j: int| 0 <= j < rest.len() implies rest[f].2 >= #[trigger] rest[j].2 by {
            assert(listed(order, j));
            let k = choose|k: int| 0 <= k < order.len() && order[k] == j;
            if k > 0 {
                assert(more_recent(rest, order[0], order[k]));
            }
        }
    }
}

/// The switcher's picker.
pub struct OpenBufferFinderDelegate {
    pub entries: Vec<BufferEntry>,
    pub matches: Vec<Match>,
    pub selected_index: usize,
}

/// The ids of rows.
pub open spec fn entry_ids(entries: Seq<BufferEntry>) -> Seq<usize> {
    entries.map_values(|e: BufferEntry| e.id)
}

impl OpenBufferFinderDelegate {
    /// The row that match `ix` points at, if both exist.
    pub open spec fn row_of_match(&self, ix: int) -> Option<int> {
        if 0 <= ix < self.matches.len() {
            first_index_of(entry_ids(self.entries@), self.matches@[ix].candidate_id)
        } else {
            None
        }
    }

    /// A picker over `entries`, nothing matched yet.
    pub fn new(entries: Vec<BufferEntry>) -> (r: Self)
        ensures
            r.entries == entries,
            r.matches@.len() == 0,
            r.selected_index == 0,
    {
        OpenBufferFinderDelegate { entries, matches: Vec::new(), selected_index: 0 }
    }

    /// The number of rows shown.
    pub fn match_count(&self) -> (r: usize)
        ensures
            r == self.matches.len(),
    {
        self.matches.len()
    }

    /// Selects row `ix`.
    pub fn set_selected_index(&mut self, ix: usize)
        ensures
            final(self).selected_index == ix,
            final(self).entries == old(self).entries,
            final(self).matches == old(self).matches,
    {
        self.selected_index = ix;
    }

    /// Installs the matches for a query and selects the first.
    pub fn set_matches(&mut self, matches: Vec<Match>)
        ensures
            final(self).matches == matches,
            final(self).selected_index == 0,
            final(self).entries == old(self).entries,
    {
        self.matches = matches;
        self.selected_index = 0;
    }

    fn ids(&self) -> (r: Vec<usize>)
        ensures
            r@ == entry_ids(self.entries@),
    {
        let mut r: Vec<usize> = Vec::new();
        let mut i: usize = 0;
        while i < self.entries.len()
            invariant
                i <= self.entries.len(),
                r@ == entry_ids(self.entries@).take(i as int),
            decreases self.entries.len() - i,
        {
            r.push(self.entries[i].id);
            i = i + 1;
            assert(r@ =~= entry_ids(self.entries@).take(i as int));
        }
        assert(entry_ids(self.entries@).take(i as int) =~= entry_ids(self.entries@));
        r
    }

    fn row_index(&self, ix: usize) -> (r: Option<usize>)
        ensures
            match self.row_of_match(ix as int) {
                Some(k) => r == Some(k as usize) && 0 <= k < self.entries.len(),
                None => r is None,
            },
    {
        match candidate_at(&self.matches, ix) {
            Some(id) => {
                let ids = self.ids();
                proof {
                    crate::picker::lemma_first_index_of(ids@, id);
                }
                position_of(&ids, id)
            },
            None => None,
        }
    }

    /// Enter: the item to activate, the one in the selected row, if any.
    pub fn confirm(&self) -> (r: Option<u64>)
        ensures
            match self.row_of_match(self.selected_index as int) {
                Some(k) => r == Some(self.entries@[k].item),
                None => r is None,
            },
    {
        match self.row_index(self.selected_index) {
            Some(k) => Some(self.entries[k].item),
            None => None,
        }
    }

    /// What row `ix` shows: the item's title and the matched positions.
    pub fn row(&self, ix: usize) -> (r: Option<(String, Vec<usize>)>)
        ensures
            match self.row_of_match(ix as int) {
                Some(k) => r matches Some((title, positions)) && title@ == self.entries@[k].title@
                    && positions@ == self.matches@[ix as int].positions@,
                None => r is None,
            },
    {
        match self.row_index(ix) {
            Some(k) => Some((self.entries[k].title.clone(), self.matches[ix].positions.clone())),
            None => None,
        }
    }
}

} // verus!
