//! What the fuzzy pickers share: a match of the matcher, and finding the
//! row a match points at.

use vstd::prelude::*;

verus! {

/// A match of the fuzzy matcher: the id of the candidate it matched and the
/// positions of the matched characters, to highlight.
pub struct Match {
    pub candidate_id: usize,
    pub positions: Vec<usize>,
}

/// The candidate ids of matches, in rank order.
pub open spec fn match_ids(matches: Seq<Match>) -> Seq<usize> {
    matches.map_values(|m: Match| m.candidate_id)
}

/// The position of the first `id` in `ids`, if any.
pub open spec fn first_index_of(ids: Seq<usize>, id: usize) -> Option<int>
    decreases ids.len(),
{
    if ids.len() == 0 {
        None
    } else if ids[0] == id {
        Some(0)
    } else {
        match first_index_of(ids.drop_first(), id) {
            Some(i) => Some(i + 1),
            None => None,
        }
    }
}

pub proof fn lemma_first_index_of(ids: Seq<usize>, id: usize)
    ensures
        match first_index_of(ids, id) {
            Some(i) => 0 <= i < ids.len() && ids[i] == id && forall|j: int|
                0 <= j < i ==> #[trigger] ids[j] != id,
            None => forall|j: int| 0 <= j < ids.len() ==> #[trigger] ids[j] != id,
        },
    decreases ids.len(),
{
    if ids.len() > 0 && ids[0] != id {
        let rest = ids.drop_first();
        lemma_first_index_of(rest, id);
        assert forall|j: int| 0 < j < ids.len() implies ids[j] == rest[j - 1] by {}
    }
}

/// When every row's id is its position, the row for id `k` is row `k`.
pub proof fn lemma_first_index_of_positions(ids: Seq<usize>, k: usize)
    requires
        forall|j: int| 0 <= j < ids.len() ==> #[trigger] ids[j] == j,
    ensures
        first_index_of(ids, k) == if k < ids.len() {
            Some(k as int)
        } else {
            None::<int>
        },
{
    lemma_first_index_of(ids, k);
    match first_index_of(ids, k) {
        Some(i) => {
            if (k as int) < i {
                assert(ids[k as int] == k);
            }
        },
        None => {
            if k < ids.len() {
                assert(ids[k as int] == k);
            }
        },
    }
}

/// The position of the first `id` in `ids`, if any.
pub fn position_of(ids: &Vec<usize>, id: usize) -> (r: Option<usize>)
    ensures
        match first_index_of(ids@, id) {
            Some(i) => r == Some(i as usize),
            None => r is None,
        },
{
    proof {
        lemma_first_index_of(ids@, id);
    }
    let mut i: usize = 0;
    while i < ids.len()
        invariant
            i <= ids.len(),
            forall|j: int| 0 <= j < i ==> #[trigger] ids@[j] != id,
        decreases ids.len() - i,
    {
        if ids[i] == id {
            proof {
                lemma_first_index_of(ids@, id);
                match first_index_of(ids@, id) {
                    Some(k) => {
                        if i < k {
                            assert(ids@[i as int] == id);
                        }
                    },
                    None => {
                        assert(ids@[i as int] == id);
                    },
                }
            }
            return Some(i);
        }
        i = i + 1;
    }
    proof {
        lemma_first_index_of(ids@, id);
    }
    None
}

/// The candidate id of match `ix`, if there is such a match.
pub fn candidate_at(matches: &Vec<Match>, ix: usize) -> (r: Option<usize>)
    ensures
        ix < matches.len() ==> r == Some(matches@[ix as int].candidate_id),
        ix >= matches.len() ==> r is None,
{
    if ix < matches.len() {
        Some(matches[ix].candidate_id)
    } else {
        None
    }
}

/// The selection after new matches arrive, kept in range:
/// `min(selected, len - 1)`, or 0 when there are none.
pub fn clamp_selection(selected: usize, len: usize) -> (r: usize)
    ensures
        r == if len == 0 {
            0
        } else if selected < len {
            selected
        } else {
            (len - 1) as usize
        },
{
    let last = if len == 0 {
        0
    } else {
        len - 1
    };
    if selected < last {
        selected
    } else {
        last
    }
}

} // verus!
