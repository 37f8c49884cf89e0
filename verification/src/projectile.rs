//! The recent-projects remover: a fuzzy picker over the recent projects;
//! confirming removes the selected one from the list.

use vstd::prelude::*;
use crate::picker::{candidate_at, clamp_selection, Match};
use crate::text::{trim, trim_spec};

verus! {

/// A recent project: its workspace id, its name and its full path.
pub struct RecentProject {
    pub workspace_id: u64,
    pub name: String,
    pub full_path: String,
}

/// The workspace ids of projects, in list order.
pub open spec fn project_ids(projects: Seq<RecentProject>) -> Seq<u64> {
    projects.map_values(|p: RecentProject| p.workspace_id)
}

/// The projects left after removing the one with `id`: every other project,
/// in the same order.
pub open spec fn without_project(projects: Seq<RecentProject>, id: u64) -> Seq<RecentProject>
    decreases projects.len(),
{
    if projects.len() == 0 {
        Seq::empty()
    } else {
        let rest = without_project(projects.drop_last(), id);
        if projects.last().workspace_id != id {
            rest.push(projects.last())
        } else {
            rest
        }
    }
}

/// After a project is removed, no project with its id is left, and every
/// project that is left was in the list before.
pub proof fn lemma_removed_project_is_gone(projects: Seq<RecentProject>, id: u64)
    ensures
        forall|i: int|
            0 <= i < without_project(projects, id).len() ==> #[trigger] without_project(
                projects,
                id,
            )[i].workspace_id != id,
        forall|i: int|
            0 <= i < without_project(projects, id).len() ==> projects.contains(
                #[trigger] without_project(projects, id)[i],
            ),
        without_project(projects, id).len() <= projects.len(),
    decreases projects.len(),
{
    if projects.len() > 0 {
        let init = projects.drop_last();
        lemma_removed_project_is_gone(init, id);
        let r = without_project(projects, id);
        assert forall|i: int| 0 <= i < r.len() implies projects.contains(#[trigger] r[i]) by {
            if i < without_project(init, id).len() {
                let x = r[i];
                assert(init.contains(x));
                let j = choose|j: int| 0 <= j < init.len() && init[j] == x;
                assert(projects[j] == x);
            } else {
                assert(projects[projects.len() - 1] == r[i]);
            }
        }
    }
}

/// Whether a project's workspace id is not `id`.
pub open spec fn other_than(id: u64) -> spec_fn(RecentProject) -> bool {
    |p: RecentProject| p.workspace_id != id
}

/// Removing the project with `id` keeps exactly the projects with another
/// id, each once and in the order they were listed: every other project is
/// still there.
pub proof fn lemma_remove_keeps_every_other_project(projects: Seq<RecentProject>, id: u64)
    ensures
        without_project(projects, id) == projects.filter(other_than(id)),
        forall|i: int|
            0 <= i < projects.len() && #[trigger] projects[i].workspace_id != id
                ==> without_project(projects, id).contains(projects[i]),
    decreases projects.len(),
{
    if projects.len() == 0 {
        reveal(Seq::filter);
    } else {
        let init = projects.drop_last();
        lemma_remove_keeps_every_other_project(init, id);
        assert(init.push(projects.last()) =~= projects);
        init.lemma_filter_push(projects.last(), other_than(id));
    }
    assert forall|i: int|
        0 <= i < projects.len() && #[trigger] projects[i].workspace_id != id
            implies without_project(projects, id).contains(projects[i]) by {
        projects.lemma_filter_contains(other_than(id), i);
    }
}

/// The remover's picker.
pub struct DeleteProjectDelegate {
    pub projects: Vec<RecentProject>,
    pub matches: Vec<Match>,
    pub selected_index: usize,
}

impl DeleteProjectDelegate {
    /// The project that match `ix` points at, if both exist.
    pub open spec fn project_of_match(&self, ix: int) -> Option<int> {
        if 0 <= ix < self.matches.len() && self.matches@[ix].candidate_id < self.projects.len() {
            Some(self.matches@[ix].candidate_id as int)
        } else {
            None
        }
    }

    /// An empty picker, before the recent projects are loaded.
    pub fn new() -> (r: Self)
        ensures
            r.projects@.len() == 0,
            r.matches@.len() == 0,
            r.selected_index == 0,
    {
        DeleteProjectDelegate { projects: Vec::new(), matches: Vec::new(), selected_index: 0 }
    }

    /// Installs the loaded recent projects.
    pub fn set_projects(&mut self, projects: Vec<RecentProject>)
        ensures
            final(self).projects == projects,
            final(self).matches == old(self).matches,
            final(self).selected_index == old(self).selected_index,
    {
        self.projects = projects;
    }

    /// The query handed to the matcher: the typed text without surrounding
    /// whitespace.
    pub fn normalized_query(query: &str) -> (r: String)
        ensures
            r@ == trim_spec(query@),
    {
        trim(query)
    }

    /// The number of rows shown.
    pub fn match_count(&self) -> (r: usize)
        ensures
            r == self.matches.len(),
    {
        self.matches.len()
    }

    /// Selects row `ix`.
    pub fn set_selected_index(&mut self, ix: usize)
        ensures
            final(self).selected_index == ix,
            final(self).projects == old(self).projects,
            final(self).matches == old(self).matches,
    {
        self.selected_index = ix;
    }

    /// Installs the matches for a query. The selection stays where it was,
    /// moved onto the last row if the list got shorter.
    pub fn set_matches(&mut self, matches: Vec<Match>)
        ensures
            final(self).matches == matches,
            final(self).projects == old(self).projects,
            final(self).selected_index == if matches.len() == 0 {
                0
            } else if old(self).selected_index < matches.len() {
                old(self).selected_index
            } else {
                (matches.len() - 1) as usize
            },
    {
        self.selected_index = clamp_selection(self.selected_index, matches.len());
        self.matches = matches;
    }

    /// Enter: the workspace id of the project to remove, the one in the
    /// selected row, if any.
    pub fn confirm(&self) -> (r: Option<u64>)
        ensures
            match self.project_of_match(self.selected_index as int) {
                Some(k) => r == Some(self.projects@[k].workspace_id),
                None => r is None,
            },
    {
        match candidate_at(&self.matches, self.selected_index) {
            Some(id) => if id < self.projects.len() {
                Some(self.projects[id].workspace_id)
            } else {
                None
            },
            None => None,
        }
    }

    /// The project with `workspace_id` was removed from the recent list:
    /// drops it from the picker, keeping the others in order.
    pub fn remove_project(&mut self, workspace_id: u64)
        ensures
            final(self).projects@ == without_project(old(self).projects@, workspace_id),
            final(self).projects@ == old(self).projects@.filter(other_than(workspace_id)),
            final(self).matches == old(self).matches,
            final(self).selected_index == old(self).selected_index,
    {
        let mut kept: Vec<RecentProject> = Vec::new();
        let mut i: usize = 0;
        while i < self.projects.len()
            invariant
                i <= self.projects.len(),
                kept@ == without_project(self.projects@.take(i as int), workspace_id),
            decreases self.projects.len() - i,
        {
            proof {
                assert(self.projects@.take(i + 1).drop_last() =~= self.projects@.take(i as int));
            }
            if self.projects[i].workspace_id != workspace_id {
                let p = RecentProject {
                    workspace_id: self.projects[i].workspace_id,
                    name: self.projects[i].name.clone(),
                    full_path: self.projects[i].full_path.clone(),
                };
                kept.push(p);
            }
            i = i + 1;
        }
        proof {
            assert(self.projects@.take(i as int) =~= self.projects@);
            lemma_remove_keeps_every_other_project(self.projects@, workspace_id);
        }
        self.projects = kept;
    }

    /// What row `ix` shows: the project's name with the matched positions,
    /// and its full path beneath.
    pub fn row(&self, ix: usize) -> (r: Option<(String, Vec<usize>, String)>)
        ensures
            match self.project_of_match(ix as int) {
                Some(k) => r matches Some((name, positions, path)) && name@
                    == self.projects@[k].name@ && positions@ == self.matches@[ix as int].positions@
                    && path@ == self.projects@[k].full_path@,
                None => r is None,
            },
    {
        match candidate_at(&self.matches, ix) {
            Some(id) => if id < self.projects.len() {
                Some(
                    (
                        self.projects[id].name.clone(),
                        self.matches[ix].positions.clone(),
                        self.projects[id].full_path.clone(),
                    ),
                )
            } else {
                None
            },
            None => None,
        }
    }
}

} // verus!
