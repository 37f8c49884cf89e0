//! The references picker: every reference to the symbol under the cursor,
//! in a fuzzy picker; confirming jumps to the start of the reference.
//!
//! A reference is shown as `path:line  text`, where `line` counts from 1 and
//! `text` is the referencing line without surrounding whitespace.

use vstd::prelude::*;
use crate::picker::{candidate_at, Match};
use crate::text::{append_str, decimal_nat, push_decimal, to_owned_string, trim, trim_spec};

verus! {

/// How a reference is shown: its file (`untitled` when it has none), its
/// 1-based line number, two spaces and the trimmed line text.
pub open spec fn reference_display_spec(path: Option<Seq<char>>, row: u32, line_text: Seq<char>) -> Seq<char> {
    let p = match path {
        Some(p) => p,
        None => "untitled"@,
    };
    p + ":"@ + decimal_nat((row + 1) as nat) + "  "@ + trim_spec(line_text)
}

/// How a reference on 0-based `row` of the file at `path` is shown.
pub fn reference_display(path: Option<&str>, row: u32, line_text: &str) -> (r: String)
    requires
        row < u32::MAX,
    ensures
        r@ == reference_display_spec(
            match path {
                Some(p) => Some(p@),
                None => None,
            },
            row,
            line_text@,
        ),
{
    let mut s = match path {
        Some(p) => to_owned_string(p),
        None => to_owned_string("untitled"),
    };
    append_str(&mut s, ":");
    push_decimal(&mut s, (row + 1) as u64);
    append_str(&mut s, "  ");
    let t = trim(line_text);
    append_str(&mut s, t.as_str());
    s
}

/// A reference: how it is shown, and where it starts (row and column).
pub struct ReferenceEntry {
    pub display: String,
    pub start_row: u32,
    pub start_column: u32,
}

/// The references picker. Every row's candidate id is its position.
pub struct ReferencesDelegate {
    pub entries: Vec<ReferenceEntry>,
    pub matches: Vec<Match>,
    pub selected_index: usize,
}

impl ReferencesDelegate {
    /// The entry that match `ix` points at, if both exist.
    pub open spec fn entry_of_match(&self, ix: int) -> Option<int> {
        if 0 <= ix < self.matches.len() && self.matches@[ix].candidate_id < self.entries.len() {
            Some(self.matches@[ix].candidate_id as int)
        } else {
            None
        }
    }

    /// A picker over `entries`, nothing matched yet.
    pub fn new(entries: Vec<ReferenceEntry>) -> (r: Self)
        ensures
            r.entries == entries,
            r.matches@.len() == 0,
            r.selected_index == 0,
    {
        ReferencesDelegate { entries, matches: Vec::new(), selected_index: 0 }
    }

    /// The number of rows shown.
    pub fn match_count(&self) -> (r: usize)
        ensures
            r == self.matches.len(),
    {
        self.matches.len()
    }

    /// Selects row `ix`.
    pub fn set_selected_index(&mut self, ix: usize)
        ensures
            final(self).selected_index == ix,
            final(self).entries == old(self).entries,
            final(self).matches == old(self).matches,
    {
        self.selected_index = ix;
    }

    /// Installs the matches for a query and selects the first.
    pub fn set_matches(&mut self, matches: Vec<Match>)
        ensures
            final(self).matches == matches,
            final(self).selected_index == 0,
            final(self).entries == old(self).entries,
    {
        self.matches = matches;
        self.selected_index = 0;
    }

    /// Enter: the reference to jump to (by position) and where the cursor
    /// goes, the start of the reference, as an empty range.
    pub fn confirm(&self) -> (r: Option<(usize, (u32, u32))>)
        ensures
            match self.entry_of_match(self.selected_index as int) {
                Some(k) => r == Some(
                    (
                        k as usize,
                        (self.entries@[k].start_row, self.entries@[k].start_column),
                    ),
                ),
                None => r is None,
            },
    {
        match candidate_at(&self.matches, self.selected_index) {
            Some(id) => if id < self.entries.len() {
                Some((id, (self.entries[id].start_row, self.entries[id].start_column)))
            } else {
                None
            },
            None => None,
        }
    }

    /// What row `ix` shows: the reference's text and the matched positions.
    pub fn row(&self, ix: usize) -> (r: Option<(String, Vec<usize>)>)
        ensures
            match self.entry_of_match(ix as int) {
                Some(k) => r matches Some((display, positions)) && display@
                    == self.entries@[k].display@ && positions@
                    == self.matches@[ix as int].positions@,
                None => r is None,
            },
    {
        match candidate_at(&self.matches, ix) {
            Some(id) => if id < self.entries.len() {
                Some((self.entries[id].display.clone(), self.matches[ix].positions.clone()))
            } else {
                None
            },
            None => None,
        }
    }
}

} // verus!
