//! The directory file finder: a picker that lists one directory of the
//! project at a time, filters it as the user types, descends into directories
//! on confirm and offers to create a file for a typed name that matches no
//! entry.
//!
//! Paths are shown relative to the project root: the empty string is the root
//! itself, every other directory ends with a separator. The absolute root is
//! prepended only when a directory is listed or a file opened.
//!
//! A listing shows directories before files. Every change of the query
//! starts an update with a ticket; its listing and matches land only while
//! it is the update awaited, so a result that arrives after a newer query (or
//! after the picker closed) changes nothing.

use vstd::prelude::*;
use crate::picker::Match;
use crate::text::{append_str, chars_of, push_char, string_from_chars, to_owned_string};

verus! {

/// The name of the parent-directory entry.
pub open spec fn parent_dir_name() -> Seq<char> {
    ".."@
}

/// Whether a path separator (either style).
pub open spec fn is_separator(c: char) -> bool {
    c == '/' || c == '\\'
}

/// The number of trailing separators of `s`.
pub open spec fn trailing_separators(s: Seq<char>) -> nat
    decreases s.len(),
{
    if s.len() > 0 && is_separator(s.last()) {
        1 + trailing_separators(s.drop_last())
    } else {
        0
    }
}

/// Whether `s` holds a separator before position `end`.
pub open spec fn has_separator_before(s: Seq<char>, end: int) -> bool {
    exists|i: int| 0 <= i < end && is_separator(#[trigger] s[i])
}

/// The position of the last separator of `s` before `end`.
pub open spec fn last_separator_before(s: Seq<char>, end: int) -> int
    decreases end,
{
    if end <= 0 {
        -1
    } else if is_separator(s[end - 1]) {
        end - 1
    } else {
        last_separator_before(s, end - 1)
    }
}

/// The parent of a project-relative directory `path`, or `None` for the
/// root: trailing separators are ignored, and the parent is `path` up to and
/// including the separator before its last segment (the root when there is
/// none). So `"apps/web/"` has parent `"apps/"`, `"apps/"` has parent `""`,
/// and `""` has none.
pub open spec fn parent_dir_spec(path: Seq<char>) -> Option<Seq<char>> {
    if path.len() == 0 {
        None
    } else {
        let end = path.len() - trailing_separators(path);
        Some(path.take(last_separator_before(path, end) + 1))
    }
}

proof fn lemma_trailing_separators_bound(s: Seq<char>)
    ensures
        trailing_separators(s) <= s.len(),
    decreases s.len(),
{
    if s.len() > 0 && is_separator(s.last()) {
        lemma_trailing_separators_bound(s.drop_last());
    }
}

proof fn lemma_last_separator(s: Seq<char>, end: int)
    requires
        0 <= end <= s.len(),
    ensures
        -1 <= last_separator_before(s, end) < end,
        last_separator_before(s, end) >= 0 ==> is_separator(s[last_separator_before(s, end)]),
        forall|i: int|
            last_separator_before(s, end) < i < end ==> !is_separator(#[trigger] s[i]),
    decreases end,
{
    if end > 0 && !is_separator(s[end - 1]) {
        lemma_last_separator(s, end - 1);
    }
}

/// The parent of `path`, or `None` if `path` is the root (empty).
pub fn parent_dir(path: &str) -> (r: Option<String>)
    ensures
        match parent_dir_spec(path@) {
            Some(p) => r is Some && r->0@ == p,
            None => r is None,
        },
{
    let v = chars_of(path);
    if v.len() == 0 {
        return None;
    }
    let mut end: usize = v.len();
    assert(v@.take(end as int) =~= v@);
    while end > 0 && (v[end - 1] == '/' || v[end - 1] == '\\')
        invariant
            end <= v.len(),
            trailing_separators(v@) == (v.len() - end) + trailing_separators(v@.take(end as int)),
        decreases end,
    {
        proof {
            assert(v@.take(end as int).drop_last() =~= v@.take(end - 1));
        }
        end = end - 1;
    }
    proof {
        if end > 0 {
            assert(v@.take(end as int).last() == v@[end - 1]);
        }
        assert(trailing_separators(v@.take(end as int)) == 0);
    }
    let mut i: usize = end;
    while i > 0 && !(v[i - 1] == '/' || v[i - 1] == '\\')
        invariant
            i <= end <= v.len(),
            last_separator_before(v@, end as int) == last_separator_before(v@, i as int),
        decreases i,
    {
        i = i - 1;
    }
    proof {
        assert(last_separator_before(v@, i as int) + 1 == i);
    }
    Some(string_from_chars(&v, 0, i))
}

/// Going up from a directory reaches a shorter path that is the root or
/// ends with a separator, so walking up always ends at the root.
pub proof fn lemma_parent_dir_shortens(path: Seq<char>)
    ensures
        match parent_dir_spec(path) {
            Some(p) => p.len() < path.len() && (p.len() == 0 || is_separator(p.last()))
                && p =~= path.take(p.len() as int),
            None => path.len() == 0,
        },
{
    if path.len() > 0 {
        lemma_trailing_separators_bound(path);
        let end = path.len() - trailing_separators(path);
        lemma_last_separator(path, end);
    }
}

proof fn lemma_last_separator_skips(s: Seq<char>, lo: int, end: int)
    requires
        0 <= lo <= end <= s.len(),
        forall|i: int| lo <= i < end ==> !is_separator(#[trigger] s[i]),
    ensures
        last_separator_before(s, end) == last_separator_before(s, lo),
    decreases end - lo,
{
    if end > lo {
        lemma_last_separator_skips(s, lo, end - 1);
    }
}

/// Descending into a child directory and going back up returns to where the
/// finder was: the parent of `dir + name + sep` is `dir`, for a directory
/// `dir` (the root or a path ending with a separator) and a non-empty `name`
/// without separators.
pub proof fn lemma_parent_of_child(dir: Seq<char>, name: Seq<char>, sep: char)
    requires
        dir.len() == 0 || is_separator(dir.last()),
        name.len() > 0,
        forall|i: int| 0 <= i < name.len() ==> !is_separator(#[trigger] name[i]),
        is_separator(sep),
    ensures
        parent_dir_spec(dir + name.push(sep)) == Some(dir),
{
    let path = dir + name.push(sep);
    let n = path.len();
    assert(path.last() == sep);
    assert(path.drop_last() =~= dir + name);
    assert((dir + name).last() == name.last());
    assert(!is_separator(name[name.len() - 1]));
    assert(trailing_separators(path.drop_last()) == 0);
    assert(trailing_separators(path) == 1);
    let end = n - 1;
    assert forall|i: int| dir.len() <= i < end implies !is_separator(#[trigger] path[i]) by {
        assert(path[i] == name[i - dir.len()]);
    }
    lemma_last_separator_skips(path, dir.len() as int, end);
    if dir.len() > 0 {
        assert(path[dir.len() - 1] == dir.last());
        assert(last_separator_before(path, dir.len() as int) == dir.len() - 1);
    }
    assert(path.take(dir.len() as int) =~= dir);
}

/// The two separator styles.
#[derive(PartialEq, Eq, Structural, Clone, Copy, Debug)]
pub enum PathStyle {
    Posix,
    Windows,
}

/// The separator a style writes.
pub open spec fn separator_of(style: PathStyle) -> char {
    match style {
        PathStyle::Posix => '/',
        PathStyle::Windows => '\\',
    }
}

impl PathStyle {
    /// The separator this style writes.
    pub fn primary_separator(&self) -> (r: char)
        ensures
            r == separator_of(*self),
    {
        match self {
            PathStyle::Posix => '/',
            PathStyle::Windows => '\\',
        }
    }
}

/// `dir` with `sep` appended unless it already ends with it.
pub open spec fn with_trailing_separator(dir: Seq<char>, sep: char) -> Seq<char> {
    if dir.len() > 0 && dir.last() == sep {
        dir
    } else {
        dir.push(sep)
    }
}

/// The directory of the active file, as an absolute path ending with the
/// style's separator.
pub fn directory_with_separator(dir: &str, style: PathStyle) -> (r: String)
    ensures
        r@ == with_trailing_separator(dir@, separator_of(style)),
{
    let sep = style.primary_separator();
    let v = chars_of(dir);
    let mut r = to_owned_string(dir);
    if !(v.len() > 0 && v[v.len() - 1] == sep) {
        push_char(&mut r, sep);
    }
    r
}

/// `s` without the prefix `prefix`, if it starts with it.
pub open spec fn strip_prefix_spec(s: Seq<char>, prefix: Seq<char>) -> Option<Seq<char>> {
    if prefix.len() <= s.len() && s.take(prefix.len() as int) == prefix {
        Some(s.skip(prefix.len() as int))
    } else {
        None
    }
}

/// `s` without the prefix `prefix`, if it starts with it.
pub fn strip_prefix(s: &str, prefix: &str) -> (r: Option<String>)
    ensures
        match strip_prefix_spec(s@, prefix@) {
            Some(t) => r is Some && r->0@ == t,
            None => r is None,
        },
{
    let sv = chars_of(s);
    let pv = chars_of(prefix);
    if pv.len() > sv.len() {
        return None;
    }
    let mut i: usize = 0;
    while i < pv.len()
        invariant
            i <= pv.len() <= sv.len(),
            sv@ == s@,
            pv@ == prefix@,
            forall|j: int| 0 <= j < i ==> sv@[j] == pv@[j],
        decreases pv.len() - i,
    {
        if sv[i] != pv[i] {
            assert(sv@.take(pv.len() as int)[i as int] != pv@[i as int]);
            assert(sv@.take(pv.len() as int) != pv@);
            return None;
        }
        i = i + 1;
    }
    assert(sv@.take(pv.len() as int) =~= pv@);
    Some(string_from_chars(&sv, pv.len(), sv.len()))
}

/// The query the finder starts with: the active file's directory relative to
/// the project root, or the root itself when there is no active file or it
/// lies outside the root.
pub open spec fn start_query_spec(active_dir: Option<Seq<char>>, root: Seq<char>) -> Seq<char> {
    match active_dir {
        Some(d) => match strip_prefix_spec(d, root) {
            Some(rel) => rel,
            None => Seq::<char>::empty(),
        },
        None => Seq::<char>::empty(),
    }
}

/// The query the finder starts with.
pub fn start_query(active_dir: Option<&str>, root: &str) -> (r: String)
    ensures
        r@ == start_query_spec(
            match active_dir {
                Some(d) => Some(d@),
                None => None,
            },
            root@,
        ),
{
    match active_dir {
        Some(d) => match strip_prefix(d, root) {
            Some(rel) => rel,
            None => String::new(),
        },
        None => String::new(),
    }
}

/// A row of the listing: the entry's name, its id as a match candidate, and
/// whether it is a directory.
pub struct Entry {
    pub name: String,
    pub id: usize,
    pub is_dir: bool,
}

/// A listed item, before it becomes a row.
pub struct ListedItem {
    pub name: String,
    pub is_dir: bool,
}


/// Whether a listed item is a directory.
pub open spec fn is_dir_item() -> spec_fn((Seq<char>, bool)) -> bool {
    |it: (Seq<char>, bool)| it.1
}

/// Whether a listed item is a file.
pub open spec fn is_file_item() -> spec_fn((Seq<char>, bool)) -> bool {
    |it: (Seq<char>, bool)| !it.1
}

/// The listed items in display order: the directories, then the files, each
/// group in the order given.
pub open spec fn display_order(items: Seq<(Seq<char>, bool)>) -> Seq<(Seq<char>, bool)> {
    items.filter(is_dir_item()) + items.filter(is_file_item())
}

/// `s` with ids counting from `base`.
pub open spec fn numbered_rows(s: Seq<(Seq<char>, bool)>, base: nat) -> Seq<(Seq<char>, usize, bool)> {
    Seq::new(s.len(), |k: int| (s[k].0, (base + k) as usize, s[k].1))
}

/// The rows for a listing of `dir`: the items in display order, with ids
/// counting from 0, preceded by a `..` directory row (whose id follows the
/// items') unless `dir` is the root.
pub open spec fn entry_rows(items: Seq<(Seq<char>, bool)>, dir: Seq<char>) -> Seq<(Seq<char>, usize, bool)> {
    let rows = numbered_rows(display_order(items), 0);
    if parent_dir_spec(dir) is Some {
        seq![(parent_dir_name(), items.len() as usize, true)] + rows
    } else {
        rows
    }
}

proof fn lemma_display_order_len(items: Seq<(Seq<char>, bool)>)
    ensures
        display_order(items).len() == items.len(),
    decreases items.len(),
{
    if items.len() > 0 {
        let init = items.drop_last();
        lemma_display_order_len(init);
        assert(init.push(items.last()) =~= items);
        init.lemma_filter_push(items.last(), is_dir_item());
        init.lemma_filter_push(items.last(), is_file_item());
    } else {
        reveal(Seq::filter);
    }
}

/// A listing shows one row per item, plus `..` below the root, and every
/// directory row comes before every file row.
pub proof fn lemma_directories_come_first(items: Seq<(Seq<char>, bool)>, dir: Seq<char>)
    ensures
        entry_rows(items, dir).len() == items.len() + if parent_dir_spec(dir) is Some {
            1int
        } else {
            0int
        },
        forall|i: int, j: int|
            0 <= i < j < entry_rows(items, dir).len() && #[trigger] entry_rows(items, dir)[j].2
                ==> #[trigger] entry_rows(items, dir)[i].2,
{
    lemma_display_order_len(items);
    let d = items.filter(is_dir_item());
    let f = items.filter(is_file_item());
    let rows = entry_rows(items, dir);
    let off: int = if parent_dir_spec(dir) is Some {
        1
    } else {
        0
    };
    assert forall|i: int, j: int|
        0 <= i < j < rows.len() && #[trigger] rows[j].2 implies #[trigger] rows[i].2 by {
        if i >= off {
            let ii = i - off;
            let jj = j - off;
            assert(rows[i] == numbered_rows(display_order(items), 0)[ii]);
            assert(rows[j] == numbered_rows(display_order(items), 0)[jj]);
            if jj >= d.len() {
                items.lemma_filter_pred(is_file_item(), jj - d.len());
                assert(display_order(items)[jj] == f[jj - d.len()]);
            }
            assert(ii < d.len());
            items.lemma_filter_pred(is_dir_item(), ii);
            assert(display_order(items)[ii] == d[ii]);
        }
    }
}

/// The view of a row.
pub open spec fn entry_view(e: Entry) -> (Seq<char>, usize, bool) {
    (e.name@, e.id, e.is_dir)
}

/// The views of listed items.
pub open spec fn items_view(items: Seq<ListedItem>) -> Seq<(Seq<char>, bool)> {
    items.map_values(|it: ListedItem| (it.name@, it.is_dir))
}

/// The views of rows.
pub open spec fn entries_view(entries: Seq<Entry>) -> Seq<(Seq<char>, usize, bool)> {
    entries.map_values(|e: Entry| entry_view(e))
}

/// Builds the rows for a listing of `dir` from its items: directories first,
/// then files, each group in the order given (the caller gives them in path
/// order).
pub fn directory_entries(items: Vec<ListedItem>, dir: &str) -> (r: Vec<Entry>)
    ensures
        entries_view(r@) == entry_rows(items_view(items@), dir@),
{
    let n = items.len();
    let has_parent = parent_dir(dir).is_some();
    let mut r: Vec<Entry> = Vec::new();
    if has_parent {
        r.push(Entry { name: to_owned_string(".."), id: n, is_dir: true });
    }
    let ghost base = entries_view(r@);
    let ghost iv = items_view(items@);
    proof {
        if has_parent {
            assert(base =~= seq![(parent_dir_name(), n, true)]);
        } else {
            assert(base =~= Seq::<(Seq<char>, usize, bool)>::empty());
        }
        reveal(Seq::filter);
        assert(iv.take(0) =~= Seq::<(Seq<char>, bool)>::empty());
        assert(numbered_rows(Seq::<(Seq<char>, bool)>::empty(), 0) =~= Seq::<(Seq<char>, usize, bool)>::empty());
        assert(base + Seq::<(Seq<char>, usize, bool)>::empty() =~= base);
    }
    let mut dirs: usize = 0;
    let mut i: usize = 0;
    while i < n
        invariant
            n == items.len(),
            i <= n,
            iv == items_view(items@),
            dirs as nat == iv.take(i as int).filter(is_dir_item()).len(),
            dirs <= i,
            entries_view(r@) == base + numbered_rows(iv.take(i as int).filter(is_dir_item()), 0),
        decreases n - i,
    {
        let ghost prev = r@;
        let ghost d0 = iv.take(i as int).filter(is_dir_item());
        proof {
            assert(iv.take(i + 1) =~= iv.take(i as int).push(iv[i as int]));
            iv.take(i as int).lemma_filter_push(iv[i as int], is_dir_item());
        }
        if items[i].is_dir {
            let e = Entry { name: items[i].name.clone(), id: dirs, is_dir: true };
            r.push(e);
            dirs = dirs + 1;
            proof {
                assert(entries_view(r@) =~= entries_view(prev).push(entry_view(e)));
                assert(numbered_rows(d0.push(iv[i as int]), 0) =~= numbered_rows(d0, 0).push(entry_view(e)));
            }
        }
        i = i + 1;
    }
    let ghost d = iv.filter(is_dir_item());
    proof {
        assert(iv.take(n as int) =~= iv);
        assert(iv.take(0) =~= Seq::<(Seq<char>, bool)>::empty());
        assert(numbered_rows(Seq::<(Seq<char>, bool)>::empty(), dirs as nat) =~= Seq::<(Seq<char>, usize, bool)>::empty());
        assert(base + numbered_rows(d, 0) + Seq::<(Seq<char>, usize, bool)>::empty() =~= base + numbered_rows(d, 0));
    }
    let mut files: usize = 0;
    let mut i: usize = 0;
    while i < n
        invariant
            n == items.len(),
            i <= n,
            iv == items_view(items@),
            d == iv.filter(is_dir_item()),
            dirs as nat == d.len(),
            dirs <= n,
            files as nat == iv.take(i as int).filter(is_file_item()).len(),
            files <= i,
            entries_view(r@) == base + numbered_rows(d, 0) + numbered_rows(
                iv.take(i as int).filter(is_file_item()),
                dirs as nat,
            ),
        decreases n - i,
    {
        let ghost prev = r@;
        let ghost f0 = iv.take(i as int).filter(is_file_item());
        proof {
            assert(iv.take(i + 1) =~= iv.take(i as int).push(iv[i as int]));
            iv.take(i as int).lemma_filter_push(iv[i as int], is_file_item());
            iv.take(i as int).lemma_filter_push(iv[i as int], is_dir_item());
            lemma_display_order_len(iv);
            iv.lemma_filter_len(is_file_item());
        }
        if !items[i].is_dir {
            assert(dirs + files < n) by {
                lemma_display_order_len(iv);
                iv.lemma_filter_take_len(is_file_item(), i + 1);
            }
            let e = Entry { name: items[i].name.clone(), id: dirs + files, is_dir: false };
            r.push(e);
            files = files + 1;
            proof {
                assert(entries_view(r@) =~= entries_view(prev).push(entry_view(e)));
                assert(numbered_rows(f0.push(iv[i as int]), dirs as nat) =~= numbered_rows(
                    f0,
                    dirs as nat,
                ).push(entry_view(e)));
            }
        }
        i = i + 1;
    }
    proof {
        assert(iv.take(n as int) =~= iv);
        let f = iv.filter(is_file_item());
        assert(numbered_rows(d, 0) + numbered_rows(f, d.len()) =~= numbered_rows(display_order(iv), 0));
        if has_parent {
            assert(entries_view(r@) =~= entry_rows(iv, dir@));
        } else {
            assert(entries_view(r@) =~= entry_rows(iv, dir@));
        }
    }
    r
}

/// The query after going to the parent directory: a filter being typed is
/// dropped back to its directory, otherwise the query steps up to the parent
/// (nothing happens at the root). `dir` and `suffix` are the query split into
/// its directory part and the segment after it.
pub open spec fn parent_target_spec(dir: Seq<char>, suffix: Seq<char>) -> Option<Seq<char>> {
    if suffix.len() == 0 {
        parent_dir_spec(dir)
    } else {
        Some(dir)
    }
}

/// The query after going to the parent directory, if it changes.
pub fn go_to_parent_target(dir: &str, suffix: &str) -> (r: Option<String>)
    ensures
        match parent_target_spec(dir@, suffix@) {
            Some(t) => r is Some && r->0@ == t,
            None => r is None,
        },
{
    if suffix.is_empty() {
        parent_dir(dir)
    } else {
        Some(to_owned_string(dir))
    }
}

/// The query after backspace: at a directory boundary (nothing typed after
/// the directory) the whole last folder goes, staying put at the root;
/// otherwise one character is deleted.
pub open spec fn backspace_spec(query: Seq<char>, dir: Seq<char>, suffix: Seq<char>) -> Seq<char> {
    if suffix.len() == 0 {
        match parent_dir_spec(dir) {
            Some(p) => p,
            None => dir,
        }
    } else if query.len() > 0 {
        query.drop_last()
    } else {
        query
    }
}

/// The query after backspace.
pub fn backspace_query(query: &str, dir: &str, suffix: &str) -> (r: String)
    ensures
        r@ == backspace_spec(query@, dir@, suffix@),
{
    if suffix.is_empty() {
        match parent_dir(dir) {
            Some(p) => p,
            None => to_owned_string(dir),
        }
    } else {
        let v = chars_of(query);
        if v.len() > 0 {
            string_from_chars(&v, 0, v.len() - 1)
        } else {
            String::new()
        }
    }
}

/// What a row offers: an existing entry, or creating a new file.
pub enum Selection {
    Existing { name: String, is_dir: bool },
    CreateNew { name: String },
}

/// The view of a selection: `(name, is_dir, create)`.
pub open spec fn selection_view(s: Selection) -> (Seq<char>, bool, bool) {
    match s {
        Selection::Existing { name, is_dir } => (name@, is_dir, false),
        Selection::CreateNew { name } => (name@, false, true),
    }
}

/// The position of the first row with candidate id `id`, if any.
pub open spec fn find_entry(entries: Seq<(Seq<char>, usize, bool)>, id: usize) -> Option<int>
    decreases entries.len(),
{
    if entries.len() == 0 {
        None
    } else if entries[0].1 == id {
        Some(0)
    } else {
        match find_entry(entries.drop_first(), id) {
            Some(i) => Some(i + 1),
            None => None,
        }
    }
}

proof fn lemma_find_entry(entries: Seq<(Seq<char>, usize, bool)>, id: usize)
    ensures
        match find_entry(entries, id) {
            Some(i) => 0 <= i < entries.len() && entries[i].1 == id && forall|j: int|
                0 <= j < i ==> #[trigger] entries[j].1 != id,
            None => forall|j: int| 0 <= j < entries.len() ==> #[trigger] entries[j].1 != id,
        },
    decreases entries.len(),
{
    if entries.len() > 0 && entries[0].1 != id {
        let rest = entries.drop_first();
        lemma_find_entry(rest, id);
        assert forall|j: int| 0 < j < entries.len() implies entries[j] == rest[j - 1] by {}
    }
}


/// A file to open on confirm, in the current pane or (for the secondary
/// confirm) a split.
pub struct OpenFile {
    pub path: String,
    pub split: bool,
}

/// How a row is drawn: an existing entry with its matched character
/// positions, or the create row's label with the name's byte length (the
/// part of the label that is highlighted).
pub enum Row {
    Existing { name: String, is_dir: bool, positions: Vec<usize> },
    CreateNew { label: String, highlight_len: usize },
}

/// The state of the directory finder's picker.
pub struct DirectoryFinderDelegate {
    pub style: PathStyle,
    /// Absolute path of the project root, ending with a separator.
    pub root: String,
    /// The directory `entries` were listed from, relative to `root`.
    pub parent_path: String,
    pub entries: Vec<Entry>,
    pub matches: Vec<Match>,
    /// A name to offer creating a file for, shown after the matches.
    pub create_name: Option<String>,
    pub selected_index: usize,
    /// The ticket of the update whose listing and matches are awaited.
    pub pending: Option<u64>,
    /// The ticket the next update gets.
    pub next_ticket: u64,
}

impl DirectoryFinderDelegate {
    /// What row `index` offers: the entry behind match `index`, the create
    /// row right after the matches, or nothing.
    pub open spec fn selection_spec(&self, index: int) -> Option<(Seq<char>, bool, bool)> {
        if 0 <= index < self.matches.len() {
            match find_entry(entries_view(self.entries@), self.matches@[index].candidate_id) {
                Some(i) => Some(
                    (entries_view(self.entries@)[i].0, entries_view(self.entries@)[i].2, false),
                ),
                None => None,
            }
        } else if index == self.matches.len() {
            match self.create_name {
                Some(name) => Some((name@, false, true)),
                None => None,
            }
        } else {
            None
        }
    }

    /// Where confirming a directory row named `name` leads: the parent for
    /// `..`, otherwise the named child of the listed directory, with a
    /// trailing separator.
    pub open spec fn directory_target_spec(&self, name: Seq<char>) -> Option<Seq<char>> {
        if name == parent_dir_name() {
            parent_dir_spec(self.parent_path@)
        } else {
            Some(self.parent_path@ + name.push(separator_of(self.style)))
        }
    }

    /// A finder for the project rooted at `root`, showing nothing yet.
    pub fn new(root: String, style: PathStyle) -> (r: Self)
        ensures
            r.root == root,
            r.style == style,
            r.parent_path@ == Seq::<char>::empty(),
            r.entries@.len() == 0,
            r.matches@.len() == 0,
            r.create_name is None,
            r.selected_index == 0,
            r.pending is None,
            r.next_ticket == 0,
    {
        DirectoryFinderDelegate {
            style,
            root,
            parent_path: String::new(),
            entries: Vec::new(),
            matches: Vec::new(),
            create_name: None,
            selected_index: 0,
            pending: None,
            next_ticket: 0,
        }
    }

    /// The number of rows: the matches, plus the create row if offered.
    pub fn match_count(&self) -> (r: usize)
        requires
            self.matches.len() < usize::MAX,
        ensures
            r == self.matches.len() + if self.create_name is Some {
                1int
            } else {
                0int
            },
    {
        self.matches.len() + if self.create_name.is_some() {
            1
        } else {
            0
        }
    }

    /// Selects row `index`.
    pub fn set_selected_index(&mut self, index: usize)
        ensures
            final(self).selected_index == index,
            final(self).entries == old(self).entries,
            final(self).matches == old(self).matches,
            final(self).create_name == old(self).create_name,
            final(self).parent_path == old(self).parent_path,
            final(self).root == old(self).root,
            final(self).style == old(self).style,
            final(self).pending == old(self).pending,
            final(self).next_ticket == old(self).next_ticket,
    {
        self.selected_index = index;
    }

    fn entry_index(&self, id: usize) -> (r: Option<usize>)
        ensures
            match find_entry(entries_view(self.entries@), id) {
                Some(i) => r is Some && r->0 == i && i < self.entries.len(),
                None => r is None,
            },
    {
        let ghost ev = entries_view(self.entries@);
        proof {
            lemma_find_entry(ev, id);
        }
        let mut i: usize = 0;
        while i < self.entries.len()
            invariant
                i <= self.entries.len(),
                ev == entries_view(self.entries@),
                forall|j: int| 0 <= j < i ==> #[trigger] ev[j].1 != id,
            decreases self.entries.len() - i,
        {
            assert(ev[i as int].1 == self.entries@[i as int].id);
            if self.entries[i].id == id {
                proof {
                    lemma_find_entry(ev, id);
                    match find_entry(ev, id) {
                        Some(k) => {
                            if i < k {
                                assert(ev[i as int].1 == id);
                            }
                        },
                        None => {
                            assert(ev[i as int].1 == id);
                        },
                    }
                }
                return Some(i);
            }
            i = i + 1;
        }
        proof {
            lemma_find_entry(ev, id);
        }
        None
    }

    /// What row `index` offers.
    pub fn selection(&self, index: usize) -> (r: Option<Selection>)
        ensures
            match self.selection_spec(index as int) {
                Some(v) => r is Some && selection_view(r->0) == v,
                None => r is None,
            },
    {
        if index < self.matches.len() {
            let id = self.matches[index].candidate_id;
            match self.entry_index(id) {
                Some(i) => Some(
                    Selection::Existing {
                        name: self.entries[i].name.clone(),
                        is_dir: self.entries[i].is_dir,
                    },
                ),
                None => None,
            }
        } else if index == self.matches.len() {
            match &self.create_name {
                Some(name) => Some(Selection::CreateNew { name: name.clone() }),
                None => None,
            }
        } else {
            None
        }
    }

    /// Where confirming a directory row named `name` leads.
    pub fn directory_target(&self, name: &str) -> (r: Option<String>)
        ensures
            match self.directory_target_spec(name@) {
                Some(t) => r is Some && r->0@ == t,
                None => r is None,
            },
    {
        let name_s = to_owned_string(name);
        let dots = to_owned_string("..");
        if name_s == dots {
            parent_dir(self.parent_path.as_str())
        } else {
            let mut t = self.parent_path.clone();
            append_str(&mut t, name);
            push_char(&mut t, self.style.primary_separator());
            assert(t@ =~= self.parent_path@ + name@.push(separator_of(self.style)));
            Some(t)
        }
    }

    /// The directory to list for a query whose directory part is `dir`:
    /// `root + dir` when it differs from the one already listed.
    pub fn listing_path(&self, dir: &str) -> (r: Option<String>)
        ensures
            self.parent_path@ == dir@ ==> r is None,
            self.parent_path@ != dir@ ==> r is Some && r->0@ == self.root@ + dir@,
    {
        let d = to_owned_string(dir);
        if self.parent_path == d {
            None
        } else {
            let mut p = self.root.clone();
            append_str(&mut p, dir);
            Some(p)
        }
    }

    /// The query changed: an update starts, replacing the one awaited before
    /// (whose listing and matches will no longer land). Returns its ticket
    /// (tickets count up and wrap around).
    pub fn begin_update(&mut self) -> (ticket: u64)
        ensures
            ticket == old(self).next_ticket,
            final(self).pending == Some(ticket),
            final(self).next_ticket == (if ticket == u64::MAX {
                0
            } else {
                ticket + 1
            }),
            final(self).parent_path == old(self).parent_path,
            final(self).entries == old(self).entries,
            final(self).matches == old(self).matches,
            final(self).create_name == old(self).create_name,
            final(self).selected_index == old(self).selected_index,
            final(self).root == old(self).root,
            final(self).style == old(self).style,
    {
        let ticket = self.next_ticket;
        self.pending = Some(ticket);
        self.next_ticket = if ticket == u64::MAX {
            0
        } else {
            ticket + 1
        };
        ticket
    }

    /// The picker closed: the update in flight is dropped.
    pub fn dismissed(&mut self)
        ensures
            final(self).pending is None,
            final(self).next_ticket == old(self).next_ticket,
            final(self).parent_path == old(self).parent_path,
            final(self).entries == old(self).entries,
            final(self).matches == old(self).matches,
            final(self).create_name == old(self).create_name,
            final(self).selected_index == old(self).selected_index,
            final(self).root == old(self).root,
            final(self).style == old(self).style,
    {
        self.pending = None;
    }

    /// The update with `ticket` listed `dir`: the listing is installed if
    /// that update is still awaited; a stale one changes nothing.
    pub fn set_listing(&mut self, ticket: u64, dir: String, entries: Vec<Entry>)
        ensures
            old(self).pending != Some(ticket) ==> *final(self) == *old(self),
            old(self).pending == Some(ticket) ==> {
                &&& final(self).parent_path == dir
                &&& final(self).entries == entries
                &&& final(self).matches == old(self).matches
                &&& final(self).create_name == old(self).create_name
                &&& final(self).selected_index == old(self).selected_index
                &&& final(self).root == old(self).root
                &&& final(self).style == old(self).style
                &&& final(self).pending == old(self).pending
                &&& final(self).next_ticket == old(self).next_ticket
            },
    {
        if self.pending != Some(ticket) {
            return;
        }
        self.parent_path = dir;
        self.entries = entries;
    }

    /// The update with `ticket` matched the typed `suffix`: if that update
    /// is still awaited, the matches are installed, the first row selected
    /// and the update is done. Creating a file named `suffix` is offered when
    /// it is not empty and no entry has exactly that name. A stale update
    /// changes nothing.
    pub fn set_matches(&mut self, ticket: u64, suffix: String, matches: Vec<Match>)
        ensures
            old(self).pending != Some(ticket) ==> *final(self) == *old(self),
            old(self).pending == Some(ticket) ==> {
                &&& final(self).matches == matches
                &&& final(self).selected_index == 0
                &&& final(self).entries == old(self).entries
                &&& final(self).parent_path == old(self).parent_path
                &&& final(self).root == old(self).root
                &&& final(self).style == old(self).style
                &&& final(self).pending is None
                &&& final(self).next_ticket == old(self).next_ticket
                &&& (suffix@.len() > 0 && forall|i: int|
                    0 <= i < old(self).entries.len() ==> #[trigger] old(self).entries@[i].name@
                        != suffix@) ==> final(self).create_name == Some(suffix)
                &&& !(suffix@.len() > 0 && forall|i: int|
                    0 <= i < old(self).entries.len() ==> #[trigger] old(self).entries@[i].name@
                        != suffix@) ==> final(self).create_name is None
            },
    {
        if self.pending != Some(ticket) {
            return;
        }
        let mut exact = false;
        let mut i: usize = 0;
        while i < self.entries.len()
            invariant
                i <= self.entries.len(),
                exact == exists|j: int| 0 <= j < i && #[trigger] self.entries@[j].name@ == suffix@,
            decreases self.entries.len() - i,
        {
            if self.entries[i].name == suffix {
                exact = true;
            }
            i = i + 1;
        }
        self.create_name = if !suffix.as_str().is_empty() && !exact {
            Some(suffix)
        } else {
            None
        };
        self.matches = matches;
        self.selected_index = 0;
        self.pending = None;
    }

    /// Confirming a directory row rewrites the query to descend into it
    /// rather than opening anything: the new query, if the selected row is a
    /// directory.
    pub fn confirm_update_query(&self) -> (r: Option<String>)
        ensures
            match self.selection_spec(self.selected_index as int) {
                Some((name, true, false)) => match self.directory_target_spec(name) {
                    Some(t) => r is Some && r->0@ == t,
                    None => r is None,
                },
                _ => r is None,
            },
    {
        match self.selection(self.selected_index) {
            Some(Selection::Existing { name, is_dir: true }) => self.directory_target(name.as_str()),
            _ => None,
        }
    }

    /// Tab completes the selected row into the query: a directory's target
    /// (or the query as is when there is none), a file's path relative to
    /// the root, or the query unchanged for the create row.
    pub fn confirm_completion(&self, query: String) -> (r: Option<String>)
        ensures
            match self.selection_spec(self.selected_index as int) {
                Some((name, true, false)) => r is Some && r->0@ == match self.directory_target_spec(
                    name,
                ) {
                    Some(t) => t,
                    None => query@,
                },
                Some((name, false, false)) => r is Some && r->0@ == self.parent_path@ + name,
                Some((_, _, true)) => r is Some && r->0@ == query@,
                None => r is None,
            },
    {
        match self.selection(self.selected_index) {
            Some(Selection::Existing { name, is_dir: true }) => {
                match self.directory_target(name.as_str()) {
                    Some(t) => Some(t),
                    None => Some(query),
                }
            },
            Some(Selection::Existing { name, is_dir: false }) => {
                let mut p = self.parent_path.clone();
                append_str(&mut p, name.as_str());
                Some(p)
            },
            Some(Selection::CreateNew { .. }) => Some(query),
            None => None,
        }
    }

    /// Enter on a file or create row: the absolute path to open, in a split
    /// for the secondary confirm. Directory rows (handled by
    /// `confirm_update_query`) and missing rows open nothing.
    pub fn confirm(&self, secondary: bool) -> (r: Option<OpenFile>)
        ensures
            match self.selection_spec(self.selected_index as int) {
                Some((name, is_dir, create)) => if is_dir && !create {
                    r is None
                } else {
                    r is Some && r->0.path@ == self.root@ + self.parent_path@ + name && r->0.split
                        == secondary
                },
                None => r is None,
            },
    {
        let name = match self.selection(self.selected_index) {
            Some(Selection::Existing { is_dir: true, .. }) => return None,
            None => return None,
            Some(Selection::Existing { name, .. }) => name,
            Some(Selection::CreateNew { name }) => name,
        };
        let mut path = self.root.clone();
        append_str(&mut path, self.parent_path.as_str());
        append_str(&mut path, name.as_str());
        Some(OpenFile { path, split: secondary })
    }

    /// How row `index` is drawn.
    pub fn row(&self, index: usize) -> (r: Option<Row>)
        ensures
            match self.selection_spec(index as int) {
                Some((name, is_dir, false)) => r matches Some(Row::Existing { name: n, is_dir: d, positions })
                    && n@ == name && d == is_dir && positions@ == if index < self.matches.len() {
                    self.matches@[index as int].positions@
                } else {
                    Seq::<usize>::empty()
                },
                Some((name, _, true)) => r matches Some(Row::CreateNew { label, highlight_len })
                    && label@ == name + " (create)"@ && highlight_len == (vstd::utf8::encode_utf8(name).len() as usize),
                None => r is None,
            },
    {
        match self.selection(index) {
            Some(Selection::Existing { name, is_dir }) => {
                let positions = if index < self.matches.len() {
                    self.matches[index].positions.clone()
                } else {
                    Vec::new()
                };
                Some(Row::Existing { name, is_dir, positions })
            },
            Some(Selection::CreateNew { name }) => {
                let highlight_len = name.as_str().len();
                let mut label = name;
                append_str(&mut label, " (create)");
                Some(Row::CreateNew { label, highlight_len })
            },
            None => None,
        }
    }
}

} // verus!
