//! The output of a shell command run, split into lines for rendering.
//!
//! Output arrives in chunks of whatever size the pipe delivers; the lines are
//! those of all the output received so far, however it was cut into chunks.
//! The text is split on `\n`. Each line is shown without its trailing
//! carriage returns (so `\r\n` line endings render cleanly), while every
//! other character, a carriage return in the middle of a line included, is
//! kept literally. Carriage returns at the end of the line still being written
//! are held back until the line ends (they are dropped) or more text follows
//! on it (they are shown). Only the newest `MAX_OUTPUT_LINES` finished lines
//! are kept.

use vstd::prelude::*;
use crate::text::{append_str, chars_of, push_char};

verus! {

/// How many finished lines a single run keeps. Older lines are dropped so a
/// chatty command can't grow without bound.
pub const MAX_OUTPUT_LINES: usize = 10_000;

/// The pieces of `s` between `\n` characters, as `str::split('\n')` yields
/// them: always at least one piece, and `k` newlines give `k + 1` pieces.
pub open spec fn split_newlines(s: Seq<char>) -> Seq<Seq<char>>
    decreases s.len(),
{
    if s.len() == 0 {
        seq![Seq::<char>::empty()]
    } else {
        let rest = split_newlines(s.drop_last());
        if s.last() == '\n' {
            rest.push(Seq::<char>::empty())
        } else {
            rest.update(rest.len() - 1, rest.last().push(s.last()))
        }
    }
}

/// `s` without its trailing carriage returns, as `trim_end_matches('\r')`
/// gives it.
pub open spec fn trim_cr(s: Seq<char>) -> Seq<char>
    decreases s.len(),
{
    if s.len() > 0 && s.last() == '\r' {
        trim_cr(s.drop_last())
    } else {
        s
    }
}

/// `n` carriage returns.
pub open spec fn crs(n: nat) -> Seq<char> {
    Seq::new(n, |i: int| '\r')
}

/// `s` does not end in a carriage return.
pub open spec fn no_trailing_cr(s: Seq<char>) -> bool {
    !(s.len() > 0 && s.last() == '\r')
}

/// The raw lines that result from appending `chunk` to a line whose text so
/// far is `unfinished`: the first piece of the chunk continues that line and
/// each later piece starts a new one. All but the last of these lines are
/// finished; the last one is the new unfinished line.
pub open spec fn joined_lines(unfinished: Seq<char>, chunk: Seq<char>) -> Seq<Seq<char>> {
    let pieces = split_newlines(chunk);
    seq![unfinished + pieces[0]] + pieces.skip(1)
}

/// Raw lines as they are shown: without their trailing carriage returns.
pub open spec fn shown(lines: Seq<Seq<char>>) -> Seq<Seq<char>> {
    lines.map_values(|l: Seq<char>| trim_cr(l))
}

/// The last `n` elements of `s` (all of `s` if it is shorter).
pub open spec fn keep_last<A>(s: Seq<A>, n: nat) -> Seq<A> {
    if s.len() > n {
        s.skip(s.len() - n)
    } else {
        s
    }
}

/// The finished lines after a chunk is pushed onto finished lines `complete`
/// and the unfinished line `unfinished`.
pub open spec fn pushed_complete(complete: Seq<Seq<char>>, unfinished: Seq<char>, chunk: Seq<char>) -> Seq<Seq<char>> {
    keep_last(complete + shown(joined_lines(unfinished, chunk).drop_last()), MAX_OUTPUT_LINES as nat)
}

/// The unfinished line, trailing carriage returns included, after a chunk is
/// pushed onto `unfinished`.
pub open spec fn pushed_unfinished(unfinished: Seq<char>, chunk: Seq<char>) -> Seq<char> {
    joined_lines(unfinished, chunk).last()
}

/// The lines shown for finished lines `complete` and the line in progress
/// `partial`: the line in progress is shown once it holds any text.
pub open spec fn shown_lines(complete: Seq<Seq<char>>, partial: Seq<char>) -> Seq<Seq<char>> {
    if partial.len() == 0 {
        complete
    } else {
        complete.push(partial)
    }
}

/// The views of a vector of strings.
pub open spec fn strings_view(v: Seq<String>) -> Seq<Seq<char>> {
    v.map_values(|s: String| s@)
}

proof fn lemma_split_newlines_nonempty(s: Seq<char>)
    ensures
        split_newlines(s).len() >= 1,
    decreases s.len(),
{
    if s.len() > 0 {
        lemma_split_newlines_nonempty(s.drop_last());
    }
}

proof fn lemma_split_push(s: Seq<char>, c: char)
    ensures
        split_newlines(s).len() >= 1,
        c == '\n' ==> split_newlines(s.push(c)) == split_newlines(s).push(Seq::<char>::empty()),
        c != '\n' ==> split_newlines(s.push(c)) == split_newlines(s).update(
            split_newlines(s).len() - 1,
            split_newlines(s).last().push(c),
        ),
{
    lemma_split_newlines_nonempty(s);
    assert(s.push(c).drop_last() =~= s);
}

proof fn lemma_trim_cr_has_no_trailing_cr(s: Seq<char>)
    ensures
        no_trailing_cr(trim_cr(s)),
    decreases s.len(),
{
    if s.len() > 0 && s.last() == '\r' {
        lemma_trim_cr_has_no_trailing_cr(s.drop_last());
    }
}

/// Trailing carriage returns after a line that has none are what trimming
/// removes.
proof fn lemma_trim_cr_crs(x: Seq<char>, n: nat)
    requires
        no_trailing_cr(x),
    ensures
        trim_cr(x + crs(n)) == x,
    decreases n,
{
    if n == 0 {
        assert(x + crs(0) =~= x);
    } else {
        let n1 = (n - 1) as nat;
        assert((x + crs(n)).drop_last() =~= x + crs(n1));
        assert((x + crs(n)).last() == '\r');
        lemma_trim_cr_crs(x, n1);
    }
}

proof fn lemma_joined_nonempty(unfinished: Seq<char>, chunk: Seq<char>)
    ensures
        joined_lines(unfinished, chunk).len() == split_newlines(chunk).len(),
        joined_lines(unfinished, chunk).len() >= 1,
{
    lemma_split_newlines_nonempty(chunk);
}

/// The effect of one more character of a chunk on its raw lines: a newline
/// starts an empty line, any other character extends the last one.
proof fn lemma_joined_push(u: Seq<char>, s: Seq<char>, c: char)
    ensures
        joined_lines(u, s).len() >= 1,
        c == '\n' ==> joined_lines(u, s.push(c)) == joined_lines(u, s).push(Seq::<char>::empty()),
        c != '\n' ==> joined_lines(u, s.push(c)) == joined_lines(u, s).drop_last().push(
            joined_lines(u, s).last().push(c),
        ),
{
    lemma_split_push(s, c);
    lemma_joined_nonempty(u, s);
    let p = split_newlines(s);
    let q = split_newlines(s.push(c));
    let j = joined_lines(u, s);
    let k = joined_lines(u, s.push(c));
    if c == '\n' {
        assert(q.skip(1) =~= p.skip(1).push(Seq::<char>::empty()));
        assert(k =~= j.push(Seq::<char>::empty()));
    } else if p.len() == 1 {
        assert(q.skip(1) =~= p.skip(1));
        assert(u + p[0].push(c) =~= (u + p[0]).push(c));
        assert(k =~= j.drop_last().push(j.last().push(c)));
    } else {
        assert(q[0] == p[0]);
        assert(q.skip(1) =~= p.skip(1).update(p.len() - 2, p.last().push(c)));
        assert(k =~= j.drop_last().push(j.last().push(c)));
    }
}

proof fn lemma_split_concat(a: Seq<char>, b: Seq<char>)
    ensures
        split_newlines(a + b) == split_newlines(a).drop_last() + seq![
            split_newlines(a).last() + split_newlines(b)[0],
        ] + split_newlines(b).skip(1),
    decreases b.len(),
{
    lemma_split_newlines_nonempty(a);
    if b.len() == 0 {
        assert(a + b =~= a);
        assert(split_newlines(b) =~= seq![Seq::<char>::empty()]);
        assert(split_newlines(a).last() + Seq::<char>::empty() =~= split_newlines(a).last());
        assert(split_newlines(a).drop_last() + seq![split_newlines(a).last()] =~= split_newlines(a));
    } else {
        let b0 = b.drop_last();
        let c = b.last();
        lemma_split_concat(a, b0);
        assert(b0.push(c) =~= b);
        assert((a + b0).push(c) =~= a + b);
        lemma_split_push(a + b0, c);
        lemma_split_push(b0, c);
        let sa = split_newlines(a);
        let sb0 = split_newlines(b0);
        let sb = split_newlines(b);
        let lhs = split_newlines(a + b);
        let rhs = sa.drop_last() + seq![sa.last() + sb[0]] + sb.skip(1);
        if c == '\n' {
            assert(sb.skip(1) =~= sb0.skip(1).push(Seq::<char>::empty()));
            assert(lhs =~= rhs);
        } else if sb0.len() == 1 {
            assert(sb[0] == sb0[0].push(c));
            assert(sa.last() + sb0[0].push(c) =~= (sa.last() + sb0[0]).push(c));
            assert(sb.skip(1) =~= sb0.skip(1));
            assert(lhs =~= rhs);
        } else {
            assert(sb[0] == sb0[0]);
            assert(sb.skip(1) =~= sb0.skip(1).update(sb0.len() - 2, sb0.last().push(c)));
            assert(lhs =~= rhs);
        }
    }
}

/// Appending `a + b` to an unfinished line gives the raw lines that appending
/// `a` and then `b` gives.
proof fn lemma_joined_concat(u: Seq<char>, a: Seq<char>, b: Seq<char>)
    ensures
        joined_lines(u, a).len() >= 1,
        joined_lines(u, a + b) == joined_lines(u, a).drop_last() + joined_lines(
            joined_lines(u, a).last(),
            b,
        ),
{
    lemma_split_concat(a, b);
    lemma_split_newlines_nonempty(a);
    lemma_split_newlines_nonempty(b);
    let sa = split_newlines(a);
    let sb = split_newlines(b);
    let sc = split_newlines(a + b);
    let ja = joined_lines(u, a);
    let lhs = joined_lines(u, a + b);
    let rhs = ja.drop_last() + joined_lines(ja.last(), b);
    if sa.len() == 1 {
        assert(sc[0] == sa[0] + sb[0]);
        assert(sc.skip(1) =~= sb.skip(1));
        assert(ja.last() == u + sa[0]);
        assert(u + (sa[0] + sb[0]) =~= u + sa[0] + sb[0]);
        assert(lhs =~= rhs);
    } else {
        assert(sc[0] == sa[0]);
        assert(sc.skip(1) =~= sa.skip(1).drop_last() + seq![sa.last() + sb[0]] + sb.skip(1));
        assert(ja.last() == sa.skip(1)[sa.len() - 2]);
        assert(sa.skip(1)[sa.len() - 2] == sa.last());
        assert(ja.drop_last() =~= seq![u + sa[0]] + sa.skip(1).drop_last());
        assert(lhs =~= rhs);
    }
}

proof fn lemma_keep_last_twice<A>(x: Seq<A>, y: Seq<A>, n: nat)
    ensures
        keep_last(keep_last(x, n) + y, n) == keep_last(x + y, n),
{
    if x.len() > n {
        let kx = x.skip(x.len() - n);
        if (x + y).len() > n {
            assert(keep_last(kx + y, n) =~= keep_last(x + y, n));
        }
    }
}

/// Output does not depend on how it was cut into chunks: pushing `a` and then
/// `b` leaves the same finished lines and unfinished line as pushing `a + b`
/// at once.
pub proof fn lemma_push_is_chunking_independent(
    complete: Seq<Seq<char>>,
    unfinished: Seq<char>,
    a: Seq<char>,
    b: Seq<char>,
)
    ensures
        pushed_complete(pushed_complete(complete, unfinished, a), pushed_unfinished(unfinished, a), b)
            == pushed_complete(complete, unfinished, a + b),
        pushed_unfinished(pushed_unfinished(unfinished, a), b) == pushed_unfinished(unfinished, a + b),
{
    lemma_joined_concat(unfinished, a, b);
    let ja = joined_lines(unfinished, a);
    let jb = joined_lines(ja.last(), b);
    lemma_joined_nonempty(ja.last(), b);
    let n = MAX_OUTPUT_LINES as nat;
    lemma_keep_last_twice(complete + shown(ja.drop_last()), shown(jb.drop_last()), n);
    assert((ja.drop_last() + jb).drop_last() =~= ja.drop_last() + jb.drop_last());
    assert(shown(ja.drop_last() + jb.drop_last()) =~= shown(ja.drop_last()) + shown(jb.drop_last()));
    assert(complete + shown(ja.drop_last()) + shown(jb.drop_last()) =~= complete + shown(
        (ja.drop_last() + jb).drop_last(),
    ));
    assert((ja.drop_last() + jb).last() == jb.last());
}

/// No finished line ends in a carriage return.
pub proof fn lemma_pushed_lines_have_no_trailing_cr(
    complete: Seq<Seq<char>>,
    unfinished: Seq<char>,
    chunk: Seq<char>,
)
    requires
        forall|i: int| 0 <= i < complete.len() ==> no_trailing_cr(#[trigger] complete[i]),
    ensures
        forall|i: int|
            0 <= i < pushed_complete(complete, unfinished, chunk).len() ==> no_trailing_cr(
                #[trigger] pushed_complete(complete, unfinished, chunk)[i],
            ),
{
    let j = shown(joined_lines(unfinished, chunk).drop_last());
    let all = complete + j;
    assert forall|i: int| 0 <= i < all.len() implies no_trailing_cr(#[trigger] all[i]) by {
        if i >= complete.len() {
            assert(all[i] == j[i - complete.len()]);
            lemma_trim_cr_has_no_trailing_cr(joined_lines(unfinished, chunk).drop_last()[i - complete.len()]);
        }
    }
    let n = MAX_OUTPUT_LINES as nat;
    let kept = keep_last(all, n);
    assert forall|i: int| 0 <= i < kept.len() implies no_trailing_cr(#[trigger] kept[i]) by {
        if all.len() > n {
            assert(kept[i] == all[i + (all.len() - n)]);
        }
    }
}

/// Finished lines and the line in progress of one run's output.
pub struct OutputLines {
    complete: Vec<String>,
    /// The line in progress, up to its trailing carriage returns.
    partial: String,
    /// The carriage returns that end the line in progress so far.
    held: String,
}

impl OutputLines {
    #[verifier::type_invariant]
    spec fn bounded(&self) -> bool {
        &&& self.complete.len() <= MAX_OUTPUT_LINES
        &&& forall|i: int|
            0 <= i < self.complete.len() ==> no_trailing_cr(#[trigger] self.complete@[i]@)
        &&& no_trailing_cr(self.partial@)
        &&& self.held@ == crs(self.held@.len())
    }

    /// The finished lines, oldest first.
    pub closed spec fn complete_view(&self) -> Seq<Seq<char>> {
        strings_view(self.complete@)
    }

    /// The line still being written, trailing carriage returns included.
    pub closed spec fn unfinished_view(&self) -> Seq<char> {
        self.partial@ + self.held@
    }

    /// The line still being written, as it is shown.
    pub open spec fn partial_view(&self) -> Seq<char> {
        trim_cr(self.unfinished_view())
    }

    /// The lines as shown: the finished ones, then the line in progress if it
    /// holds any text.
    pub open spec fn lines(&self) -> Seq<Seq<char>> {
        shown_lines(self.complete_view(), self.partial_view())
    }

    /// Output with no lines.
    pub fn new() -> (r: Self)
        ensures
            r.complete_view() == Seq::<Seq<char>>::empty(),
            r.unfinished_view() == Seq::<char>::empty(),
            r.partial_view() == Seq::<char>::empty(),
            r.lines() == Seq::<Seq<char>>::empty(),
    {
        proof {
            assert(crs(0) =~= Seq::<char>::empty());
        }
        let r = OutputLines { complete: Vec::new(), partial: String::new(), held: String::new() };
        assert(r.complete_view() =~= Seq::<Seq<char>>::empty());
        assert(r.unfinished_view() =~= Seq::<char>::empty());
        r
    }

    /// Appends a chunk of output. See the module documentation for how it is
    /// split into lines.
    pub fn push(&mut self, chunk: &str)
        ensures
            final(self).complete_view() == pushed_complete(
                old(self).complete_view(),
                old(self).unfinished_view(),
                chunk@,
            ),
            final(self).unfinished_view() == pushed_unfinished(old(self).unfinished_view(), chunk@),
            final(self).complete_view().len() <= MAX_OUTPUT_LINES,
    {
        proof {
            use_type_invariant(&*self);
        }
        let ghost old_complete = self.complete_view();
        let ghost old_u = self.unfinished_view();
        assert forall|i: int| 0 <= i < old_complete.len() implies no_trailing_cr(
            #[trigger] old_complete[i],
        ) by {
            assert(old_complete[i] == self.complete@[i]@);
        }
        let mut complete: Vec<String> = Vec::new();
        let mut partial = String::new();
        let mut held = String::new();
        proof {
            assert(crs(0) =~= Seq::<char>::empty());
        }
        std::mem::swap(&mut complete, &mut self.complete);
        std::mem::swap(&mut partial, &mut self.partial);
        std::mem::swap(&mut held, &mut self.held);
        proof {
            assert(split_newlines(Seq::<char>::empty()) =~= seq![Seq::<char>::empty()]);
            assert(joined_lines(old_u, Seq::<char>::empty()) =~= seq![old_u]);
            assert(shown(joined_lines(old_u, Seq::<char>::empty()).drop_last())
                =~= Seq::<Seq<char>>::empty());
            assert(old_complete + Seq::<Seq<char>>::empty() =~= old_complete);
        }
        let chars = chars_of(chunk);
        let mut i: usize = 0;
        while i < chars.len()
            invariant
                chars@ == chunk@,
                i <= chars.len(),
                strings_view(complete@) == old_complete + shown(
                    joined_lines(old_u, chars@.take(i as int)).drop_last(),
                ),
                partial@ + held@ == joined_lines(old_u, chars@.take(i as int)).last(),
                no_trailing_cr(partial@),
                held@ == crs(held@.len()),
            decreases chars.len() - i,
        {
            let c = chars[i];
            let ghost done = chars@.take(i as int);
            let ghost j = joined_lines(old_u, done);
            proof {
                assert(chars@.take(i + 1) =~= done.push(c));
                lemma_joined_push(old_u, done, c);
            }
            if c == '\n' {
                let ghost prev = complete@;
                let mut line = String::new();
                std::mem::swap(&mut line, &mut partial);
                proof {
                    lemma_trim_cr_crs(line@, held@.len());
                }
                complete.push(line);
                held = String::new();
                proof {
                    assert(strings_view(complete@) =~= strings_view(prev).push(line@));
                    assert(j.push(Seq::<char>::empty()).drop_last() =~= j);
                    assert(j.drop_last().push(j.last()) =~= j);
                    assert(shown(j) =~= shown(j.drop_last()).push(trim_cr(j.last())));
                    assert(strings_view(complete@) =~= old_complete + shown(j));
                    assert(partial@ + held@ =~= Seq::<char>::empty());
                    assert(held@ =~= crs(0));
                }
            } else if c == '\r' {
                let ghost k = held@.len();
                push_char(&mut held, '\r');
                proof {
                    assert(held@ =~= crs(k + 1));
                    assert(partial@ + held@ =~= j.last().push('\r'));
                    assert(j.drop_last().push(j.last().push('\r')).drop_last() =~= j.drop_last());
                }
            } else {
                let ghost before = partial@ + held@;
                append_str(&mut partial, held.as_str());
                push_char(&mut partial, c);
                held = String::new();
                proof {
                    assert(partial@ + held@ =~= before.push(c));
                    assert(held@ =~= crs(0));
                    assert(j.drop_last().push(j.last().push(c)).drop_last() =~= j.drop_last());
                }
            }
            i = i + 1;
        }
        proof {
            assert(chars@.take(i as int) =~= chunk@);
        }
        if complete.len() > MAX_OUTPUT_LINES {
            let at = complete.len() - MAX_OUTPUT_LINES;
            let tail = complete.split_off(at);
            proof {
                assert(strings_view(tail@) =~= strings_view(complete@ + tail@).skip(at as int));
            }
            complete = tail;
        }
        proof {
            lemma_pushed_lines_have_no_trailing_cr(old_complete, old_u, chunk@);
            assert(strings_view(complete@) == pushed_complete(old_complete, old_u, chunk@));
            let pc = pushed_complete(old_complete, old_u, chunk@);
            assert forall|i: int| 0 <= i < complete.len() implies no_trailing_cr(
                #[trigger] complete@[i]@,
            ) by {
                assert(complete@[i]@ == strings_view(complete@)[i]);
                assert(no_trailing_cr(pc[i]));
            }
        }
        self.complete = complete;
        self.partial = partial;
        self.held = held;
    }

    /// The number of lines shown.
    pub fn len(&self) -> (r: usize)
        ensures
            r == self.lines().len(),
    {
        proof {
            use_type_invariant(self);
            lemma_trim_cr_crs(self.partial@, self.held@.len());
        }
        self.complete.len() + if self.partial.as_str().is_empty() {
            0
        } else {
            1
        }
    }

    /// The line shown at `ix`, if there is one.
    pub fn line(&self, ix: usize) -> (r: Option<String>)
        ensures
            ix < self.lines().len() ==> r is Some && r->0@ == self.lines()[ix as int],
            ix >= self.lines().len() ==> r is None,
            r matches Some(l) ==> no_trailing_cr(l@),
    {
        proof {
            use_type_invariant(self);
            lemma_trim_cr_crs(self.partial@, self.held@.len());
        }
        if ix < self.complete.len() {
            Some(self.complete[ix].clone())
        } else if ix == self.complete.len() && !self.partial.as_str().is_empty() {
            Some(self.partial.clone())
        } else {
            None
        }
    }
}

impl Default for OutputLines {
    fn default() -> (r: Self)
        ensures
            r.complete_view() == Seq::<Seq<char>>::empty(),
            r.unfinished_view() == Seq::<char>::empty(),
            r.partial_view() == Seq::<char>::empty(),
    {
        OutputLines::new()
    }
}

} // verus!
