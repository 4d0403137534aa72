//! The tail of what a server process wrote to its standard error: a side
//! channel for diagnostics, no part of the protocol.

use std::collections::VecDeque;
use vstd::prelude::*;
use vstd::string::StringExecFns;
use crate::text::{joined_lines, texts};

verus! {

/// How many lines of standard error are kept where no number is asked for.
pub const DEFAULT_TAIL_LINES: usize = 100;

/// The lines that a tail of the given limit keeps of all lines written:
/// the last `limit` of them, or all where there are fewer. A limit of zero
/// keeps none.
pub open spec fn kept(lines: Seq<Seq<char>>, limit: nat) -> Seq<Seq<char>> {
    if lines.len() <= limit {
        lines
    } else {
        lines.skip(lines.len() - limit)
    }
}

/// The last lines of a stream, up to a limit.
#[derive(Debug, PartialEq, Eq)]
pub struct TailBuffer {
    limit: usize,
    lines: VecDeque<String>,
}

/// A `TailBuffer` as a mathematical value.
pub struct TailModel {
    /// How many lines are kept at most.
    pub limit: nat,
    /// The lines kept, oldest first.
    pub lines: Seq<Seq<char>>,
}

impl View for TailBuffer {
    type V = TailModel;

    closed spec fn view(&self) -> TailModel {
        TailModel { limit: self.limit as nat, lines: texts(self.lines@) }
    }
}

impl TailBuffer {
    /// An empty tail that keeps `limit` lines.
    pub fn new(limit: usize) -> (tail: TailBuffer)
        ensures
            tail@ == (TailModel { limit: limit as nat, lines: Seq::empty() }),
    {
        let tail = TailBuffer { limit, lines: VecDeque::new() };
        assert(texts(tail.lines@) =~= Seq::<Seq<char>>::empty());
        tail
    }

    /// Takes one more line: the tail then holds what it keeps of the lines
    /// it held and the new one, which is never more than its limit. Where
    /// it is full, the oldest line goes; a tail of limit zero keeps nothing.
    pub fn push(&mut self, line: String)
        ensures
            final(self)@.limit == old(self)@.limit,
            final(self)@.lines == kept(old(self)@.lines.push(line@), old(self)@.limit),
            final(self)@.lines.len() <= final(self)@.limit,
    {
        let ghost all = old(self)@.lines.push(line@);
        self.lines.push_back(line);
        assert(self@.lines =~= all.skip(0));
        while self.lines.len() > self.limit
            invariant
                self.limit == old(self).limit,
                self.lines@.len() <= all.len(),
                self.lines@.len() >= self.limit || self.lines@.len() == all.len(),
                self@.lines == all.skip(all.len() - self.lines@.len()),
            decreases self.lines@.len(),
        {
            let ghost before = self@.lines;
            let oldest = self.lines.pop_front();
            assert(self@.lines =~= before.skip(1));
            assert(self@.lines =~= all.skip(all.len() - self.lines@.len()));
        }
    }

    /// The lines kept, as one text with a line feed between lines.
    pub fn text(&self) -> (text: String)
        ensures
            text@ == joined_lines(self@.lines, self@.lines.len()),
    {
        let mut text = String::new();
        let mut i: usize = 0;
        while i < self.lines.len()
            invariant
                i <= self.lines.len(),
                text@ == joined_lines(self@.lines, i as nat),
            decreases self.lines.len() - i,
        {
            if i > 0 {
                text.append("\n");
            }
            text.append(self.lines[i].as_str());
            assert(text@ =~= joined_lines(self@.lines, (i + 1) as nat));
            i += 1;
        }
        text
    }
}

/// Taking a line into a tail that holds what it keeps of some lines gives
/// what it keeps of those lines and the new one.
pub proof fn lemma_kept_grows(lines: Seq<Seq<char>>, limit: nat, line: Seq<char>)
    ensures
        kept(kept(lines, limit).push(line), limit) == kept(lines.push(line), limit),
{
    assert(kept(kept(lines, limit).push(line), limit) =~= kept(lines.push(line), limit));
}

/// A tail is bounded: it keeps the last lines, as many as its limit and no
/// more, and none where the limit is zero.
pub proof fn lemma_kept_is_bounded(lines: Seq<Seq<char>>, limit: nat)
    ensures
        kept(lines, limit).len() == if lines.len() <= limit {
            lines.len()
        } else {
            limit
        },
        forall|i: int|
            0 <= i < kept(lines, limit).len() ==> #[trigger] kept(lines, limit)[i] == lines[lines.len()
                - kept(lines, limit).len() + i],
        limit == 0 ==> kept(lines, limit) == Seq::<Seq<char>>::empty(),
{
    if limit == 0 {
        assert(kept(lines, limit) =~= Seq::<Seq<char>>::empty());
    }
}

/// The tail of some lines as one text: the last `tail_lines` of them, or
/// the last hundred where no number is given, with a line feed between
/// lines.
pub open spec fn tail_of(lines: Seq<Seq<char>>, tail_lines: Option<usize>) -> Seq<char> {
    let limit = match tail_lines {
        Some(n) => n as nat,
        None => 100,
    };
    joined_lines(kept(lines, limit), kept(lines, limit).len())
}

/// The last lines of standard error as one text: of all `lines` the last
/// `tail_lines`, or the last hundred where no number is given, with a line
/// feed between lines.
pub fn tail_text(lines: &Vec<String>, tail_lines: Option<usize>) -> (text: String)
    ensures
        text@ == tail_of(texts(lines@), tail_lines),
{
    let limit = match tail_lines {
        Some(n) => n,
        None => DEFAULT_TAIL_LINES,
    };
    let mut tail = TailBuffer::new(limit);
    let mut i: usize = 0;
    assert(texts(lines@).take(0) =~= Seq::<Seq<char>>::empty());
    while i < lines.len()
        invariant
            i <= lines.len(),
            tail@.limit == limit,
            tail@.lines == kept(texts(lines@).take(i as int), limit as nat),
        decreases lines.len() - i,
    {
        proof {
            lemma_kept_grows(texts(lines@).take(i as int), limit as nat, lines@[i as int]@);
            assert(texts(lines@).take(i as int).push(lines@[i as int]@) =~= texts(lines@).take(
                i + 1,
            ));
        }
        tail.push(lines[i].clone());
        i += 1;
    }
    assert(texts(lines@).take(i as int) =~= texts(lines@));
    tail.text()
}

} // verus!
