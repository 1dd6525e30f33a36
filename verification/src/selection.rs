//! The capture window: where in the text a capture began and where it ends.

use crate::text::char_count;
use crate::text::text_eq;
use vstd::prelude::*;
use vstd::string::StrSliceExecFns;

verus! {

/// Where a capture begins and ends. Every text held here is a suffix of the
/// buffer being parsed, so a position is known by the text that follows it.
#[derive(Clone, Copy, Debug)]
pub enum Selection<'a> {
    /// No capture was started. The window opens where the cursor stood
    /// before its latest move and closes at the cursor.
    Defaulted(&'a str),
    /// A capture was started at the first text. It closes at the second, or
    /// at the cursor while the second is unset.
    Start(&'a str, Option<&'a str>),
}

/// A capture window over plain text.
pub enum SelectionView {
    Defaulted(Seq<char>),
    Start(Seq<char>, Option<Seq<char>>),
}

impl<'a> View for Selection<'a> {
    type V = SelectionView;

    open spec fn view(&self) -> SelectionView {
        match *self {
            Selection::Defaulted(anchor) => SelectionView::Defaulted(anchor@),
            Selection::Start(begin, Some(end)) => SelectionView::Start(begin@, Some(end@)),
            Selection::Start(begin, None) => SelectionView::Start(begin@, None),
        }
    }
}

/// The text between two positions of one buffer: what stands at the front
/// of `begin` and is no longer part of `end`. Where `end` is not the shorter
/// of the two, nothing lies between them.
pub open spec fn between(begin: Seq<char>, end: Seq<char>) -> Seq<char> {
    if end.len() <= begin.len() {
        begin.subrange(0, begin.len() - end.len())
    } else {
        Seq::empty()
    }
}

impl SelectionView {
    /// The text at which the window opens.
    pub open spec fn begin(self) -> Seq<char> {
        match self {
            SelectionView::Defaulted(anchor) => anchor,
            SelectionView::Start(begin, _) => begin,
        }
    }

    /// The text at which the window closes, for a cursor that stands at `cur`.
    pub open spec fn end(self, cur: Seq<char>) -> Seq<char> {
        match self {
            SelectionView::Start(_, Some(end)) => end,
            _ => cur,
        }
    }

    /// The window after the cursor has moved from `from`: a started capture
    /// keeps its ends, and a defaulted one opens where the cursor stood.
    pub open spec fn moved(self, from: Seq<char>) -> SelectionView {
        match self {
            SelectionView::Defaulted(_) => SelectionView::Defaulted(from),
            SelectionView::Start(begin, end) => SelectionView::Start(begin, end),
        }
    }

    /// A fresh window that opens at `cur`.
    pub open spec fn started(cur: Seq<char>) -> SelectionView {
        SelectionView::Start(cur, None)
    }

    /// The window closed at `cur`, its opening kept.
    pub open spec fn ended(self, cur: Seq<char>) -> SelectionView {
        SelectionView::Start(self.begin(), Some(cur))
    }

    /// The captured text for a cursor that stands at `cur`.
    pub open spec fn captured(self, cur: Seq<char>) -> Seq<char> {
        between(self.begin(), self.end(cur))
    }
}

impl<'a> Selection<'a> {
    /// The text at which the window opens.
    pub fn start(&self) -> (begin: &'a str)
        ensures
            begin@ == self@.begin(),
    {
        match self {
            Selection::Defaulted(anchor) => *anchor,
            Selection::Start(begin, _) => *begin,
        }
    }

    /// Both ends of the window, for a cursor that stands at `cur`.
    pub fn selection(&self, cur: &'a str) -> (ends: (&'a str, &'a str))
        ensures
            ends.0@ == self@.begin(),
            ends.1@ == self@.end(cur@),
    {
        match self {
            Selection::Defaulted(anchor) => (*anchor, cur),
            Selection::Start(begin, Some(end)) => (*begin, *end),
            Selection::Start(begin, None) => (*begin, cur),
        }
    }

    /// Follows the cursor as it moves away from `from`.
    pub fn move_cursor(self, from: &'a str) -> (moved: Selection<'a>)
        ensures
            moved@ == self@.moved(from@),
    {
        match self {
            Selection::Defaulted(_) => Selection::Defaulted(from),
            Selection::Start(begin, end) => Selection::Start(begin, end),
        }
    }

    /// The captured text for a cursor that stands at `cur`.
    pub fn capture(&self, cur: &'a str) -> (text: &'a str)
        ensures
            text@ == self@.captured(cur@),
    {
        let (begin, end) = self.selection(cur);
        let whole = char_count(begin);
        let rest = char_count(end);
        if rest <= whole {
            begin.substring_char(0, whole - rest)
        } else {
            begin.substring_char(0, 0)
        }
    }

    /// Whether two windows hold the same texts.
    pub fn same(&self, other: &Selection<'a>) -> (eq: bool)
        ensures
            eq == (self@ == other@),
    {
        match (self, other) {
            (Selection::Defaulted(a), Selection::Defaulted(b)) => text_eq(a, b),
            (Selection::Start(a, None), Selection::Start(b, None)) => text_eq(a, b),
            (Selection::Start(a, Some(x)), Selection::Start(b, Some(y))) => text_eq(a, b)
                && text_eq(x, y),
            _ => false,
        }
    }
}

} // verus!
