//! The state of a parse as plain values, and the transitions that the
//! combinators make on it.

use crate::bounds::Bounds;
use crate::error::ErrorView;
use crate::selection::SelectionView;
use crate::text::outside_of;
use crate::text::run_len;
use vstd::prelude::*;

verus! {

/// The parse state as plain values: the capture window, then either the
/// text that is still to be read or the error that stopped the parse, and a
/// label for diagnostics.
pub struct CursorView {
    pub selection: SelectionView,
    pub state: Result<Seq<char>, ErrorView>,
    pub context: Seq<char>,
}

impl CursorView {
    /// The state of a cursor that was just made from the text `s`.
    pub open spec fn fresh(s: Seq<char>) -> CursorView {
        CursorView { selection: SelectionView::Defaulted(s), state: Ok(s), context: ""@ }
    }

    /// Whether an error is stored: every combinator then leaves the state
    /// as it is.
    pub open spec fn failing(self) -> bool {
        self.state is Err
    }

    /// The text that is still to be read, or the failure that reading the
    /// text of a failing cursor gives.
    pub open spec fn text(self) -> Result<Seq<char>, ErrorView> {
        match self.state {
            Ok(s) => Ok(s),
            Err(_) => Err(ErrorView::no_match("str on erroring cursor"@)),
        }
    }

    /// The state after the remaining text was replaced by `s`.
    pub open spec fn moved(self, s: Seq<char>) -> CursorView {
        match self.state {
            Ok(from) => CursorView {
                selection: self.selection.moved(from),
                state: Ok(s),
                context: self.context,
            },
            Err(_) => self,
        }
    }

    /// The state after the first `n` characters of the remaining text were
    /// consumed.
    pub open spec fn advanced(self, n: int) -> CursorView {
        match self.state {
            Ok(from) => self.moved(from.skip(n)),
            Err(_) => self,
        }
    }

    /// The state after the error `e` was stored.
    pub open spec fn failed(self, e: ErrorView) -> CursorView {
        CursorView { selection: self.selection, state: Err(e), context: self.context }
    }

    /// The state after a capture was started at the cursor.
    pub open spec fn started(self) -> CursorView {
        match self.state {
            Ok(cur) => CursorView {
                selection: SelectionView::started(cur),
                state: self.state,
                context: self.context,
            },
            Err(_) => self,
        }
    }

    /// The state after the capture was closed at the cursor.
    pub open spec fn ended(self) -> CursorView {
        match self.state {
            Ok(cur) => CursorView {
                selection: self.selection.ended(cur),
                state: self.state,
                context: self.context,
            },
            Err(_) => self,
        }
    }

    /// The captured text, or the failure that reading the capture of a
    /// failing cursor gives.
    pub open spec fn captured(self) -> Result<Seq<char>, ErrorView> {
        match self.state {
            Ok(cur) => Ok(self.selection.captured(cur)),
            Err(_) => Err(ErrorView::no_match("str on erroring cursor"@)),
        }
    }

    /// The state after one step of a literal or structural matcher: a
    /// failing cursor stays as it is; otherwise the cursor moves to the text
    /// that the transform `f` gives for the remaining text, or fails under
    /// the label `msg` where `f` gives none.
    pub open spec fn step(
        self,
        f: spec_fn(Seq<char>) -> Option<Seq<char>>,
        msg: Seq<char>,
    ) -> CursorView {
        match self.state {
            Ok(s) => applied(self, f(s), msg),
            Err(_) => self,
        }
    }

    /// The state after a run of `n` characters was held against `range`: a
    /// failing cursor stays as it is; otherwise the cursor passes the run
    /// where `range` accepts its length, and fails under the label `action`
    /// where it does not.
    pub open spec fn scanned(self, range: Bounds, n: int, action: Seq<char>) -> CursorView {
        match self.state {
            Ok(s) => if accepts(range, n, n < s.len()) {
                self.advanced(n)
            } else {
                self.failed(ErrorView::no_match(action))
            },
            Err(_) => self,
        }
    }

    /// The state after a matcher of the character class `class` ran with the
    /// accepted lengths `range`.
    pub open spec fn scanned_class(
        self,
        range: Bounds,
        class: spec_fn(char) -> bool,
        action: Seq<char>,
    ) -> CursorView {
        match self.state {
            Ok(s) => self.scanned(range, run_len(s, outside_of(class)) as int, action),
            Err(_) => self,
        }
    }

    /// The state in which `select` leaves the cursor that its sub-parser
    /// handed back: the capture closed at the cursor on success, a fatal
    /// error kept, and any other error replaced by the failure of `select`
    /// itself.
    pub open spec fn selected(self) -> CursorView {
        match self.state {
            Ok(cur) => self.moved(cur).ended(),
            Err(ErrorView::Fatal(_)) => self,
            Err(_) => self.failed(ErrorView::no_match("select_with"@)),
        }
    }

    /// The state of a copy of the cursor: all is kept but the cause of a
    /// fatal error.
    pub open spec fn copied(self) -> CursorView {
        CursorView {
            selection: self.selection,
            state: match self.state {
                Ok(s) => Ok(s),
                Err(e) => Err(e.without_cause()),
            },
            context: self.context,
        }
    }

    /// The state under the diagnostic label `name`.
    pub open spec fn labelled(self, name: Seq<char>) -> CursorView {
        CursorView { selection: self.selection, state: self.state, context: name }
    }
}

/// How much of a parse is still ahead of a cursor: nothing once it fails,
/// and more the longer its remaining text is.
pub open spec fn ahead(c: CursorView) -> nat {
    match c.state {
        Ok(s) => s.len() + 1,
        Err(_) => 0,
    }
}

/// The greatest number of rounds that `repeat` makes for `range`: its upper
/// end, none where that is negative, and the greatest `i32` where the range
/// has no upper end.
pub open spec fn round_cap(range: Bounds) -> int {
    match range.hi() {
        Some(hi) => if hi < 0 {
            0
        } else {
            hi
        },
        None => i32::MAX as int,
    }
}

/// Whether a range can accept no length at all: its upper end is negative.
pub open spec fn degenerate(range: Bounds) -> bool {
    range.hi() matches Some(hi) && hi < 0
}

/// Whether `range` accepts a run of `n` characters. A run that was stopped
/// by a character (`found`) may be one longer than the upper end; a run that
/// reached the end of the text may not. An open lower end accepts every
/// length, an open upper end every length from the lower end on.
pub open spec fn accepts(range: Bounds, n: int, found: bool) -> bool {
    &&& !degenerate(range)
    &&& range.lo() matches Some(lo) ==> lo <= n
    &&& range.hi() matches Some(hi) ==> n <= if found {
        hi + 1
    } else {
        hi
    }
}

/// An optional text as plain characters.
pub open spec fn view_of(out: Option<&str>) -> Option<Seq<char>> {
    match out {
        Some(t) => Some(t@),
        None => None,
    }
}

/// The state after a text transform answered `out`: moved to the text it
/// gave, or failed under the label `msg` where it gave none.
pub open spec fn applied(c: CursorView, out: Option<Seq<char>>, msg: Seq<char>) -> CursorView {
    match out {
        Some(t) => c.moved(t),
        None => c.failed(ErrorView::no_match(msg)),
    }
}

} // verus!
