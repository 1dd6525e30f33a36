//! A cursor that travels with one to four captured values: every step is
//! passed to the cursor, and the values stay as they are.

use crate::error::ParseError;
use crate::state::CursorView;
use crate::text_parser::Cursor;
use crate::text_parser::Detuple;
use crate::text_parser::Matchable;
use crate::text_parser::ParseState;
use crate::text_parser::Selectable;
use vstd::prelude::*;

verus! {

impl<'a, T1> ParseState for (Cursor<'a>, T1) {
    type Values = T1;

    open spec fn state(&self) -> CursorView {
        self.0@
    }

    open spec fn values(&self) -> T1 {
        self.1
    }
}

impl<'a, T1> Matchable<'a> for (Cursor<'a>, T1) {
    fn str(&self) -> (r: Result<&'a str, ParseError>) {
        self.0.str()
    }

    fn set_str(self, s: &'a str) -> (r: Self) {
        (self.0.set_str(s), self.1)
    }

    fn set_error(self, e: ParseError) -> (r: Self) {
        (self.0.set_error(e), self.1)
    }

    fn validate(self) -> (r: Result<Self, ParseError>) {
        match self.0.validate() {
            Ok(c) => Ok((c, self.1)),
            Err(e) => Err(e),
        }
    }

    fn error(&self) -> (e: Option<&ParseError>) {
        self.0.error()
    }

    fn debug_context(self, span_name: &'static str) -> (r: Self) {
        (self.0.debug_context(span_name), self.1)
    }
}

impl<'a, T1> Selectable<'a> for (Cursor<'a>, T1) {
    fn get_selection(&self) -> (r: Result<&'a str, ParseError>) {
        self.0.get_selection()
    }

    fn selection_start(self) -> (r: Self) {
        (self.0.selection_start(), self.1)
    }

    fn selection_end(self) -> (r: Self) {
        (self.0.selection_end(), self.1)
    }
}

impl<'a, T1, T2> ParseState for (Cursor<'a>, T1, T2) {
    type Values = (T1, T2);

    open spec fn state(&self) -> CursorView {
        self.0@
    }

    open spec fn values(&self) -> (T1, T2) {
        (self.1, self.2)
    }
}

impl<'a, T1, T2> Matchable<'a> for (Cursor<'a>, T1, T2) {
    fn str(&self) -> (r: Result<&'a str, ParseError>) {
        self.0.str()
    }

    fn set_str(self, s: &'a str) -> (r: Self) {
        (self.0.set_str(s), self.1, self.2)
    }

    fn set_error(self, e: ParseError) -> (r: Self) {
        (self.0.set_error(e), self.1, self.2)
    }

    fn validate(self) -> (r: Result<Self, ParseError>) {
        match self.0.validate() {
            Ok(c) => Ok((c, self.1, self.2)),
            Err(e) => Err(e),
        }
    }

    fn error(&self) -> (e: Option<&ParseError>) {
        self.0.error()
    }

    fn debug_context(self, span_name: &'static str) -> (r: Self) {
        (self.0.debug_context(span_name), self.1, self.2)
    }
}

impl<'a, T1, T2> Selectable<'a> for (Cursor<'a>, T1, T2) {
    fn get_selection(&self) -> (r: Result<&'a str, ParseError>) {
        self.0.get_selection()
    }

    fn selection_start(self) -> (r: Self) {
        (self.0.selection_start(), self.1, self.2)
    }

    fn selection_end(self) -> (r: Self) {
        (self.0.selection_end(), self.1, self.2)
    }
}

impl<'a, T1, T2, T3> ParseState for (Cursor<'a>, T1, T2, T3) {
    type Values = (T1, T2, T3);

    open spec fn state(&self) -> CursorView {
        self.0@
    }

    open spec fn values(&self) -> (T1, T2, T3) {
        (self.1, self.2, self.3)
    }
}

impl<'a, T1, T2, T3> Matchable<'a> for (Cursor<'a>, T1, T2, T3) {
    fn str(&self) -> (r: Result<&'a str, ParseError>) {
        self.0.str()
    }

    fn set_str(self, s: &'a str) -> (r: Self) {
        (self.0.set_str(s), self.1, self.2, self.3)
    }

    fn set_error(self, e: ParseError) -> (r: Self) {
        (self.0.set_error(e), self.1, self.2, self.3)
    }

    fn validate(self) -> (r: Result<Self, ParseError>) {
        match self.0.validate() {
            Ok(c) => Ok((c, self.1, self.2, self.3)),
            Err(e) => Err(e),
        }
    }

    fn error(&self) -> (e: Option<&ParseError>) {
        self.0.error()
    }

    fn debug_context(self, span_name: &'static str) -> (r: Self) {
        (self.0.debug_context(span_name), self.1, self.2, self.3)
    }
}

impl<'a, T1, T2, T3> Selectable<'a> for (Cursor<'a>, T1, T2, T3) {
    fn get_selection(&self) -> (r: Result<&'a str, ParseError>) {
        self.0.get_selection()
    }

    fn selection_start(self) -> (r: Self) {
        (self.0.selection_start(), self.1, self.2, self.3)
    }

    fn selection_end(self) -> (r: Self) {
        (self.0.selection_end(), self.1, self.2, self.3)
    }
}

impl<'a, T1, T2, T3, T4> ParseState for (Cursor<'a>, T1, T2, T3, T4) {
    type Values = (T1, T2, T3, T4);

    open spec fn state(&self) -> CursorView {
        self.0@
    }

    open spec fn values(&self) -> (T1, T2, T3, T4) {
        (self.1, self.2, self.3, self.4)
    }
}

impl<'a, T1, T2, T3, T4> Matchable<'a> for (Cursor<'a>, T1, T2, T3, T4) {
    fn str(&self) -> (r: Result<&'a str, ParseError>) {
        self.0.str()
    }

    fn set_str(self, s: &'a str) -> (r: Self) {
        (self.0.set_str(s), self.1, self.2, self.3, self.4)
    }

    fn set_error(self, e: ParseError) -> (r: Self) {
        (self.0.set_error(e), self.1, self.2, self.3, self.4)
    }

    fn validate(self) -> (r: Result<Self, ParseError>) {
        match self.0.validate() {
            Ok(c) => Ok((c, self.1, self.2, self.3, self.4)),
            Err(e) => Err(e),
        }
    }

    fn error(&self) -> (e: Option<&ParseError>) {
        self.0.error()
    }

    fn debug_context(self, span_name: &'static str) -> (r: Self) {
        (self.0.debug_context(span_name), self.1, self.2, self.3, self.4)
    }
}

impl<'a, T1, T2, T3, T4> Selectable<'a> for (Cursor<'a>, T1, T2, T3, T4) {
    fn get_selection(&self) -> (r: Result<&'a str, ParseError>) {
        self.0.get_selection()
    }

    fn selection_start(self) -> (r: Self) {
        (self.0.selection_start(), self.1, self.2, self.3, self.4)
    }

    fn selection_end(self) -> (r: Self) {
        (self.0.selection_end(), self.1, self.2, self.3, self.4)
    }
}

impl<'a, T1, S> Detuple<S> for (Cursor<'a>, T1) {
    type TupleReturn = (Cursor<'a>, T1, S);

    open spec fn detupled(tup: (Self, S)) -> (Cursor<'a>, T1, S) {
        (tup.0.0, tup.0.1, tup.1)
    }

    fn maybe_detuple(tup: (Self, S)) -> (r: (Cursor<'a>, T1, S)) {
        (tup.0.0, tup.0.1, tup.1)
    }
}

impl<'a, T1, T2, S> Detuple<S> for (Cursor<'a>, T1, T2) {
    type TupleReturn = (Cursor<'a>, T1, T2, S);

    open spec fn detupled(tup: (Self, S)) -> (Cursor<'a>, T1, T2, S) {
        (tup.0.0, tup.0.1, tup.0.2, tup.1)
    }

    fn maybe_detuple(tup: (Self, S)) -> (r: (Cursor<'a>, T1, T2, S)) {
        (tup.0.0, tup.0.1, tup.0.2, tup.1)
    }
}

impl<'a, T1, T2, T3, S> Detuple<S> for (Cursor<'a>, T1, T2, T3) {
    type TupleReturn = (Cursor<'a>, T1, T2, T3, S);

    open spec fn detupled(tup: (Self, S)) -> (Cursor<'a>, T1, T2, T3, S) {
        (tup.0.0, tup.0.1, tup.0.2, tup.0.3, tup.1)
    }

    fn maybe_detuple(tup: (Self, S)) -> (r: (Cursor<'a>, T1, T2, T3, S)) {
        (tup.0.0, tup.0.1, tup.0.2, tup.0.3, tup.1)
    }
}

impl<'a, T1, T2, T3, T4, S> Detuple<S> for (Cursor<'a>, T1, T2, T3, T4) {
    type TupleReturn = (Cursor<'a>, T1, T2, T3, T4, S);

    open spec fn detupled(tup: (Self, S)) -> (Cursor<'a>, T1, T2, T3, T4, S) {
        (tup.0.0, tup.0.1, tup.0.2, tup.0.3, tup.0.4, tup.1)
    }

    fn maybe_detuple(tup: (Self, S)) -> (r: (Cursor<'a>, T1, T2, T3, T4, S)) {
        (tup.0.0, tup.0.1, tup.0.2, tup.0.3, tup.0.4, tup.1)
    }
}

} // verus!
