//! What holds of the engine as a whole, stated over the states and
//! predicates that the contracts of the combinators use.

use crate::bounds::Bounds;
use crate::error::ErrorView;
use crate::error::ParseError;
use crate::text::ascii_digit;
use crate::text::digit_class;
use crate::text::lemma_run_len;
use crate::text::outside_of;
use crate::text::run_len;
use crate::text_parser::collected;
use crate::text_parser::collected_to;
use crate::text_parser::element;
use crate::text_parser::never_matching;
use crate::text_parser::repeated;
use crate::text_parser::round;
use crate::state::CursorView;
use crate::text_parser::Detuple;
use crate::text_parser::ParseState;
use std::ops::Bound;
use vstd::prelude::*;

verus! {

/// An error is sticky: every transition that a matching or capture
/// combinator makes leaves a failing state exactly as it is, so the stored
/// error is never replaced or cleared.
pub proof fn law_sticky_error(
    c: CursorView,
    f: spec_fn(Seq<char>) -> Option<Seq<char>>,
    msg: Seq<char>,
    range: Bounds,
    class: spec_fn(char) -> bool,
    n: int,
    text: Seq<char>,
)
    requires
        c.failing(),
    ensures
        c.step(f, msg) == c,
        c.scanned(range, n, msg) == c,
        c.scanned_class(range, class, msg) == c,
        c.moved(text) == c,
        c.advanced(n) == c,
        c.started() == c,
        c.ended() == c,
        c.captured() is Err,
        c.text() is Err,
{
}

/// The range of lengths from `lo` to `hi`, both included.
pub open spec fn inclusive(lo: i32, hi: i32) -> Bounds {
    Bounds { start: Bound::Included(lo), end: Bound::Included(hi) }
}

/// A digit matcher with the range `lo..=hi` passes the whole run of digits
/// at the front of the text where the length of the run lies in the range,
/// and fails otherwise; what it passes holds digits only, and what follows
/// is no digit. The one run that this leaves out is a run of `hi + 1` digits
/// that another character follows, which the matcher passes as well.
pub proof fn law_digits_scan(c: CursorView, lo: i32, hi: i32)
    requires
        c.state is Ok,
        !({
            let s = c.state->Ok_0;
            let n = run_len(s, outside_of(digit_class()));
            n == hi + 1 && n < s.len()
        }),
    ensures
        ({
            let s = c.state->Ok_0;
            let n = run_len(s, outside_of(digit_class()));
            let r = c.scanned_class(inclusive(lo, hi), digit_class(), "digits_m"@);
            &&& n <= s.len()
            &&& forall|j: int| 0 <= j < n ==> ascii_digit(#[trigger] s[j])
            &&& n < s.len() ==> !ascii_digit(s[n as int])
            &&& lo <= n <= hi ==> r.state == Ok::<Seq<char>, ErrorView>(s.skip(n as int))
            &&& !(lo <= n <= hi) ==> r.state == Err::<Seq<char>, ErrorView>(
                ErrorView::no_match("digits_m"@),
            )
        }),
{
    let s = c.state->Ok_0;
    lemma_run_len(s, outside_of(digit_class()));
}

/// The state after the remaining text was replaced by each of `texts` in
/// turn.
pub open spec fn moved_through(c: CursorView, texts: Seq<Seq<char>>) -> CursorView
    decreases texts.len(),
{
    if texts.len() == 0 {
        c
    } else {
        moved_through(c.moved(texts[0]), texts.skip(1))
    }
}

/// Moves do not touch a started capture, and leave a cursor without error
/// at the last text.
pub proof fn lemma_moved_through(c: CursorView, texts: Seq<Seq<char>>)
    requires
        c.state is Ok,
        c.selection is Start,
    ensures
        moved_through(c, texts).selection == c.selection,
        moved_through(c, texts).context == c.context,
        moved_through(c, texts).state == Ok::<Seq<char>, ErrorView>(
            if texts.len() == 0 {
                c.state->Ok_0
            } else {
                texts.last()
            },
        ),
    decreases texts.len(),
{
    if texts.len() > 0 {
        let rest = texts.skip(1);
        lemma_moved_through(c.moved(texts[0]), rest);
        if rest.len() > 0 {
            assert(rest.last() == texts.last());
        }
    }
}

/// A capture is exact: start a capture, let any number of matches move the
/// cursor, close the capture, and the captured text is exactly the text
/// `consumed` between the two, whatever capture was open before. Once
/// closed, the capture stays as it is while the cursor moves on.
pub proof fn law_capture_exact(
    c: CursorView,
    texts: Seq<Seq<char>>,
    consumed: Seq<char>,
    later: Seq<char>,
)
    requires
        c.state is Ok,
        c.state->Ok_0 == consumed + (if texts.len() == 0 {
            c.state->Ok_0
        } else {
            texts.last()
        }),
    ensures
        moved_through(c.started(), texts).ended().captured() == Ok::<Seq<char>, ErrorView>(
            consumed,
        ),
        moved_through(c.started(), texts).ended().moved(later).captured() == Ok::<
            Seq<char>,
            ErrorView,
        >(consumed),
{
    let begin = c.state->Ok_0;
    let end = if texts.len() == 0 {
        begin
    } else {
        texts.last()
    };
    lemma_moved_through(c.started(), texts);
    assert(begin.len() == consumed.len() + end.len());
    assert(begin.subrange(0, begin.len() - end.len()) =~= consumed);
}

/// Without a started capture, the capture is what the latest move consumed.
pub proof fn law_default_capture(c: CursorView, consumed: Seq<char>, rest: Seq<char>)
    requires
        c.state == Ok::<Seq<char>, ErrorView>(consumed + rest),
        c.selection is Defaulted,
    ensures
        c.moved(rest).captured() == Ok::<Seq<char>, ErrorView>(consumed),
{
    let begin = consumed + rest;
    assert(begin.subrange(0, begin.len() - rest.len()) =~= consumed);
}

/// A collection loop is total: where the sub-parser never matches, the
/// answer is success with no values and the cursor that the loop was
/// started on.
pub proof fn law_collection_total<
    C: ParseState + Clone + Detuple<Vec<T>>,
    T,
    P: FnMut(C) -> Result<(C, T), ParseError>,
>(parser: P, start: C, trace: Seq<C>, vals: Seq<T>, r: Result<C::TupleReturn, ParseError>)
    requires
        collected(parser, start, trace, vals, r),
        never_matching(parser, start),
    ensures
        vals.len() == 0,
        exists|vec: Vec<T>|
            vec@.len() == 0 && r == Ok::<C::TupleReturn, ParseError>(
                #[trigger] C::detupled((start, vec)),
            ),
{
    if vals.len() > 0 {
        assert(element(parser, trace[0], Ok::<(C, T), ParseError>((trace[0int + 1], vals[0]))));
    }
    assert(trace.last() == start);
}

/// A collection loop never reports a recoverable failure: a failure that it
/// answers with is fatal, and it is the failure that the sub-parser answered
/// with on the last cursor.
pub proof fn law_collection_fatal<
    C: ParseState + Clone + Detuple<Vec<T>>,
    T,
    P: FnMut(C) -> Result<(C, T), ParseError>,
>(parser: P, start: C, trace: Seq<C>, vals: Seq<T>, r: Result<C::TupleReturn, ParseError>)
    requires
        collected(parser, start, trace, vals, r),
        r is Err,
    ensures
        r->Err_0 is Fatal,
        element(parser, trace.last(), Err::<(C, T), ParseError>(r->Err_0)),
{
}

/// The same of the loop that fills a collection of the caller.
pub proof fn law_collection_to_fatal<
    C: ParseState + Clone,
    T,
    P: FnMut(C) -> Result<(C, T), ParseError>,
>(parser: P, start: C, trace: Seq<C>, vals: Seq<T>, r: Result<C, ParseError>)
    requires
        collected_to(parser, start, trace, vals, r),
        r is Err,
    ensures
        r->Err_0 is Fatal,
        element(parser, trace.last(), Err::<(C, T), ParseError>(r->Err_0)),
{
}

/// A fatal failure of the sub-parser of a collection loop, raised on the
/// cursor that the loop was started on, is the loop's answer, unchanged.
pub proof fn law_collection_propagates<
    C: ParseState + Clone + Detuple<Vec<T>>,
    T,
    P: FnMut(C) -> Result<(C, T), ParseError>,
>(
    parser: P,
    start: C,
    trace: Seq<C>,
    vals: Seq<T>,
    r: Result<C::TupleReturn, ParseError>,
    fatal: ParseError,
)
    requires
        collected(parser, start, trace, vals, r),
        fatal is Fatal,
        forall|res: Result<(C, T), ParseError>| #[trigger]
            element(parser, start, res) ==> res == Err::<(C, T), ParseError>(fatal),
    ensures
        r == Err::<C::TupleReturn, ParseError>(fatal),
{
    if vals.len() > 0 {
        assert(element(parser, trace[0], Ok::<(C, T), ParseError>((trace[0int + 1], vals[0]))));
    }
    assert(trace.last() == start);
}

/// `repeat` hands back a failing cursor only where its sub-parser raised a
/// fatal failure; that cursor is then the one that the sub-parser handed
/// back, fatal error and all.
pub proof fn law_repeat_fatal<C: ParseState + Clone, P: FnMut(C) -> C>(
    lexer: P,
    start: C,
    cap: int,
    trace: Seq<C>,
    r: C,
)
    requires
        !start.state().failing(),
        repeated(lexer, start, cap, trace, r),
    ensures
        r.state().failing() ==> (r.state().state matches Err(ErrorView::Fatal(_))) && round(
            lexer,
            trace.last(),
            r,
        ),
{
    if trace.len() > 1 {
        assert(!trace[trace.len() - 2 + 1].state().failing());
    }
}

/// A fatal failure of the sub-parser of `repeat`, raised in the first round,
/// is what `repeat` hands back.
pub proof fn law_repeat_propagates<C: ParseState + Clone, P: FnMut(C) -> C>(
    lexer: P,
    start: C,
    cap: int,
    trace: Seq<C>,
    r: C,
)
    requires
        cap > 0,
        repeated(lexer, start, cap, trace, r),
        forall|t: C| #[trigger]
            round(lexer, start, t) ==> (t.state().state matches Err(ErrorView::Fatal(_))),
    ensures
        round(lexer, start, r),
        r.state().state matches Err(ErrorView::Fatal(_)),
{
    if trace.len() > 1 {
        assert(round(lexer, trace[0], trace[0int + 1]));
        assert(!trace[0int + 1].state().failing());
    }
}

/// A fatal failure of the sub-parser of `select` stays as it is, and any
/// other failure becomes the failure of `select`.
pub proof fn law_select_fatal(t: CursorView)
    requires
        t.failing(),
    ensures
        t.state matches Err(ErrorView::Fatal(_)) ==> t.selected() == t,
        !(t.state matches Err(ErrorView::Fatal(_))) ==> t.selected().state == Err::<
            Seq<char>,
            ErrorView,
        >(ErrorView::no_match("select_with"@)),
{
}

/// A fatal failure of the sub-parser of a collection loop is the loop's
/// answer after any number of successful rounds: where every failure that
/// the sub-parser can answer with on the last cursor is fatal, the loop
/// answers with one of them, unchanged, and with no success.
pub proof fn law_collection_fatal_after_rounds<
    C: ParseState + Clone + Detuple<Vec<T>>,
    T,
    P: FnMut(C) -> Result<(C, T), ParseError>,
>(parser: P, start: C, trace: Seq<C>, vals: Seq<T>, r: Result<C::TupleReturn, ParseError>)
    requires
        collected(parser, start, trace, vals, r),
        forall|e: ParseError| #[trigger]
            element(parser, trace.last(), Err::<(C, T), ParseError>(e)) ==> e is Fatal,
    ensures
        r is Err,
        r->Err_0 is Fatal,
        element(parser, trace.last(), Err::<(C, T), ParseError>(r->Err_0)),
{
}

/// The same of the loop that fills a collection of the caller.
pub proof fn law_collection_to_fatal_after_rounds<
    C: ParseState + Clone,
    T,
    P: FnMut(C) -> Result<(C, T), ParseError>,
>(parser: P, start: C, trace: Seq<C>, vals: Seq<T>, r: Result<C, ParseError>)
    requires
        collected_to(parser, start, trace, vals, r),
        forall|e: ParseError| #[trigger]
            element(parser, trace.last(), Err::<(C, T), ParseError>(e)) ==> e is Fatal,
    ensures
        r is Err,
        r->Err_0 is Fatal,
        element(parser, trace.last(), Err::<(C, T), ParseError>(r->Err_0)),
{
}

/// The loop that fills a collection of the caller is total as well: where
/// the sub-parser never matches, the answer is the cursor that the loop was
/// started on, and no value was produced.
pub proof fn law_collection_to_total<
    C: ParseState + Clone,
    T,
    P: FnMut(C) -> Result<(C, T), ParseError>,
>(parser: P, start: C, trace: Seq<C>, vals: Seq<T>, r: Result<C, ParseError>)
    requires
        collected_to(parser, start, trace, vals, r),
        never_matching(parser, start),
    ensures
        vals.len() == 0,
        r == Ok::<C, ParseError>(start),
{
    if vals.len() > 0 {
        assert(element(parser, trace[0], Ok::<(C, T), ParseError>((trace[0int + 1], vals[0]))));
    }
    assert(trace.last() == start);
}

} // verus!
