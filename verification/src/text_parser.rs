//! The cursor and the combinators that thread it through a text.

use crate::bounds::Bounds;
use crate::bounds::converts;
use crate::bounds::start_end;
use crate::error::ErrorView;
use crate::error::ParseError;
use crate::error::failure;
use crate::error::failure_on;
use crate::selection::Selection;
use crate::sink::Sink;
use crate::state::CursorView;
use crate::state::accepts;
use crate::state::ahead;
use crate::state::applied;
use crate::state::degenerate;
use crate::state::round_cap;
use crate::state::view_of;
use crate::text::after_line;
use crate::text::alphabetic_class;
use crate::text::alphanumeric_class;
use crate::text::contains_char;
use crate::text::digit_class;
use crate::text::find_text;
use crate::text::found_at;
use crate::text::horizontal_space_class;
use crate::text::is_alphabetic;
use crate::text::is_alphanumeric;
use crate::text::is_ascii_digit;
use crate::text::lemma_stops_at_run_len;
use crate::text::line_end;
use crate::text::non_space_class;
use crate::text::none_of;
use crate::text::one_of;
use crate::text::outside_of;
use crate::text::skip_horizontal_spaces;
use crate::text::skip_line;
use crate::text::skip_non_spaces;
use crate::text::skip_spaces;
use crate::text::skip_word;
use crate::text::space_class;
use crate::text::split_run;
use crate::text::stops_at;
use crate::text::strip_any;
use crate::text::strip_line_end;
use crate::text::strip_prefix;
use crate::text::stripped;
use crate::text::stripped_any;
use crate::text::text_eq;
use crate::text::trimmed;
use crate::text::word_class;
use std::str::FromStr;
use vstd::pervasive::strictly_cloned;
use vstd::prelude::*;

verus! {

/// The threaded parse state: the remaining text or a sticky error, and the
/// capture window. Exactly one of remaining text and error is present.
#[derive(Debug)]
pub struct Cursor<'a> {
    selection: Selection<'a>,
    state: Result<&'a str, ParseError>,
    context: &'a str,
}

impl<'a> View for Cursor<'a> {
    type V = CursorView;

    closed spec fn view(&self) -> CursorView {
        CursorView {
            selection: self.selection@,
            state: match self.state {
                Ok(s) => Ok(s@),
                Err(e) => Err(e@),
            },
            context: self.context@,
        }
    }
}

/// A cursor at the start of the text `s`.
pub fn cursor(s: &str) -> (c: Cursor<'_>)
    ensures
        c@ == CursorView::fresh(s@),
{
    Cursor { selection: Selection::Defaulted(s), state: Ok(s), context: "" }
}

impl<'a> From<&'a str> for Cursor<'a> {
    fn from(s: &'a str) -> (c: Self)
        ensures
            c@ == CursorView::fresh(s@),
    {
        Cursor { selection: Selection::Defaulted(s), state: Ok(s), context: "" }
    }
}

impl<'a> vstd::std_specs::convert::FromSpecImpl<&'a str> for Cursor<'a> {
    open spec fn obeys_from_spec() -> bool {
        true
    }

    closed spec fn from_spec(s: &'a str) -> Self {
        Cursor { selection: Selection::Defaulted(s), state: Ok(s), context: "" }
    }
}

impl<'a> Clone for Cursor<'a> {
    fn clone(&self) -> (c: Self)
        ensures
            c@ == self@.copied(),
    {
        Cursor {
            selection: self.selection,
            state: match &self.state {
                Ok(s) => Ok(*s),
                Err(e) => Err(e.clone()),
            },
            context: self.context,
        }
    }
}

impl<'a> Cursor<'a> {
    /// Whether both cursors are free of errors and hold the same capture
    /// window, remaining text and label.
    pub open spec fn same_as(self, other: Cursor<'a>) -> bool {
        &&& self@.state is Ok
        &&& other@.state is Ok
        &&& self@ == other@
    }
}

impl<'a> PartialEq for Cursor<'a> {
    /// Two cursors are equal where they are in the same state and free of
    /// errors: a failing cursor equals nothing, not even itself.
    fn eq(&self, other: &Self) -> (eq: bool) {
        match (&self.state, &other.state) {
            (Ok(a), Ok(b)) => self.selection.same(&other.selection) && text_eq(a, b) && text_eq(
                self.context,
                other.context,
            ),
            _ => false,
        }
    }
}

impl<'a> vstd::std_specs::cmp::PartialEqSpecImpl for Cursor<'a> {
    open spec fn obeys_eq_spec() -> bool {
        true
    }

    open spec fn eq_spec(&self, other: &Self) -> bool {
        self.same_as(*other)
    }
}

/// The model of a value that threads a cursor through a parse: the state of
/// its cursor, and the values that travel with it.
pub trait ParseState: Sized {
    /// The values that travel with the cursor.
    type Values;

    /// The state of the cursor.
    spec fn state(&self) -> CursorView;

    /// The values captured so far.
    spec fn values(&self) -> Self::Values;
}

/// Appends one more value to the values that travel with a cursor.
pub trait Detuple<T>: Sized {
    /// The cursor with one more value behind those it already carries.
    type TupleReturn;

    spec fn detupled(tup: (Self, T)) -> Self::TupleReturn;

    /// Flattens a cursor (with its values) and a new value into one tuple,
    /// the new value last.
    fn maybe_detuple(tup: (Self, T)) -> (r: Self::TupleReturn)
        ensures
            r == Self::detupled(tup),
    ;
}

/// Whether `n` is where the first character of `s` stands that `pred` turns
/// down, or the length of `s` if it accepts them all, going by what `pred`
/// may answer.
pub open spec fn matches_run<F: Fn(char) -> bool>(pred: F, s: Seq<char>, n: int) -> bool {
    &&& 0 <= n <= s.len()
    &&& forall|j: int| 0 <= j < n ==> call_ensures(pred, (#[trigger] s[j],), true)
    &&& n < s.len() ==> call_ensures(pred, (s[n],), false)
}

/// What a matcher of the characters that `pred` accepts makes of the state
/// `c`, given the accepted lengths `range` and its label `action`: a failing
/// cursor stays as it is, a range with a negative upper end fails, and
/// otherwise the run in front of the first character that `pred` turns down
/// is held against `range`.
pub open spec fn matched<F: Fn(char) -> bool>(
    pred: F,
    c: CursorView,
    range: Bounds,
    action: Seq<char>,
    r: CursorView,
) -> bool {
    match c.state {
        Ok(s) => if degenerate(range) {
            r == c.failed(ErrorView::no_match(action))
        } else {
            exists|n: int| matches_run(pred, s, n) && r == c.scanned(range, n, action)
        },
        Err(_) => r == c,
    }
}

/// Whether a sub-parser over text can be run on the text `text`.
pub open spec fn text_callable<'a, T, P: FnMut(&'a str) -> Result<(&'a str, T), ParseError>>(
    parser: P,
    text: Seq<char>,
) -> bool {
    forall|s: &'a str| s@ == text ==> call_requires(parser, (s,))
}

/// Whether a sub-parser over text, run on the text `text`, can answer `res`.
pub open spec fn text_element<'a, T, P: FnMut(&'a str) -> Result<(&'a str, T), ParseError>>(
    parser: P,
    text: Seq<char>,
    res: Result<(&'a str, T), ParseError>,
) -> bool {
    exists|s: &'a str| s@ == text && call_ensures(parser, (s,), res)
}

/// What `parse_struct_str` answers on `start` when its sub-parser answered
/// `res`: the cursor at the text that the sub-parser left, with the value
/// appended, or the sub-parser's failure.
pub open spec fn text_parsed<'a, C: ParseState + Detuple<T>, T>(
    start: C,
    res: Result<(&'a str, T), ParseError>,
    r: Result<C::TupleReturn, ParseError>,
) -> bool {
    match res {
        Ok((rest, v)) => exists|after: C|
            after.state() == start.state().moved(rest@) && after.values() == start.values() && r
                == Ok::<C::TupleReturn, ParseError>(#[trigger] C::detupled((after, v))),
        Err(e) => r == Err::<C::TupleReturn, ParseError>(e),
    }
}

/// Whether a copy of a cursor always reads the same text as the cursor, or
/// fails as the cursor does.
pub open spec fn copies_keep_text<C: ParseState + Clone>() -> bool {
    forall|c: C, copy: C| #[trigger] strictly_cloned(c, copy) ==> copy.state().text() == c.state().text()
}

/// Whether one round of `repeat` can lead from `from` to `to`: the
/// sub-parser, run on a copy of `from`, hands back `to`.
pub open spec fn round<C: ParseState + Clone, P: FnMut(C) -> C>(lexer: P, from: C, to: C) -> bool {
    exists|copy: C| strictly_cloned(from, copy) && call_ensures(lexer, (copy,), to)
}

/// Whether `trace` lists the cursors of successive successful rounds of
/// `repeat`, starting from `trace[0]`.
pub open spec fn rounds<C: ParseState + Clone, P: FnMut(C) -> C>(lexer: P, trace: Seq<C>) -> bool {
    &&& trace.len() >= 1
    &&& forall|i: int|
        0 <= i < trace.len() - 1 ==> round(lexer, trace[i], #[trigger] trace[i + 1])
            && !trace[i + 1].state().failing()
}

/// Whether `repeat`, started on `start` with at most `cap` rounds, can make
/// the successful rounds that `trace` lists and then hand back `r`: either
/// the rounds are used up and `r` is the last cursor, or they are not and one
/// more round fails, and `r` is the failing cursor where its error is fatal
/// and the last cursor where it is not.
pub open spec fn repeated<C: ParseState + Clone, P: FnMut(C) -> C>(
    lexer: P,
    start: C,
    cap: int,
    trace: Seq<C>,
    r: C,
) -> bool {
    &&& rounds(lexer, trace)
    &&& trace[0] == start
    &&& trace.len() - 1 <= cap
    &&& {
        ||| trace.len() - 1 == cap && r == trace.last()
        ||| trace.len() - 1 < cap && exists|t: C|
            round(lexer, trace.last(), t) && t.state().failing() && r == if t.state().state
                matches Err(ErrorView::Fatal(_)) {
                t
            } else {
                trace.last()
            }
    }
}

/// Whether a sub-parser that succeeds always hands back a cursor with less
/// ahead of it than the one it was given: what makes a collection loop end.
pub open spec fn consuming<C: ParseState, T, P: FnMut(C) -> Result<(C, T), ParseError>>(
    parser: P,
) -> bool {
    forall|c: C, t: C, v: T| #[trigger]
        call_ensures(parser, (c,), Ok::<(C, T), ParseError>((t, v))) ==> ahead(t.state()) < ahead(
            c.state(),
        )
}

/// Whether the sub-parser of a collection loop, run on a copy of `from`, can
/// answer `res`.
pub open spec fn element<C: ParseState + Clone, T, P: FnMut(C) -> Result<(C, T), ParseError>>(
    parser: P,
    from: C,
    res: Result<(C, T), ParseError>,
) -> bool {
    exists|copy: C| strictly_cloned(from, copy) && call_ensures(parser, (copy,), res)
}

/// Whether `trace` and `vals` list the cursors and the values of successive
/// successful rounds of a collection loop, starting from `trace[0]`.
pub open spec fn elements<C: ParseState + Clone, T, P: FnMut(C) -> Result<(C, T), ParseError>>(
    parser: P,
    trace: Seq<C>,
    vals: Seq<T>,
) -> bool {
    &&& trace.len() == vals.len() + 1
    &&& forall|i: int|
        0 <= i < vals.len() ==> element(
            parser,
            trace[i],
            Ok::<(C, T), ParseError>((#[trigger] trace[i + 1], vals[i])),
        )
}

/// Whether `parse_struct_vec`, started on `start`, can collect the values
/// `vals` over the cursors `trace` and then answer `r`: the sub-parser fails
/// on the last cursor, and `r` is that cursor with the values where the
/// failure is recoverable, and the failure itself where it is fatal.
pub open spec fn collected<
    C: ParseState + Clone + Detuple<Vec<T>>,
    T,
    P: FnMut(C) -> Result<(C, T), ParseError>,
>(parser: P, start: C, trace: Seq<C>, vals: Seq<T>, r: Result<C::TupleReturn, ParseError>) -> bool {
    &&& elements(parser, trace, vals)
    &&& trace[0] == start
    &&& exists|e: ParseError| #[trigger]
        element(parser, trace.last(), Err::<(C, T), ParseError>(e)) && if e is NoMatch {
            exists|vec: Vec<T>|
                vec@ == vals && r == Ok::<C::TupleReturn, ParseError>(
                    #[trigger] C::detupled((trace.last(), vec)),
                )
        } else {
            r == Err::<C::TupleReturn, ParseError>(e)
        }
}

/// Whether `parse_struct_vec_to`, started on `start`, can hand the values
/// `vals` to its collection over the cursors `trace` and then answer `r`:
/// the sub-parser fails on the last cursor, and `r` is that cursor where the
/// failure is recoverable, and the failure itself where it is fatal.
pub open spec fn collected_to<C: ParseState + Clone, T, P: FnMut(C) -> Result<(C, T), ParseError>>(
    parser: P,
    start: C,
    trace: Seq<C>,
    vals: Seq<T>,
    r: Result<C, ParseError>,
) -> bool {
    &&& elements(parser, trace, vals)
    &&& trace[0] == start
    &&& exists|e: ParseError| #[trigger]
        element(parser, trace.last(), Err::<(C, T), ParseError>(e)) && r == if e is NoMatch {
            Ok::<C, ParseError>(trace.last())
        } else {
            Err::<C, ParseError>(e)
        }
}

/// What `parse_selection` answers on the cursor `c`, given what converting
/// the captured text answered.
pub open spec fn selection_parsed<C: ParseState + Detuple<T>, T>(
    c: C,
    parsed: Option<T>,
    r: Result<C::TupleReturn, ParseError>,
) -> bool {
    match c.state().captured() {
        Ok(text) => match parsed {
            Some(v) => r == Ok::<C::TupleReturn, ParseError>(C::detupled((c, v))),
            None => r matches Err(e) && e@ == (ErrorView::NoMatch {
                action: "parse"@,
                args: text,
            }),
        },
        Err(failure) => r matches Err(e) && e@ == failure,
    }
}

/// Calls `str::parse`, which converts the text through the `FromStr` impl
/// of `T`. What it answers is up to that impl, so nothing is claimed of it.
#[verifier::external_body]
fn parse_text<T: FromStr>(text: &str) -> (r: Option<T>) {
    text.parse::<T>().ok()
}

/// Whether converting the text `text` to a `T` can answer `parsed`: the
/// value, or `None` where the conversion fails. Only an answer that the
/// conversion gave on that text is one.
pub closed spec fn converted<T: FromStr>(text: Seq<char>, parsed: Option<T>) -> bool {
    exists|s: &str| s@ == text && #[trigger] call_ensures(parse_text::<T>, (s,), parsed)
}

/// What `append_last` makes of a cursor in the state `c`, given what
/// converting the captured text answered: a failing cursor stays as it is,
/// and so does a cursor whose capture was converted; a failed conversion
/// stores a failure without label.
pub open spec fn appended<T>(c: CursorView, parsed: Option<T>) -> CursorView {
    if c.failing() || parsed is Some {
        c
    } else {
        c.failed(ErrorView::no_match(""@))
    }
}

/// Whether `append_last`, on a cursor in the state `c` with the captured
/// text `text` and a collection that holds `before`, can leave the state `r`
/// and the collection holding `after`, untouched or not (`kept`): the
/// conversion of `text` answers some `parsed`, the state is what `appended`
/// makes of it, a value stands behind the values that the collection held,
/// and without a value the collection is untouched.
pub open spec fn appends<T: FromStr>(
    c: CursorView,
    text: Seq<char>,
    r: CursorView,
    before: Seq<T>,
    after: Seq<T>,
    kept: bool,
) -> bool {
    exists|parsed: Option<T>| #[trigger]
        converted(text, parsed) && r == appended(c, parsed) && match parsed {
            Some(v) => after == before.push(v),
            None => kept,
        }
}

/// What `parse_selection` can answer on the cursor `c`: what
/// `selection_parsed` gives for an answer of the conversion of the captured
/// text, and the failure of reading the capture on a failing cursor.
pub open spec fn selection_converted<C: ParseState + Detuple<T>, T: FromStr>(
    c: C,
    r: Result<C::TupleReturn, ParseError>,
) -> bool {
    match c.state().captured() {
        Ok(text) => exists|parsed: Option<T>| #[trigger]
            converted(text, parsed) && selection_parsed(c, parsed, r),
        Err(failure) => r matches Err(e) && e@ == failure,
    }
}

/// Whether the sub-parser of a collection loop can answer nothing but a
/// recoverable failure on the cursor `start`.
pub open spec fn never_matching<
    C: ParseState + Clone,
    T,
    P: FnMut(C) -> Result<(C, T), ParseError>,
>(parser: P, start: C) -> bool {
    forall|res: Result<(C, T), ParseError>| #[trigger]
        element(parser, start, res) ==> (res matches Err(e) && e is NoMatch)
}

/// A collection loop that made a round has a success of its sub-parser on
/// the first cursor.
pub proof fn lemma_first_element<
    C: ParseState + Clone,
    T,
    P: FnMut(C) -> Result<(C, T), ParseError>,
>(parser: P, trace: Seq<C>, vals: Seq<T>)
    requires
        elements(parser, trace, vals),
    ensures
        vals.len() > 0 ==> element(
            parser,
            trace[0],
            Ok::<(C, T), ParseError>((trace[1], vals[0])),
        ),
        vals.len() == 0 ==> trace.last() == trace[0],
{
    if vals.len() > 0 {
        assert(element(parser, trace[0], Ok::<(C, T), ParseError>((trace[0int + 1], vals[0]))));
    }
}

/// A collection loop that makes one more successful round has one more
/// cursor and one more value to list.
pub proof fn lemma_elements_push<
    C: ParseState + Clone,
    T,
    P: FnMut(C) -> Result<(C, T), ParseError>,
>(parser: P, trace: Seq<C>, vals: Seq<T>, next: C, v: T)
    requires
        elements(parser, trace, vals),
        element(parser, trace.last(), Ok::<(C, T), ParseError>((next, v))),
    ensures
        elements(parser, trace.push(next), vals.push(v)),
{
    let longer = trace.push(next);
    let more = vals.push(v);
    assert forall|i: int| 0 <= i < more.len() implies element(
        parser,
        longer[i],
        Ok::<(C, T), ParseError>((#[trigger] longer[i + 1], more[i])),
    ) by {
        if i < vals.len() {
            assert(longer[i] == trace[i]);
            assert(longer[i + 1] == trace[i + 1]);
        }
    }
}

/// A matcher of a character class, run through `find_first` with a
/// predicate that stops at the characters outside the class, leaves the
/// state that `scanned_class` gives.
pub proof fn lemma_scanned_class<F: Fn(char) -> bool>(
    stop: F,
    class: spec_fn(char) -> bool,
    c: CursorView,
    range: Bounds,
    action: Seq<char>,
    r: CursorView,
)
    requires
        forall|ch: char, b: bool| call_ensures(stop, (ch,), b) ==> b == outside_of(class)(ch),
        c.failing() ==> r == c,
        !c.failing() && degenerate(range) ==> r == c.failed(ErrorView::no_match(action)),
        !c.failing() && !degenerate(range) ==> exists|n: int|
            stops_at(stop, c.state->Ok_0, n) && r == c.scanned(range, n, action),
    ensures
        r == c.scanned_class(range, class, action),
{
    if let Ok(s) = c.state {
        if !degenerate(range) {
            let n = choose|n: int| stops_at(stop, s, n) && r == c.scanned(range, n, action);
            lemma_stops_at_run_len(stop, outside_of(class), s, n);
        }
    }
}

/// What every step of a parse can do to the cursor it was handed: read and
/// replace the remaining text, store an error, surface the stored error.
/// A cursor may travel alone or with the values captured so far; a step
/// changes only the cursor.
pub trait Matchable<'a>: ParseState {
    /// The remaining text, or a failure if an error is stored.
    fn str(&self) -> (r: Result<&'a str, ParseError>)
        ensures
            match r {
                Ok(s) => self.state().text() == Ok::<Seq<char>, ErrorView>(s@),
                Err(e) => self.state().text() == Err::<Seq<char>, ErrorView>(e@),
            },
    ;

    /// Replaces the remaining text. A failing cursor stays as it is.
    fn set_str(self, s: &'a str) -> (r: Self)
        ensures
            r.state() == self.state().moved(s@),
            r.values() == self.values(),
    ;

    /// Stores the error `e` in place of the remaining text.
    fn set_error(self, e: ParseError) -> (r: Self)
        ensures
            r.state() == self.state().failed(e@),
            r.values() == self.values(),
    ;

    /// Hands the value back if no error is stored, and the stored error
    /// otherwise.
    fn validate(self) -> (r: Result<Self, ParseError>)
        ensures
            match r {
                Ok(c) => !self.state().failing() && c == self,
                Err(e) => self.state().state == Err::<Seq<char>, ErrorView>(e@),
            },
    ;

    /// The stored error, if there is one.
    fn error(&self) -> (e: Option<&ParseError>)
        ensures
            match e {
                Some(stored) => self.state().state == Err::<Seq<char>, ErrorView>(stored@),
                None => !self.state().failing(),
            },
    ;

    /// Sets the label under which the following steps are reported.
    fn debug_context(self, span_name: &'static str) -> (r: Self)
        ensures
            r.state() == self.state().labelled(span_name@),
            r.values() == self.values(),
    ;

    /// Applies the text transform `f` to the remaining text. The cursor moves
    /// to the text that `f` gives, fails under the label `msg` where `f`
    /// gives none, and is left alone if it already holds an error.
    fn apply<F>(self, f: F, msg: &'static str, _args: &str) -> (r: Self) where
        F: FnOnce(&'a str) -> Option<&'a str>,

        requires
            forall|s: &'a str|
                self.state().state == Ok::<Seq<char>, ErrorView>(s@) ==> call_requires(f, (s,)),
        ensures
            r.values() == self.values(),
            self.state().failing() ==> r.state() == self.state(),
            !self.state().failing() ==> exists|s: &'a str, out: Option<&'a str>|
                self.state().state == Ok::<Seq<char>, ErrorView>(s@) && call_ensures(f, (s,), out)
                    && r.state() == applied(self.state(), view_of(out), msg@),
    {
        match self.str() {
            Ok(s) => {
                let out = f(s);
                match out {
                    Some(t) => self.set_str(t),
                    None => self.set_error(failure(msg, s)),
                }
            },
            Err(_) => self,
        }
    }

    /// Applies `lexer` to successive cursors until it fails or the upper end
    /// of `range` is reached, and hands back the last cursor that `lexer`
    /// left without an error. A recoverable failure of `lexer` ends the loop
    /// and is dropped; a fatal one is handed back with the cursor that holds
    /// it. The lower end of `range` is not looked at. A failing cursor stays
    /// as it is.
    fn repeat<P, R>(self, range: R, lexer: P) -> (r: Self) where
        P: FnMut(Self) -> Self,
        R: Into<Bounds>,
        Self: Clone,

        requires
            forall|c: Self| !c.state().failing() ==> call_requires(lexer, (c,)),
            copies_keep_text::<Self>(),
        ensures
            self.state().failing() ==> r == self,
            !self.state().failing() ==> exists|b: Bounds, trace: Seq<Self>|
                converts(range, b) && repeated(lexer, self, round_cap(b), trace, r),
    {
        if self.error().is_some() {
            return self;
        }
        let bounds: Bounds = range.into();
        assert(converts(range, bounds));
        let cap: i64 = match start_end(bounds).1 {
            Some(hi) => if hi < 0 {
                0
            } else {
                hi
            },
            None => i32::MAX as i64,
        };
        let mut cur = self;
        let ghost mut trace: Seq<Self> = seq![self];
        let mut run = lexer;
        let mut i: i64 = 0;
        while i < cap
            invariant
                run == lexer,
                0 <= i <= cap,
                cap == round_cap(bounds),
                converts(range, bounds),
                !self.state().failing(),
                trace.len() == i + 1,
                trace[0] == self,
                trace.last() == cur,
                !cur.state().failing(),
                rounds(lexer, trace),
                forall|c: Self| !c.state().failing() ==> call_requires(lexer, (c,)),
                copies_keep_text::<Self>(),
            decreases cap - i,
        {
            let copy = cur.clone();
            assert(strictly_cloned(cur, copy));
            let t = run(copy);
            assert(round(lexer, cur, t));
            if t.error().is_some() {
                let fatal = match t.error() {
                    Some(ParseError::Fatal(_)) => true,
                    _ => false,
                };
                assert(repeated(lexer, self, cap as int, trace, if fatal {
                    t
                } else {
                    cur
                }));
                if fatal {
                    return t;
                } else {
                    return cur;
                }
            }
            proof {
                let before = trace;
                trace = trace.push(t);
                assert forall|j: int| 0 <= j < trace.len() - 1 implies round(
                    lexer,
                    trace[j],
                    #[trigger] trace[j + 1],
                ) && !trace[j + 1].state().failing() by {
                    if j < before.len() - 1 {
                        assert(trace[j] == before[j]);
                        assert(trace[j + 1] == before[j + 1]);
                    }
                }
            }
            cur = t;
            i = i + 1;
        }
        assert(repeated(lexer, self, cap as int, trace, cur));
        cur
    }

    /// Holds the run of characters in front of the first one that `stop`
    /// accepts against `range`. The cursor passes the run where `range`
    /// accepts its length, fails under the label `action` where it does not,
    /// and is left alone if it already holds an error. A range with a
    /// negative upper end fails before any character is read.
    fn find_first<F>(self, range: Bounds, stop: F, action: &'static str, _args: &str) -> (r:
        Self) where F: Fn(char) -> bool
        requires
            forall|c: char| call_requires(stop, (c,)),
        ensures
            r.values() == self.values(),
            self.state().failing() ==> r.state() == self.state(),
            !self.state().failing() && degenerate(range) ==> r.state() == self.state().failed(
                ErrorView::no_match(action@),
            ),
            !self.state().failing() && !degenerate(range) ==> exists|n: int|
                stops_at(stop, self.state().state->Ok_0, n) && r.state() == self.state().scanned(
                    range,
                    n,
                    action@,
                ),
    {
        let s = match self.str() {
            Ok(s) => s,
            Err(_) => {
                return self;
            },
        };
        let (start, end) = start_end(range);
        if let Some(hi) = end {
            if hi < 0 {
                return self.set_error(failure(action, ""));
            }
        }
        let (n, rest) = split_run(s, stop);
        let found = !rest.is_empty();
        let lower = match start {
            Some(lo) => lo as i128 <= n as i128,
            None => true,
        };
        let upper = match end {
            Some(hi) => if found {
                n as i128 <= hi as i128 + 1
            } else {
                n as i128 <= hi as i128
            },
            None => true,
        };
        let r = if lower && upper {
            self.set_str(rest)
        } else {
            self.set_error(failure(action, ""))
        };
        proof {
            let text = self.state().state->Ok_0;
            assert(text == s@);
            assert(rest@.len() == s@.len() - n);
            assert(found == (n < s@.len()));
            assert((lower && upper) == accepts(range, n as int, n < s@.len()));
            assert(r.state() == self.state().scanned(range, n as int, action@));
            assert(stops_at(stop, text, n as int));
        }
        r
    }

    /// Moves nowhere; on a cursor without a started capture this empties
    /// the default capture.
    fn noop(self) -> (r: Self)
        ensures
            r.state() == self.state().step(|s: Seq<char>| Some(s), "noop"@),
            r.values() == self.values(),
    {
        let f = |s: &'a str| -> (out: Option<&'a str>)
            ensures
                view_of(out) == Some(s@),
            { Some(s) };
        self.apply(f, "noop", "")
    }

    /// Skips whitespace; never fails.
    fn ws(self) -> (r: Self)
        ensures
            r.state() == self.state().step(|s: Seq<char>| Some(trimmed(s, space_class())), "ws"@),
            r.values() == self.values(),
    {
        let f = |s: &'a str| -> (out: Option<&'a str>)
            ensures
                view_of(out) == Some(trimmed(s@, space_class())),
            { Some(skip_spaces(s)) };
        self.apply(f, "ws", "")
    }

    /// Skips everything up to the next whitespace; never fails.
    fn non_ws(self) -> (r: Self)
        ensures
            r.state() == self.state().step(
                |s: Seq<char>| Some(trimmed(s, non_space_class())),
                "non_ws"@,
            ),
            r.values() == self.values(),
    {
        let f = |s: &'a str| -> (out: Option<&'a str>)
            ensures
                view_of(out) == Some(trimmed(s@, non_space_class())),
            { Some(skip_non_spaces(s)) };
        self.apply(f, "non_ws", "")
    }

    /// Skips whitespace within the line; never fails.
    fn hws(self) -> (r: Self)
        ensures
            r.state() == self.state().step(
                |s: Seq<char>| Some(trimmed(s, horizontal_space_class())),
                "hws"@,
            ),
            r.values() == self.values(),
    {
        let f = |s: &'a str| -> (out: Option<&'a str>)
            ensures
                view_of(out) == Some(trimmed(s@, horizontal_space_class())),
            { Some(skip_horizontal_spaces(s)) };
        self.apply(f, "hws", "")
    }

    /// Consumes the literal `word`, or fails where the text does not start
    /// with it. The empty word always matches.
    fn text(self, word: &str) -> (r: Self)
        ensures
            r.state() == self.state().step(|s: Seq<char>| stripped(s, word@), "text"@),
            r.values() == self.values(),
    {
        let f = |s: &'a str| -> (out: Option<&'a str>)
            ensures
                view_of(out) == stripped(s@, word@),
            { strip_prefix(s, word) };
        self.apply(f, "text", word)
    }

    /// Consumes the literal `word` if the text starts with it; never fails.
    fn maybe(self, word: &str) -> (r: Self)
        ensures
            r.state() == self.state().step(
                |s: Seq<char>|
                    Some(
                        match stripped(s, word@) {
                            Some(t) => t,
                            None => s,
                        },
                    ),
                "maybe"@,
            ),
            r.values() == self.values(),
    {
        let f = |s: &'a str| -> (out: Option<&'a str>)
            ensures
                view_of(out) == Some(
                    match stripped(s@, word@) {
                        Some(t) => t,
                        None => s@,
                    },
                ),
            {
                match strip_prefix(s, word) {
                    Some(t) => Some(t),
                    None => Some(s),
                }
            };
        self.apply(f, "maybe", word)
    }

    /// Consumes the first of `words`, in their order, that the text starts
    /// with, or fails where it starts with none.
    fn text_alt(self, words: &[&str]) -> (r: Self)
        ensures
            r.state() == self.state().step(|s: Seq<char>| stripped_any(s, words@), "text_alt"@),
            r.values() == self.values(),
    {
        let f = |s: &'a str| -> (out: Option<&'a str>)
            ensures
                view_of(out) == stripped_any(s@, words@),
            { strip_any(s, words) };
        self.apply(f, "text_alt", "")
    }

    /// Succeeds at the end of the text and fails everywhere else.
    fn text_eos(self) -> (r: Self)
        ensures
            r.state() == self.state().step(
                |s: Seq<char>|
                    if s.len() == 0 {
                        Some(s)
                    } else {
                        None
                    },
                "eos"@,
            ),
            r.values() == self.values(),
    {
        let f = |s: &'a str| -> (out: Option<&'a str>)
            ensures
                view_of(out) == if s@.len() == 0 {
                    Some(s@)
                } else {
                    None
                },
            {
                if s.is_empty() {
                    Some(s)
                } else {
                    None
                }
            };
        self.apply(f, "eos", "")
    }

    /// Succeeds at the end of the text, consumes a line terminator (`\r\n`
    /// or `\n`) at the front of the text, and fails everywhere else.
    fn text_eol(self) -> (r: Self)
        ensures
            r.state() == self.state().step(|s: Seq<char>| line_end(s), "eol"@),
            r.values() == self.values(),
    {
        let f = |s: &'a str| -> (out: Option<&'a str>)
            ensures
                view_of(out) == line_end(s@),
            { strip_line_end(s) };
        self.apply(f, "eol", "")
    }

    /// Moves to the first occurrence of `needle`, which stays unconsumed, or
    /// fails where there is none.
    fn find(self, needle: &str) -> (r: Self)
        ensures
            r.state() == self.state().step(
                |s: Seq<char>|
                    match found_at(s, needle@) {
                        Some(k) => Some(s.skip(k)),
                        None => None,
                    },
                "find"@,
            ),
            r.values() == self.values(),
    {
        let f = |s: &'a str| -> (out: Option<&'a str>)
            ensures
                view_of(out) == match found_at(s@, needle@) {
                    Some(k) => Some(s@.skip(k)),
                    None => None,
                },
            {
                match find_text(s, needle) {
                    Some((_, at)) => Some(at),
                    None => None,
                }
            };
        self.apply(f, "find", needle)
    }

    /// Moves behind the first occurrence of `needle`, or fails where there
    /// is none.
    fn scan_text(self, needle: &str) -> (r: Self)
        ensures
            r.state() == self.state().step(
                |s: Seq<char>|
                    match found_at(s, needle@) {
                        Some(k) => Some(s.skip(k + needle@.len())),
                        None => None,
                    },
                "scan"@,
            ),
            r.values() == self.values(),
    {
        let f = |s: &'a str| -> (out: Option<&'a str>)
            ensures
                view_of(out) == match found_at(s@, needle@) {
                    Some(k) => Some(s@.skip(k + needle@.len())),
                    None => None,
                },
            {
                match find_text(s, needle) {
                    Some((k, at)) => {
                        let after = strip_prefix(at, needle);
                        assert(after is Some);
                        assert(s@.skip(k as int).skip(needle@.len() as int) =~= s@.skip(
                            k + needle@.len(),
                        ));
                        after
                    },
                    None => None,
                }
            };
        self.apply(f, "scan", "needle")
    }

    /// Moves behind the next line feed, or to the end of the text where no
    /// line feed is left; never fails.
    fn scan_eol(self) -> (r: Self)
        ensures
            r.state() == self.state().step(|s: Seq<char>| Some(after_line(s)), "scan_eol"@),
            r.values() == self.values(),
    {
        let f = |s: &'a str| -> (out: Option<&'a str>)
            ensures
                view_of(out) == Some(after_line(s@)),
            { Some(skip_line(s)) };
        self.apply(f, "scan_eol", "")
    }

    /// Skips a word: alphanumeric characters, digits and hyphens; never
    /// fails.
    fn word(self) -> (r: Self)
        ensures
            r.state() == self.state().step(|s: Seq<char>| Some(trimmed(s, word_class())), "word"@),
            r.values() == self.values(),
    {
        let f = |s: &'a str| -> (out: Option<&'a str>)
            ensures
                view_of(out) == Some(trimmed(s@, word_class())),
            { Some(skip_word(s)) };
        self.apply(f, "word", "")
    }

    /// Matches a run of ASCII digits whose length `range` accepts.
    fn digits<R: Into<Bounds>>(self, range: R) -> (r: Self)
        ensures
            r.values() == self.values(),
            self.state().failing() ==> r.state() == self.state(),
            exists|b: Bounds|
                converts(range, b) && r.state() == self.state().scanned_class(b, digit_class(), "digits_m"@),
    {
        let stop = |c: char| -> (b: bool)
            ensures
                b == outside_of(digit_class())(c),
            { !is_ascii_digit(c) };
        let bounds: Bounds = range.into();
        assert(converts(range, bounds));
        let r = self.find_first(bounds, stop, "digits_m", "");
        proof {
            lemma_scanned_class(stop, digit_class(), self.state(), bounds, "digits_m"@, r.state());
        }
        r
    }

    /// Matches a run of alphabetic characters whose length `range` accepts.
    fn alphabetics<R: Into<Bounds>>(self, range: R) -> (r: Self)
        ensures
            r.values() == self.values(),
            self.state().failing() ==> r.state() == self.state(),
            exists|b: Bounds|
                converts(range, b) && r.state() == self.state().scanned_class(b, alphabetic_class(), "alpha_many"@),
    {
        let stop = |c: char| -> (b: bool)
            ensures
                b == outside_of(alphabetic_class())(c),
            { !is_alphabetic(c) };
        let bounds: Bounds = range.into();
        assert(converts(range, bounds));
        let r = self.find_first(bounds, stop, "alpha_many", "");
        proof {
            lemma_scanned_class(stop, alphabetic_class(), self.state(), bounds, "alpha_many"@, r.state());
        }
        r
    }

    /// Matches a run of alphanumeric characters whose length `range` accepts.
    fn alphanumerics<R: Into<Bounds>>(self, range: R) -> (r: Self)
        ensures
            r.values() == self.values(),
            self.state().failing() ==> r.state() == self.state(),
            exists|b: Bounds|
                converts(range, b) && r.state() == self.state().scanned_class(b, alphanumeric_class(), "alpha_many"@),
    {
        let stop = |c: char| -> (b: bool)
            ensures
                b == outside_of(alphanumeric_class())(c),
            { !is_alphanumeric(c) };
        let bounds: Bounds = range.into();
        assert(converts(range, bounds));
        let r = self.find_first(bounds, stop, "alpha_many", "");
        proof {
            lemma_scanned_class(stop, alphanumeric_class(), self.state(), bounds, "alpha_many"@, r.state());
        }
        r
    }

    /// Matches a run of characters listed in `chars` whose length `range`
    /// accepts.
    fn chars_in<R: Into<Bounds>>(self, range: R, chars: &[char]) -> (r: Self)
        ensures
            r.values() == self.values(),
            self.state().failing() ==> r.state() == self.state(),
            exists|b: Bounds|
                converts(range, b) && r.state() == self.state().scanned_class(b, one_of(chars@), "chars_in"@),
    {
        let stop = |c: char| -> (b: bool)
            ensures
                b == outside_of(one_of(chars@))(c),
            { !contains_char(chars, c) };
        let bounds: Bounds = range.into();
        assert(converts(range, bounds));
        let r = self.find_first(bounds, stop, "chars_in", "");
        proof {
            lemma_scanned_class(stop, one_of(chars@), self.state(), bounds, "chars_in"@, r.state());
        }
        r
    }

    /// Matches a run of characters not listed in `chars` whose length
    /// `range` accepts.
    fn chars_not_in<R: Into<Bounds>>(self, range: R, chars: &[char]) -> (r: Self)
        ensures
            r.values() == self.values(),
            self.state().failing() ==> r.state() == self.state(),
            exists|b: Bounds|
                converts(range, b) && r.state() == self.state().scanned_class(b, none_of(chars@), "chars_not_in"@),
    {
        let stop = |c: char| -> (b: bool)
            ensures
                b == outside_of(none_of(chars@))(c),
            { contains_char(chars, c) };
        let bounds: Bounds = range.into();
        assert(converts(range, bounds));
        let r = self.find_first(bounds, stop, "chars_not_in", "");
        proof {
            lemma_scanned_class(stop, none_of(chars@), self.state(), bounds, "chars_not_in"@, r.state());
        }
        r
    }
    /// Matches a run of characters that `pred` accepts and whose length
    /// `range` accepts.
    fn chars_match<R, F>(self, range: R, pred: F) -> (r: Self) where
        R: Into<Bounds>,
        F: Fn(char) -> bool,

        requires
            forall|c: char| call_requires(pred, (c,)),
        ensures
            r.values() == self.values(),
            self.state().failing() ==> r.state() == self.state(),
            exists|b: Bounds|
                converts(range, b) && matched(pred, self.state(), b, "chars_match"@, r.state()),
    {
        let accept = &pred;
        let stop = |c: char| -> (b: bool)
            requires
                call_requires(accept, (c,)),
            ensures
                call_ensures(accept, (c,), !b),
            { !accept(c) };
        let bounds: Bounds = range.into();
        assert(converts(range, bounds));
        let r = self.find_first(bounds, stop, "chars_match", "");
        proof {
            if let Ok(s) = self.state().state {
                if !degenerate(bounds) {
                    let n = choose|n: int|
                        stops_at(stop, s, n) && r.state() == self.state().scanned(
                            bounds,
                            n,
                            "chars_match"@,
                        );
                    assert(matches_run(pred, s, n));
                }
            }
            assert(matched(pred, self.state(), bounds, "chars_match"@, r.state()));
        }
        r
    }

    /// Collects the values that `parser` produces on successive cursors
    /// until it fails. A recoverable failure ends the loop: the answer is
    /// the last cursor with the values, of which there may be none. A fatal
    /// failure is the answer itself.
    fn parse_struct_vec<P, T>(self, parser: P) -> (r: Result<
        <Self as Detuple<Vec<T>>>::TupleReturn,
        ParseError,
    >) where P: FnMut(Self) -> Result<(Self, T), ParseError>, Self: Clone + Detuple<Vec<T>>
        requires
            forall|c: Self| call_requires(parser, (c,)),
            copies_keep_text::<Self>(),
            consuming(parser),
        ensures
            exists|trace: Seq<Self>, vals: Seq<T>| collected(parser, self, trace, vals, r),
            r matches Err(e) ==> e is Fatal,
            never_matching(parser, self) ==> exists|vec: Vec<T>|
                vec@.len() == 0 && r == Ok::<<Self as Detuple<Vec<T>>>::TupleReturn, ParseError>(
                    #[trigger] Self::detupled((self, vec)),
                ),
    {
        let mut run = parser;
        let mut vec: Vec<T> = Vec::new();
        let mut cur = self;
        let ghost mut trace: Seq<Self> = seq![self];
        loop
            invariant
                run == parser,
                elements(parser, trace, vec@),
                trace[0] == self,
                trace.last() == cur,
                forall|c: Self| call_requires(parser, (c,)),
                copies_keep_text::<Self>(),
                consuming(parser),
            decreases ahead(cur.state()),
        {
            let copy = cur.clone();
            assert(strictly_cloned(cur, copy));
            let res = run(copy);
            assert(element(parser, cur, res));
            match res {
                Ok((next, v)) => {
                    proof {
                        lemma_elements_push(parser, trace, vec@, next, v);
                        trace = trace.push(next);
                    }
                    vec.push(v);
                    cur = next;
                },
                Err(e) => {
                    let ghost vals = vec@;
                    match e {
                        ParseError::NoMatch { action, args } => {
                            let ghost stopped = ParseError::NoMatch { action, args };
                            let r = Ok(Self::maybe_detuple((cur, vec)));
                            assert(element(
                                parser,
                                trace.last(),
                                Err::<(Self, T), ParseError>(stopped),
                            ));
                            assert(collected(parser, self, trace, vals, r));
                            proof {
                                lemma_first_element(parser, trace, vals);
                            }
                            return r;
                        },
                        ParseError::Fatal(cause) => {
                            let ghost stopped = ParseError::Fatal(cause);
                            let r = Err(ParseError::Fatal(cause));
                            assert(element(
                                parser,
                                trace.last(),
                                Err::<(Self, T), ParseError>(stopped),
                            ));
                            assert(collected(parser, self, trace, vals, r));
                            proof {
                                lemma_first_element(parser, trace, vals);
                            }
                            return r;
                        },
                    }
                },
            }
        }
    }

    /// Hands the values that `parser` produces on successive cursors to
    /// `vec` until `parser` fails. A recoverable failure ends the loop: the
    /// answer is the last cursor. A fatal failure is the answer itself.
    /// Either way `vec` holds what it held, followed by the values in the
    /// order in which they were produced.
    fn parse_struct_vec_to<P, X, T>(self, parser: P, vec: &mut X) -> (r: Result<
        Self,
        ParseError,
    >) where P: FnMut(Self) -> Result<(Self, T), ParseError>, X: Sink<T>, Self: Clone
        requires
            forall|c: Self| call_requires(parser, (c,)),
            copies_keep_text::<Self>(),
            consuming(parser),
        ensures
            exists|trace: Seq<Self>, vals: Seq<T>|
                collected_to(parser, self, trace, vals, r) && final(vec).items() == old(
                    vec,
                ).items() + vals && (vals.len() == 0 ==> *final(vec) == *old(vec)),
            r matches Err(e) ==> e is Fatal,
            never_matching(parser, self) ==> r == Ok::<Self, ParseError>(self) && *final(vec)
                == *old(vec),
    {
        let mut run = parser;
        let mut cur = self;
        let ghost mut trace: Seq<Self> = seq![self];
        let ghost mut vals: Seq<T> = Seq::empty();
        assert(vec.items() + vals =~= vec.items());
        loop
            invariant
                run == parser,
                elements(parser, trace, vals),
                trace[0] == self,
                trace.last() == cur,
                vals.len() == 0 ==> *vec == *old(vec),
                vec.items() == old(vec).items() + vals,
                forall|c: Self| call_requires(parser, (c,)),
                copies_keep_text::<Self>(),
                consuming(parser),
            decreases ahead(cur.state()),
        {
            let copy = cur.clone();
            assert(strictly_cloned(cur, copy));
            let res = run(copy);
            assert(element(parser, cur, res));
            match res {
                Ok((next, v)) => {
                    proof {
                        lemma_elements_push(parser, trace, vals, next, v);
                        assert((old(vec).items() + vals).push(v) =~= old(vec).items() + vals.push(
                            v,
                        ));
                        trace = trace.push(next);
                        vals = vals.push(v);
                    }
                    vec.put(v);
                    cur = next;
                },
                Err(e) => {
                    match e {
                        ParseError::NoMatch { action, args } => {
                            let ghost stopped = ParseError::NoMatch { action, args };
                            let r = Ok(cur);
                            assert(element(
                                parser,
                                trace.last(),
                                Err::<(Self, T), ParseError>(stopped),
                            ));
                            assert(collected_to(parser, self, trace, vals, r));
                            proof {
                                lemma_first_element(parser, trace, vals);
                            }
                            return r;
                        },
                        ParseError::Fatal(cause) => {
                            let ghost stopped = ParseError::Fatal(cause);
                            let r = Err(ParseError::Fatal(cause));
                            assert(element(
                                parser,
                                trace.last(),
                                Err::<(Self, T), ParseError>(stopped),
                            ));
                            assert(collected_to(parser, self, trace, vals, r));
                            proof {
                                lemma_first_element(parser, trace, vals);
                            }
                            return r;
                        },
                    }
                },
            }
        }
    }

    /// Runs `parser` on the remaining text, moves to the text that it left
    /// and appends its value to the cursor's values. A failing cursor is a
    /// failure, and `parser` is not called.
    fn parse_struct_str<P, T>(self, parser: P) -> (r: Result<
        <Self as Detuple<T>>::TupleReturn,
        ParseError,
    >) where P: FnMut(&'a str) -> Result<(&'a str, T), ParseError>, Self: Detuple<T>
        requires
            self.state().state matches Ok(text) ==> text_callable(parser, text),
        ensures
            match self.state().state {
                Ok(text) => exists|res: Result<(&'a str, T), ParseError>| #[trigger]
                    text_element(parser, text, res) && text_parsed(self, res, r),
                Err(_) => r matches Err(e) && e@ == ErrorView::no_match("str on erroring cursor"@),
            },
    {
        let mut run = parser;
        match self.str() {
            Ok(s) => {
                let res = run(s);
                assert(text_element(parser, s@, res));
                match res {
                    Ok((rest, v)) => {
                        let after = self.set_str(rest);
                        let r = Ok(Self::maybe_detuple((after, v)));
                        assert(text_parsed(self, res, r));
                        r
                    },
                    Err(e) => Err(e),
                }
            },
            Err(e) => Err(e),
        }
    }

    /// Runs `parser` on the cursor and appends its value to the values of
    /// the cursor that it hands back.
    fn parse_struct<C, P, T>(self, parser: P) -> (r: Result<
        <Self as Detuple<T>>::TupleReturn,
        ParseError,
    >) where P: FnMut(Self) -> Result<(Self, T), ParseError>, Self: Detuple<T>
        requires
            call_requires(parser, (self,)),
        ensures
            exists|res: Result<(Self, T), ParseError>| #[trigger]
                call_ensures(parser, (self,), res) && r == match res {
                    Ok(pair) => Ok::<<Self as Detuple<T>>::TupleReturn, ParseError>(
                        Self::detupled(pair),
                    ),
                    Err(e) => Err::<<Self as Detuple<T>>::TupleReturn, ParseError>(e),
                },
    {
        let mut run = parser;
        let res = run(self);
        match res {
            Ok(pair) => Ok(Self::maybe_detuple(pair)),
            Err(e) => Err(e),
        }
    }

    /// Runs `parser` on the remaining text and hands its value to
    /// `save_func`. The cursor does not move. A failing cursor is a failure,
    /// and neither function is called.
    fn parse_with<P, F, T>(self, parser: P, save_func: F) -> (r: Result<Self, ParseError>) where
        P: FnMut(&'a str) -> Result<(&'a str, T), ParseError>,
        F: FnOnce(T),

        requires
            self.state().state matches Ok(text) ==> text_callable(parser, text),
            forall|v: T| call_requires(save_func, (v,)),
        ensures
            match self.state().state {
                Ok(text) => exists|res: Result<(&'a str, T), ParseError>| #[trigger]
                    text_element(parser, text, res) && match res {
                        Ok((_, v)) => r == Ok::<Self, ParseError>(self) && call_ensures(
                            save_func,
                            (v,),
                            (),
                        ),
                        Err(e) => r == Err::<Self, ParseError>(e),
                    },
                Err(_) => r matches Err(e) && e@ == ErrorView::no_match("str on erroring cursor"@),
            },
    {
        let mut run = parser;
        match self.str() {
            Ok(s) => {
                let res = run(s);
                assert(text_element(parser, s@, res));
                match res {
                    Ok((_, v)) => {
                        save_func(v);
                        Ok(self)
                    },
                    Err(e) => Err(e),
                }
            },
            Err(e) => Err(e),
        }
    }

    /// Runs `parser` on the remaining text and stores its value in `dest`.
    /// The cursor does not move. A failing cursor is a failure, and `parser`
    /// is not called.
    fn parse_put<P, T>(self, parser: P, dest: &mut T) -> (r: Result<Self, ParseError>) where
        P: FnMut(&'a str) -> Result<(&'a str, T), ParseError>,

        requires
            self.state().state matches Ok(text) ==> text_callable(parser, text),
        ensures
            match self.state().state {
                Ok(text) => exists|res: Result<(&'a str, T), ParseError>| #[trigger]
                    text_element(parser, text, res) && match res {
                        Ok((_, v)) => r == Ok::<Self, ParseError>(self) && *final(dest) == v,
                        Err(e) => r == Err::<Self, ParseError>(e) && *final(dest) == *old(dest),
                    },
                Err(_) => *final(dest) == *old(dest) && (r matches Err(e) && e@
                    == ErrorView::no_match("str on erroring cursor"@)),
            },
    {
        let mut run = parser;
        match self.str() {
            Ok(s) => {
                let res = run(s);
                assert(text_element(parser, s@, res));
                match res {
                    Ok((_, v)) => {
                        *dest = v;
                        Ok(self)
                    },
                    Err(e) => Err(e),
                }
            },
            Err(e) => Err(e),
        }
    }

    /// Runs `parser` on the remaining text and stores its value in `dest`
    /// as `Some`. The cursor does not move. A failing cursor is a failure,
    /// and `parser` is not called.
    fn parse_to_opt<P, T>(self, parser: P, dest: &mut Option<T>) -> (r: Result<
        Self,
        ParseError,
    >) where P: FnMut(&'a str) -> Result<(&'a str, T), ParseError>
        requires
            self.state().state matches Ok(text) ==> text_callable(parser, text),
        ensures
            match self.state().state {
                Ok(text) => exists|res: Result<(&'a str, T), ParseError>| #[trigger]
                    text_element(parser, text, res) && match res {
                        Ok((_, v)) => r == Ok::<Self, ParseError>(self) && *final(dest) == Some(v),
                        Err(e) => r == Err::<Self, ParseError>(e) && *final(dest) == *old(dest),
                    },
                Err(_) => *final(dest) == *old(dest) && (r matches Err(e) && e@
                    == ErrorView::no_match("str on erroring cursor"@)),
            },
    {
        let mut run = parser;
        match self.str() {
            Ok(s) => {
                let res = run(s);
                assert(text_element(parser, s@, res));
                match res {
                    Ok((_, v)) => {
                        *dest = Some(v);
                        Ok(self)
                    },
                    Err(e) => Err(e),
                }
            },
            Err(e) => Err(e),
        }
    }
}

/// The capture window of a cursor, and the conversions that read it.
pub trait Selectable<'a>: Matchable<'a> {
    /// The captured text, or a failure if an error is stored.
    fn get_selection(&self) -> (r: Result<&'a str, ParseError>)
        ensures
            match r {
                Ok(text) => self.state().captured() == Ok::<Seq<char>, ErrorView>(text@),
                Err(e) => self.state().captured() == Err::<Seq<char>, ErrorView>(e@),
            },
    ;

    /// Starts a capture at the cursor; a failing cursor stays as it is.
    fn selection_start(self) -> (r: Self)
        ensures
            r.state() == self.state().started(),
            r.values() == self.values(),
    ;

    /// Closes the capture at the cursor; a failing cursor stays as it is.
    fn selection_end(self) -> (r: Self)
        ensures
            r.state() == self.state().ended(),
            r.values() == self.values(),
    ;

    /// Flattens a pair that holds a pair.
    fn de_nest_tuple<S, T, U>(nested: ((S, T), U)) -> (r: (S, T, U))
        ensures
            r == (nested.0.0, nested.0.1, nested.1),
    {
        let ((s, t), u) = nested;
        (s, t, u)
    }

    /// Finishes `parse_selection` with what converting the captured text
    /// answered: the value joins the cursor's values, and a failed
    /// conversion is the failure `parse` on the captured text.
    fn parsed_selection<T>(self, parsed: Option<T>) -> (r: Result<
        <Self as Detuple<T>>::TupleReturn,
        ParseError,
    >) where Self: Detuple<T>
        ensures
            selection_parsed(self, parsed, r),
    {
        match self.get_selection() {
            Ok(text) => match parsed {
                Some(v) => Ok(Self::maybe_detuple((self, v))),
                None => Err(failure_on("parse", text)),
            },
            Err(e) => Err(e),
        }
    }

    /// Converts the captured text to a `T` and appends it to the cursor's
    /// values.
    fn parse_selection<T: FromStr>(self) -> (r: Result<
        <Self as Detuple<T>>::TupleReturn,
        ParseError,
    >) where Self: Detuple<T>
        ensures
            selection_converted::<Self, T>(self, r),
    {
        match self.get_selection() {
            Ok(text) => {
                let parsed = parse_text::<T>(text);
                let ghost answer = parsed;
                assert(converted(text@, answer));
                let r = self.parsed_selection(parsed);
                assert(selection_parsed(self, answer, r));
                r
            },
            Err(_) => self.parsed_selection(None),
        }
    }

    /// Finishes `append_last` with what converting the captured text
    /// answered: the value is put behind the values that `vec` holds, and a
    /// failed conversion leaves `vec` alone and stores a failure without
    /// label. A failing cursor stays as it is, and `vec` with it.
    fn append_parsed<X, T>(self, parsed: Option<T>, vec: &mut X) -> (r: Self) where X: Sink<T>
        ensures
            r.values() == self.values(),
            r.state() == appended(self.state(), parsed),
            self.state().failing() || parsed is None ==> *final(vec) == *old(vec),
            !self.state().failing() ==> (parsed matches Some(v) ==> final(vec).items() == old(
                vec,
            ).items().push(v)),
    {
        if self.error().is_some() {
            return self;
        }
        match parsed {
            Some(t) => {
                vec.put(t);
                self
            },
            None => self.set_error(failure("", "")),
        }
    }

    /// Converts the captured text to a `T` and puts it behind the values
    /// that `vec` holds. What happens goes by the answer of the conversion
    /// on the captured text: with a value the cursor stays as it is and
    /// `vec` holds one value more, and without one `vec` stays as it is and
    /// the cursor stores a failure without label. A failing cursor stays as
    /// it is, and `vec` with it.
    fn append_last<X, T>(self, vec: &mut X) -> (r: Self) where X: Sink<T>, T: FromStr
        ensures
            r.values() == self.values(),
            self.state().failing() ==> r.state() == self.state() && *final(vec) == *old(vec),
            self.state().captured() matches Ok(text) ==> appends::<T>(
                self.state(),
                text,
                r.state(),
                old(vec).items(),
                final(vec).items(),
                *final(vec) == *old(vec),
            ),
    {
        match self.get_selection() {
            Ok(text) => {
                let parsed = parse_text::<T>(text);
                let ghost answer = parsed;
                assert(converted(text@, answer));
                let r = self.append_parsed(parsed, vec);
                assert(appends::<T>(
                    self.state(),
                    text@,
                    r.state(),
                    old(vec).items(),
                    vec.items(),
                    *vec == *old(vec),
                ));
                r
            },
            Err(_) => self,
        }
    }

    /// Finishes `select` with the cursor that its sub-parser handed back.
    fn close_selection(self) -> (r: Self)
        ensures
            r.state() == self.state().selected(),
            r.values() == self.values(),
    {
        match self.str() {
            Ok(rest) => self.set_str(rest).selection_end(),
            Err(_) => {
                let fatal = match self.error() {
                    Some(ParseError::Fatal(_)) => true,
                    _ => false,
                };
                if fatal {
                    self
                } else {
                    self.set_error(failure("select_with", ""))
                }
            },
        }
    }

    /// Runs `parser` from a fresh capture and closes the capture where
    /// `parser` succeeds. A failing cursor stays as it is, and `parser` is
    /// not called.
    fn select<P>(self, mut parser: P) -> (r: Self) where P: FnMut(Self) -> Self
        requires
            !self.state().failing() ==> forall|c: Self|
                c.state() == self.state().started() && c.values() == self.values()
                    ==> call_requires(parser, (c,)),
        ensures
            self.state().failing() ==> r.state() == self.state() && r.values() == self.values(),
            !self.state().failing() ==> exists|c: Self, t: Self|
                c.state() == self.state().started() && c.values() == self.values()
                    && call_ensures(parser, (c,), t) && r.state() == t.state().selected()
                    && r.values() == t.values(),
    {
        if self.error().is_some() {
            return self;
        }
        let c = self.selection_start();
        let t = parser(c);
        t.close_selection()
    }

    /// The captured text beside the cursor.
    fn parse_selection_as_str(self) -> (r: Result<(Self, &'a str), ParseError>)
        ensures
            match r {
                Ok((c, text)) => c == self && self.state().captured() == Ok::<
                    Seq<char>,
                    ErrorView,
                >(text@),
                Err(e) => self.state().captured() == Err::<Seq<char>, ErrorView>(e@),
            },
    {
        match self.get_selection() {
            Ok(text) => Ok((self, text)),
            Err(e) => Err(e),
        }
    }
}

impl<'a> ParseState for Cursor<'a> {
    type Values = ();

    open spec fn state(&self) -> CursorView {
        self@
    }

    open spec fn values(&self) -> () {
        ()
    }
}

impl<'a> Matchable<'a> for Cursor<'a> {
    fn str(&self) -> (r: Result<&'a str, ParseError>) {
        match &self.state {
            Ok(s) => Ok(*s),
            Err(_) => Err(failure("str on erroring cursor", "")),
        }
    }

    fn set_str(self, s: &'a str) -> (r: Self) {
        match self.state {
            Ok(from) => Cursor {
                selection: self.selection.move_cursor(from),
                state: Ok(s),
                context: self.context,
            },
            Err(_) => self,
        }
    }

    fn set_error(self, e: ParseError) -> (r: Self) {
        Cursor { selection: self.selection, state: Err(e), context: self.context }
    }

    fn validate(self) -> (r: Result<Self, ParseError>) {
        match self.state {
            Ok(s) => Ok(Cursor { selection: self.selection, state: Ok(s), context: self.context }),
            Err(e) => Err(e),
        }
    }

    fn error(&self) -> (e: Option<&ParseError>) {
        match &self.state {
            Ok(_) => None,
            Err(stored) => Some(stored),
        }
    }

    fn debug_context(self, span_name: &'static str) -> (r: Self) {
        Cursor { selection: self.selection, state: self.state, context: span_name }
    }
}

impl<'a> Selectable<'a> for Cursor<'a> {
    fn get_selection(&self) -> (r: Result<&'a str, ParseError>) {
        match &self.state {
            Ok(cur) => Ok(self.selection.capture(cur)),
            Err(_) => Err(failure("str on erroring cursor", "")),
        }
    }

    fn selection_start(self) -> (r: Self) {
        match self.state {
            Ok(cur) => Cursor {
                selection: Selection::Start(cur, None),
                state: Ok(cur),
                context: self.context,
            },
            Err(_) => self,
        }
    }

    fn selection_end(self) -> (r: Self) {
        match self.state {
            Ok(cur) => Cursor {
                selection: Selection::Start(self.selection.start(), Some(cur)),
                state: Ok(cur),
                context: self.context,
            },
            Err(_) => self,
        }
    }
}

impl<'a, T> Detuple<T> for Cursor<'a> {
    type TupleReturn = (Cursor<'a>, T);

    open spec fn detupled(tup: (Self, T)) -> (Cursor<'a>, T) {
        (tup.0, tup.1)
    }

    fn maybe_detuple(tup: (Self, T)) -> (r: (Cursor<'a>, T)) {
        (tup.0, tup.1)
    }
}

/// Copies of a bare cursor keep its text.
pub proof fn lemma_cursor_copies<'a>()
    ensures
        copies_keep_text::<Cursor<'a>>(),
{
    assert forall|c: Cursor<'a>, copy: Cursor<'a>| #[trigger]
        strictly_cloned(c, copy) implies copy.state().text() == c.state().text() by {
        assert(copy@ == c@.copied());
    }
}

/// Stores the value of a successful step in a variable and hands the cursor
/// on.
pub trait Bind<T>: Sized {
    type Output;

    /// The cursor and the value of a successful step.
    spec fn bound(self) -> Option<(Self::Output, T)>;

    /// Stores the value in `target` and hands back the cursor. The step
    /// must have succeeded.
    fn bind(self, target: &mut T) -> (r: Self::Output)
        requires
            self.bound() is Some,
        ensures
            self.bound() == Some((r, *final(target))),
    ;
}

impl<'a, C, T> Bind<T> for Result<(C, T), ParseError> where C: Matchable<'a> {
    type Output = C;

    open spec fn bound(self) -> Option<(C, T)> {
        match self {
            Ok(pair) => Some(pair),
            Err(_) => None,
        }
    }

    fn bind(self, target: &mut T) -> (r: C) {
        match self {
            Ok((c, t)) => {
                *target = t;
                c
            },
            Err(_) => vstd::pervasive::unreached(),
        }
    }
}

/// What a sub-parser over text, lifted to cursors, can answer on a cursor in
/// the state `c`: the sub-parser runs on the remaining text, and a fresh
/// cursor is made of the text that it left. A failing cursor is a failure.
pub open spec fn cursorified<'a, T, F: Fn(&'a str) -> Result<(&'a str, T), ParseError>>(
    f: F,
    c: CursorView,
    r: Result<(Cursor<'a>, T), ParseError>,
) -> bool {
    match c.state {
        Ok(text) => exists|res: Result<(&'a str, T), ParseError>| #[trigger]
            text_element(f, text, res) && match res {
                Ok((rest, v)) => r matches Ok((after, got)) && after@ == CursorView::fresh(rest@)
                    && got == v,
                Err(e) => r == Err::<(Cursor<'a>, T), ParseError>(e),
            },
        Err(_) => r matches Err(e) && e@ == ErrorView::no_match("str on erroring cursor"@),
    }
}

/// Lifts a sub-parser over text to a sub-parser over cursors.
pub fn cursorify<'a, T, F>(f: F) -> (g: impl Fn(Cursor<'a>) -> Result<
    (Cursor<'a>, T),
    ParseError,
>) where F: Fn(&'a str) -> Result<(&'a str, T), ParseError>
    ensures
        forall|c: Cursor<'a>|
            (c@.state matches Ok(text) ==> text_callable(f, text)) ==> call_requires(g, (c,)),
        forall|c: Cursor<'a>, r: Result<(Cursor<'a>, T), ParseError>|
            call_ensures(g, (c,), r) ==> cursorified(f, c@, r),
{
    move |c: Cursor<'a>| -> (r: Result<(Cursor<'a>, T), ParseError>)
        requires
            c@.state matches Ok(text) ==> text_callable(f, text),
        ensures
            cursorified(f, c@, r),
        {
            match c.str() {
                Ok(s) => {
                    let res = f(s);
                    assert(text_element(f, s@, res));
                    match res {
                        Ok((rest, v)) => Ok((cursor(rest), v)),
                        Err(e) => Err(e),
                    }
                },
                Err(e) => Err(e),
            }
        }
}

/// One step of a parse: it is handed a cursor and answers with a cursor and
/// a value, or with a failure.
pub trait Parser<'a, T> {
    /// Whether the step can be run on the cursor `s`.
    spec fn accepts(&self, s: Cursor<'a>) -> bool;

    /// Whether the step, run on the cursor `s`, can answer `r`.
    spec fn answers(&self, s: Cursor<'a>, r: Result<(Cursor<'a>, T), ParseError>) -> bool;

    fn parse(&mut self, s: Cursor<'a>) -> (r: Result<(Cursor<'a>, T), ParseError>)
        requires
            old(self).accepts(s),
        ensures
            old(self).answers(s, r),
    ;
}

impl<'a, T, F> Parser<'a, T> for F where F: FnMut(Cursor<'a>) -> Result<(Cursor<'a>, T), ParseError> {
    open spec fn accepts(&self, s: Cursor<'a>) -> bool {
        call_requires(*self, (s,))
    }

    open spec fn answers(&self, s: Cursor<'a>, r: Result<(Cursor<'a>, T), ParseError>) -> bool {
        call_ensures(*self, (s,), r)
    }

    fn parse(&mut self, s: Cursor<'a>) -> (r: Result<(Cursor<'a>, T), ParseError>) {
        self(s)
    }
}

} // verus!
