//! The outcome taxonomy shared by every combinator: a recoverable `NoMatch`
//! used for backtracking, and a `Fatal` failure that aborts all parsing.

use vstd::prelude::*;
use vstd::string::StringExecFns;

verus! {

/// Tells whether parsing may continue after an error.
pub trait Recoverable {
    /// The classification, as a function of the value alone.
    spec fn recoverable(&self) -> bool;

    fn is_recoverable(&self) -> (b: bool)
        ensures
            b == self.recoverable(),
    ;
}

/// A parse failure.
///
/// `Fatal` carries the message of its underlying cause, if there is one.
/// `NoMatch` names the combinator that failed and its argument.
#[derive(Debug)]
pub enum ParseError {
    Fatal(Option<String>),
    NoMatch { action: &'static str, args: String },
}

/// A parse failure as plain text.
pub enum ErrorView {
    Fatal(Option<Seq<char>>),
    NoMatch { action: Seq<char>, args: Seq<char> },
}

impl View for ParseError {
    type V = ErrorView;

    open spec fn view(&self) -> ErrorView {
        match *self {
            ParseError::Fatal(Some(cause)) => ErrorView::Fatal(Some(cause@)),
            ParseError::Fatal(None) => ErrorView::Fatal(None),
            ParseError::NoMatch { action, args } => ErrorView::NoMatch {
                action: action@,
                args: args@,
            },
        }
    }
}

impl ErrorView {
    /// A failed match of the combinator `action`, with no argument recorded.
    pub open spec fn no_match(action: Seq<char>) -> ErrorView {
        ErrorView::NoMatch { action, args: Seq::empty() }
    }

    /// The error without its cause: what a copy of the error keeps.
    pub open spec fn without_cause(self) -> ErrorView {
        match self {
            ErrorView::Fatal(_) => ErrorView::Fatal(None),
            ErrorView::NoMatch { action, args } => ErrorView::NoMatch { action, args },
        }
    }

    /// The text that `ParseError::message` renders.
    pub open spec fn rendered(self) -> Seq<char> {
        match self {
            ErrorView::Fatal(Some(cause)) => "Fatal:"@ + cause,
            ErrorView::Fatal(None) => "Fatal:"@,
            ErrorView::NoMatch { action, args } => "FailedMatch: (action='"@ + action
                + "' args='"@ + args + "')"@,
        }
    }
}

impl Recoverable for ParseError {
    open spec fn recoverable(&self) -> bool {
        self@ is NoMatch
    }

    fn is_recoverable(&self) -> (b: bool) {
        match self {
            ParseError::NoMatch { .. } => true,
            ParseError::Fatal(_) => false,
        }
    }
}

impl ParseError {
    /// Renders the error for display: a fatal error as its cause (or nothing),
    /// a failed match as its action and arguments.
    pub fn message(&self) -> (s: String)
        ensures
            s@ == self@.rendered(),
    {
        match self {
            ParseError::Fatal(Some(cause)) => String::from_str("Fatal:").concat(cause.as_str()),
            ParseError::Fatal(None) => String::from_str("Fatal:"),
            ParseError::NoMatch { action, args } => String::from_str(
                "FailedMatch: (action='",
            ).concat(action).concat("' args='").concat(args.as_str()).concat("')"),
        }
    }
}

impl Default for ParseError {
    /// The placeholder used before any real failure is known.
    fn default() -> (e: Self)
        ensures
            e@ == ErrorView::no_match(""@),
    {
        ParseError::NoMatch { action: "", args: String::new() }
    }
}

impl Clone for ParseError {
    /// A copy keeps the kind and the labels; the cause of a fatal error is
    /// not copied.
    fn clone(&self) -> (e: Self)
        ensures
            e@ == self@.without_cause(),
    {
        match self {
            ParseError::Fatal(_) => ParseError::Fatal(None),
            ParseError::NoMatch { action, args } => ParseError::NoMatch {
                action,
                args: args.clone(),
            },
        }
    }
}

/// A recoverable failure of the combinator `action`. The argument text is
/// accepted for the caller's convenience and not stored.
pub fn failure(action: &'static str, _args: &str) -> (e: ParseError)
    ensures
        e@ == ErrorView::no_match(action@),
{
    ParseError::NoMatch { action, args: String::new() }
}

/// A recoverable failure of the combinator `action` on the argument `args`.
pub fn failure_on(action: &'static str, args: &str) -> (e: ParseError)
    ensures
        e@ == (ErrorView::NoMatch { action: action@, args: args@ }),
{
    ParseError::NoMatch { action, args: String::from_str(args) }
}

/// `std::num::ParseIntError`, of which nothing is read.
#[verifier::external_type_specification]
#[verifier::external_body]
pub struct ExParseIntError(std::num::ParseIntError);

/// `std::num::ParseFloatError`, of which nothing is read.
#[verifier::external_type_specification]
#[verifier::external_body]
pub struct ExParseFloatError(std::num::ParseFloatError);

/// `std::str::ParseBoolError`, of which nothing is read.
#[verifier::external_type_specification]
#[verifier::external_body]
pub struct ExParseBoolError(std::str::ParseBoolError);

impl From<std::num::ParseIntError> for ParseError {
    /// A failed conversion to an integer is a failed match under a fixed
    /// label; what the conversion reported is dropped.
    fn from(_value: std::num::ParseIntError) -> (e: Self)
        ensures
            e@ == ErrorView::no_match("parse int error"@),
    {
        ParseError::NoMatch { action: "parse int error", args: String::new() }
    }
}

impl vstd::std_specs::convert::FromSpecImpl<std::num::ParseIntError> for ParseError {
    open spec fn obeys_from_spec() -> bool {
        false
    }

    open spec fn from_spec(value: std::num::ParseIntError) -> Self {
        ParseError::Fatal(None)
    }
}

impl From<std::num::ParseFloatError> for ParseError {
    /// A failed conversion to a number with a fraction is a failed match
    /// under a fixed label; what the conversion reported is dropped.
    fn from(_value: std::num::ParseFloatError) -> (e: Self)
        ensures
            e@ == ErrorView::no_match("parse float error"@),
    {
        ParseError::NoMatch { action: "parse float error", args: String::new() }
    }
}

impl vstd::std_specs::convert::FromSpecImpl<std::num::ParseFloatError> for ParseError {
    open spec fn obeys_from_spec() -> bool {
        false
    }

    open spec fn from_spec(value: std::num::ParseFloatError) -> Self {
        ParseError::Fatal(None)
    }
}

impl From<std::str::ParseBoolError> for ParseError {
    /// A failed conversion to a truth value is a failed match under a fixed
    /// label; what the conversion reported is dropped.
    fn from(_value: std::str::ParseBoolError) -> (e: Self)
        ensures
            e@ == ErrorView::no_match("parse bool error"@),
    {
        ParseError::NoMatch { action: "parse bool error", args: String::new() }
    }
}

impl vstd::std_specs::convert::FromSpecImpl<std::str::ParseBoolError> for ParseError {
    open spec fn obeys_from_spec() -> bool {
        false
    }

    open spec fn from_spec(value: std::str::ParseBoolError) -> Self {
        ParseError::Fatal(None)
    }
}

} // verus!
