//! The range of run lengths that a matcher accepts.

use std::ops::Bound;
use std::ops::RangeBounds;
use vstd::prelude::*;
use vstd::std_specs::convert::FromSpecImpl;
use vstd::std_specs::convert::IntoSpec;

verus! {

/// `std::ops::Bound`, with its three variants.
#[verifier::external_type_specification]
#[verifier::reject_recursive_types(T)]
pub struct ExBound<T>(Bound<T>);

/// `std::ops::RangeFrom`, with its one public field.
#[verifier::external_type_specification]
pub struct ExRangeFrom<Idx>(std::ops::RangeFrom<Idx>);

/// `std::ops::RangeTo`, with its one public field.
#[verifier::external_type_specification]
pub struct ExRangeTo<Idx>(std::ops::RangeTo<Idx>);

/// `std::ops::RangeToInclusive`, with its one public field.
#[verifier::external_type_specification]
pub struct ExRangeToInclusive<Idx>(std::ops::RangeToInclusive<Idx>);

/// `std::ops::RangeFull`, which has no fields.
#[verifier::external_type_specification]
pub struct ExRangeFull(std::ops::RangeFull);

/// The two ends of a range of run lengths, as the caller wrote them.
pub struct Bounds {
    pub start: Bound<i32>,
    pub end: Bound<i32>,
}

impl Bounds {
    /// The least accepted length, if the range has a lower end.
    pub open spec fn lo(self) -> Option<int> {
        match self.start {
            Bound::Included(i) => Some(i as int),
            Bound::Excluded(i) => Some(i + 1),
            Bound::Unbounded => None,
        }
    }

    /// The greatest accepted length, if the range has an upper end.
    pub open spec fn hi(self) -> Option<int> {
        match self.end {
            Bound::Included(i) => Some(i as int),
            Bound::Excluded(i) => Some(i - 1),
            Bound::Unbounded => None,
        }
    }
}

/// Whether a range written as `range` can stand for the bounds `b`: the
/// conversion of `range` answers `b`. For the range forms of the standard
/// library this is one `b`, the one that the `From` impls below give.
pub open spec fn converts<R: Into<Bounds>>(range: R, b: Bounds) -> bool {
    call_ensures(R::into, (range,), b) && (R::obeys_into_spec() ==> b == range.into_spec())
}

/// Normalizes a range to its inclusive ends: an excluded upper end `e`
/// becomes `e - 1`, an excluded lower end `s` becomes `s + 1`, and an open
/// end stays open.
pub fn start_end(range: Bounds) -> (r: (Option<i64>, Option<i64>))
    ensures
        r.0.is_some() == range.lo().is_some(),
        r.1.is_some() == range.hi().is_some(),
        r.0 matches Some(lo) ==> range.lo() == Some(lo as int),
        r.1 matches Some(hi) ==> range.hi() == Some(hi as int),
{
    let start = match range.start {
        Bound::Included(i) => Some(i as i64),
        Bound::Excluded(i) => Some(i as i64 + 1),
        Bound::Unbounded => None,
    };
    let end = match range.end {
        Bound::Included(i) => Some(i as i64),
        Bound::Excluded(i) => Some(i as i64 - 1),
        Bound::Unbounded => None,
    };
    (start, end)
}

impl From<std::ops::Range<i32>> for Bounds {
    fn from(r: std::ops::Range<i32>) -> (b: Bounds) {
        Bounds { start: Bound::Included(r.start), end: Bound::Excluded(r.end) }
    }
}

impl FromSpecImpl<std::ops::Range<i32>> for Bounds {
    open spec fn obeys_from_spec() -> bool {
        true
    }

    open spec fn from_spec(r: std::ops::Range<i32>) -> Bounds {
        Bounds { start: Bound::Included(r.start), end: Bound::Excluded(r.end) }
    }
}

impl From<std::ops::RangeFrom<i32>> for Bounds {
    fn from(r: std::ops::RangeFrom<i32>) -> (b: Bounds) {
        Bounds { start: Bound::Included(r.start), end: Bound::Unbounded }
    }
}

impl FromSpecImpl<std::ops::RangeFrom<i32>> for Bounds {
    open spec fn obeys_from_spec() -> bool {
        true
    }

    open spec fn from_spec(r: std::ops::RangeFrom<i32>) -> Bounds {
        Bounds { start: Bound::Included(r.start), end: Bound::Unbounded }
    }
}

impl From<std::ops::RangeTo<i32>> for Bounds {
    fn from(r: std::ops::RangeTo<i32>) -> (b: Bounds) {
        Bounds { start: Bound::Unbounded, end: Bound::Excluded(r.end) }
    }
}

impl FromSpecImpl<std::ops::RangeTo<i32>> for Bounds {
    open spec fn obeys_from_spec() -> bool {
        true
    }

    open spec fn from_spec(r: std::ops::RangeTo<i32>) -> Bounds {
        Bounds { start: Bound::Unbounded, end: Bound::Excluded(r.end) }
    }
}

impl From<std::ops::RangeToInclusive<i32>> for Bounds {
    fn from(r: std::ops::RangeToInclusive<i32>) -> (b: Bounds) {
        Bounds { start: Bound::Unbounded, end: Bound::Included(r.end) }
    }
}

impl FromSpecImpl<std::ops::RangeToInclusive<i32>> for Bounds {
    open spec fn obeys_from_spec() -> bool {
        true
    }

    open spec fn from_spec(r: std::ops::RangeToInclusive<i32>) -> Bounds {
        Bounds { start: Bound::Unbounded, end: Bound::Included(r.end) }
    }
}

impl From<std::ops::RangeFull> for Bounds {
    fn from(r: std::ops::RangeFull) -> (b: Bounds) {
        Bounds { start: Bound::Unbounded, end: Bound::Unbounded }
    }
}

impl FromSpecImpl<std::ops::RangeFull> for Bounds {
    open spec fn obeys_from_spec() -> bool {
        true
    }

    open spec fn from_spec(r: std::ops::RangeFull) -> Bounds {
        Bounds { start: Bound::Unbounded, end: Bound::Unbounded }
    }
}

/// The ends of an inclusive range, as its `RangeBounds` impl reports them:
/// the upper end is excluded once the range has been iterated to exhaustion.
pub open spec fn inclusive_bounds(r: std::ops::RangeInclusive<i32>) -> Bounds {
    Bounds {
        start: Bound::Included(r@.start),
        end: if r@.exhausted {
            Bound::Excluded(r@.end)
        } else {
            Bound::Included(r@.end)
        },
    }
}

/// Calls `RangeBounds::start_bound` on an inclusive range, which reports its
/// first field as included.
#[verifier::external_body]
fn inclusive_start(r: &std::ops::RangeInclusive<i32>) -> (b: Bound<i32>)
    ensures
        b == inclusive_bounds(*r).start,
{
    r.start_bound().cloned()
}

/// Calls `RangeBounds::end_bound` on an inclusive range, which reports its
/// second field, included unless the range is exhausted.
#[verifier::external_body]
fn inclusive_end(r: &std::ops::RangeInclusive<i32>) -> (b: Bound<i32>)
    ensures
        b == inclusive_bounds(*r).end,
{
    r.end_bound().cloned()
}

impl From<std::ops::RangeInclusive<i32>> for Bounds {
    fn from(r: std::ops::RangeInclusive<i32>) -> (b: Bounds) {
        Bounds { start: inclusive_start(&r), end: inclusive_end(&r) }
    }
}

impl FromSpecImpl<std::ops::RangeInclusive<i32>> for Bounds {
    open spec fn obeys_from_spec() -> bool {
        true
    }

    open spec fn from_spec(r: std::ops::RangeInclusive<i32>) -> Bounds {
        inclusive_bounds(r)
    }
}

impl From<(Bound<i32>, Bound<i32>)> for Bounds {
    fn from(r: (Bound<i32>, Bound<i32>)) -> (b: Bounds) {
        Bounds { start: r.0, end: r.1 }
    }
}

impl FromSpecImpl<(Bound<i32>, Bound<i32>)> for Bounds {
    open spec fn obeys_from_spec() -> bool {
        true
    }

    open spec fn from_spec(r: (Bound<i32>, Bound<i32>)) -> Bounds {
        Bounds { start: r.0, end: r.1 }
    }
}

} // verus!
