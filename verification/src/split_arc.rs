//! The cut of an arc into linear sub-ranges, and the two questions asked of a
//! stored cut: does it cover a location, does it overlap another cut.

use vstd::prelude::*;
use vstd::pervasive::unreached;
use crate::arc::{ArcBound, ArcError, ArcRange};

verus! {

/// Whether the sub-range `[start, end]` is present and holds `loc`.
pub open spec fn sub_range_covers(start: Option<u32>, end: Option<u32>, loc: u32) -> bool {
    match (start, end) {
        (Some(s), Some(e)) => s <= loc && loc <= e,
        _ => false,
    }
}

/// Whether the sub-ranges `[start_a, end_a]` and `[start_b, end_b]` are both
/// present and share a location by the test for linear ranges.
pub open spec fn sub_ranges_intersect(
    start_a: Option<u32>,
    end_a: Option<u32>,
    start_b: Option<u32>,
    end_b: Option<u32>,
) -> bool {
    match (start_a, end_a, start_b, end_b) {
        (Some(sa), Some(ea), Some(sb), Some(eb)) => sa <= eb && sb <= ea,
        _ => false,
    }
}

/// Whether a pair of table columns is a sub-range or no sub-range: both set
/// with `start <= end`, or both unset.
pub open spec fn sub_range_wf(start: Option<u32>, end: Option<u32>) -> bool {
    match (start, end) {
        (Some(s), Some(e)) => s <= e,
        (None, None) => true,
        _ => false,
    }
}

/// An arc cut into at most two ascending linear sub-ranges, as a table with
/// range indexes stores it.
#[derive(Debug, Clone, Copy, PartialEq, Eq, Structural)]
pub struct SplitArc {
    pub start_1: Option<u32>,
    pub end_1: Option<u32>,
    pub start_2: Option<u32>,
    pub end_2: Option<u32>,
}

impl View for SplitArc {
    type V = Set<u32>;

    /// The locations that the cut covers.
    open spec fn view(&self) -> Set<u32> {
        Set::new(|loc: u32| self.spec_covers(loc))
    }
}

impl SplitArc {
    /// The cut that covers nothing.
    pub open spec fn unset() -> SplitArc {
        SplitArc { start_1: None, end_1: None, start_2: None, end_2: None }
    }

    /// The cut of a legal bound pair. A zero-length arc has no sub-range, a
    /// linear arc is its own single sub-range, and a wrapping arc from `s` to
    /// `e` is the low segment `[0, e]` followed by the high segment
    /// `[s, u32::MAX]`.
    pub open spec fn of(range: ArcRange) -> SplitArc {
        match (range.start, range.end) {
            (ArcBound::Included(s), ArcBound::Included(e)) => if s > e {
                SplitArc {
                    start_1: Some(u32::MIN),
                    end_1: Some(e),
                    start_2: Some(s),
                    end_2: Some(u32::MAX),
                }
            } else {
                SplitArc { start_1: Some(s), end_1: Some(e), start_2: None, end_2: None }
            },
            _ => SplitArc::unset(),
        }
    }

    /// Each sub-range is wholly set or wholly unset and ascends, and where both
    /// are set the first ends before the second starts.
    pub open spec fn wf(&self) -> bool {
        &&& sub_range_wf(self.start_1, self.end_1)
        &&& sub_range_wf(self.start_2, self.end_2)
        &&& match (self.end_1, self.start_2) {
            (Some(e1), Some(s2)) => e1 < s2,
            _ => true,
        }
    }

    /// Whether one of the sub-ranges is present and holds `loc`.
    pub open spec fn spec_covers(&self, loc: u32) -> bool {
        sub_range_covers(self.start_1, self.end_1, loc) || sub_range_covers(
            self.start_2,
            self.end_2,
            loc,
        )
    }

    /// Whether some sub-range of `self` intersects some sub-range of `other`.
    pub open spec fn spec_overlaps(&self, other: &SplitArc) -> bool {
        ||| sub_ranges_intersect(self.start_1, self.end_1, other.start_1, other.end_1)
        ||| sub_ranges_intersect(self.start_1, self.end_1, other.start_2, other.end_2)
        ||| sub_ranges_intersect(self.start_2, self.end_2, other.start_1, other.end_1)
        ||| sub_ranges_intersect(self.start_2, self.end_2, other.start_2, other.end_2)
    }

    /// Cuts an arc's bound pair into its linear sub-ranges.
    ///
    /// The pair must be one of the three shapes of an arc source; `try_from`
    /// is the entry for a pair that was not checked yet.
    pub fn from(range: ArcRange) -> (split: SplitArc)
        requires
            range.is_legal(),
        ensures
            split == SplitArc::of(range),
            split.wf(),
            split@ == range@,
    {
        let split = match (range.start, range.end) {
            (ArcBound::Excluded(_), ArcBound::Excluded(_)) => SplitArc {
                start_1: None,
                end_1: None,
                start_2: None,
                end_2: None,
            },
            (ArcBound::Included(s), ArcBound::Included(e)) => {
                if s > e {
                    SplitArc {
                        start_1: Some(u32::MIN),
                        end_1: Some(e),
                        start_2: Some(s),
                        end_2: Some(u32::MAX),
                    }
                } else {
                    SplitArc { start_1: Some(s), end_1: Some(e), start_2: None, end_2: None }
                }
            },
            _ => unreached(),
        };
        proof {
            assert forall|loc: u32| split.spec_covers(loc) == range.contains(loc) by {}
        }
        split
    }

    /// Cuts a bound pair if it is one of the three legal shapes, and turns the
    /// pair away as illegal otherwise.
    pub fn try_from(range: ArcRange) -> (outcome: Result<SplitArc, ArcError>)
        ensures
            range.is_legal() ==> outcome == Ok::<SplitArc, ArcError>(SplitArc::of(range)),
            !range.is_legal() ==> outcome == Err::<SplitArc, ArcError>(ArcError::IllegalBounds),
    {
        if range.is_legal() {
            Ok(SplitArc::from(range))
        } else {
            Err(ArcError::IllegalBounds)
        }
    }

    /// Tells whether the cut covers `loc`.
    #[verifier::when_used_as_spec(spec_covers)]
    pub fn covers(&self, loc: u32) -> (hit: bool)
        ensures
            hit == self.spec_covers(loc),
            hit == self@.contains(loc),
    {
        let in_first = match (self.start_1, self.end_1) {
            (Some(s), Some(e)) => s <= loc && loc <= e,
            _ => false,
        };
        let in_second = match (self.start_2, self.end_2) {
            (Some(s), Some(e)) => s <= loc && loc <= e,
            _ => false,
        };
        in_first || in_second
    }

    /// Tells whether the cut overlaps `other`: any of the up to four pairs of
    /// sub-ranges intersects.
    #[verifier::when_used_as_spec(spec_overlaps)]
    pub fn overlaps(&self, other: &SplitArc) -> (hit: bool)
        ensures
            hit == self.spec_overlaps(other),
    {
        intersect(self.start_1, self.end_1, other.start_1, other.end_1) || intersect(
            self.start_1,
            self.end_1,
            other.start_2,
            other.end_2,
        ) || intersect(self.start_2, self.end_2, other.start_1, other.end_1) || intersect(
            self.start_2,
            self.end_2,
            other.start_2,
            other.end_2,
        )
    }
}

/// The test for two linear ranges `[start_a, end_a]` and `[start_b, end_b]`;
/// an absent side never intersects.
fn intersect(
    start_a: Option<u32>,
    end_a: Option<u32>,
    start_b: Option<u32>,
    end_b: Option<u32>,
) -> (hit: bool)
    ensures
        hit == sub_ranges_intersect(start_a, end_a, start_b, end_b),
{
    match (start_a, end_a, start_b, end_b) {
        (Some(sa), Some(ea), Some(sb), Some(eb)) => sa <= eb && sb <= ea,
        _ => false,
    }
}

} // verus!
