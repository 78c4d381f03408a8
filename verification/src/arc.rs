//! An arc as its source hands it over: a centre with a half-length, and the
//! pair of bounds that says which locations the arc occupies.

use vstd::prelude::*;

verus! {

/// An arc as its owner states it: the location at its centre and how far it
/// reaches to either side. Which locations that makes is for the arc's source
/// to say, as an `ArcRange`.
#[derive(Debug, Clone, Copy, PartialEq, Eq, Structural)]
pub struct DhtArc {
    pub center_loc: u32,
    pub half_length: u32,
}

impl DhtArc {
    /// The arc with the given centre and half-length.
    pub fn new(center_loc: u32, half_length: u32) -> (arc: DhtArc)
        ensures
            arc == (DhtArc { center_loc, half_length }),
    {
        DhtArc { center_loc, half_length }
    }
}

/// One end of an arc's range.
#[derive(Debug, Clone, Copy, PartialEq, Eq, Structural)]
pub enum ArcBound {
    /// The range reaches this location and holds it.
    Included(u32),
    /// The range stops short of this location.
    Excluded(u32),
    /// The range has no end on this side.
    Unbounded,
}

/// The two ends of an arc's range on the circle of `u32` locations.
///
/// An arc source produces three shapes only. Two excluded bounds stand for the
/// arc of length zero, which holds no location. Two included bounds `s`, `e`
/// with `s <= e` are the locations from `s` to `e`. Two included bounds with
/// `s > e` run from `s` up to `u32::MAX` and on from `0` to `e`.
#[derive(Debug, Clone, Copy, PartialEq, Eq, Structural)]
pub struct ArcRange {
    pub start: ArcBound,
    pub end: ArcBound,
}

/// Why a bound pair was turned away.
#[derive(Debug, Clone, Copy, PartialEq, Eq, Structural)]
pub enum ArcError {
    /// The pair is none of the three shapes an arc source may produce.
    IllegalBounds,
}

impl ArcRange {
    /// Both bounds are excluded: the arc of length zero.
    pub open spec fn is_zero_length(&self) -> bool {
        self.start is Excluded && self.end is Excluded
    }

    /// Both bounds are included and the range does not cross `u32::MAX`.
    pub open spec fn is_linear(&self) -> bool {
        match (self.start, self.end) {
            (ArcBound::Included(s), ArcBound::Included(e)) => s <= e,
            _ => false,
        }
    }

    /// Both bounds are included and the range crosses from `u32::MAX` to `0`.
    pub open spec fn is_wrapping(&self) -> bool {
        match (self.start, self.end) {
            (ArcBound::Included(s), ArcBound::Included(e)) => s > e,
            _ => false,
        }
    }

    /// The pair is one of the three shapes an arc source may produce.
    pub open spec fn spec_is_legal(&self) -> bool {
        self.is_zero_length() || self.is_linear() || self.is_wrapping()
    }

    /// Whether the arc holds `loc`, read on the circle: a wrapping range holds
    /// what lies at or after its start and what lies at or before its end.
    pub open spec fn contains(&self, loc: u32) -> bool {
        match (self.start, self.end) {
            (ArcBound::Included(s), ArcBound::Included(e)) => if s <= e {
                s <= loc && loc <= e
            } else {
                s <= loc || loc <= e
            },
            _ => false,
        }
    }

    /// Tells whether the pair is one of the three legal shapes.
    #[verifier::when_used_as_spec(spec_is_legal)]
    pub fn is_legal(&self) -> (legal: bool)
        ensures
            legal == self.spec_is_legal(),
    {
        match (self.start, self.end) {
            (ArcBound::Excluded(_), ArcBound::Excluded(_)) => true,
            (ArcBound::Included(_), ArcBound::Included(_)) => true,
            _ => false,
        }
    }
}

impl View for ArcRange {
    type V = Set<u32>;

    /// The locations that the arc holds.
    open spec fn view(&self) -> Set<u32> {
        Set::new(|loc: u32| self.contains(loc))
    }
}

} // verus!
