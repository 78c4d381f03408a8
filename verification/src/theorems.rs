//! What holds of every cut: which locations it covers, shape by shape, and
//! what the overlap test means.

use vstd::prelude::*;
use crate::arc::{ArcBound, ArcRange};
use crate::record::{covering, overlapping, Record};
use crate::split_arc::{sub_range_covers, sub_ranges_intersect, SplitArc};

verus! {

/// The bound pair of the arc that holds the locations from `start` to `end`,
/// on the circle.
pub open spec fn inclusive(start: u32, end: u32) -> ArcRange {
    ArcRange { start: ArcBound::Included(start), end: ArcBound::Included(end) }
}

/// The cut of a legal bound pair is well formed and covers exactly the
/// locations that the arc holds on the circle.
pub proof fn lemma_cut_keeps_locations(range: ArcRange)
    requires
        range.is_legal(),
    ensures
        SplitArc::of(range).wf(),
        SplitArc::of(range)@ == range@,
        forall|loc: u32| SplitArc::of(range).covers(loc) == range.contains(loc),
{
    let split = SplitArc::of(range);
    assert forall|loc: u32| split.covers(loc) == range.contains(loc) by {}
    assert(split@ =~= range@);
}

/// An arc of length zero is cut into no sub-range at all. Its cut covers no
/// location, and it overlaps no cut, whichever of the two is the stored one.
pub proof fn lemma_zero_length_matches_nothing(range: ArcRange, loc: u32, other: SplitArc)
    requires
        range.is_zero_length(),
    ensures
        SplitArc::of(range) == SplitArc::unset(),
        !SplitArc::of(range).covers(loc),
        !SplitArc::of(range).overlaps(&other),
        !other.overlaps(&SplitArc::of(range)),
{
}

/// A linear arc from `start` to `end` is its own single sub-range. Its cut
/// covers a location exactly when the location lies from `start` to `end`;
/// the locations next to the arc on either side, where the space has one, are
/// not covered.
pub proof fn lemma_linear_covers_its_range(start: u32, end: u32, loc: u32)
    requires
        start <= end,
    ensures
        SplitArc::of(inclusive(start, end)) == (SplitArc {
            start_1: Some(start),
            end_1: Some(end),
            start_2: None,
            end_2: None,
        }),
        SplitArc::of(inclusive(start, end)).covers(loc) <==> start <= loc <= end,
        start > 0 ==> !SplitArc::of(inclusive(start, end)).covers((start - 1) as u32),
        end < u32::MAX ==> !SplitArc::of(inclusive(start, end)).covers((end + 1) as u32),
{
}

/// A wrapping arc from `start` round to `end` is cut into the low segment
/// `[0, end]` and the high segment `[start, u32::MAX]`. The two segments share
/// no location, together they cover exactly what the arc holds on the circle,
/// and nothing that lies after `end` and before `start` is covered.
pub proof fn lemma_wrapping_cut_is_two_disjoint_segments(start: u32, end: u32, loc: u32)
    requires
        start > end,
    ensures
        SplitArc::of(inclusive(start, end)) == (SplitArc {
            start_1: Some(u32::MIN),
            end_1: Some(end),
            start_2: Some(start),
            end_2: Some(u32::MAX),
        }),
        !(sub_range_covers(Some(u32::MIN), Some(end), loc) && sub_range_covers(
            Some(start),
            Some(u32::MAX),
            loc,
        )),
        !sub_ranges_intersect(Some(u32::MIN), Some(end), Some(start), Some(u32::MAX)),
        SplitArc::of(inclusive(start, end)).covers(loc) <==> inclusive(start, end).contains(loc),
        SplitArc::of(inclusive(start, end)).covers(loc) <==> loc <= end || start <= loc,
        end < loc < start ==> !SplitArc::of(inclusive(start, end)).covers(loc),
{
}

/// Overlap does not depend on which of the two cuts is the stored one and
/// which the query.
pub proof fn lemma_overlaps_is_symmetric(a: SplitArc, b: SplitArc)
    ensures
        a.overlaps(&b) == b.overlaps(&a),
{
}

/// Two well-formed cuts overlap exactly when some location is covered by
/// both.
pub proof fn lemma_overlaps_iff_shared_location(a: SplitArc, b: SplitArc)
    requires
        a.wf(),
        b.wf(),
    ensures
        a.overlaps(&b) <==> exists|loc: u32| a.covers(loc) && b.covers(loc),
        a.overlaps(&b) <==> !a@.disjoint(b@),
{
    if a.overlaps(&b) {
        let loc = shared_location(a, b);
        assert(a.covers(loc) && b.covers(loc));
        assert(a@.contains(loc) && b@.contains(loc));
    }
    if exists|loc: u32| a.covers(loc) && b.covers(loc) {
        let loc = choose|loc: u32| a.covers(loc) && b.covers(loc);
        assert(a.overlaps(&b));
    }
    if !a@.disjoint(b@) {
        let loc = choose|loc: u32| a@.contains(loc) && b@.contains(loc);
        assert(a.covers(loc) && b.covers(loc));
    }
}

/// The larger of the two starts of a pair of sub-ranges; where the pair
/// intersects, both hold it.
spec fn later_start(start_a: Option<u32>, start_b: Option<u32>) -> u32 {
    match (start_a, start_b) {
        (Some(sa), Some(sb)) => if sa <= sb {
            sb
        } else {
            sa
        },
        _ => 0,
    }
}

/// A location that two overlapping well-formed cuts both cover: the later
/// start of the first pair of sub-ranges that intersects.
spec fn shared_location(a: SplitArc, b: SplitArc) -> u32 {
    if sub_ranges_intersect(a.start_1, a.end_1, b.start_1, b.end_1) {
        later_start(a.start_1, b.start_1)
    } else if sub_ranges_intersect(a.start_1, a.end_1, b.start_2, b.end_2) {
        later_start(a.start_1, b.start_2)
    } else if sub_ranges_intersect(a.start_2, a.end_2, b.start_1, b.end_1) {
        later_start(a.start_2, b.start_1)
    } else {
        later_start(a.start_2, b.start_2)
    }
}

/// Two arcs with legal bound pairs overlap, by the test on their cuts, exactly
/// when they hold a common location on the circle.
pub proof fn lemma_arcs_overlap_iff_they_meet(a: ArcRange, b: ArcRange)
    requires
        a.is_legal(),
        b.is_legal(),
    ensures
        SplitArc::of(a).overlaps(&SplitArc::of(b)) <==> exists|loc: u32|
            a.contains(loc) && b.contains(loc),
{
    lemma_cut_keeps_locations(a);
    lemma_cut_keeps_locations(b);
    lemma_overlaps_iff_shared_location(SplitArc::of(a), SplitArc::of(b));
    let sa = SplitArc::of(a);
    let sb = SplitArc::of(b);
    if exists|loc: u32| sa.covers(loc) && sb.covers(loc) {
        let loc = choose|loc: u32| sa.covers(loc) && sb.covers(loc);
        assert(a.contains(loc) && b.contains(loc));
    }
    if exists|loc: u32| a.contains(loc) && b.contains(loc) {
        let loc = choose|loc: u32| a.contains(loc) && b.contains(loc);
        assert(sa.covers(loc) && sb.covers(loc));
    }
}

/// A table of one row counts that row exactly when the row matches: for a
/// location, when its cut covers the location; for a query, when its cut
/// overlaps the query's.
pub proof fn lemma_lone_row_is_counted_iff_it_matches(row: Record, loc: u32, query: SplitArc)
    ensures
        covering(seq![row], loc).len() == (if row.split_arc.covers(loc) {
            1nat
        } else {
            0nat
        }),
        overlapping(seq![row], query).len() == (if row.split_arc.overlaps(&query) {
            1nat
        } else {
            0nat
        }),
{
    let none = Seq::<Record>::empty();
    assert(seq![row] =~= none.push(row));
    none.lemma_filter_len_push(|record: Record| record.split_arc.covers(loc), row);
    none.lemma_filter_len_push(|record: Record| record.split_arc.overlaps(&query), row);
    assert(none.filter(|record: Record| record.split_arc.covers(loc)).len() == 0) by {
        reveal(Seq::filter);
    }
    assert(none.filter(|record: Record| record.split_arc.overlaps(&query)).len() == 0) by {
        reveal(Seq::filter);
    }
}

/// Of two rows, the first is counted in a table of its own when asked for the
/// second's arc exactly when the second is counted in a table of its own when
/// asked for the first's.
pub proof fn lemma_lone_rows_overlap_each_other(first: Record, second: Record)
    ensures
        overlapping(seq![first], second.split_arc).len() == overlapping(
            seq![second],
            first.split_arc,
        ).len(),
{
    lemma_lone_row_is_counted_iff_it_matches(first, 0, second.split_arc);
    lemma_lone_row_is_counted_iff_it_matches(second, 0, first.split_arc);
    lemma_overlaps_is_symmetric(first.split_arc, second.split_arc);
}

/// Rows that store an arc of length zero are counted for no location and
/// for no query.
pub proof fn lemma_unset_rows_are_never_counted(records: Seq<Record>, loc: u32, query: SplitArc)
    requires
        forall|i: int| 0 <= i < records.len() ==> records[i].split_arc == SplitArc::unset(),
    ensures
        covering(records, loc).len() == 0,
        overlapping(records, query).len() == 0,
{
    let covers = |record: Record| record.split_arc.covers(loc);
    let overlaps = |record: Record| record.split_arc.overlaps(&query);
    assert(records.all(|record: Record| !covers(record)));
    assert(records.all(|record: Record| !overlaps(record)));
    records.lemma_all_neg_filter_empty(covers);
    records.lemma_all_neg_filter_empty(overlaps);
}

/// The query for an arc of length zero counts no row of any table.
pub proof fn lemma_zero_length_query_counts_nothing(records: Seq<Record>, range: ArcRange)
    requires
        range.is_zero_length(),
    ensures
        overlapping(records, SplitArc::of(range)).len() == 0,
{
    let query = SplitArc::of(range);
    let overlaps = |record: Record| record.split_arc.overlaps(&query);
    assert(records.all(|record: Record| !overlaps(record)));
    records.lemma_all_neg_filter_empty(overlaps);
}

} // verus!
