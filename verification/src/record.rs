//! The rows of the agent table, and the two counts taken over them: the
//! agents whose arc covers a location, and those whose arc overlaps an arc.

use vstd::prelude::*;
use crate::agent_info::AgentInfo;
use crate::arc::ArcRange;
use crate::split_arc::SplitArc;

verus! {

/// One row of the agent table: the agent's key, its statement as an opaque
/// blob, what the statement says of time and arc, and the arc's cut.
#[derive(Debug, Clone, PartialEq, Eq)]
pub struct Record {
    pub key: [u8; 32],
    pub blob: Vec<u8>,
    pub signed_at_ms: u64,
    pub center_loc: u32,
    pub half_length: u32,
    pub split_arc: SplitArc,
}

/// The rows whose arc covers `loc`, in table order.
pub open spec fn covering(records: Seq<Record>, loc: u32) -> Seq<Record> {
    records.filter(|record: Record| record.split_arc.covers(loc))
}

/// The rows whose arc overlaps the cut `query`, in table order.
pub open spec fn overlapping(records: Seq<Record>, query: SplitArc) -> Seq<Record> {
    records.filter(|record: Record| record.split_arc.overlaps(&query))
}

impl Record {
    /// The row that stores `info`: its key, the blob that holds it, its
    /// signing time, its arc's centre and half-length, and the cut of the
    /// arc's bound pair `range`, all in one value.
    pub fn new(info: &AgentInfo, blob: Vec<u8>, range: ArcRange) -> (record: Record)
        requires
            range.is_legal(),
        ensures
            record.key == info.key,
            record.blob == blob,
            record.signed_at_ms == info.signed_at_ms,
            record.center_loc == info.storage_arc.center_loc,
            record.half_length == info.storage_arc.half_length,
            record.split_arc == SplitArc::of(range),
            record.split_arc.wf(),
    {
        Record {
            key: info.key,
            blob,
            signed_at_ms: info.signed_at_ms,
            center_loc: info.storage_arc.center_loc,
            half_length: info.storage_arc.half_length,
            split_arc: SplitArc::from(range),
        }
    }
}

/// Counts the rows whose arc covers `loc`.
pub fn count_agents_covering_loc(records: &[Record], loc: u32) -> (count: usize)
    ensures
        count == covering(records@, loc).len(),
{
    let mut count: usize = 0;
    let mut i: usize = 0;
    while i < records.len()
        invariant
            i <= records.len(),
            count <= i,
            count == covering(records@.take(i as int), loc).len(),
        decreases records.len() - i,
    {
        proof {
            records@.lemma_take_succ_push(i as int);
            records@.take(i as int).lemma_filter_len_push(
                |record: Record| record.split_arc.covers(loc),
                records@[i as int],
            );
        }
        if records[i].split_arc.covers(loc) {
            count += 1;
        }
        i += 1;
    }
    proof {
        records@.lemma_take_len();
    }
    count
}

/// Counts the rows whose arc overlaps the arc with the bound pair `arc`.
pub fn count_agents_overlaping_arc(records: &[Record], arc: ArcRange) -> (count: usize)
    requires
        arc.is_legal(),
    ensures
        count == overlapping(records@, SplitArc::of(arc)).len(),
{
    let query = SplitArc::from(arc);
    let mut count: usize = 0;
    let mut i: usize = 0;
    while i < records.len()
        invariant
            i <= records.len(),
            count <= i,
            count == overlapping(records@.take(i as int), query).len(),
        decreases records.len() - i,
    {
        proof {
            records@.lemma_take_succ_push(i as int);
            records@.take(i as int).lemma_filter_len_push(
                |record: Record| record.split_arc.overlaps(&query),
                records@[i as int],
            );
        }
        if records[i].split_arc.overlaps(&query) {
            count += 1;
        }
        i += 1;
    }
    proof {
        records@.lemma_take_len();
    }
    count
}

} // verus!
