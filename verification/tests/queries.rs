use arc_split::agent_info::AgentInfo;
use arc_split::arc::{ArcBound, ArcRange, DhtArc};
use arc_split::record::{count_agents_covering_loc, count_agents_overlaping_arc, Record};
use arc_split::split_arc::SplitArc;

fn bounds(start: u32, end: u32) -> ArcRange {
    ArcRange { start: ArcBound::Included(start), end: ArcBound::Included(end) }
}

fn nothing_at(at: u32) -> ArcRange {
    ArcRange { start: ArcBound::Excluded(at), end: ArcBound::Excluded(at) }
}

fn row(tag: u8, range: ArcRange) -> Record {
    let info = AgentInfo::from_draws([tag; 32], 1000 + tag as u32, 0, 0);
    Record::new(&info, vec![tag], range)
}

#[test]
fn row_holds_the_statement_and_the_cut() {
    let info = AgentInfo {
        key: [9u8; 32],
        signed_at_ms: 0x1_0000_0001,
        storage_arc: DhtArc { center_loc: 0, half_length: 0x4000_0000 },
    };
    let record = Record::new(&info, vec![1, 2, 3], bounds(0xC000_0000, 0x3FFF_FFFF));
    assert_eq!(record.key, [9u8; 32]);
    assert_eq!(record.blob, vec![1u8, 2, 3]);
    assert_eq!(record.signed_at_ms, 0x1_0000_0001);
    assert_eq!(record.center_loc, 0);
    assert_eq!(record.half_length, 0x4000_0000);
    assert_eq!(
        record.split_arc,
        SplitArc {
            start_1: Some(0),
            end_1: Some(0x3FFF_FFFF),
            start_2: Some(0xC000_0000),
            end_2: Some(0xFFFF_FFFF),
        }
    );
}

#[test]
fn zero_length_row_is_not_counted_at_its_centre() {
    let info = AgentInfo::from_draws([1u8; 32], 5, 0, 0);
    let record = Record::new(&info, Vec::new(), nothing_at(0));
    assert_eq!(
        record.split_arc,
        SplitArc { start_1: None, end_1: None, start_2: None, end_2: None }
    );
    assert_eq!(count_agents_covering_loc(&[record], 0), 0);
}

#[test]
fn zero_length_row_is_counted_for_no_query() {
    let table = vec![row(1, nothing_at(0)), row(2, nothing_at(77))];
    for loc in [0u32, 77, 78, u32::MAX] {
        assert_eq!(count_agents_covering_loc(&table, loc), 0);
    }
    for query in [nothing_at(0), bounds(0, u32::MAX), bounds(0x8000_0000, 0x7FFF_FFFF)] {
        assert_eq!(count_agents_overlaping_arc(&table, query), 0);
    }
}

#[test]
fn wrapping_row_is_counted_at_zero_and_not_opposite() {
    let table = vec![row(1, bounds(0xC000_0000, 0x3FFF_FFFF))];
    assert_eq!(count_agents_covering_loc(&table, 0), 1);
    assert_eq!(count_agents_covering_loc(&table, 0x8000_0000), 0);
}

#[test]
fn linear_row_against_two_queries() {
    let table = vec![row(1, bounds(100, 200))];
    assert_eq!(count_agents_overlaping_arc(&table, bounds(150, 300)), 1);
    assert_eq!(count_agents_overlaping_arc(&table, bounds(201, 300)), 0);
}

#[test]
fn empty_table_counts_nothing() {
    let table: Vec<Record> = Vec::new();
    assert_eq!(count_agents_covering_loc(&table, 0), 0);
    assert_eq!(count_agents_overlaping_arc(&table, bounds(0, u32::MAX)), 0);
}

#[test]
fn covering_counts_each_matching_row() {
    let table = vec![
        row(1, nothing_at(50)),
        row(2, bounds(0, 100)),
        row(3, bounds(50, 50)),
        row(4, bounds(51, 60)),
        row(5, bounds(0xFFFF_FF00, 50)),
        row(6, bounds(0xFFFF_FF00, 49)),
        row(7, bounds(0, u32::MAX)),
    ];
    assert_eq!(count_agents_covering_loc(&table, 50), 4);
    assert_eq!(count_agents_covering_loc(&table, 51), 3);
    assert_eq!(count_agents_covering_loc(&table, 0), 4);
    assert_eq!(count_agents_covering_loc(&table, u32::MAX), 3);
    assert_eq!(count_agents_covering_loc(&table, 0x8000_0000), 1);
}

#[test]
fn overlapping_counts_each_matching_row() {
    let table = vec![
        row(1, nothing_at(50)),
        row(2, bounds(0, 100)),
        row(3, bounds(50, 50)),
        row(4, bounds(51, 60)),
        row(5, bounds(0xFFFF_FF00, 50)),
        row(6, bounds(0xFFFF_FF00, 49)),
        row(7, bounds(0, u32::MAX)),
    ];
    assert_eq!(count_agents_overlaping_arc(&table, bounds(50, 50)), 4);
    assert_eq!(count_agents_overlaping_arc(&table, bounds(55, 200)), 3);
    assert_eq!(count_agents_overlaping_arc(&table, bounds(0x8000_0000, 0x9000_0000)), 1);
    assert_eq!(count_agents_overlaping_arc(&table, bounds(0xFFFF_FFFF, 0)), 4);
    assert_eq!(count_agents_overlaping_arc(&table, bounds(0xFFFF_FF80, 0xFFFF_FF90)), 3);
    assert_eq!(count_agents_overlaping_arc(&table, nothing_at(50)), 0);
}

#[test]
fn rows_with_the_same_key_are_counted_apiece() {
    let table = vec![row(1, bounds(0, 10)), row(1, bounds(5, 20))];
    assert_eq!(count_agents_covering_loc(&table, 7), 2);
    assert_eq!(count_agents_covering_loc(&table, 15), 1);
}

#[test]
fn lone_rows_overlap_each_other_or_neither() {
    let ranges = [
        nothing_at(0),
        bounds(100, 200),
        bounds(150, 300),
        bounds(201, 300),
        bounds(0xC000_0000, 0x3FFF_FFFF),
        bounds(0xD000_0000, 0xE000_0000),
    ];
    for (i, r) in ranges.iter().enumerate() {
        for (j, q) in ranges.iter().enumerate() {
            let stored_r = vec![row(i as u8, *r)];
            let stored_q = vec![row(j as u8, *q)];
            assert_eq!(
                count_agents_overlaping_arc(&stored_r, *q),
                count_agents_overlaping_arc(&stored_q, *r)
            );
        }
    }
}

#[test]
fn random_rows_are_counted_as_their_cut_says() {
    let mut table: Vec<Record> = Vec::new();
    for _ in 0..50 {
        let info = AgentInfo::new_rand();
        let centre = info.storage_arc.center_loc;
        let reach = info.storage_arc.half_length;
        let range = if reach == 0 {
            nothing_at(centre)
        } else {
            bounds(centre.wrapping_sub(reach - 1), centre.wrapping_add(reach - 1))
        };
        table.push(Record::new(&info, Vec::new(), range));
    }
    for loc in [0u32, 1, 0x7FFF_FFFF, 0x8000_0000, u32::MAX] {
        let expected = table.iter().filter(|record| record.split_arc.covers(loc)).count();
        assert_eq!(count_agents_covering_loc(&table, loc), expected);
    }
}
