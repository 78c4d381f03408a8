//! Arcs over the circular `u32` address space: how an arc is cut into linear
//! sub-ranges for a range-indexed table, and which stored arcs cover a
//! location or overlap another arc.

pub mod agent_info;
pub mod arc;
pub mod record;
pub mod split_arc;
pub mod theorems;
