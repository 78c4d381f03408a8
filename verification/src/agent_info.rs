//! What an agent publishes about itself: its key, when it signed, and the arc
//! it stores.

use vstd::prelude::*;
use rand::Rng;
use crate::arc::DhtArc;

verus! {

/// An agent's signed statement of the arc it stores.
#[derive(Debug, Clone)]
pub struct AgentInfo {
    pub key: [u8; 32],
    pub signed_at_ms: u64,
    pub storage_arc: DhtArc,
}

/// Fills a key with bytes from `rand::thread_rng()` by `Rng::fill`. Nothing is
/// claimed of the bytes.
#[verifier::external_body]
fn random_key() -> (key: [u8; 32]) {
    let mut key = [0u8; 32];
    rand::thread_rng().fill(&mut key[..]);
    key
}

/// Draws a `u32` from `rand::thread_rng()` by `Rng::gen`. Nothing is claimed
/// of the value.
#[verifier::external_body]
fn random_u32() -> (value: u32) {
    rand::thread_rng().gen::<u32>()
}

/// Draws a `u32` from `rand::thread_rng()` by `Rng::gen_range` on the range
/// `0..limit`. The range must not be empty, or the call panics; the value
/// drawn lies in the range, whatever it is.
#[verifier::external_body]
fn random_below(limit: u32) -> (value: u32)
    requires
        limit > 0,
    ensures
        value < limit,
{
    rand::thread_rng().gen_range(0..limit)
}

impl AgentInfo {
    /// The statement made of a key, a signing time in milliseconds and an
    /// arc's centre and half-length, each taken as drawn.
    pub fn from_draws(key: [u8; 32], signed_at_ms: u32, center_loc: u32, half_length: u32) -> (info:
        AgentInfo)
        ensures
            info.key == key,
            info.signed_at_ms == signed_at_ms,
            info.storage_arc == (DhtArc { center_loc, half_length }),
    {
        AgentInfo {
            key,
            signed_at_ms: signed_at_ms as u64,
            storage_arc: DhtArc::new(center_loc, half_length),
        }
    }

    /// A statement with a random key, signing time and arc. The signing time
    /// fits in 32 bits and the half-length lies below half of `u32::MAX`;
    /// nothing else is fixed.
    pub fn new_rand() -> (info: AgentInfo)
        ensures
            info.signed_at_ms <= u32::MAX,
            info.storage_arc.half_length < u32::MAX / 2,
    {
        let key = random_key();
        let signed_at_ms: u32 = random_u32();
        let center_loc: u32 = random_u32();
        let half_length: u32 = random_below(u32::MAX / 2);
        AgentInfo::from_draws(key, signed_at_ms, center_loc, half_length)
    }
}

} // verus!
