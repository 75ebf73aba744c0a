//! The immutable output unit of the engine.

use vstd::prelude::*;

verus! {

/// One record per tick: the post-extension chain tip, the derived indices,
/// the elapsed milliseconds since the owning engine started, and the event
/// bytes bound into this tick, if any. Created exactly once per tick and
/// never mutated afterwards.
#[derive(Clone, Debug)]
pub struct Record {
    pub hash: [u8; 32],
    pub rev_index: u64,
    pub phase_index: u64,
    pub cycle_index: u64,
    pub timestamp_ms: u64,
    pub event: Option<Vec<u8>>,
}

/// The bytes a record's event payload holds, when one is present.
pub open spec fn record_event_view(event: Option<Vec<u8>>) -> Option<Seq<u8>> {
    match event {
        Option::Some(data) => Option::Some(data@),
        Option::None => Option::None,
    }
}

} // verus!
