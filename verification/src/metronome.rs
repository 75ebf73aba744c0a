//! Timing constants that govern the cadence of the hash chain.
//!
//! Interoperable chains must agree on these values exactly: the number of
//! primitive hashes folded into one rev, the target duration of a rev, and
//! the rev/phase/cycle grouping.

use vstd::prelude::*;

verus! {

/// Number of seconds per day.
pub const DEFAULT_SECONDS_PER_DAY: u64 = 24 * 60 * 60;

/// Number of revs per second.
pub const DEFAULT_REVS_PER_SECOND: u64 = 160;

/// Number of revs per day.
pub const DEFAULT_REVS_PER_DAY: u64 = DEFAULT_REVS_PER_SECOND * DEFAULT_SECONDS_PER_DAY;

/// Rev duration in milliseconds (1000 / 160 = 6.25ms approximated as 6ms base).
pub const DEFAULT_MS_PER_REV: u64 = 1_000 / DEFAULT_REVS_PER_SECOND;

/// Additional timing tolerance per rev in microseconds (0.25ms).
pub const DEFAULT_US_TOLERANCE_PER_REV: u64 = 250;

/// Final rev duration in microseconds: ~6ms + 0.25ms = 6250us.
pub const DEFAULT_US_PER_REV: u64 = (DEFAULT_MS_PER_REV * 1000) + DEFAULT_US_TOLERANCE_PER_REV;

/// Number of revs per phase (64 revs = 1 phase).
pub const DEFAULT_REVS_PER_PHASE: u64 = 64;

/// Reference hash throughput used to size the per-rev workload.
pub const DEFAULT_HASHES_PER_SECOND: u64 = 2_000_000;

/// Number of primitive hashes folded into one rev.
pub const DEFAULT_HASHES_PER_REV: u64 = DEFAULT_HASHES_PER_SECOND / DEFAULT_REVS_PER_SECOND;

/// Expected duration of a phase (400 milliseconds).
pub const DEFAULT_MS_PER_PHASE: u64 = 1_000 * DEFAULT_REVS_PER_PHASE / DEFAULT_REVS_PER_SECOND;

/// Number of phases per cycle (432,000 phases = 1 cycle, about two days).
pub const DEFAULT_PHASES_PER_CYCLE: u64 = 2 * DEFAULT_REVS_PER_DAY / DEFAULT_REVS_PER_PHASE;

/// A much shorter cycle for development runs (400 ms * 8192 is about 55 minutes).
pub const DEFAULT_DEV_PHASES_PER_CYCLE: u64 = 8_192;

/// Number of consecutive phases assigned to one leader.
pub const DEFAULT_NUM_CONSECUTIVE_LEADER_PHASES: u64 = 4;

/// Channel capacity used when records are handed to a consumer thread.
pub const DEFAULT_CHANNEL_CAPACITY: usize = 1_000;

/// Batch size used when records are handed to a consumer thread.
pub const DEFAULT_BATCH_SIZE: usize = 64;

/// Remaining waits below this many microseconds are busy-polled rather than
/// delegated to the host scheduler, whose sleep granularity is too coarse.
pub const DEFAULT_SPINLOCK_THRESHOLD_US: u64 = 250;

} // verus!
