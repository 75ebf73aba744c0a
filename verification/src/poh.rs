//! The PoH engine and the verifier over its recorded output.
//!
//! The engine owns the running 32-byte chain tip and the rev/phase/cycle
//! counters, paces each tick against an absolute schedule, and emits one
//! immutable [`Record`] per tick. The verifier is a pure function over a
//! recorded sequence: it recomputes every hash transition and checks the
//! index bookkeeping, rejecting the whole sequence on any violation.

use vstd::arithmetic::div_mod::lemma_div_denominator;
use vstd::prelude::*;

use crate::clock;
use crate::hash::{
    chain_of, chain_start, digest_of, event_view, Algorithm, Hasher, MAX_SHA256_INPUT_BYTES,
};
use crate::metronome::{
    DEFAULT_HASHES_PER_REV, DEFAULT_PHASES_PER_CYCLE, DEFAULT_REVS_PER_PHASE,
    DEFAULT_SPINLOCK_THRESHOLD_US, DEFAULT_US_PER_REV,
};
use crate::record::{record_event_view, Record};

verus! {

/// Tolerated deviation, in milliseconds, of an observed timestamp from its
/// expected value.
pub const ALLOWED_TIMESTAMP_DRIFT_MS: u64 = 8;

/// Upper bound on clock polls within one pacing wait. It is far more than
/// any rev deadline needs and exists only so that the wait provably
/// terminates; running into it means proceeding early, which the absolute
/// schedule tolerates.
const MAX_PACING_POLLS: u64 = 4_000_000_000;

/// The PoH engine state: the running chain tip, monotone counters, the
/// monotonic reference captured at construction, and the next deadline in
/// microseconds since that reference.
pub struct PoH {
    pub current_hash: [u8; 32],
    pub rev_count: u64,
    pub phase_count: u64,
    pub cycle_count: u64,
    pub start_time: std::time::Instant,
    pub next_rev_target_us: u64,
}

/// The phase a rev belongs to.
pub open spec fn phase_of(rev_index: u64) -> int {
    rev_index as int / DEFAULT_REVS_PER_PHASE as int
}

/// The cycle a rev belongs to.
pub open spec fn cycle_of(rev_index: u64) -> int {
    rev_index as int / (DEFAULT_REVS_PER_PHASE as int * DEFAULT_PHASES_PER_CYCLE as int)
}

/// `x + 1`, saturating at the top of the unsigned range.
pub open spec fn saturating_add_one(x: u64) -> u64 {
    if x == u64::MAX {
        u64::MAX
    } else {
        (x + 1) as u64
    }
}

/// An event payload small enough to be folded into a SHA-256 digest
/// together with the 32-byte chain tip.
pub open spec fn event_digestible(event: Option<Vec<u8>>) -> bool {
    match event {
        Option::Some(data) => data@.len() + 32 <= MAX_SHA256_INPUT_BYTES,
        Option::None => true,
    }
}

/// What must hold of a consecutive pair in a valid sequence: the later
/// record's hash is the chain extension of the earlier one (with the event
/// bytes folded in first when present), its rev index is the successor, and
/// its phase and cycle indices are derived from its rev index.
pub open spec fn pair_valid(prev: Record, curr: Record) -> bool {
    &&& event_digestible(curr.event)
    &&& curr.hash@ == chain_of(
        Algorithm::SHA256,
        chain_start(Algorithm::SHA256, prev.hash@, record_event_view(curr.event)),
        DEFAULT_HASHES_PER_REV as nat,
    )
    &&& curr.rev_index == saturating_add_one(prev.rev_index)
    &&& curr.phase_index == phase_of(curr.rev_index)
    &&& curr.cycle_index == cycle_of(curr.rev_index)
}

/// A sequence of records is valid when it is non-empty and every
/// consecutive pair is valid; an empty sequence proves nothing and is
/// treated as invalid.
pub open spec fn records_valid(records: Seq<Record>) -> bool {
    &&& records.len() > 0
    &&& forall|i: int| 1 <= i < records.len() ==> pair_valid(records[i - 1], #[trigger] records[i])
}

/// The timestamp expected of record `i` given the first record's timestamp:
/// the anchor plus `i` rev durations, with the same saturating arithmetic
/// the check itself uses.
pub open spec fn expected_timestamp(first: u64, i: u64) -> u64 {
    let increment: int = if i * DEFAULT_US_PER_REV <= u64::MAX {
        (i as int * DEFAULT_US_PER_REV as int) / 1000
    } else {
        0
    };
    if first + increment <= u64::MAX {
        (first + increment) as u64
    } else {
        u64::MAX
    }
}

/// An observed timestamp is plausible when it falls within the tolerated
/// drift of its expected value.
pub open spec fn timestamp_plausible(first: u64, i: u64, actual: u64) -> bool {
    let expected = expected_timestamp(first, i);
    let lower: int = if expected >= ALLOWED_TIMESTAMP_DRIFT_MS {
        expected - ALLOWED_TIMESTAMP_DRIFT_MS
    } else {
        0
    };
    let upper: int = if expected + ALLOWED_TIMESTAMP_DRIFT_MS <= u64::MAX {
        expected + ALLOWED_TIMESTAMP_DRIFT_MS
    } else {
        u64::MAX as int
    };
    lower <= actual <= upper
}

/// Every record's timestamp is plausible against the first record's as the
/// anchor; an empty sequence is invalid.
pub open spec fn timestamps_valid(records: Seq<Record>) -> bool {
    &&& records.len() > 0
    &&& forall|i: int|
        0 <= i < records.len() ==> timestamp_plausible(
            records[0].timestamp_ms,
            i as u64,
            (#[trigger] records[i]).timestamp_ms,
        )
}

/// The phase counter after the tick that emitted rev `rev_index`: it
/// advances when the tick completed a phase, and resets at a phase boundary
/// that is also a cycle boundary.
pub open spec fn next_phase_count(phase_count: u64, rev_index: u64) -> int {
    if (rev_index + 1) % (DEFAULT_REVS_PER_PHASE as int) == 0 {
        if phase_of(rev_index) % (DEFAULT_PHASES_PER_CYCLE as int) == 0 {
            0
        } else {
            phase_count + 1
        }
    } else {
        phase_count as int
    }
}

/// The cycle counter after the tick that emitted rev `rev_index`: it is
/// recomputed from the phase index at a phase boundary that is also a cycle
/// boundary, and kept otherwise.
pub open spec fn next_cycle_count(cycle_count: u64, rev_index: u64) -> int {
    if (rev_index + 1) % (DEFAULT_REVS_PER_PHASE as int) == 0 && phase_of(rev_index)
        % (DEFAULT_PHASES_PER_CYCLE as int) == 0 {
        phase_of(rev_index) / (DEFAULT_PHASES_PER_CYCLE as int)
    } else {
        cycle_count as int
    }
}

/// The exact relation between the engine state before a tick, the state
/// after it, the record emitted, and the event bytes supplied (`None` for a
/// plain tick). Everything but the timestamp is pinned; the timestamp is a
/// clock reading and is only a plausibility signal.
pub open spec fn tick_relation(pre: PoH, post: PoH, r: Record, event: Option<Seq<u8>>) -> bool {
    &&& post.current_hash@ == chain_of(
        Algorithm::SHA256,
        chain_start(Algorithm::SHA256, pre.current_hash@, event),
        DEFAULT_HASHES_PER_REV as nat,
    )
    &&& r.hash@ == post.current_hash@
    &&& r.rev_index == pre.rev_count
    &&& r.phase_index == phase_of(pre.rev_count)
    &&& r.cycle_index == phase_of(pre.rev_count) / (DEFAULT_PHASES_PER_CYCLE as int)
    &&& record_event_view(r.event) == event
    &&& post.rev_count == pre.rev_count + 1
    &&& post.phase_count == next_phase_count(pre.phase_count, pre.rev_count)
    &&& post.cycle_count == next_cycle_count(pre.cycle_count, pre.rev_count)
    &&& post.next_rev_target_us == (if pre.next_rev_target_us + DEFAULT_US_PER_REV <= u64::MAX {
        pre.next_rev_target_us + DEFAULT_US_PER_REV
    } else {
        u64::MAX as int
    })
    &&& post.start_time == pre.start_time
}

impl PoH {
    /// Constructs an engine: the seed is hashed once under the default
    /// algorithm to form the initial chain tip, the counters start at zero,
    /// and the first deadline is one rev duration after the reference point
    /// captured now.
    pub fn new(seed: &[u8]) -> (poh: PoH)
        requires
            seed@.len() <= MAX_SHA256_INPUT_BYTES,
        ensures
            poh.current_hash@ == digest_of(Algorithm::SHA256, seed@),
            poh.rev_count == 0,
            poh.phase_count == 0,
            poh.cycle_count == 0,
            poh.next_rev_target_us == DEFAULT_US_PER_REV,
    {
        let hasher = Hasher::default();
        let current_hash: [u8; 32] = hasher.hash(seed);
        PoH {
            current_hash,
            rev_count: 0,
            phase_count: 0,
            cycle_count: 0,
            start_time: clock::instant_now(),
            next_rev_target_us: DEFAULT_US_PER_REV,
        }
    }

    /// Advances the chain by one paced tick without event data.
    pub fn next_rev(&mut self) -> (r: Record)
        requires
            old(self).rev_count < u64::MAX,
            old(self).phase_count < u64::MAX,
        ensures
            tick_relation(*old(self), *final(self), r, Option::<Seq<u8>>::None),
    {
        self.tick(None)
    }

    /// Advances the chain by one paced tick, binding the event bytes into
    /// the chain before the extension.
    pub fn insert_event(&mut self, event_data: &[u8]) -> (r: Record)
        requires
            old(self).rev_count < u64::MAX,
            old(self).phase_count < u64::MAX,
            event_data@.len() + 32 <= MAX_SHA256_INPUT_BYTES,
        ensures
            tick_relation(*old(self), *final(self), r, Option::Some(event_data@)),
    {
        self.tick(Some(event_data))
    }

    /// Chain-integrity verification of a recorded sequence: recomputes each
    /// hash transition (comparing in constant time) and checks the index
    /// bookkeeping of every consecutive pair, short-circuiting on the first
    /// violation.
    pub fn verify_records(records: &Vec<Record>) -> (r: bool)
        ensures
            r == records_valid(records@),
    {
        if records.len() == 0 {
            return false;
        }
        let hasher = Hasher::default();
        let mut i: usize = 1;
        while i < records.len()
            invariant
                1 <= i <= records@.len(),
                hasher@ == Algorithm::SHA256,
                forall|j: int| 1 <= j < i ==> pair_valid(records@[j - 1], #[trigger] records@[j]),
            decreases records@.len() - i,
        {
            let prev = &records[i - 1];
            let curr = &records[i];

            let event_ok: bool = match &curr.event {
                Some(data) => data.len() as u64 <= MAX_SHA256_INPUT_BYTES - 32,
                None => true,
            };
            if !event_ok {
                proof {
                    assert(!pair_valid(records@[i - 1], records@[i as int]));
                }
                return false;
            }

            let event_data: Option<&[u8]> = match &curr.event {
                Some(data) => Some(data.as_slice()),
                None => None,
            };
            proof {
                assert(event_view(event_data) == record_event_view(records@[i as int].event));
            }
            if !hasher.verify_hash_chain(&prev.hash, &curr.hash, DEFAULT_HASHES_PER_REV, event_data)
            {
                proof {
                    assert(!pair_valid(records@[i - 1], records@[i as int]));
                }
                return false;
            }

            let expected_rev: u64 = if prev.rev_index == u64::MAX {
                u64::MAX
            } else {
                prev.rev_index + 1
            };
            let rev_index_valid: bool = curr.rev_index == expected_rev;
            let phase_index_valid: bool = curr.phase_index == curr.rev_index
                / DEFAULT_REVS_PER_PHASE;
            let cycle_valid: bool = curr.cycle_index == curr.rev_index / (DEFAULT_REVS_PER_PHASE
                * DEFAULT_PHASES_PER_CYCLE);
            if !(rev_index_valid && phase_index_valid && cycle_valid) {
                proof {
                    assert(!pair_valid(records@[i - 1], records@[i as int]));
                }
                return false;
            }

            i = i + 1;
        }
        true
    }

    /// Timestamp-plausibility verification: with the first record's
    /// timestamp as the anchor, every record must fall within the tolerated
    /// drift of its expected timestamp. Advisory and independent of
    /// hash-chain validity; failures are reported only through the result.
    pub fn verify_timestamps(records: &Vec<Record>, _log_failures: bool) -> (r: bool)
        ensures
            r == timestamps_valid(records@),
    {
        if records.len() == 0 {
            return false;
        }
        let first_timestamp: u64 = records[0].timestamp_ms;
        let mut i: usize = 0;
        while i < records.len()
            invariant
                0 <= i <= records@.len(),
                records@.len() > 0,
                first_timestamp == records@[0].timestamp_ms,
                forall|j: int|
                    0 <= j < i ==> timestamp_plausible(
                        first_timestamp,
                        j as u64,
                        (#[trigger] records@[j]).timestamp_ms,
                    ),
            decreases records@.len() - i,
        {
            let timestamp: u64 = records[i].timestamp_ms;
            let increment: u64 = match (i as u64).checked_mul(DEFAULT_US_PER_REV) {
                Some(product) => product / 1000,
                None => 0,
            };
            let expected: u64 = first_timestamp.saturating_add(increment);
            let lower_bound: u64 = expected.saturating_sub(ALLOWED_TIMESTAMP_DRIFT_MS);
            let upper_bound: u64 = expected.saturating_add(ALLOWED_TIMESTAMP_DRIFT_MS);
            if timestamp < lower_bound || timestamp > upper_bound {
                proof {
                    assert(!timestamp_plausible(
                        first_timestamp,
                        i as u64,
                        records@[i as int].timestamp_ms,
                    ));
                }
                return false;
            }
            i = i + 1;
        }
        true
    }

    /// One tick: pace to the deadline, fold in the event bytes if any,
    /// extend the chain by the fixed per-rev hash count, emit the record,
    /// advance the counters, and schedule the next deadline by a fixed
    /// increment so that missed deadlines are not forgiven.
    fn tick(&mut self, event_data: Option<&[u8]>) -> (r: Record)
        requires
            old(self).rev_count < u64::MAX,
            old(self).phase_count < u64::MAX,
            event_data is Some ==> event_data->0@.len() + 32 <= MAX_SHA256_INPUT_BYTES,
        ensures
            tick_relation(*old(self), *final(self), r, event_view(event_data)),
    {
        self.enforce_timing();

        let hasher = Hasher::default();

        if let Some(event) = event_data {
            self.current_hash = hasher.embed_data(&self.current_hash, event);
        }

        self.current_hash = hasher.extend_hash_chain(&self.current_hash, DEFAULT_HASHES_PER_REV);

        let rev_index: u64 = self.rev_count;
        let phase_index: u64 = rev_index / DEFAULT_REVS_PER_PHASE;
        let cycle_index: u64 = phase_index / DEFAULT_PHASES_PER_CYCLE;
        let timestamp_ms: u64 = clock::elapsed_micros(&self.start_time) / 1000;
        let record = Record {
            hash: self.current_hash,
            rev_index,
            phase_index,
            cycle_index,
            timestamp_ms,
            event: match event_data {
                Some(data) => Some(copy_bytes(data)),
                None => None,
            },
        };

        self.rev_count = self.rev_count + 1;

        if self.rev_count % DEFAULT_REVS_PER_PHASE == 0 {
            self.phase_count = self.phase_count + 1;
        }

        if phase_index % DEFAULT_PHASES_PER_CYCLE == 0 && self.rev_count % DEFAULT_REVS_PER_PHASE
            == 0 {
            self.cycle_count = cycle_index;
            self.phase_count = 0;
        }

        self.next_rev_target_us = self.next_rev_target_us.saturating_add(DEFAULT_US_PER_REV);

        record
    }

    /// Blocks until the monotonic clock reaches the next rev deadline by
    /// polling the clock; a host that can put its thread to sleep should
    /// consult [`pacing_action`] instead and spin only for the final short
    /// remainder. Deadline overruns are tolerated silently: the schedule is
    /// absolute, so later ticks re-synchronize on their own.
    fn enforce_timing(&self) {
        let mut polls: u64 = 0;
        let mut done: bool = false;
        while !done && polls < MAX_PACING_POLLS
            invariant
                polls <= MAX_PACING_POLLS,
            decreases MAX_PACING_POLLS - polls,
        {
            let elapsed_us: u64 = clock::elapsed_micros(&self.start_time);
            if elapsed_us >= self.next_rev_target_us {
                done = true;
            }
            polls = polls + 1;
        }
    }
}

/// A fresh owned copy of a byte slice.
fn copy_bytes(data: &[u8]) -> (v: Vec<u8>)
    ensures
        v@ == data@,
{
    let mut v: Vec<u8> = Vec::new();
    let mut i: usize = 0;
    while i < data.len()
        invariant
            i <= data@.len(),
            v@ == data@.subrange(0, i as int),
        decreases data@.len() - i,
    {
        v.push(data[i]);
        i = i + 1;
    }
    proof {
        assert(v@ =~= data@);
    }
    v
}

/// What a host pacing the engine should do next, given the elapsed time and
/// the deadline.
#[derive(Clone, Copy, Debug, PartialEq, Eq, Structural)]
pub enum PacingAction {
    /// The deadline has passed: tick immediately.
    Proceed,
    /// The wait is long enough to hand to the host scheduler.
    SleepFor { us: u64 },
    /// The wait is short: busy-poll the clock for precision, since OS sleep
    /// granularity cannot reliably hit sub-millisecond deadlines.
    SpinFor { us: u64 },
}

/// Decides how the time until the next rev deadline should be spent: waits
/// of at least `DEFAULT_SPINLOCK_THRESHOLD_US` are delegated to the host
/// scheduler, shorter ones are busy-polled. This is the decision half of
/// the hybrid pacing strategy; performing the sleep is the host's part.
pub fn pacing_action(elapsed_us: u64, target_us: u64) -> (action: PacingAction)
    ensures
        action == (if elapsed_us >= target_us {
            PacingAction::Proceed
        } else if target_us - elapsed_us < DEFAULT_SPINLOCK_THRESHOLD_US {
            (PacingAction::SpinFor { us: (target_us - elapsed_us) as u64 })
        } else {
            (PacingAction::SleepFor { us: (target_us - elapsed_us) as u64 })
        }),
{
    if elapsed_us >= target_us {
        PacingAction::Proceed
    } else {
        let wait_us: u64 = target_us - elapsed_us;
        if wait_us < DEFAULT_SPINLOCK_THRESHOLD_US {
            PacingAction::SpinFor { us: wait_us }
        } else {
            PacingAction::SleepFor { us: wait_us }
        }
    }
}

/// Law: tamper detection. If a pair of records is valid and a tampered copy
/// of the later record differs in its hash, rev index, phase index, or
/// cycle index (the event bytes unchanged), the tampered pair is invalid.
pub proof fn lemma_record_tamper_detected(prev: Record, curr: Record, tampered: Record)
    requires
        pair_valid(prev, curr),
        record_event_view(tampered.event) == record_event_view(curr.event),
        tampered.hash@ != curr.hash@ || tampered.rev_index != curr.rev_index
            || tampered.phase_index != curr.phase_index || tampered.cycle_index
            != curr.cycle_index,
    ensures
        !pair_valid(prev, tampered),
{
    if pair_valid(prev, tampered) {
        assert(tampered.hash@ == curr.hash@);
        assert(tampered.rev_index == curr.rev_index);
        assert(tampered.phase_index == curr.phase_index);
        assert(tampered.cycle_index == curr.cycle_index);
    }
}

/// Law: a single invalid pair invalidates the whole sequence.
pub proof fn lemma_invalid_pair_invalidates_sequence(records: Seq<Record>, i: int)
    requires
        1 <= i < records.len(),
        !pair_valid(records[i - 1], records[i]),
    ensures
        !records_valid(records),
{
    if records_valid(records) {
        assert(pair_valid(records[i - 1], records[i]));
    }
}

/// Law: event binding. A record emitted by a tick forms a valid pair with
/// the record emitted just before it, whether or not event bytes were
/// bound, so a sequence that includes event ticks still verifies.
pub proof fn lemma_tick_pair_valid(
    pre: PoH,
    post: PoH,
    prev: Record,
    r: Record,
    event: Option<Seq<u8>>,
)
    requires
        tick_relation(pre, post, r, event),
        prev.hash@ == pre.current_hash@,
        prev.rev_index + 1 == pre.rev_count,
        event_digestible(r.event),
    ensures
        pair_valid(prev, r),
{
    assert(r.rev_index == saturating_add_one(prev.rev_index));
    assert(r.phase_index == phase_of(r.rev_index));
    assert(r.cycle_index == cycle_of(r.rev_index)) by {
        lemma_div_denominator(
            r.rev_index as int,
            DEFAULT_REVS_PER_PHASE as int,
            DEFAULT_PHASES_PER_CYCLE as int,
        );
    }
}

/// Law: a sequence of one record is valid; it has no consecutive pair that
/// could be violated. Together with `lemma_tick_pair_valid` and
/// `lemma_push_preserves_validity`, this gives by induction that every
/// sequence an engine emits tick by tick verifies.
pub proof fn lemma_single_record_valid(r: Record)
    ensures
        records_valid(seq![r]),
{
}

/// Law: appending a record that forms a valid pair with the last record of
/// a valid sequence keeps the sequence valid.
pub proof fn lemma_push_preserves_validity(records: Seq<Record>, r: Record)
    requires
        records_valid(records),
        pair_valid(records[records.len() - 1], r),
    ensures
        records_valid(records.push(r)),
{
    let extended = records.push(r);
    assert forall|i: int| 1 <= i < extended.len() implies pair_valid(
        extended[i - 1],
        #[trigger] extended[i],
    ) by {
        if i < records.len() {
            assert(extended[i - 1] == records[i - 1]);
            assert(extended[i] == records[i]);
            assert(pair_valid(records[i - 1], records[i]));
        } else {
            assert(extended[i - 1] == records[i - 1]);
            assert(extended[i] == r);
        }
    }
}

/// Law: determinism of a tick. Two ticks from states with equal chain tips
/// and equal rev counters, fed the same event bytes, emit records equal in
/// hash and in every index, and leave equal chain tips; only the
/// timestamps, which are clock readings, may differ.
pub proof fn lemma_tick_deterministic(
    pre1: PoH,
    post1: PoH,
    r1: Record,
    pre2: PoH,
    post2: PoH,
    r2: Record,
    event: Option<Seq<u8>>,
)
    requires
        tick_relation(pre1, post1, r1, event),
        tick_relation(pre2, post2, r2, event),
        pre1.current_hash@ == pre2.current_hash@,
        pre1.rev_count == pre2.rev_count,
    ensures
        post1.current_hash@ == post2.current_hash@,
        r1.hash@ == r2.hash@,
        r1.rev_index == r2.rev_index,
        r1.phase_index == r2.phase_index,
        r1.cycle_index == r2.cycle_index,
        record_event_view(r1.event) == record_event_view(r2.event),
{
}

/// Law: algorithm fallback. Every selector byte other than 1 decodes to
/// the default algorithm.
pub proof fn lemma_algorithm_fallback(code: u8)
    requires
        code != 1,
    ensures
        crate::hash::algorithm_of_code(code) == Algorithm::SHA256,
{
}

} // verus!
