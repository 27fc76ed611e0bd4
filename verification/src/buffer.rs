//! The in-memory queue of normalized records: bounded or unbounded, with an
//! overflow policy on `push`, a flush policy that decides when a batch leaves,
//! and a drain policy. The queue is strict first-in, first-out.
//!
//! Time is a millisecond reading of a monotonic clock that the caller hands in.

use crate::config::{
    capacity_option_of, drain_policy_of, flush_policy_of, overflow_policy_of, parse_capacity_option,
    parse_drain_policy, parse_flush_policy, parse_overflow_policy, BufferConfig, CapacityOption,
    ConfigError, DrainPolicy, DurabilityConfig, FlushPolicy, OverflowPolicy,
};
use crate::record::NormalizedLog;
use std::collections::VecDeque;
use vstd::prelude::*;

verus! {

/// Where flushed records are made durable.
#[derive(Clone, Debug, PartialEq, Eq)]
pub enum Durability {
    InMemory,
    SQLite(String),
}

/// The records of one flush, oldest first, under a batch id that never
/// decreases from one batch to the next.
#[derive(Debug, PartialEq, Eq)]
pub struct Batch {
    pub id: u64,
    pub records: Vec<NormalizedLog>,
}

/// A batch as a mathematical value.
pub struct BatchModel {
    pub id: u64,
    pub records: Seq<NormalizedLog>,
}

impl View for Batch {
    type V = BatchModel;

    open spec fn view(&self) -> BatchModel {
        BatchModel { id: self.id, records: self.records@ }
    }
}

/// What became of a record handed to `push`.
#[derive(Debug, PartialEq, Eq)]
pub enum PushOutcome {
    /// The record is now the newest in the queue.
    Accepted,
    /// The queue was full and the record was dropped.
    DroppedNewest,
    /// The queue was full; its oldest record was dropped and the new one is in.
    DroppedOldest,
    /// The queue was full and the producer has to wait for room; the record
    /// comes back untouched.
    Blocked(NormalizedLog),
    /// The buffer was shut down; the record comes back untouched.
    Closed(NormalizedLog),
}

/// What `push` does to a full queue before it appends.
#[derive(Clone, Copy, Debug, PartialEq, Eq, Structural)]
pub enum OverflowAction {
    /// Append: there is room, or the queue may grow.
    Append,
    /// Append after the oldest record was dropped.
    AppendAfterEviction,
    /// Do not append: the new record is dropped.
    Reject,
    /// Do not append: the producer waits.
    Wait,
}

/// The buffer and batcher.
#[derive(Debug)]
pub struct InMemoryBuffer {
    pub queue: VecDeque<NormalizedLog>,
    pub capacity_option: CapacityOption,
    pub buffer_capacity: u64,
    pub batch_size: usize,
    pub batch_timeout_ms: u64,
    pub last_flush_at_ms: u64,
    pub durability: Durability,
    pub overflow_policy: OverflowPolicy,
    pub drain_policy: DrainPolicy,
    pub flush_policy: FlushPolicy,
    /// Records lost to the overflow policy so far (stops at the largest `u64`).
    pub dropped: u64,
    /// Id that the next batch gets.
    pub next_batch_id: u64,
    /// Time of the flush before the last one, for `restore`.
    pub flush_rollback_ms: u64,
    /// Set by `shutdown`; a closed buffer takes no more records.
    pub closed: bool,
    /// Lines that could not be parsed and were dropped so far (stops at the
    /// largest `u64`).
    pub parse_failures: u64,
}

/// `n + 1`, or `n` where `n` is already the largest `u64`.
pub open spec fn bump(n: u64) -> u64 {
    if n < u64::MAX {
        (n + 1) as u64
    } else {
        n
    }
}

/// Milliseconds from `since` to `now`; zero where the clock reads earlier.
pub open spec fn elapsed_ms(now: u64, since: u64) -> int {
    if now >= since {
        now - since
    } else {
        0
    }
}

/// The durability that a configuration asks for.
pub open spec fn durability_of(c: DurabilityConfig) -> Durability {
    match c {
        DurabilityConfig::InMemory => Durability::InMemory,
        DurabilityConfig::SQLite(path) => Durability::SQLite(path),
    }
}

/// The first configuration field that names no known setting, if any, in the
/// order: capacity option, overflow policy, flush policy, drain policy.
pub open spec fn config_error_of(c: BufferConfig) -> Option<ConfigError> {
    if capacity_option_of(c.capacity_option@).is_none() {
        Some(ConfigError::CapacityOption(c.capacity_option))
    } else if overflow_policy_of(c.overflow_policy@).is_none() {
        Some(ConfigError::OverflowPolicy(c.overflow_policy))
    } else if flush_policy_of(c.flush_policy@).is_none() {
        Some(ConfigError::FlushPolicy(c.flush_policy))
    } else if drain_policy_of(c.drain_policy@).is_none() {
        Some(ConfigError::DrainPolicy(c.drain_policy))
    } else {
        None
    }
}

fn bump_exec(n: u64) -> (r: u64)
    ensures
        r == bump(n),
{
    if n < u64::MAX {
        n + 1
    } else {
        n
    }
}

/// Moves the `n` oldest records out of the queue, keeping their order.
fn take_front(queue: &mut VecDeque<NormalizedLog>, n: usize) -> (taken: Vec<NormalizedLog>)
    requires
        n <= old(queue)@.len(),
    ensures
        taken@ == old(queue)@.subrange(0, n as int),
        final(queue)@ == old(queue)@.subrange(n as int, old(queue)@.len() as int),
{
    let ghost before = queue@;
    let mut taken: Vec<NormalizedLog> = Vec::new();
    let mut i: usize = 0;
    while i < n
        invariant
            i <= n <= before.len(),
            taken@ == before.subrange(0, i as int),
            queue@ == before.subrange(i as int, before.len() as int),
        decreases n - i,
    {
        let next = queue.pop_front();
        match next {
            Some(record) => {
                taken.push(record);
            },
            None => {},
        }
        i = i + 1;
    }
    taken
}

/// The buffer as a mathematical value: the queue as a sequence, oldest
/// record first, and the settings and counters as they are.
pub struct BufferModel {
    pub queue: Seq<NormalizedLog>,
    pub capacity_option: CapacityOption,
    pub buffer_capacity: u64,
    pub batch_size: usize,
    pub batch_timeout_ms: u64,
    pub last_flush_at_ms: u64,
    pub durability: Durability,
    pub overflow_policy: OverflowPolicy,
    pub drain_policy: DrainPolicy,
    pub flush_policy: FlushPolicy,
    pub dropped: u64,
    pub next_batch_id: u64,
    pub flush_rollback_ms: u64,
    pub closed: bool,
    pub parse_failures: u64,
}

impl View for InMemoryBuffer {
    type V = BufferModel;

    open spec fn view(&self) -> BufferModel {
        BufferModel {
            queue: self.queue@,
            capacity_option: self.capacity_option,
            buffer_capacity: self.buffer_capacity,
            batch_size: self.batch_size,
            batch_timeout_ms: self.batch_timeout_ms,
            last_flush_at_ms: self.last_flush_at_ms,
            durability: self.durability,
            overflow_policy: self.overflow_policy,
            drain_policy: self.drain_policy,
            flush_policy: self.flush_policy,
            dropped: self.dropped,
            next_batch_id: self.next_batch_id,
            flush_rollback_ms: self.flush_rollback_ms,
            closed: self.closed,
            parse_failures: self.parse_failures,
        }
    }
}

/// The id and the records of a batch.
pub open spec fn batch_view(batch: Option<Batch>) -> Option<(u64, Seq<NormalizedLog>)> {
    match batch {
        Some(b) => Some((b.id, b.records@)),
        None => None,
    }
}

impl BufferModel {
    /// The queue has a hard cap: it is configured as bounded and the cap is
    /// not zero, which means unlimited.
    pub open spec fn is_bounded(self) -> bool {
        self.capacity_option == CapacityOption::Bounded && self.buffer_capacity > 0
    }

    /// The queue has a hard cap and has reached it.
    pub open spec fn is_full(self) -> bool {
        self.is_bounded() && self.queue.len() >= self.buffer_capacity
    }

    /// The flush threshold by count; a configured size of zero counts as one,
    /// so that every push makes a flush due.
    pub open spec fn effective_batch_size(self) -> nat {
        if self.batch_size == 0 {
            1
        } else {
            self.batch_size as nat
        }
    }

    /// The queue holds at least one batch.
    pub open spec fn size_due(self) -> bool {
        self.queue.len() >= self.effective_batch_size()
    }

    /// The time since the last flush has reached the timeout.
    pub open spec fn timeout_due(self, now_ms: u64) -> bool {
        elapsed_ms(now_ms, self.last_flush_at_ms) >= self.batch_timeout_ms
    }

    /// Whether a flush fires at `now_ms` under the flush policy.
    pub open spec fn flush_due(self, now_ms: u64) -> bool {
        match self.flush_policy {
            FlushPolicy::BatchSize => self.size_due(),
            FlushPolicy::BatchTimeout => self.timeout_due(now_ms),
            FlushPolicy::HybridSizeTimeout => self.size_due() || self.timeout_due(now_ms),
        }
    }

    /// How many records a firing flush takes: everything under the pure
    /// timeout policy, else at most one batch.
    pub open spec fn flush_quota(self) -> nat {
        match self.flush_policy {
            FlushPolicy::BatchTimeout => self.queue.len(),
            _ => if self.effective_batch_size() <= self.queue.len() {
                self.effective_batch_size()
            } else {
                self.queue.len()
            },
        }
    }

    /// How many records `drain` removes at `now_ms` under the drain policy.
    pub open spec fn drain_quota(self, now_ms: u64) -> nat {
        match self.drain_policy {
            DrainPolicy::DrainAll => self.queue.len(),
            DrainPolicy::DrainBatchSize => if self.queue.len() >= self.batch_size {
                self.batch_size as nat
            } else {
                0
            },
            DrainPolicy::DrainBatchTimeout => if elapsed_ms(now_ms, self.last_flush_at_ms)
                > self.batch_timeout_ms {
                self.queue.len()
            } else {
                0
            },
        }
    }

    /// What `push` does before it appends, given the state of the queue.
    pub open spec fn overflow_action(self) -> OverflowAction {
        if !self.is_full() {
            OverflowAction::Append
        } else {
            match self.overflow_policy {
                OverflowPolicy::DropNewest => OverflowAction::Reject,
                OverflowPolicy::DropOldest => OverflowAction::AppendAfterEviction,
                OverflowPolicy::BlockWithBackpressure => OverflowAction::Wait,
                OverflowPolicy::GrowCapacity => OverflowAction::Append,
            }
        }
    }

    /// The buffer after the overflow policy was applied: the drop-oldest
    /// policy removes the oldest record, and each dropped record, the oldest
    /// or the incoming one, is counted.
    pub open spec fn after_overflow(self) -> BufferModel {
        match self.overflow_action() {
            OverflowAction::AppendAfterEviction => BufferModel {
                queue: self.queue.subrange(1, self.queue.len() as int),
                dropped: bump(self.dropped),
                ..self
            },
            OverflowAction::Reject => BufferModel { dropped: bump(self.dropped), ..self },
            _ => self,
        }
    }

    /// What `push` answers for a record.
    pub open spec fn push_outcome(self, log: NormalizedLog) -> PushOutcome {
        if self.closed {
            PushOutcome::Closed(log)
        } else {
            match self.overflow_action() {
                OverflowAction::Append => PushOutcome::Accepted,
                OverflowAction::AppendAfterEviction => PushOutcome::DroppedOldest,
                OverflowAction::Reject => PushOutcome::DroppedNewest,
                OverflowAction::Wait => PushOutcome::Blocked(log),
            }
        }
    }

    /// Whether `push` puts the record into the queue.
    pub open spec fn takes(self) -> bool {
        !self.closed && (self.overflow_action() == OverflowAction::Append
            || self.overflow_action() == OverflowAction::AppendAfterEviction)
    }

    /// The buffer as `push` leaves it: a record that is taken becomes the
    /// newest in the queue, after the overflow policy was applied.
    pub open spec fn after_push(self, log: NormalizedLog) -> BufferModel {
        if self.closed {
            self
        } else if self.takes() {
            BufferModel { queue: self.after_overflow().queue.push(log), ..self.after_overflow() }
        } else {
            self.after_overflow()
        }
    }

    /// The records that a flush at `now_ms` takes, oldest first; none where
    /// the flush policy does not fire.
    pub open spec fn flush_records(self, now_ms: u64) -> Seq<NormalizedLog> {
        if self.flush_due(now_ms) {
            self.queue.subrange(0, self.flush_quota() as int)
        } else {
            Seq::empty()
        }
    }

    /// The batch that a flush at `now_ms` returns: the records it takes under
    /// the next batch id, or nothing where it takes none.
    pub open spec fn flush_batch(self, now_ms: u64) -> Option<(u64, Seq<NormalizedLog>)> {
        if self.flush_records(now_ms).len() > 0 {
            Some((self.next_batch_id, self.flush_records(now_ms)))
        } else {
            None
        }
    }

    /// The buffer as a flush at `now_ms` leaves it. Where the flush policy
    /// fires, the taken records are gone from the head of the queue and the
    /// time of the last flush is `now_ms`; the batch id moves on if a batch
    /// was made. Where it does not fire, nothing changes.
    pub open spec fn after_flush(self, now_ms: u64) -> BufferModel {
        if self.flush_due(now_ms) {
            BufferModel {
                queue: self.queue.subrange(self.flush_quota() as int, self.queue.len() as int),
                last_flush_at_ms: now_ms,
                flush_rollback_ms: self.last_flush_at_ms,
                next_batch_id: if self.flush_quota() > 0 {
                    bump(self.next_batch_id)
                } else {
                    self.next_batch_id
                },
                ..self
            }
        } else {
            self
        }
    }

    /// The buffer after the records of a batch were put back at the head of
    /// the queue.
    pub open spec fn after_restore(self, records: Seq<NormalizedLog>) -> BufferModel {
        BufferModel {
            queue: records + self.queue,
            last_flush_at_ms: self.flush_rollback_ms,
            ..self
        }
    }

    /// The batch that flushing everything returns.
    pub open spec fn remaining_batch(self) -> Option<(u64, Seq<NormalizedLog>)> {
        if self.queue.len() > 0 {
            Some((self.next_batch_id, self.queue))
        } else {
            None
        }
    }

    /// The buffer after everything was flushed at `now_ms`. An empty buffer
    /// stays as it is.
    pub open spec fn after_flush_remaining(self, now_ms: u64) -> BufferModel {
        if self.queue.len() > 0 {
            BufferModel {
                queue: Seq::empty(),
                last_flush_at_ms: now_ms,
                flush_rollback_ms: self.last_flush_at_ms,
                next_batch_id: bump(self.next_batch_id),
                ..self
            }
        } else {
            self
        }
    }

    /// The buffer as `drain` at `now_ms` leaves it.
    pub open spec fn after_drain(self, now_ms: u64) -> BufferModel {
        BufferModel {
            queue: self.queue.subrange(self.drain_quota(now_ms) as int, self.queue.len() as int),
            ..self
        }
    }

    /// The buffer after a line could not be parsed: the line is counted and
    /// nothing else changes.
    pub open spec fn after_parse_failure(self) -> BufferModel {
        BufferModel { parse_failures: bump(self.parse_failures), ..self }
    }

    /// The buffer after a shutdown at `now_ms`: flushed empty and closed.
    pub open spec fn after_shutdown(self, now_ms: u64) -> BufferModel {
        BufferModel { closed: true, ..self.after_flush_remaining(now_ms) }
    }
}

impl InMemoryBuffer {
    /// Builds an empty buffer from its configuration at time `now_ms`. A policy
    /// or capacity option that names no known setting is refused, and the
    /// error carries the offending text.
    pub fn new(config: BufferConfig, now_ms: u64) -> (r: Result<InMemoryBuffer, ConfigError>)
        ensures
            match r {
                Ok(b) => {
                    &&& config_error_of(config).is_none()
                    &&& b.queue@ == Seq::<NormalizedLog>::empty()
                    &&& Some(b.capacity_option) == capacity_option_of(config.capacity_option@)
                    &&& Some(b.overflow_policy) == overflow_policy_of(config.overflow_policy@)
                    &&& Some(b.flush_policy) == flush_policy_of(config.flush_policy@)
                    &&& Some(b.drain_policy) == drain_policy_of(config.drain_policy@)
                    &&& b.buffer_capacity == config.buffer_capacity
                    &&& b.batch_size == config.batch_size
                    &&& b.batch_timeout_ms == config.batch_timeout_ms
                    &&& b.durability == durability_of(config.durability)
                    &&& b.last_flush_at_ms == now_ms
                    &&& b.flush_rollback_ms == now_ms
                    &&& b.dropped == 0
                    &&& b.next_batch_id == 0
                    &&& !b.closed
                    &&& b.parse_failures == 0
                },
                Err(e) => config_error_of(config) == Some(e),
            },
    {
        let capacity_option = match parse_capacity_option(config.capacity_option.as_str()) {
            Some(v) => v,
            None => {
                return Err(ConfigError::CapacityOption(config.capacity_option));
            },
        };
        let overflow_policy = match parse_overflow_policy(config.overflow_policy.as_str()) {
            Some(v) => v,
            None => {
                return Err(ConfigError::OverflowPolicy(config.overflow_policy));
            },
        };
        let flush_policy = match parse_flush_policy(config.flush_policy.as_str()) {
            Some(v) => v,
            None => {
                return Err(ConfigError::FlushPolicy(config.flush_policy));
            },
        };
        let drain_policy = match parse_drain_policy(config.drain_policy.as_str()) {
            Some(v) => v,
            None => {
                return Err(ConfigError::DrainPolicy(config.drain_policy));
            },
        };
        let durability = match config.durability {
            DurabilityConfig::InMemory => Durability::InMemory,
            DurabilityConfig::SQLite(path) => Durability::SQLite(path),
        };
        Ok(
            InMemoryBuffer {
                queue: VecDeque::new(),
                capacity_option,
                buffer_capacity: config.buffer_capacity,
                batch_size: config.batch_size,
                batch_timeout_ms: config.batch_timeout_ms,
                last_flush_at_ms: now_ms,
                durability,
                overflow_policy,
                drain_policy,
                flush_policy,
                dropped: 0,
                next_batch_id: 0,
                flush_rollback_ms: now_ms,
                closed: false,
                parse_failures: 0,
            },
        )
    }

    /// Counts one line that could not be parsed and was dropped. Nothing
    /// else changes.
    pub fn count_parse_failure(&mut self)
        ensures
            final(self)@ == old(self)@.after_parse_failure(),
    {
        self.parse_failures = bump_exec(self.parse_failures);
    }

    /// How many more records fit before the queue is full: the largest
    /// `usize` where there is no cap, zero where the queue is at or over it.
    pub fn check_buffer_capacity(&self) -> (free: usize)
        ensures
            !self@.is_bounded() ==> free == usize::MAX,
            self@.is_full() ==> free == 0,
            self@.is_bounded() && !self@.is_full() ==> free == if self.buffer_capacity
                - self.queue@.len() <= usize::MAX {
                (self.buffer_capacity - self.queue@.len()) as usize
            } else {
                usize::MAX
            },
    {
        let bounded = match self.capacity_option {
            CapacityOption::Bounded => self.buffer_capacity > 0,
            CapacityOption::Unbounded => false,
        };
        if !bounded {
            return usize::MAX;
        }
        let used: u64 = self.queue.len() as u64;
        if used >= self.buffer_capacity {
            0
        } else {
            let free: u64 = self.buffer_capacity - used;
            if free > usize::MAX as u64 {
                usize::MAX
            } else {
                free as usize
            }
        }
    }

    /// Whether the queue has a hard cap and has reached it.
    pub fn full(&self) -> (r: bool)
        ensures
            r == self@.is_full(),
    {
        match self.capacity_option {
            CapacityOption::Bounded => self.buffer_capacity > 0 && self.queue.len() as u64
                >= self.buffer_capacity,
            CapacityOption::Unbounded => false,
        }
    }

    /// Applies the overflow policy to a queue that may be full, and says what
    /// `push` does next. Only the drop-oldest policy changes the queue: it
    /// removes the oldest record. Each dropped record is counted.
    pub fn handle_overflow(&mut self) -> (action: OverflowAction)
        ensures
            action == old(self)@.overflow_action(),
            final(self)@ == old(self)@.after_overflow(),
    {
        if !self.full() {
            return OverflowAction::Append;
        }
        match self.overflow_policy {
            OverflowPolicy::DropNewest => {
                self.dropped = bump_exec(self.dropped);
                OverflowAction::Reject
            },
            OverflowPolicy::DropOldest => {
                let _oldest = self.queue.pop_front();
                self.dropped = bump_exec(self.dropped);
                OverflowAction::AppendAfterEviction
            },
            OverflowPolicy::BlockWithBackpressure => OverflowAction::Wait,
            OverflowPolicy::GrowCapacity => {
                self.queue.reserve(1);
                OverflowAction::Append
            },
        }
    }

    /// Hands a record to the buffer. Where the queue is full the overflow
    /// policy decides first; a record that is taken becomes the newest in the
    /// queue and nothing else in the queue moves. A record that has to wait,
    /// or that comes to a closed buffer, is handed back.
    pub fn push(&mut self, log: NormalizedLog) -> (outcome: PushOutcome)
        ensures
            outcome == old(self)@.push_outcome(log),
            final(self)@ == old(self)@.after_push(log),
    {
        if self.closed {
            return PushOutcome::Closed(log);
        }
        match self.handle_overflow() {
            OverflowAction::Append => {
                self.queue.push_back(log);
                PushOutcome::Accepted
            },
            OverflowAction::AppendAfterEviction => {
                self.queue.push_back(log);
                PushOutcome::DroppedOldest
            },
            OverflowAction::Reject => PushOutcome::DroppedNewest,
            OverflowAction::Wait => PushOutcome::Blocked(log),
        }
    }

    /// Whether a flush fires at `now_ms` under the flush policy.
    pub fn should_flush(&self, now_ms: u64) -> (due: bool)
        ensures
            due == self@.flush_due(now_ms),
    {
        let threshold: usize = if self.batch_size == 0 {
            1
        } else {
            self.batch_size
        };
        let by_size = self.queue.len() >= threshold;
        let elapsed: u64 = if now_ms >= self.last_flush_at_ms {
            now_ms - self.last_flush_at_ms
        } else {
            0
        };
        let by_timeout = elapsed >= self.batch_timeout_ms;
        match self.flush_policy {
            FlushPolicy::BatchSize => by_size,
            FlushPolicy::BatchTimeout => by_timeout,
            FlushPolicy::HybridSizeTimeout => by_size || by_timeout,
        }
    }

    /// How many records a flush that fires now would take.
    pub fn flush_count(&self) -> (n: usize)
        ensures
            n == self@.flush_quota(),
            n <= self.queue@.len(),
    {
        let len = self.queue.len();
        match self.flush_policy {
            FlushPolicy::BatchTimeout => len,
            _ => {
                let threshold: usize = if self.batch_size == 0 {
                    1
                } else {
                    self.batch_size
                };
                if threshold <= len {
                    threshold
                } else {
                    len
                }
            },
        }
    }

    /// Flushes if the flush policy fires at `now_ms`: the oldest records, as
    /// many as the policy takes, leave the queue in order as a new batch, and
    /// the time of the last flush becomes `now_ms`. Where the policy does not
    /// fire nothing changes; where it fires on an empty queue only the time
    /// of the last flush changes. Both return `None`.
    pub fn flush(&mut self, now_ms: u64) -> (batch: Option<Batch>)
        ensures
            batch_view(batch) == old(self)@.flush_batch(now_ms),
            final(self)@ == old(self)@.after_flush(now_ms),
    {
        if !self.should_flush(now_ms) {
            return None;
        }
        let n = self.flush_count();
        let records = take_front(&mut self.queue, n);
        self.flush_rollback_ms = self.last_flush_at_ms;
        self.last_flush_at_ms = now_ms;
        if n == 0 {
            None
        } else {
            let id = self.next_batch_id;
            self.next_batch_id = bump_exec(self.next_batch_id);
            Some(Batch { id, records })
        }
    }

    /// Puts the records of a batch that could not be made durable back at the
    /// head of the queue, in their order, and takes back the time of the last
    /// flush, so that the next flush sees them again.
    pub fn restore(&mut self, batch: Batch)
        ensures
            final(self)@ == old(self)@.after_restore(batch.records@),
    {
        let ghost tail = self.queue@;
        let ghost all = batch.records@;
        let mut records = batch.records;
        assert(all.subrange(all.len() as int, all.len() as int) + tail =~= tail);
        assert(records@ =~= all.subrange(0, all.len() as int));
        while records.len() > 0
            invariant
                records@.len() <= all.len(),
                self.queue@ == all.subrange(records@.len() as int, all.len() as int) + tail,
                records@ == all.subrange(0, records@.len() as int),
                self@ == (BufferModel { queue: self.queue@, ..old(self)@ }),
            decreases records.len(),
        {
            let ghost k = records@.len() as int;
            let last = records.pop();
            match last {
                Some(record) => {
                    self.queue.push_front(record);
                    assert(record == all[k - 1]);
                    assert(self.queue@ =~= all.subrange(k - 1, all.len() as int) + tail);
                    assert(records@ =~= all.subrange(0, k - 1));
                },
                None => {},
            }
        }
        assert(all.subrange(0, all.len() as int) =~= all);
        self.last_flush_at_ms = self.flush_rollback_ms;
    }

    /// Flushes everything at once, whatever the flush policy says: all
    /// records leave the queue in order as one batch. An empty queue gives
    /// `None` and changes nothing.
    pub fn flush_remaining_logs(&mut self, now_ms: u64) -> (batch: Option<Batch>)
        ensures
            batch_view(batch) == old(self)@.remaining_batch(),
            final(self)@ == old(self)@.after_flush_remaining(now_ms),
    {
        let n = self.queue.len();
        if n == 0 {
            return None;
        }
        let records = take_front(&mut self.queue, n);
        assert(records@ =~= old(self).queue@);
        assert(self.queue@ =~= Seq::<NormalizedLog>::empty());
        self.flush_rollback_ms = self.last_flush_at_ms;
        self.last_flush_at_ms = now_ms;
        let id = self.next_batch_id;
        self.next_batch_id = bump_exec(self.next_batch_id);
        Some(Batch { id, records })
    }

    /// Removes from the head of the queue as many records as the drain policy
    /// takes at `now_ms`, and hands them back in order.
    pub fn drain(&mut self, now_ms: u64) -> (removed: Vec<NormalizedLog>)
        ensures
            removed@ == old(self).queue@.subrange(0, old(self)@.drain_quota(now_ms) as int),
            final(self)@ == old(self)@.after_drain(now_ms),
    {
        let len = self.queue.len();
        let n: usize = match self.drain_policy {
            DrainPolicy::DrainAll => len,
            DrainPolicy::DrainBatchSize => if len >= self.batch_size {
                self.batch_size
            } else {
                0
            },
            DrainPolicy::DrainBatchTimeout => {
                let elapsed: u64 = if now_ms >= self.last_flush_at_ms {
                    now_ms - self.last_flush_at_ms
                } else {
                    0
                };
                if elapsed > self.batch_timeout_ms {
                    len
                } else {
                    0
                }
            },
        };
        take_front(&mut self.queue, n)
    }

    /// Shuts the buffer down: everything still queued leaves as one terminal
    /// batch, whatever the flush policy says, and the buffer is closed to
    /// further records.
    pub fn shutdown(&mut self, now_ms: u64) -> (batch: Option<Batch>)
        ensures
            batch_view(batch) == old(self)@.remaining_batch(),
            final(self)@ == old(self)@.after_shutdown(now_ms),
    {
        let batch = self.flush_remaining_logs(now_ms);
        self.closed = true;
        batch
    }
}

/// Conservation under flush: the records that a flush takes, followed by the
/// records it leaves, are the queue as it was, in the same order. So a flush
/// loses no record, repeats none and reorders none.
pub proof fn lemma_flush_conserves(b: BufferModel, now_ms: u64)
    ensures
        b.flush_records(now_ms) + b.after_flush(now_ms).queue == b.queue,
{
    let q = b.queue;
    if b.flush_due(now_ms) {
        let n = b.flush_quota() as int;
        assert(q.subrange(0, n) + q.subrange(n, q.len() as int) =~= q);
    } else {
        assert(Seq::<NormalizedLog>::empty() + q =~= q);
    }
}

/// A record that `push` takes is the newest in the queue afterwards, and
/// the records that were queued before it keep their order ahead of it.
pub proof fn lemma_push_appends(b: BufferModel, log: NormalizedLog)
    requires
        b.takes(),
    ensures
        b.after_push(log).queue.len() > 0,
        b.after_push(log).queue.last() == log,
        b.after_push(log).queue.drop_last() == if b.overflow_action()
            == OverflowAction::AppendAfterEviction {
            b.queue.subrange(1, b.queue.len() as int)
        } else {
            b.queue
        },
{
    let q = b.after_push(log).queue;
    if b.overflow_action() == OverflowAction::AppendAfterEviction {
        assert(q.drop_last() =~= b.queue.subrange(1, b.queue.len() as int));
    } else {
        assert(q.drop_last() =~= b.queue);
    }
}

/// No accepted record goes missing: after `push` has taken a record, a flush
/// at any time leaves the record either in the batch it returns or in the
/// queue.
pub proof fn lemma_accepted_record_is_kept(b: BufferModel, log: NormalizedLog, now_ms: u64)
    requires
        b.takes(),
    ensures
        b.after_push(log).flush_records(now_ms).contains(log) || b.after_push(log).after_flush(
            now_ms,
        ).queue.contains(log),
{
    let after = b.after_push(log);
    lemma_push_appends(b, log);
    lemma_flush_conserves(after, now_ms);
    let q = after.queue;
    let taken = after.flush_records(now_ms);
    let left = after.after_flush(now_ms).queue;
    let last = q.len() - 1;
    assert(q[last] == log);
    assert((taken + left)[last] == log);
    if last < taken.len() {
        assert(taken[last] == log);
    } else {
        assert(left[last - taken.len()] == log);
    }
}

/// A flush returns a batch exactly when it takes a record, and the batch
/// holds exactly the records it takes.
pub proof fn lemma_flush_batch_holds_what_left(b: BufferModel, now_ms: u64)
    ensures
        b.flush_batch(now_ms).is_some() <==> b.flush_due(now_ms) && b.queue.len() > 0,
        b.flush_batch(now_ms).is_some() ==> b.flush_batch(now_ms).unwrap().1 + b.after_flush(
            now_ms,
        ).queue == b.queue,
{
    lemma_flush_conserves(b, now_ms);
}

/// With a batch size of zero every push makes a flush due: under a policy
/// that flushes by size, a flush fires whenever the queue is not empty, and
/// takes the oldest record.
pub proof fn lemma_zero_batch_size_flushes_on_every_push(b: BufferModel, now_ms: u64)
    requires
        b.batch_size == 0,
        b.flush_policy == FlushPolicy::BatchSize || b.flush_policy
            == FlushPolicy::HybridSizeTimeout,
        b.queue.len() > 0,
    ensures
        b.flush_due(now_ms),
        b.flush_records(now_ms).len() == 1,
        b.flush_records(now_ms)[0] == b.queue[0],
{
}

/// With a timeout of zero the buffer flushes continuously: under a policy
/// that flushes by timeout, a flush fires at every reading of the clock.
pub proof fn lemma_zero_timeout_flushes_continuously(b: BufferModel, now_ms: u64)
    requires
        b.batch_timeout_ms == 0,
        b.flush_policy == FlushPolicy::BatchTimeout || b.flush_policy
            == FlushPolicy::HybridSizeTimeout,
    ensures
        b.flush_due(now_ms),
{
}

/// A queue within its cap stays within it under every overflow policy but
/// the one that grows the queue.
pub proof fn lemma_push_respects_capacity(b: BufferModel, log: NormalizedLog)
    requires
        b.is_bounded(),
        b.queue.len() <= b.buffer_capacity,
        b.overflow_policy != OverflowPolicy::GrowCapacity,
    ensures
        b.after_push(log).queue.len() <= b.buffer_capacity,
{
}

/// Batch ids never decrease: whatever a flush does, the id that the next
/// batch gets is not below the one before.
pub proof fn lemma_batch_ids_are_monotonic(b: BufferModel, now_ms: u64)
    ensures
        b.after_flush(now_ms).next_batch_id >= b.next_batch_id,
        b.after_flush_remaining(now_ms).next_batch_id >= b.next_batch_id,
{
}

} // verus!
