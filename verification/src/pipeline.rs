//! One raw line through the pipeline: parse it, push the record into the
//! buffer, and flush if a flush is due. The batch that a flush returns is the
//! caller's to ship.

use crate::buffer::{batch_view, Batch, BufferModel, InMemoryBuffer, OverflowAction, PushOutcome};
use crate::parser::{parse, ParseError};
use crate::record::{NormalizedLog, NormalizedLogView, Timestamp};
use vstd::prelude::*;

verus! {

/// What became of one record: how the buffer answered, and the batch that the
/// following flush returned, if any.
#[derive(Debug, PartialEq, Eq)]
pub struct Processed {
    pub pushed: PushOutcome,
    pub batch: Option<Batch>,
}

/// Whether a flush is looked at after the push: it is unless the record was
/// handed back, because the producer has to wait or the buffer is closed.
pub open spec fn flush_follows(b: BufferModel) -> bool {
    !b.closed && b.overflow_action() != OverflowAction::Wait
}

/// The buffer after a record went through: pushed, then flushed if a flush
/// follows and is due.
pub open spec fn after_record(b: BufferModel, log: NormalizedLog, now_ms: u64) -> BufferModel {
    if flush_follows(b) {
        b.after_push(log).after_flush(now_ms)
    } else {
        b.after_push(log)
    }
}

/// The batch that comes out when a record goes through.
pub open spec fn batch_after_record(b: BufferModel, log: NormalizedLog, now_ms: u64) -> Option<
    (u64, Seq<NormalizedLog>),
> {
    if flush_follows(b) {
        b.after_push(log).flush_batch(now_ms)
    } else {
        None
    }
}

/// Pushes a record into the buffer and then flushes the buffer if the flush
/// policy fires at `now_ms`. A record that is handed back by the buffer is
/// followed by no flush.
pub fn process_record(buffer: &mut InMemoryBuffer, record: NormalizedLog, now_ms: u64) -> (p:
    Processed)
    ensures
        p.pushed == old(buffer)@.push_outcome(record),
        batch_view(p.batch) == batch_after_record(old(buffer)@, record, now_ms),
        final(buffer)@ == after_record(old(buffer)@, record, now_ms),
{
    let pushed = buffer.push(record);
    let flush = match &pushed {
        PushOutcome::Blocked(_) => false,
        PushOutcome::Closed(_) => false,
        _ => true,
    };
    let batch = if flush {
        buffer.flush(now_ms)
    } else {
        None
    };
    Processed { pushed, batch }
}

/// Takes one raw line through the pipeline. A line that cannot be parsed is
/// refused with the parser's error, counted as a parse failure and dropped:
/// the queue and the time of the last flush stay as they were. A line that
/// parses goes through as its record does. `now` is the current time as
/// a timestamp, for lines without a readable one; `now_ms` is the clock of
/// the buffer.
pub fn process_log_line(
    buffer: &mut InMemoryBuffer,
    line: &str,
    now: Timestamp,
    now_ms: u64,
) -> (r: Result<Processed, ParseError>)
    ensures
        match r {
            Err(e) => parse(line@, now) == Err::<NormalizedLogView, ParseError>(e)
                && final(buffer)@ == old(buffer)@.after_parse_failure(),
            Ok(p) => exists|record: NormalizedLog|
                {
                    &&& parse(line@, now) == Ok::<NormalizedLogView, ParseError>(record@)
                    &&& p.pushed == #[trigger] old(buffer)@.push_outcome(record)
                    &&& batch_view(p.batch) == batch_after_record(old(buffer)@, record, now_ms)
                    &&& final(buffer)@ == after_record(old(buffer)@, record, now_ms)
                },
        },
{
    match NormalizedLog::select_parser(line, now) {
        Err(e) => {
            buffer.count_parse_failure();
            Err(e)
        },
        Ok(record) => {
            let ghost r = record;
            let p = process_record(buffer, record, now_ms);
            assert(p.pushed == old(buffer)@.push_outcome(r));
            Ok(p)
        },
    }
}

/// A line that does not parse touches nothing but the count: the queue, the
/// time of the last flush, the batch id and the drop counter stay as they
/// were, and the count of parse failures rises by one.
pub proof fn lemma_parse_failure_only_counts(b: BufferModel)
    ensures
        b.after_parse_failure().queue == b.queue,
        b.after_parse_failure().last_flush_at_ms == b.last_flush_at_ms,
        b.after_parse_failure().next_batch_id == b.next_batch_id,
        b.after_parse_failure().dropped == b.dropped,
        b.after_parse_failure().parse_failures == crate::buffer::bump(b.parse_failures),
        b.parse_failures < u64::MAX ==> b.after_parse_failure().parse_failures
            == b.parse_failures + 1,
{
}

/// A record that goes through is not lost: if the buffer takes it, it is in
/// the batch that comes out or in the queue afterwards.
pub proof fn lemma_processed_record_is_kept(b: BufferModel, log: NormalizedLog, now_ms: u64)
    requires
        b.takes(),
    ensures
        after_record(b, log, now_ms).queue.contains(log) || (batch_after_record(
            b,
            log,
            now_ms,
        ).is_some() && batch_after_record(b, log, now_ms).unwrap().1.contains(log)),
{
    crate::buffer::lemma_accepted_record_is_kept(b, log, now_ms);
}

} // verus!
