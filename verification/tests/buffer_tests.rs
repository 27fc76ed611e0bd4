use log_collector::buffer::{Batch, Durability, InMemoryBuffer, OverflowAction, PushOutcome};
use log_collector::config::{
    parse_capacity_option, parse_drain_policy, parse_flush_policy, parse_overflow_policy,
    BufferConfig, CapacityOption, ConfigError, DrainPolicy, DurabilityConfig, FlushPolicy,
    OverflowPolicy,
};
use log_collector::pipeline::{process_log_line, process_record};
use log_collector::parser::ParseError;
use log_collector::record::{NormalizedLog, Timestamp};

fn buffer_record(n: u64) -> NormalizedLog {
    NormalizedLog {
        timestamp: Timestamp { seconds: n as i64, nanos: 0 },
        level: None,
        message: format!("L{}", n),
        metadata: None,
        raw_line: format!("raw L{}", n),
    }
}

fn buffer_config(capacity: u64, batch_size: usize, overflow: &str, flush: &str) -> BufferConfig {
    BufferConfig {
        capacity_option: "bounded".to_string(),
        buffer_capacity: capacity,
        batch_size,
        batch_timeout_ms: 1000,
        durability: DurabilityConfig::InMemory,
        overflow_policy: overflow.to_string(),
        drain_policy: "drain_all".to_string(),
        flush_policy: flush.to_string(),
    }
}

fn buffer_messages(buffer: &InMemoryBuffer) -> Vec<String> {
    buffer.queue.iter().map(|l| l.message.clone()).collect()
}

fn batch_messages(batch: &Batch) -> Vec<String> {
    batch.records.iter().map(|l| l.message.clone()).collect()
}

#[test]
fn new_reads_every_setting() {
    let mut config = buffer_config(7, 4, "block_with_backpressure", "hybrid_size_timeout");
    config.drain_policy = "drain_batch_timeout".to_string();
    config.durability = DurabilityConfig::SQLite("/var/lib/agent.db".to_string());
    let b = InMemoryBuffer::new(config, 55).unwrap();
    assert_eq!(b.queue.len(), 0);
    assert_eq!(b.capacity_option, CapacityOption::Bounded);
    assert_eq!(b.buffer_capacity, 7);
    assert_eq!(b.batch_size, 4);
    assert_eq!(b.batch_timeout_ms, 1000);
    assert_eq!(b.last_flush_at_ms, 55);
    assert_eq!(b.durability, Durability::SQLite("/var/lib/agent.db".to_string()));
    assert_eq!(b.overflow_policy, OverflowPolicy::BlockWithBackpressure);
    assert_eq!(b.drain_policy, DrainPolicy::DrainBatchTimeout);
    assert_eq!(b.flush_policy, FlushPolicy::HybridSizeTimeout);
    assert_eq!(b.dropped, 0);
    assert_eq!(b.next_batch_id, 0);
    assert!(!b.closed);
    assert_eq!(b.parse_failures, 0);
}

#[test]
fn new_refuses_an_unknown_setting_and_names_it() {
    let mut c = buffer_config(3, 2, "drop_oldest", "batch_size");
    c.capacity_option = "elastic".to_string();
    c.overflow_policy = "also wrong".to_string();
    assert_eq!(
        InMemoryBuffer::new(c, 0).unwrap_err(),
        ConfigError::CapacityOption("elastic".to_string())
    );
    let c = buffer_config(3, 2, "drop_sometimes", "batch_size");
    assert_eq!(
        InMemoryBuffer::new(c, 0).unwrap_err(),
        ConfigError::OverflowPolicy("drop_sometimes".to_string())
    );
    let c = buffer_config(3, 2, "drop_oldest", "whenever");
    assert_eq!(
        InMemoryBuffer::new(c, 0).unwrap_err(),
        ConfigError::FlushPolicy("whenever".to_string())
    );
    let mut c = buffer_config(3, 2, "drop_oldest", "batch_size");
    c.drain_policy = "drain_some".to_string();
    assert_eq!(
        InMemoryBuffer::new(c, 0).unwrap_err(),
        ConfigError::DrainPolicy("drain_some".to_string())
    );
}

#[test]
fn policies_are_read_from_their_spelling() {
    assert_eq!(parse_capacity_option("bounded"), Some(CapacityOption::Bounded));
    assert_eq!(parse_capacity_option("unbounded"), Some(CapacityOption::Unbounded));
    assert_eq!(parse_capacity_option("Bounded"), None);
    assert_eq!(parse_overflow_policy("drop_newest"), Some(OverflowPolicy::DropNewest));
    assert_eq!(parse_overflow_policy("drop_oldest"), Some(OverflowPolicy::DropOldest));
    assert_eq!(
        parse_overflow_policy("block_with_backpressure"),
        Some(OverflowPolicy::BlockWithBackpressure)
    );
    assert_eq!(parse_overflow_policy("grow_capacity"), Some(OverflowPolicy::GrowCapacity));
    assert_eq!(parse_overflow_policy(""), None);
    assert_eq!(parse_flush_policy("batch_size"), Some(FlushPolicy::BatchSize));
    assert_eq!(parse_flush_policy("batch_timeout"), Some(FlushPolicy::BatchTimeout));
    assert_eq!(parse_flush_policy("hybrid_size_timeout"), Some(FlushPolicy::HybridSizeTimeout));
    assert_eq!(parse_flush_policy("hybrid"), None);
    assert_eq!(parse_drain_policy("drain_all"), Some(DrainPolicy::DrainAll));
    assert_eq!(parse_drain_policy("drain_batch_size"), Some(DrainPolicy::DrainBatchSize));
    assert_eq!(parse_drain_policy("drain_batch_timeout"), Some(DrainPolicy::DrainBatchTimeout));
    assert_eq!(parse_drain_policy("drain"), None);
}

#[test]
fn overflow_drop_oldest_keeps_the_newest_three() {
    let mut b = InMemoryBuffer::new(buffer_config(3, 100, "drop_oldest", "batch_size"), 0).unwrap();
    assert_eq!(b.push(buffer_record(1)), PushOutcome::Accepted);
    assert_eq!(b.push(buffer_record(2)), PushOutcome::Accepted);
    assert_eq!(b.push(buffer_record(3)), PushOutcome::Accepted);
    assert_eq!(b.push(buffer_record(4)), PushOutcome::DroppedOldest);
    assert_eq!(b.push(buffer_record(5)), PushOutcome::DroppedOldest);
    assert_eq!(buffer_messages(&b), vec!["L3", "L4", "L5"]);
    assert_eq!(b.dropped, 2);
}

#[test]
fn overflow_drop_newest_keeps_the_oldest() {
    let mut b = InMemoryBuffer::new(buffer_config(2, 100, "drop_newest", "batch_size"), 0).unwrap();
    assert_eq!(b.push(buffer_record(1)), PushOutcome::Accepted);
    assert_eq!(b.push(buffer_record(2)), PushOutcome::Accepted);
    assert_eq!(b.push(buffer_record(3)), PushOutcome::DroppedNewest);
    assert_eq!(buffer_messages(&b), vec!["L1", "L2"]);
    assert_eq!(b.dropped, 1);
}

#[test]
fn overflow_backpressure_hands_the_record_back() {
    let mut b = InMemoryBuffer::new(
        buffer_config(1, 100, "block_with_backpressure", "batch_size"),
        0,
    )
    .unwrap();
    assert_eq!(b.push(buffer_record(1)), PushOutcome::Accepted);
    assert_eq!(b.push(buffer_record(2)), PushOutcome::Blocked(buffer_record(2)));
    assert_eq!(buffer_messages(&b), vec!["L1"]);
    assert_eq!(b.dropped, 0);
    assert_eq!(b.handle_overflow(), OverflowAction::Wait);
}

#[test]
fn overflow_grow_capacity_passes_the_cap() {
    let mut b =
        InMemoryBuffer::new(buffer_config(1, 100, "grow_capacity", "batch_size"), 0).unwrap();
    assert_eq!(b.push(buffer_record(1)), PushOutcome::Accepted);
    assert_eq!(b.push(buffer_record(2)), PushOutcome::Accepted);
    assert_eq!(buffer_messages(&b), vec!["L1", "L2"]);
    assert_eq!(b.dropped, 0);
    assert_eq!(b.check_buffer_capacity(), 0);
}

#[test]
fn capacity_zero_and_unbounded_mean_unlimited() {
    let mut b = InMemoryBuffer::new(buffer_config(0, 100, "drop_newest", "batch_size"), 0).unwrap();
    assert_eq!(b.check_buffer_capacity(), usize::MAX);
    for n in 0..50 {
        assert_eq!(b.push(buffer_record(n)), PushOutcome::Accepted);
    }
    assert_eq!(b.queue.len(), 50);
    let mut c = buffer_config(1, 100, "drop_newest", "batch_size");
    c.capacity_option = "unbounded".to_string();
    let mut u = InMemoryBuffer::new(c, 0).unwrap();
    assert_eq!(u.push(buffer_record(1)), PushOutcome::Accepted);
    assert_eq!(u.push(buffer_record(2)), PushOutcome::Accepted);
    assert!(!u.full());
    assert_eq!(u.check_buffer_capacity(), usize::MAX);
}

#[test]
fn check_buffer_capacity_counts_free_slots() {
    let mut b = InMemoryBuffer::new(buffer_config(5, 100, "drop_newest", "batch_size"), 0).unwrap();
    assert_eq!(b.check_buffer_capacity(), 5);
    b.push(buffer_record(1));
    b.push(buffer_record(2));
    assert_eq!(b.check_buffer_capacity(), 3);
    assert!(!b.full());
    b.push(buffer_record(3));
    b.push(buffer_record(4));
    b.push(buffer_record(5));
    assert_eq!(b.check_buffer_capacity(), 0);
    assert!(b.full());
}

#[test]
fn flush_by_size_takes_one_batch_in_order() {
    let mut b = InMemoryBuffer::new(buffer_config(0, 2, "drop_newest", "batch_size"), 10).unwrap();
    b.push(buffer_record(1));
    assert!(!b.should_flush(5000));
    assert_eq!(b.flush(5000), None);
    assert_eq!(b.last_flush_at_ms, 10);
    b.push(buffer_record(2));
    b.push(buffer_record(3));
    assert!(b.should_flush(20));
    assert_eq!(b.flush_count(), 2);
    let batch = b.flush(20).unwrap();
    assert_eq!(batch.id, 0);
    assert_eq!(batch_messages(&batch), vec!["L1", "L2"]);
    assert_eq!(buffer_messages(&b), vec!["L3"]);
    assert_eq!(b.last_flush_at_ms, 20);
    assert_eq!(b.next_batch_id, 1);
}

#[test]
fn flush_by_timeout_takes_everything() {
    let mut b =
        InMemoryBuffer::new(buffer_config(0, 2, "drop_newest", "batch_timeout"), 100).unwrap();
    b.push(buffer_record(1));
    b.push(buffer_record(2));
    b.push(buffer_record(3));
    assert!(!b.should_flush(1099));
    assert_eq!(b.flush(1099), None);
    assert!(b.should_flush(1100));
    assert_eq!(b.flush_count(), 3);
    let batch = b.flush(1100).unwrap();
    assert_eq!(batch_messages(&batch), vec!["L1", "L2", "L3"]);
    assert_eq!(b.queue.len(), 0);
    assert_eq!(b.last_flush_at_ms, 1100);
}

#[test]
fn flush_hybrid_fires_on_either() {
    let mut b = InMemoryBuffer::new(buffer_config(0, 2, "drop_newest", "hybrid_size_timeout"), 0)
        .unwrap();
    b.push(buffer_record(1));
    assert!(!b.should_flush(999));
    assert!(b.should_flush(1000));
    let by_time = b.flush(1000).unwrap();
    assert_eq!(batch_messages(&by_time), vec!["L1"]);
    b.push(buffer_record(2));
    b.push(buffer_record(3));
    b.push(buffer_record(4));
    assert!(b.should_flush(1001));
    let by_size = b.flush(1001).unwrap();
    assert_eq!(by_size.id, 1);
    assert_eq!(batch_messages(&by_size), vec!["L2", "L3"]);
    assert_eq!(buffer_messages(&b), vec!["L4"]);
}

#[test]
fn flush_on_an_empty_queue_returns_nothing() {
    let mut b =
        InMemoryBuffer::new(buffer_config(0, 2, "drop_newest", "batch_timeout"), 0).unwrap();
    assert!(b.should_flush(5000));
    assert_eq!(b.flush(5000), None);
    assert_eq!(b.last_flush_at_ms, 5000);
    assert_eq!(b.next_batch_id, 0);
}

#[test]
fn batch_size_zero_flushes_on_every_push() {
    let mut b = InMemoryBuffer::new(buffer_config(0, 0, "drop_newest", "batch_size"), 0).unwrap();
    for n in 1..4 {
        let p = process_record(&mut b, buffer_record(n), 0);
        assert_eq!(p.pushed, PushOutcome::Accepted);
        let batch = p.batch.unwrap();
        assert_eq!(batch.id, n - 1);
        assert_eq!(batch_messages(&batch), vec![format!("L{}", n)]);
        assert_eq!(b.queue.len(), 0);
    }
}

#[test]
fn timeout_zero_flushes_continuously() {
    let mut c = buffer_config(0, 100, "drop_newest", "batch_timeout");
    c.batch_timeout_ms = 0;
    let mut b = InMemoryBuffer::new(c, 500).unwrap();
    assert!(b.should_flush(500));
    assert!(b.should_flush(0));
    b.push(buffer_record(1));
    assert_eq!(batch_messages(&b.flush(500).unwrap()), vec!["L1"]);
    b.push(buffer_record(2));
    assert_eq!(batch_messages(&b.flush(500).unwrap()), vec!["L2"]);
}

#[test]
fn restore_puts_a_failed_batch_back_in_front() {
    let mut b = InMemoryBuffer::new(buffer_config(0, 2, "drop_newest", "batch_size"), 7).unwrap();
    b.push(buffer_record(1));
    b.push(buffer_record(2));
    b.push(buffer_record(3));
    let batch = b.flush(40).unwrap();
    assert_eq!(b.last_flush_at_ms, 40);
    b.push(buffer_record(4));
    b.restore(batch);
    assert_eq!(buffer_messages(&b), vec!["L1", "L2", "L3", "L4"]);
    assert_eq!(b.last_flush_at_ms, 7);
    let again = b.flush(41).unwrap();
    assert_eq!(batch_messages(&again), vec!["L1", "L2"]);
}

#[test]
fn half_flushed_queue_keeps_the_other_half() {
    let mut b = InMemoryBuffer::new(buffer_config(0, 10, "drop_newest", "batch_size"), 0).unwrap();
    let mut flushed: Vec<String> = Vec::new();
    for n in 0..100 {
        let p = process_record(&mut b, buffer_record(n), 0);
        if let Some(batch) = p.batch {
            flushed.extend(batch_messages(&batch));
        }
        if flushed.len() == 50 {
            break;
        }
    }
    let expected: Vec<String> = (0..50).map(|n| format!("L{}", n)).collect();
    assert_eq!(flushed, expected);
    assert_eq!(b.queue.len(), 0);
    assert_eq!(b.next_batch_id, 5);
}

#[test]
fn flush_remaining_logs_ignores_the_policy() {
    let mut b = InMemoryBuffer::new(buffer_config(0, 100, "drop_newest", "batch_size"), 0).unwrap();
    assert_eq!(b.flush_remaining_logs(9), None);
    assert_eq!(b.last_flush_at_ms, 0);
    b.push(buffer_record(1));
    b.push(buffer_record(2));
    assert!(!b.should_flush(9));
    let batch = b.flush_remaining_logs(9).unwrap();
    assert_eq!(batch_messages(&batch), vec!["L1", "L2"]);
    assert_eq!(b.queue.len(), 0);
    assert_eq!(b.last_flush_at_ms, 9);
}

#[test]
fn shutdown_drains_everything_and_closes() {
    let mut b = InMemoryBuffer::new(buffer_config(0, 50, "drop_newest", "batch_size"), 0).unwrap();
    for n in 0..200 {
        b.push(buffer_record(n));
    }
    let batch = b.shutdown(77).unwrap();
    assert_eq!(batch.records.len(), 200);
    let expected: Vec<String> = (0..200).map(|n| format!("L{}", n)).collect();
    assert_eq!(batch_messages(&batch), expected);
    assert!(b.closed);
    assert_eq!(b.queue.len(), 0);
    assert_eq!(b.push(buffer_record(1)), PushOutcome::Closed(buffer_record(1)));
    assert_eq!(b.queue.len(), 0);
    assert_eq!(b.shutdown(78), None);
}

#[test]
fn drain_follows_the_drain_policy() {
    let mut all = InMemoryBuffer::new(buffer_config(0, 2, "drop_newest", "batch_size"), 0).unwrap();
    all.push(buffer_record(1));
    all.push(buffer_record(2));
    all.push(buffer_record(3));
    let removed: Vec<String> = all.drain(0).iter().map(|l| l.message.clone()).collect();
    assert_eq!(removed, vec!["L1", "L2", "L3"]);
    assert_eq!(all.queue.len(), 0);

    let mut c = buffer_config(0, 2, "drop_newest", "batch_size");
    c.drain_policy = "drain_batch_size".to_string();
    let mut by_size = InMemoryBuffer::new(c, 0).unwrap();
    by_size.push(buffer_record(1));
    assert_eq!(by_size.drain(0).len(), 0);
    by_size.push(buffer_record(2));
    by_size.push(buffer_record(3));
    let removed: Vec<String> = by_size.drain(0).iter().map(|l| l.message.clone()).collect();
    assert_eq!(removed, vec!["L1", "L2"]);
    assert_eq!(buffer_messages(&by_size), vec!["L3"]);

    let mut c = buffer_config(0, 2, "drop_newest", "batch_size");
    c.drain_policy = "drain_batch_timeout".to_string();
    let mut by_time = InMemoryBuffer::new(c, 0).unwrap();
    by_time.push(buffer_record(1));
    assert_eq!(by_time.drain(1000).len(), 0);
    assert_eq!(by_time.drain(1001).len(), 1);
    assert_eq!(by_time.queue.len(), 0);
}

#[test]
fn accepted_record_is_in_the_batch_or_in_the_queue() {
    let mut b = InMemoryBuffer::new(buffer_config(3, 2, "drop_oldest", "batch_size"), 0).unwrap();
    for n in 0..20 {
        let p = process_record(&mut b, buffer_record(n), n);
        let in_queue = b.queue.iter().any(|l| *l == buffer_record(n));
        let in_batch = match &p.batch {
            Some(batch) => batch.records.iter().any(|l| *l == buffer_record(n)),
            None => false,
        };
        assert!(in_queue != in_batch);
    }
}

#[test]
fn a_blocked_record_is_followed_by_no_flush() {
    let mut c = buffer_config(1, 1, "block_with_backpressure", "batch_timeout");
    c.batch_timeout_ms = 0;
    let mut b = InMemoryBuffer::new(c, 0).unwrap();
    b.push(buffer_record(1));
    let p = process_record(&mut b, buffer_record(2), 10);
    assert_eq!(p.pushed, PushOutcome::Blocked(buffer_record(2)));
    assert_eq!(p.batch, None);
    assert_eq!(buffer_messages(&b), vec!["L1"]);
}

#[test]
fn a_line_goes_from_text_to_batch() {
    let mut b = InMemoryBuffer::new(buffer_config(0, 1, "drop_newest", "batch_size"), 0).unwrap();
    let now = Timestamp { seconds: 1, nanos: 1 };
    let line = "2024-01-01T00:00:00.000000000Z stdout F hello world\n";
    let p = process_log_line(&mut b, line, now, 5).unwrap();
    assert_eq!(p.pushed, PushOutcome::Accepted);
    let batch = p.batch.unwrap();
    assert_eq!(batch.records.len(), 1);
    assert_eq!(batch.records[0].message, "hello world");
    assert_eq!(batch.records[0].timestamp, Timestamp { seconds: 1704067200, nanos: 0 });
    assert_eq!(b.queue.len(), 0);
}

#[test]
fn a_line_that_does_not_parse_is_counted_and_dropped() {
    let mut b = InMemoryBuffer::new(buffer_config(0, 1, "drop_newest", "batch_timeout"), 3).unwrap();
    let now = Timestamp { seconds: 1, nanos: 1 };
    assert_eq!(process_log_line(&mut b, "plain text\n", now, 5000), Err(ParseError::UnknownFormat));
    assert_eq!(b.queue.len(), 0);
    assert_eq!(b.next_batch_id, 0);
    assert_eq!(b.last_flush_at_ms, 3);
    assert_eq!(b.dropped, 0);
    assert_eq!(b.parse_failures, 1);
    assert_eq!(
        process_log_line(&mut b, "{\"log\": 5, \"stream\": \"s\", \"time\": \"t\"}", now, 5000),
        Err(ParseError::BadField)
    );
    assert_eq!(b.parse_failures, 2);
    let line = "2024-01-01T00:00:00.000000000Z stdout F hello world\n";
    assert!(process_log_line(&mut b, line, now, 5).is_ok());
    assert_eq!(b.parse_failures, 2);
    b.count_parse_failure();
    assert_eq!(b.parse_failures, 3);
    b.parse_failures = u64::MAX;
    b.count_parse_failure();
    assert_eq!(b.parse_failures, u64::MAX);
}

#[test]
fn configuration_errors_name_the_field() {
    assert_eq!(
        ConfigError::CapacityOption("elastic".to_string()).message(),
        "elastic is not a valid capacity_option"
    );
    assert_eq!(
        ConfigError::OverflowPolicy("x".to_string()).message(),
        "x is not a valid overflow_policy"
    );
    assert_eq!(ConfigError::FlushPolicy("".to_string()).message(), " is not a valid flush_policy");
    assert_eq!(
        ConfigError::DrainPolicy("drain".to_string()).message(),
        "drain is not a valid drain_policy"
    );
}
