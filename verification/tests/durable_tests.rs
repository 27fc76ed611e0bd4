use log_collector::durable::{record_of_row, row_of, rows_of, StoredRow};
use log_collector::record::{Metadata, NormalizedLog, Timestamp};

fn durable_record(seconds: i64, nanos: u32) -> NormalizedLog {
    NormalizedLog {
        timestamp: Timestamp { seconds, nanos },
        level: Some("INFO".to_string()),
        message: "hello world".to_string(),
        metadata: Some(Metadata { stream: "stdout".to_string(), flag: Some("F".to_string()) }),
        raw_line: "2024-01-01T00:00:00.000000000Z stdout F hello world".to_string(),
    }
}

#[test]
fn a_row_stores_the_instant_as_text() {
    let row = row_of(&durable_record(1704067200, 0)).unwrap();
    assert_eq!(
        row,
        StoredRow {
            timestamp: "2024-01-01T00:00:00.000000000Z".to_string(),
            level: Some("INFO".to_string()),
            message: "hello world".to_string(),
            metadata: Some(Metadata { stream: "stdout".to_string(), flag: Some("F".to_string()) }),
            raw_line: "2024-01-01T00:00:00.000000000Z stdout F hello world".to_string(),
        }
    );
    let fine = row_of(&durable_record(1679475279, 123456789)).unwrap();
    assert_eq!(fine.timestamp, "2023-03-22T08:54:39.123456789Z");
}

#[test]
fn a_stored_record_comes_back_as_it_went_in() {
    for log in vec![
        durable_record(1704067200, 0),
        durable_record(1679475279, 123456789),
        durable_record(0, 1),
        durable_record(-1, 999_999_999),
        NormalizedLog { level: None, metadata: None, ..durable_record(5, 5) },
    ] {
        let row = row_of(&log).unwrap();
        assert_eq!(record_of_row(row), Some(log));
    }
}

#[test]
fn a_row_with_an_unreadable_timestamp_gives_no_record() {
    let mut row = row_of(&durable_record(1704067200, 0)).unwrap();
    row.timestamp = "yesterday".to_string();
    assert_eq!(record_of_row(row), None);
}

#[test]
fn an_instant_beyond_the_calendar_has_no_row() {
    assert_eq!(row_of(&durable_record(i64::MAX, 0)), None);
    assert_eq!(row_of(&durable_record(0, 2_000_000_000)), None);
}

#[test]
fn a_batch_is_stored_row_by_row_in_its_order() {
    let records: Vec<NormalizedLog> = (0..5)
        .map(|n| NormalizedLog {
            raw_line: format!("raw {}", n),
            message: format!("m{}", n),
            ..durable_record(1704067200 + n, n as u32)
        })
        .collect();
    let rows = rows_of(&records).unwrap();
    assert_eq!(rows.len(), 5);
    for (i, row) in rows.iter().enumerate() {
        assert_eq!(*row, row_of(&records[i]).unwrap());
        assert_eq!(row.raw_line, format!("raw {}", i));
    }
    let back: Vec<NormalizedLog> = rows.into_iter().map(|r| record_of_row(r).unwrap()).collect();
    assert_eq!(back, records);
    assert_eq!(rows_of(&Vec::new()), Some(Vec::new()));
    let mut broken = records.clone();
    broken[3].timestamp = Timestamp { seconds: i64::MAX, nanos: 0 };
    assert_eq!(rows_of(&broken), None);
}
