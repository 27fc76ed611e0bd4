//! The stored form of a record: what one row of the durable table holds. The
//! timestamp is stored as text; level, message, metadata and raw line are
//! stored as they are. Writing rows to the database and reading them back is
//! the caller's part.

use crate::record::{Metadata, NormalizedLog, Timestamp};
use crate::trusted::{parse_utc, rfc3339_of, rfc3339_text, utc_instant};
use vstd::prelude::*;

verus! {

/// One row of the durable table, without its id.
#[derive(Clone, Debug, PartialEq, Eq)]
pub struct StoredRow {
    pub timestamp: String,
    pub level: Option<String>,
    pub message: String,
    pub metadata: Option<Metadata>,
    pub raw_line: String,
}

/// Whether a row is the stored form of a record: its timestamp is the
/// record's instant as text, and everything else is the record's own.
pub open spec fn stores(row: StoredRow, log: NormalizedLog) -> bool {
    &&& rfc3339_of(log.timestamp) == Some(row.timestamp@)
    &&& row.level == log.level
    &&& row.message == log.message
    &&& row.metadata == log.metadata
    &&& row.raw_line == log.raw_line
}

/// Whether a record is what a row gives back: its instant is the one that
/// the row's text reads as, and everything else is the row's own.
pub open spec fn restores(log: NormalizedLog, row: StoredRow) -> bool {
    &&& utc_instant(row.timestamp@) == Some(log.timestamp)
    &&& log.level == row.level
    &&& log.message == row.message
    &&& log.metadata == row.metadata
    &&& log.raw_line == row.raw_line
}

/// The row that stores a record; `None` where the record's instant has no
/// text form.
pub fn row_of(log: &NormalizedLog) -> (r: Option<StoredRow>)
    ensures
        match r {
            Some(row) => stores(row, *log),
            None => rfc3339_of(log.timestamp).is_none(),
        },
{
    let timestamp = match rfc3339_text(log.timestamp) {
        Some(text) => text,
        None => {
            return None;
        },
    };
    let copy = log.duplicate();
    Some(
        StoredRow {
            timestamp,
            level: copy.level,
            message: copy.message,
            metadata: copy.metadata,
            raw_line: copy.raw_line,
        },
    )
}

/// Whether rows are the stored form of records: one row per record, in the
/// order of the records.
pub open spec fn stores_all(rows: Seq<StoredRow>, records: Seq<NormalizedLog>) -> bool {
    &&& rows.len() == records.len()
    &&& forall|i: int| 0 <= i < rows.len() ==> stores(#[trigger] rows[i], records[i])
}

/// The rows that store the records of a batch: one row per record, in the
/// order of the batch, to be written in one transaction. `None` where a
/// record's instant has no text form; then nothing of the batch is written.
pub fn rows_of(records: &Vec<NormalizedLog>) -> (r: Option<Vec<StoredRow>>)
    ensures
        match r {
            Some(rows) => stores_all(rows@, records@),
            None => exists|i: int|
                0 <= i < records@.len() && #[trigger] rfc3339_of(records@[i].timestamp).is_none(),
        },
{
    let mut rows: Vec<StoredRow> = Vec::new();
    let n = records.len();
    let mut i: usize = 0;
    while i < n
        invariant
            i <= n == records@.len(),
            rows@.len() == i,
            forall|j: int| 0 <= j < i ==> stores(#[trigger] rows@[j], records@[j]),
        decreases n - i,
    {
        match row_of(&records[i]) {
            Some(row) => {
                rows.push(row);
            },
            None => {
                assert(rfc3339_of(records@[i as int].timestamp).is_none());
                return None;
            },
        }
        i = i + 1;
    }
    Some(rows)
}

/// The record that a row gives back; `None` where the row's timestamp
/// cannot be read.
pub fn record_of_row(row: StoredRow) -> (r: Option<NormalizedLog>)
    ensures
        match r {
            Some(log) => restores(log, row) && log.timestamp.wf(),
            None => utc_instant(row.timestamp@).is_none(),
        },
{
    let timestamp: Timestamp = match parse_utc(row.timestamp.as_str()) {
        Some(t) => t,
        None => {
            return None;
        },
    };
    Some(
        NormalizedLog {
            timestamp,
            level: row.level,
            message: row.message,
            metadata: row.metadata,
            raw_line: row.raw_line,
        },
    )
}

/// A batch is stored record by record: the row at each place stores the
/// record at that place, so the rows hold the raw lines of the batch in the
/// order of the batch.
pub proof fn lemma_rows_follow_the_batch(rows: Seq<StoredRow>, records: Seq<NormalizedLog>, i: int)
    requires
        stores_all(rows, records),
        0 <= i < records.len(),
    ensures
        rows.len() == records.len(),
        rows[i].raw_line == records[i].raw_line,
        rows[i].message == records[i].message,
{
}

/// What is stored comes back as it went in: a record that a row gives back
/// has the raw line, the message, the level and the metadata of the record
/// that the row stores, unchanged.
pub proof fn lemma_stored_text_comes_back(log: NormalizedLog, row: StoredRow, back: NormalizedLog)
    requires
        stores(row, log),
        restores(back, row),
    ensures
        back.raw_line == log.raw_line,
        back.message == log.message,
        back.level == log.level,
        back.metadata == log.metadata,
        back == (NormalizedLog { timestamp: back.timestamp, ..log }),
{
}

} // verus!
