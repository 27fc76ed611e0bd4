//! The wire form of a record, as it travels on the request stream, and the
//! conversion in both directions. The timestamp travels as seconds and
//! nanoseconds, the metadata as an optional sub-message.

use crate::record::{Metadata, NormalizedLog, Timestamp};
use vstd::prelude::*;

verus! {

/// A timestamp on the wire.
#[derive(Clone, Copy, Debug, PartialEq, Eq, Structural)]
pub struct WireTimestamp {
    pub seconds: i64,
    pub nanos: i32,
}

/// Metadata on the wire.
#[derive(Clone, Debug, PartialEq, Eq)]
pub struct WireMetadata {
    pub stream: String,
    pub flag: Option<String>,
}

/// A record on the wire.
#[derive(Clone, Debug, PartialEq, Eq)]
pub struct WireLog {
    pub timestamp: Option<WireTimestamp>,
    pub level: Option<String>,
    pub message: String,
    pub metadata: Option<WireMetadata>,
    pub raw_line: String,
}

/// The signed 32-bit number with the same bits as `n`.
pub open spec fn nanos_to_wire(n: u32) -> i32 {
    if n <= 0x7fff_ffff {
        n as i32
    } else {
        (n - 0x1_0000_0000) as i32
    }
}

/// The unsigned 32-bit number with the same bits as `n`.
pub open spec fn nanos_from_wire(n: i32) -> u32 {
    if n >= 0 {
        n as u32
    } else {
        (n + 0x1_0000_0000) as u32
    }
}

/// The wire form of metadata.
pub open spec fn wire_metadata_of(m: Metadata) -> WireMetadata {
    WireMetadata { stream: m.stream, flag: m.flag }
}

/// The wire form of a record.
pub open spec fn wire_of(log: NormalizedLog) -> WireLog {
    WireLog {
        timestamp: Some(
            WireTimestamp {
                seconds: log.timestamp.seconds,
                nanos: nanos_to_wire(log.timestamp.nanos),
            },
        ),
        level: log.level,
        message: log.message,
        metadata: match log.metadata {
            Some(m) => Some(wire_metadata_of(m)),
            None => None,
        },
        raw_line: log.raw_line,
    }
}

/// The record that a wire form stands for; none where the wire form carries
/// no timestamp.
pub open spec fn log_of(w: WireLog) -> Option<NormalizedLog> {
    match w.timestamp {
        None => None,
        Some(t) => Some(
            NormalizedLog {
                timestamp: Timestamp { seconds: t.seconds, nanos: nanos_from_wire(t.nanos) },
                level: w.level,
                message: w.message,
                metadata: match w.metadata {
                    Some(m) => Some(Metadata { stream: m.stream, flag: m.flag }),
                    None => None,
                },
                raw_line: w.raw_line,
            },
        ),
    }
}

fn nanos_to_wire_exec(n: u32) -> (r: i32)
    ensures
        r == nanos_to_wire(n),
{
    if n <= 0x7fff_ffff {
        n as i32
    } else {
        let low: u32 = n - 0x8000_0000;
        (low as i32) + i32::MIN
    }
}

fn nanos_from_wire_exec(n: i32) -> (r: u32)
    ensures
        r == nanos_from_wire(n),
{
    if n >= 0 {
        n as u32
    } else {
        let low: i32 = n - i32::MIN;
        (low as u32) + 0x8000_0000
    }
}

impl WireMetadata {
    /// Converts metadata to its wire form.
    pub fn from_metadata(m: Metadata) -> (w: WireMetadata)
        ensures
            w == wire_metadata_of(m),
    {
        WireMetadata { stream: m.stream, flag: m.flag }
    }
}

impl WireLog {
    /// Converts a record to its wire form. Every record has one.
    pub fn from_log(log: NormalizedLog) -> (w: WireLog)
        ensures
            w == wire_of(log),
    {
        let metadata = match log.metadata {
            Some(m) => Some(WireMetadata::from_metadata(m)),
            None => None,
        };
        WireLog {
            timestamp: Some(
                WireTimestamp {
                    seconds: log.timestamp.seconds,
                    nanos: nanos_to_wire_exec(log.timestamp.nanos),
                },
            ),
            level: log.level,
            message: log.message,
            metadata,
            raw_line: log.raw_line,
        }
    }

    /// Converts a wire form back to the record; `None` where the wire form
    /// carries no timestamp.
    pub fn into_log(self) -> (log: Option<NormalizedLog>)
        ensures
            log == log_of(self),
    {
        let t = match self.timestamp {
            Some(t) => t,
            None => {
                return None;
            },
        };
        let metadata = match self.metadata {
            Some(m) => Some(Metadata { stream: m.stream, flag: m.flag }),
            None => None,
        };
        Some(
            NormalizedLog {
                timestamp: Timestamp { seconds: t.seconds, nanos: nanos_from_wire_exec(t.nanos) },
                level: self.level,
                message: self.message,
                metadata,
                raw_line: self.raw_line,
            },
        )
    }
}

/// Round trip: a record that is converted to its wire form and back is the
/// same record, in timestamp, level, message, metadata and raw line.
pub proof fn lemma_wire_round_trip(log: NormalizedLog)
    ensures
        log_of(wire_of(log)) == Some(log),
{
    let n = log.timestamp.nanos;
    assert(nanos_from_wire(nanos_to_wire(n)) == n);
    match log.metadata {
        Some(m) => {
            assert(Metadata { stream: m.stream, flag: m.flag } == m);
        },
        None => {},
    }
}

/// A valid sub-second part travels unchanged: it is never negative on the
/// wire.
pub proof fn lemma_valid_nanos_travel_unchanged(t: Timestamp)
    requires
        t.wf(),
    ensures
        nanos_to_wire(t.nanos) == t.nanos,
{
}

/// The wire forms of records, in the same order.
pub open spec fn wire_forms(records: Seq<NormalizedLog>) -> Seq<WireLog> {
    records.map_values(|l: NormalizedLog| wire_of(l))
}

/// Converts the records of a batch for the request stream: one wire form per
/// record, in the order of the batch, none left out and none repeated.
pub fn stream_records(records: Vec<NormalizedLog>) -> (out: Vec<WireLog>)
    ensures
        out@ == wire_forms(records@),
{
    let ghost all = records@;
    let mut rest = records;
    let mut reversed: Vec<WireLog> = Vec::new();
    while rest.len() > 0
        invariant
            rest@.len() + reversed@.len() == all.len(),
            rest@ == all.subrange(0, rest@.len() as int),
            forall|j: int|
                0 <= j < reversed@.len() ==> reversed@[j] == wire_of(all[all.len() - 1 - j]),
        decreases rest.len(),
    {
        let ghost k = rest@.len() as int;
        match rest.pop() {
            Some(record) => {
                assert(record == all[k - 1]);
                reversed.push(WireLog::from_log(record));
                assert(rest@ =~= all.subrange(0, k - 1));
            },
            None => {},
        }
    }
    let mut out: Vec<WireLog> = Vec::new();
    let ghost back = reversed@;
    while reversed.len() > 0
        invariant
            back.len() == all.len(),
            forall|j: int| 0 <= j < back.len() ==> back[j] == wire_of(all[all.len() - 1 - j]),
            reversed@ == back.subrange(0, reversed@.len() as int),
            out@.len() + reversed@.len() == all.len(),
            forall|j: int| 0 <= j < out@.len() ==> out@[j] == wire_of(all[j]),
        decreases reversed.len(),
    {
        let ghost k = reversed@.len() as int;
        match reversed.pop() {
            Some(w) => {
                assert(w == back[k - 1]);
                out.push(w);
                assert(reversed@ =~= back.subrange(0, k - 1));
            },
            None => {},
        }
    }
    assert(out@ =~= wire_forms(all));
    out
}

/// Converts records for the request stream without giving them up: one wire
/// form per record, in the same order.
pub fn stream_duplicates(records: &Vec<NormalizedLog>) -> (out: Vec<WireLog>)
    ensures
        out@ == wire_forms(records@),
{
    let mut out: Vec<WireLog> = Vec::new();
    let n = records.len();
    let mut i: usize = 0;
    while i < n
        invariant
            i <= n == records@.len(),
            out@.len() == i,
            forall|j: int| 0 <= j < i ==> out@[j] == wire_of(records@[j]),
        decreases n - i,
    {
        out.push(WireLog::from_log(records[i].duplicate()));
        i = i + 1;
    }
    assert(out@ =~= wire_forms(records@));
    out
}

} // verus!
