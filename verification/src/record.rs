//! The structured record that every raw line is normalized into.

use vstd::prelude::*;

verus! {

/// Upper bound (exclusive) of the sub-second part of a timestamp. Values from
/// one second up to this bound stand for a leap second.
pub const NANOS_LIMIT: u32 = 2_000_000_000;

/// A UTC instant with nanosecond precision: whole seconds since the Unix
/// epoch and the nanoseconds into that second.
#[derive(Clone, Copy, Debug, PartialEq, Eq, Structural)]
pub struct Timestamp {
    pub seconds: i64,
    pub nanos: u32,
}

impl Timestamp {
    /// The sub-second part is a valid nanosecond count.
    pub open spec fn wf(self) -> bool {
        self.nanos < NANOS_LIMIT
    }

    /// Builds a timestamp, rejecting a sub-second part outside the valid range.
    pub fn new(seconds: i64, nanos: u32) -> (r: Option<Timestamp>)
        ensures
            r.is_some() <==> nanos < NANOS_LIMIT,
            r.is_some() ==> r.unwrap() == (Timestamp { seconds, nanos }),
    {
        if nanos < NANOS_LIMIT {
            Some(Timestamp { seconds, nanos })
        } else {
            None
        }
    }
}

/// Where a line came from and whether it was a partial write.
#[derive(Clone, Debug, PartialEq, Eq)]
pub struct Metadata {
    pub stream: String,
    pub flag: Option<String>,
}

/// Mathematical value of a [`Metadata`].
pub struct MetadataView {
    pub stream: Seq<char>,
    pub flag: Option<Seq<char>>,
}

impl View for Metadata {
    type V = MetadataView;

    open spec fn view(&self) -> MetadataView {
        MetadataView {
            stream: self.stream@,
            flag: match self.flag {
                Some(f) => Some(f@),
                None => None,
            },
        }
    }
}

impl Metadata {
    /// An independent copy with the same value.
    pub fn duplicate(&self) -> (r: Metadata)
        ensures
            r == *self,
    {
        let flag = match &self.flag {
            Some(f) => Some(f.clone()),
            None => None,
        };
        Metadata { stream: self.stream.clone(), flag }
    }
}

/// One normalized log record.
#[derive(Clone, Debug, PartialEq, Eq)]
pub struct NormalizedLog {
    pub timestamp: Timestamp,
    pub level: Option<String>,
    pub message: String,
    pub metadata: Option<Metadata>,
    pub raw_line: String,
}

/// Mathematical value of a [`NormalizedLog`].
pub struct NormalizedLogView {
    pub timestamp: Timestamp,
    pub level: Option<Seq<char>>,
    pub message: Seq<char>,
    pub metadata: Option<MetadataView>,
    pub raw_line: Seq<char>,
}

impl View for NormalizedLog {
    type V = NormalizedLogView;

    open spec fn view(&self) -> NormalizedLogView {
        NormalizedLogView {
            timestamp: self.timestamp,
            level: match self.level {
                Some(l) => Some(l@),
                None => None,
            },
            message: self.message@,
            metadata: match self.metadata {
                Some(m) => Some(m@),
                None => None,
            },
            raw_line: self.raw_line@,
        }
    }
}

impl NormalizedLog {
    /// An independent copy with the same value.
    pub fn duplicate(&self) -> (r: NormalizedLog)
        ensures
            r == *self,
    {
        let level = match &self.level {
            Some(l) => Some(l.clone()),
            None => None,
        };
        let metadata = match &self.metadata {
            Some(m) => Some(m.duplicate()),
            None => None,
        };
        NormalizedLog {
            timestamp: self.timestamp,
            level,
            message: self.message.clone(),
            metadata,
            raw_line: self.raw_line.clone(),
        }
    }
}

} // verus!
