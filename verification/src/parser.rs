//! The parser: detects the format of a raw line and normalizes the line into
//! a record. Formats are tried in a fixed order and the first match wins:
//! container-runtime line, container JSON, application JSON, syslog RFC 5424,
//! syslog RFC 3164.
//!
//! A timestamp that cannot be read is replaced by the current time, which the
//! caller hands in.

use crate::record::{Metadata, MetadataView, NormalizedLog, NormalizedLogView, Timestamp};
use crate::text::{
    split_n, splitn, strip_newline, texts, trim_end, trimmed_end, without_newline,
};
use crate::trusted::{
    json_document, json_field, json_members, parse_json, parse_utc, regex_is_match, regex_search,
    utc_instant, JsonField, JsonKind,
};
use vstd::prelude::*;

verus! {

/// The two syslog formats that are told apart.
#[derive(Clone, Copy, Debug, PartialEq, Eq, Structural)]
pub enum SyslogVariant {
    RFC3164,
    RFC5424,
}

/// The formats that the parser knows.
#[derive(Clone, Copy, Debug, PartialEq, Eq, Structural)]
pub enum LogFormat {
    CRI,
    DockerJSON,
    ArbitraryJSON,
    Syslog(SyslogVariant),
    Unknown,
}

/// Why a line could not be normalized.
#[derive(Clone, Copy, Debug, PartialEq, Eq, Structural)]
pub enum ParseError {
    /// The line has none of the known formats.
    UnknownFormat,
    /// The line is no container-runtime line; it has the given format.
    NotCri(LogFormat),
    /// The line is no container JSON; it has the given format.
    NotDockerJson(LogFormat),
    /// The line is no application JSON; it has the given format.
    NotArbitraryJson(LogFormat),
    /// The line is no syslog line; it has the given format.
    NotSyslog(LogFormat),
    /// The line has fewer parts than its format needs.
    TooFewParts,
    /// A member of the JSON object that has to be text is missing or is not
    /// text.
    BadField,
}

/// The name of a format.
pub open spec fn format_name(f: LogFormat) -> Seq<char> {
    match f {
        LogFormat::CRI => "CRI"@,
        LogFormat::DockerJSON => "DockerJSON"@,
        LogFormat::ArbitraryJSON => "ArbitraryJSON"@,
        LogFormat::Syslog(SyslogVariant::RFC3164) => "Syslog(RFC3164)"@,
        LogFormat::Syslog(SyslogVariant::RFC5424) => "Syslog(RFC5424)"@,
        LogFormat::Unknown => "Unknown"@,
    }
}

impl LogFormat {
    /// The name of the format.
    pub fn name(&self) -> (text: &'static str)
        ensures
            text@ == format_name(*self),
    {
        match self {
            LogFormat::CRI => "CRI",
            LogFormat::DockerJSON => "DockerJSON",
            LogFormat::ArbitraryJSON => "ArbitraryJSON",
            LogFormat::Syslog(SyslogVariant::RFC3164) => "Syslog(RFC3164)",
            LogFormat::Syslog(SyslogVariant::RFC5424) => "Syslog(RFC5424)",
            LogFormat::Unknown => "Unknown",
        }
    }
}

impl ParseError {
    /// The error in words. An error about a line of another format ends with
    /// the name of the format that the line has.
    pub fn message(&self) -> (text: String)
        ensures
            text@ == match self {
                ParseError::UnknownFormat => "Unknown log format"@,
                ParseError::NotCri(found) => "Unexpected log format, not Kubernetes CRI: "@
                    + format_name(*found),
                ParseError::NotDockerJson(found) => "Unexpected log format, not Docker-JSON file: "@
                    + format_name(*found),
                ParseError::NotArbitraryJson(found) => "Unexpected log format, not ArbitraryJSON: "@
                    + format_name(*found),
                ParseError::NotSyslog(found) =>
                    "Unexpected log format, not Syslog RFC5424 or RFC3164: "@ + format_name(*found),
                ParseError::TooFewParts => "Insufficient parts in raw log"@,
                ParseError::BadField => "JSON member is missing or is not text"@,
            },
    {
        match self {
            ParseError::UnknownFormat => "Unknown log format".to_owned(),
            ParseError::NotCri(found) => {
                let mut text = "Unexpected log format, not Kubernetes CRI: ".to_owned();
                text.append(found.name());
                text
            },
            ParseError::NotDockerJson(found) => {
                let mut text = "Unexpected log format, not Docker-JSON file: ".to_owned();
                text.append(found.name());
                text
            },
            ParseError::NotArbitraryJson(found) => {
                let mut text = "Unexpected log format, not ArbitraryJSON: ".to_owned();
                text.append(found.name());
                text
            },
            ParseError::NotSyslog(found) => {
                let mut text = "Unexpected log format, not Syslog RFC5424 or RFC3164: ".to_owned();
                text.append(found.name());
                text
            },
            ParseError::TooFewParts => "Insufficient parts in raw log".to_owned(),
            ParseError::BadField => "JSON member is missing or is not text".to_owned(),
        }
    }
}

/// A container-runtime line begins with a timestamp, a stream and a flag.
pub const CRI_PATTERN: &'static str =
    "^\\d{4}-\\d{2}-\\d{2}T\\d{2}:\\d{2}:\\d{2}\\.\\d+Z (stdout|stderr) [FP] ";

/// A syslog RFC 5424 line begins with priority, version and timestamp.
pub const RFC5424_PATTERN: &'static str =
    "^<\\d+>\\d \\d{4}-\\d{2}-\\d{2}T\\d{2}:\\d{2}:\\d{2}(?:\\.\\d+)?Z";

/// A syslog RFC 3164 line begins with priority, month, day and time.
pub const RFC3164_PATTERN: &'static str =
    "^<\\d+>[A-Z][a-z]{2}\\s+\\d{1,2}\\s\\d{2}:\\d{2}:\\d{2}";

/// Which of the members that detection looks for a JSON object has.
#[derive(Clone, Copy, Debug, PartialEq, Eq, Structural)]
pub struct JsonKeys {
    pub log: bool,
    pub stream: bool,
    pub time: bool,
}

/// The format of a line, given what was found out about it, first match
/// first:
/// a match of the container-runtime pattern; a JSON object with the members
/// `log`, `stream` and `time`; a JSON object with a member `time`; a match of
/// the RFC 5424 pattern; a match of the RFC 3164 pattern.
pub open spec fn format_of(
    cri: bool,
    json: Option<JsonKeys>,
    rfc5424: bool,
    rfc3164: bool,
) -> LogFormat {
    if cri {
        LogFormat::CRI
    } else if json.is_some() && json.unwrap().log && json.unwrap().stream && json.unwrap().time {
        LogFormat::DockerJSON
    } else if json.is_some() && json.unwrap().time {
        LogFormat::ArbitraryJSON
    } else if rfc5424 {
        LogFormat::Syslog(SyslogVariant::RFC5424)
    } else if rfc3164 {
        LogFormat::Syslog(SyslogVariant::RFC3164)
    } else {
        LogFormat::Unknown
    }
}

/// Decides the format from what was found out about a line.
pub fn classify(cri: bool, json: Option<JsonKeys>, rfc5424: bool, rfc3164: bool) -> (f: LogFormat)
    ensures
        f == format_of(cri, json, rfc5424, rfc3164),
{
    if cri {
        return LogFormat::CRI;
    }
    match json {
        Some(keys) => {
            if keys.log && keys.stream && keys.time {
                return LogFormat::DockerJSON;
            }
            if keys.time {
                return LogFormat::ArbitraryJSON;
            }
        },
        None => {},
    }
    if rfc5424 {
        LogFormat::Syslog(SyslogVariant::RFC5424)
    } else if rfc3164 {
        LogFormat::Syslog(SyslogVariant::RFC3164)
    } else {
        LogFormat::Unknown
    }
}

/// Whether a pattern matches a line.
pub open spec fn matches(pattern: Seq<char>, line: Seq<char>) -> bool {
    regex_search(pattern, line) == Some(true)
}

/// The members that detection looks for, as a parsed line has them; `None`
/// where the line is no JSON.
pub open spec fn keys_of(line: Seq<char>) -> Option<JsonKeys> {
    match json_document(line) {
        Some(members) => Some(
            JsonKeys {
                log: members.contains_key("log"@),
                stream: members.contains_key("stream"@),
                time: members.contains_key("time"@),
            },
        ),
        None => None,
    }
}

/// The format of a line.
pub open spec fn detected(line: Seq<char>) -> LogFormat {
    format_of(
        matches(CRI_PATTERN@, line),
        keys_of(line),
        matches(RFC5424_PATTERN@, line),
        matches(RFC3164_PATTERN@, line),
    )
}

fn pattern_matches(pattern: &str, line: &str) -> (r: bool)
    ensures
        r == matches(pattern@, line@),
{
    match regex_is_match(pattern, line) {
        Some(found) => found,
        None => false,
    }
}

/// The timestamp that a text holds, or `now` where it holds none.
pub open spec fn instant_or(text: Seq<char>, now: Timestamp) -> Timestamp {
    match utc_instant(text) {
        Some(t) => t,
        None => now,
    }
}

/// Picks the timestamp that was read, or the current time where none could
/// be read.
pub fn timestamp_or(read: Option<Timestamp>, now: Timestamp) -> (t: Timestamp)
    ensures
        t == match read {
            Some(r) => r,
            None => now,
        },
{
    match read {
        Some(r) => r,
        None => now,
    }
}

fn read_instant(text: &str, now: Timestamp) -> (t: Timestamp)
    ensures
        t == instant_or(text@, now),
        now.wf() ==> t.wf(),
{
    timestamp_or(parse_utc(text), now)
}

/// The outcome of a parser as a mathematical value.
pub open spec fn outcome(r: Result<NormalizedLog, ParseError>) -> Result<
    NormalizedLogView,
    ParseError,
> {
    match r {
        Ok(log) => Ok(log@),
        Err(e) => Err(e),
    }
}

/// What the container-runtime parser makes of a line: the line, without its
/// newline, is cut at its first three spaces into timestamp, stream, flag and
/// message.
pub open spec fn cri_parse(line: Seq<char>, now: Timestamp) -> Result<
    NormalizedLogView,
    ParseError,
> {
    let raw = without_newline(line);
    if detected(raw) != LogFormat::CRI {
        Err(ParseError::NotCri(detected(raw)))
    } else {
        let parts = split_n(raw, 4);
        if parts.len() < 4 {
            Err(ParseError::TooFewParts)
        } else {
            Ok(
                NormalizedLogView {
                    timestamp: instant_or(parts[0], now),
                    level: None,
                    message: parts[3],
                    metadata: Some(MetadataView { stream: parts[1], flag: Some(parts[2]) }),
                    raw_line: raw,
                },
            )
        }
    }
}

/// The text of a member, where the member is there and is text.
pub open spec fn text_member(members: Map<Seq<char>, JsonKind>, key: Seq<char>) -> Option<
    Seq<char>,
> {
    text_in(member(members, key))
}

/// Whether a member is text, missing or `null`.
pub open spec fn member_is_optional_text(
    members: Map<Seq<char>, JsonKind>,
    key: Seq<char>,
) -> bool {
    is_optional_text(member(members, key))
}

/// What the container-JSON parser makes of a line: the message is the member
/// `log` without the white space at its end, the stream is the member
/// `stream`, and there is no level.
pub open spec fn docker_json_parse(line: Seq<char>, now: Timestamp) -> Result<
    NormalizedLogView,
    ParseError,
> {
    let raw = without_newline(line);
    if detected(raw) != LogFormat::DockerJSON {
        Err(ParseError::NotDockerJson(detected(raw)))
    } else {
        let members = json_document(raw).unwrap();
        let log = text_member(members, "log"@);
        let stream = text_member(members, "stream"@);
        let time = text_member(members, "time"@);
        if log.is_none() || stream.is_none() || time.is_none() {
            Err(ParseError::BadField)
        } else {
            Ok(
                NormalizedLogView {
                    timestamp: instant_or(time.unwrap(), now),
                    level: None,
                    message: trimmed_end(log.unwrap()),
                    metadata: Some(MetadataView { stream: stream.unwrap(), flag: None }),
                    raw_line: raw,
                },
            )
        }
    }
}

/// What the application-JSON parser makes of a line: the message is the
/// member `msg` or else the member `message` or else empty, the level is the
/// member `level` if there is one, and there is no metadata.
pub open spec fn arbitrary_json_parse(line: Seq<char>, now: Timestamp) -> Result<
    NormalizedLogView,
    ParseError,
> {
    let raw = without_newline(line);
    if detected(raw) != LogFormat::ArbitraryJSON {
        Err(ParseError::NotArbitraryJson(detected(raw)))
    } else {
        let members = json_document(raw).unwrap();
        let time = text_member(members, "time"@);
        if time.is_none() || !member_is_optional_text(members, "level"@)
            || !member_is_optional_text(members, "msg"@) || !member_is_optional_text(
            members,
            "message"@,
        ) {
            Err(ParseError::BadField)
        } else {
            Ok(
                NormalizedLogView {
                    timestamp: instant_or(time.unwrap(), now),
                    level: text_member(members, "level"@),
                    message: match text_member(members, "msg"@) {
                        Some(m) => m,
                        None => match text_member(members, "message"@) {
                            Some(m) => m,
                            None => Seq::empty(),
                        },
                    },
                    metadata: None,
                    raw_line: raw,
                },
            )
        }
    }
}

/// What the syslog parser makes of a line. An RFC 5424 line is cut at its
/// first seven spaces into priority and version, timestamp, host, application,
/// process, message id, structured data and message: the second part is read
/// as timestamp and the eighth is the message. An RFC 3164 line is cut at its
/// first four spaces: the second part is read as timestamp and the fifth is
/// the message.
pub open spec fn syslog_parse(line: Seq<char>, now: Timestamp) -> Result<
    NormalizedLogView,
    ParseError,
> {
    let raw = without_newline(line);
    match detected(raw) {
        LogFormat::Syslog(SyslogVariant::RFC5424) => {
            let parts = split_n(raw, 8);
            if parts.len() < 8 {
                Err(ParseError::TooFewParts)
            } else {
                Ok(
                    NormalizedLogView {
                        timestamp: instant_or(parts[1], now),
                        level: None,
                        message: parts[7],
                        metadata: None,
                        raw_line: raw,
                    },
                )
            }
        },
        LogFormat::Syslog(SyslogVariant::RFC3164) => {
            let parts = split_n(raw, 5);
            if parts.len() < 5 {
                Err(ParseError::TooFewParts)
            } else {
                Ok(
                    NormalizedLogView {
                        timestamp: instant_or(parts[1], now),
                        level: None,
                        message: parts[4],
                        metadata: None,
                        raw_line: raw,
                    },
                )
            }
        },
        other => Err(ParseError::NotSyslog(other)),
    }
}

/// What the parser makes of a line: the outcome of the parser of the line's
/// format.
pub open spec fn parse(line: Seq<char>, now: Timestamp) -> Result<NormalizedLogView, ParseError> {
    match detected(without_newline(line)) {
        LogFormat::CRI => cri_parse(line, now),
        LogFormat::DockerJSON => docker_json_parse(line, now),
        LogFormat::ArbitraryJSON => arbitrary_json_parse(line, now),
        LogFormat::Syslog(_) => syslog_parse(line, now),
        LogFormat::Unknown => Err(ParseError::UnknownFormat),
    }
}

/// What a member of a JSON object is read as where it has to be text.
pub open spec fn text_in(field: Option<JsonKind>) -> Option<Seq<char>> {
    match field {
        Some(JsonKind::Text(t)) => Some(t),
        _ => None,
    }
}

/// Whether a member may stand for an optional text: it is text, `null` or
/// missing.
pub open spec fn is_optional_text(field: Option<JsonKind>) -> bool {
    match field {
        Some(JsonKind::Other) => false,
        _ => true,
    }
}

/// The kind of a member that was looked up.
pub open spec fn kind_of(field: Option<JsonField>) -> Option<JsonKind> {
    match field {
        Some(f) => Some(f@),
        None => None,
    }
}

/// The member under a key, as the document has it.
pub open spec fn member(members: Map<Seq<char>, JsonKind>, key: Seq<char>) -> Option<JsonKind> {
    if members.contains_key(key) {
        Some(members[key])
    } else {
        None
    }
}

/// Reads a member that has to be text: its text, or `None` where the member
/// is missing or is not text.
pub fn field_text(field: Option<JsonField>) -> (t: Option<String>)
    ensures
        match t {
            Some(s) => text_in(kind_of(field)) == Some(s@),
            None => text_in(kind_of(field)).is_none(),
        },
{
    match field {
        Some(JsonField::Text(s)) => Some(s),
        _ => None,
    }
}

/// Reads a member that may be text: its text, nothing where the member is
/// missing or `null`, and an error where it is anything else.
pub fn optional_field_text(field: Option<JsonField>) -> (t: Result<Option<String>, ParseError>)
    ensures
        match t {
            Ok(Some(s)) => text_in(kind_of(field)) == Some(s@),
            Ok(None) => is_optional_text(kind_of(field)) && text_in(kind_of(field)).is_none(),
            Err(e) => e == ParseError::BadField && !is_optional_text(kind_of(field)),
        },
{
    match field {
        Some(JsonField::Text(s)) => Ok(Some(s)),
        Some(JsonField::Null) => Ok(None),
        Some(JsonField::Other) => Err(ParseError::BadField),
        None => Ok(None),
    }
}

/// The message of an application-JSON line: `msg`, or else `message`, or
/// else empty.
pub fn pick_message(msg: Option<String>, alternative: Option<String>) -> (m: String)
    ensures
        m@ == match msg {
            Some(t) => t@,
            None => match alternative {
                Some(t) => t@,
                None => Seq::<char>::empty(),
            },
        },
{
    match msg {
        Some(m) => m,
        None => match alternative {
            Some(m) => m,
            None => String::new(),
        },
    }
}

/// The parts of a container-runtime line.
#[derive(Clone, Debug, PartialEq, Eq)]
pub struct CriParts {
    pub timestamp: String,
    pub stream: String,
    pub flag: String,
    pub message: String,
}

/// Names the four parts of a container-runtime line; fewer than four parts
/// are refused.
pub fn cri_parts(parts: Vec<String>) -> (r: Result<CriParts, ParseError>)
    ensures
        match r {
            Ok(p) => {
                &&& parts@.len() >= 4
                &&& p.timestamp == parts@[0]
                &&& p.stream == parts@[1]
                &&& p.flag == parts@[2]
                &&& p.message == parts@[3]
            },
            Err(e) => e == ParseError::TooFewParts && parts@.len() < 4,
        },
{
    let mut parts = parts;
    if parts.len() < 4 {
        return Err(ParseError::TooFewParts);
    }
    let message = parts.remove(3);
    let flag = parts.remove(2);
    let stream = parts.remove(1);
    let timestamp = parts.remove(0);
    Ok(CriParts { timestamp, stream, flag, message })
}

/// Picks the part that is read as timestamp and the part that is the
/// message; parts that do not reach that far are refused.
pub fn pick_parts(parts: Vec<String>, timestamp_at: usize, message_at: usize) -> (r: Result<
    (String, String),
    ParseError,
>)
    ensures
        match r {
            Ok(picked) => {
                &&& parts@.len() > timestamp_at
                &&& parts@.len() > message_at
                &&& picked.0 == parts@[timestamp_at as int]
                &&& picked.1 == parts@[message_at as int]
            },
            Err(e) => e == ParseError::TooFewParts && (parts@.len() <= timestamp_at
                || parts@.len() <= message_at),
        },
{
    let mut parts = parts;
    if parts.len() <= timestamp_at || parts.len() <= message_at {
        return Err(ParseError::TooFewParts);
    }
    let timestamp = parts[timestamp_at].clone();
    let message = parts.remove(message_at);
    Ok((timestamp, message))
}

/// Builds the record of a container-runtime line from its parts and the
/// timestamp that was read from the first of them.
pub fn cri_record(raw: String, parts: CriParts, timestamp: Timestamp) -> (log: NormalizedLog)
    ensures
        log == (NormalizedLog {
            timestamp,
            level: None,
            message: parts.message,
            metadata: Some(Metadata { stream: parts.stream, flag: Some(parts.flag) }),
            raw_line: raw,
        }),
{
    NormalizedLog {
        timestamp,
        level: None,
        message: parts.message,
        metadata: Some(Metadata { stream: parts.stream, flag: Some(parts.flag) }),
        raw_line: raw,
    }
}

/// Builds the record of a container-JSON line from its members. `log` and
/// `stream` are the texts of the members, where they are text; `time` is the
/// timestamp to use, where the member `time` is text. A member that is not
/// text is refused.
pub fn docker_json_record(
    raw: String,
    log: Option<String>,
    stream: Option<String>,
    time: Option<Timestamp>,
) -> (r: Result<NormalizedLog, ParseError>)
    ensures
        match r {
            Ok(record) => {
                &&& log.is_some() && stream.is_some() && time.is_some()
                &&& record.timestamp == time.unwrap()
                &&& record.level.is_none()
                &&& record.message@ == trimmed_end(log.unwrap()@)
                &&& record.metadata == Some(Metadata { stream: stream.unwrap(), flag: None })
                &&& record.raw_line == raw
            },
            Err(e) => e == ParseError::BadField && (log.is_none() || stream.is_none()
                || time.is_none()),
        },
{
    match (log, stream, time) {
        (Some(log), Some(stream), Some(timestamp)) => {
            let message = trim_end(log.as_str());
            Ok(
                NormalizedLog {
                    timestamp,
                    level: None,
                    message,
                    metadata: Some(Metadata { stream, flag: None }),
                    raw_line: raw,
                },
            )
        },
        _ => Err(ParseError::BadField),
    }
}

/// Builds the record of an application-JSON line from its members, each as
/// it was read. A member `time` that is not text, or a `level`, `msg` or
/// `message` that is neither text nor unset, is refused.
pub fn arbitrary_json_record(
    raw: String,
    time: Option<Timestamp>,
    level: Result<Option<String>, ParseError>,
    msg: Result<Option<String>, ParseError>,
    alternative: Result<Option<String>, ParseError>,
) -> (r: Result<NormalizedLog, ParseError>)
    ensures
        match r {
            Ok(record) => {
                &&& time.is_some() && level.is_ok() && msg.is_ok() && alternative.is_ok()
                &&& record.timestamp == time.unwrap()
                &&& record.level == level.unwrap()
                &&& record.message@ == match msg.unwrap() {
                    Some(t) => t@,
                    None => match alternative.unwrap() {
                        Some(t) => t@,
                        None => Seq::<char>::empty(),
                    },
                }
                &&& record.metadata.is_none()
                &&& record.raw_line == raw
            },
            Err(e) => e == ParseError::BadField && (time.is_none() || level.is_err()
                || msg.is_err() || alternative.is_err()),
        },
{
    match (time, level, msg, alternative) {
        (Some(timestamp), Ok(level), Ok(msg), Ok(alternative)) => {
            let message = pick_message(msg, alternative);
            Ok(NormalizedLog { timestamp, level, message, metadata: None, raw_line: raw })
        },
        _ => Err(ParseError::BadField),
    }
}

/// Builds the record of a syslog line from its message and the timestamp
/// that was read.
pub fn syslog_record(raw: String, message: String, timestamp: Timestamp) -> (log: NormalizedLog)
    ensures
        log == (NormalizedLog {
            timestamp,
            level: None,
            message,
            metadata: None,
            raw_line: raw,
        }),
{
    NormalizedLog { timestamp, level: None, message, metadata: None, raw_line: raw }
}

fn lookup(doc: &serde_json::Value, key: &str) -> (f: Option<JsonField>)
    ensures
        kind_of(f) == member(json_members(*doc), key@),
{
    json_field(doc, key)
}

impl NormalizedLog {
    /// Detects the format of a line.
    pub fn detect_format(line: &str) -> (f: LogFormat)
        ensures
            f == detected(line@),
    {
        let cri = pattern_matches(CRI_PATTERN, line);
        let json = match parse_json(line) {
            Some(doc) => Some(
                JsonKeys {
                    log: json_field(&doc, "log").is_some(),
                    stream: json_field(&doc, "stream").is_some(),
                    time: json_field(&doc, "time").is_some(),
                },
            ),
            None => None,
        };
        let rfc5424 = pattern_matches(RFC5424_PATTERN, line);
        let rfc3164 = pattern_matches(RFC3164_PATTERN, line);
        classify(cri, json, rfc5424, rfc3164)
    }

    /// Normalizes a line with the parser of its format. A line of no known
    /// format is refused.
    pub fn select_parser(line: &str, now: Timestamp) -> (r: Result<NormalizedLog, ParseError>)
        ensures
            outcome(r) == parse(line@, now),
            now.wf() && r.is_ok() ==> r.unwrap().timestamp.wf(),
    {
        let raw = strip_newline(line);
        match Self::detect_format(raw.as_str()) {
            LogFormat::CRI => Self::cri_parser(line, now),
            LogFormat::DockerJSON => Self::docker_json_parser(line, now),
            LogFormat::ArbitraryJSON => Self::arbitrary_json_parser(line, now),
            LogFormat::Syslog(_) => Self::syslog_parser(line, now),
            LogFormat::Unknown => Err(ParseError::UnknownFormat),
        }
    }

    /// Normalizes a container-runtime line, such as
    /// `2023-10-06T00:17:09.669794202Z stdout F Your log message here`.
    pub fn cri_parser(line: &str, now: Timestamp) -> (r: Result<NormalizedLog, ParseError>)
        ensures
            outcome(r) == cri_parse(line@, now),
            now.wf() && r.is_ok() ==> r.unwrap().timestamp.wf(),
    {
        let raw = strip_newline(line);
        let format = Self::detect_format(raw.as_str());
        match format {
            LogFormat::CRI => {},
            other => {
                return Err(ParseError::NotCri(other));
            },
        }
        let cut = splitn(raw.as_str(), 4);
        let ghost all = texts(cut@);
        assert(cut@.len() >= 4 ==> all[0] == cut@[0]@ && all[1] == cut@[1]@ && all[2] == cut@[2]@
            && all[3] == cut@[3]@);
        match cri_parts(cut) {
            Ok(parts) => {
                let timestamp = read_instant(parts.timestamp.as_str(), now);
                Ok(cri_record(raw, parts, timestamp))
            },
            Err(e) => Err(e),
        }
    }

    /// Normalizes a container-JSON line, such as
    /// `{"log": "a message\n", "stream": "stdout", "time": "2023-03-22T08:54:39.123456789Z"}`.
    pub fn docker_json_parser(line: &str, now: Timestamp) -> (r: Result<NormalizedLog, ParseError>)
        ensures
            outcome(r) == docker_json_parse(line@, now),
            now.wf() && r.is_ok() ==> r.unwrap().timestamp.wf(),
    {
        let raw = strip_newline(line);
        let format = Self::detect_format(raw.as_str());
        match format {
            LogFormat::DockerJSON => {},
            other => {
                return Err(ParseError::NotDockerJson(other));
            },
        }
        let doc = match parse_json(raw.as_str()) {
            Some(doc) => doc,
            None => {
                return Err(ParseError::BadField);
            },
        };
        let log = field_text(lookup(&doc, "log"));
        let stream = field_text(lookup(&doc, "stream"));
        let time = match field_text(lookup(&doc, "time")) {
            Some(text) => Some(read_instant(text.as_str(), now)),
            None => None,
        };
        docker_json_record(raw, log, stream, time)
    }

    /// Normalizes an application-JSON line, such as
    /// `{"time": "2025-09-12T16:34:00Z", "level": "INFO", "msg": "User logged in"}`.
    pub fn arbitrary_json_parser(line: &str, now: Timestamp) -> (r: Result<
        NormalizedLog,
        ParseError,
    >)
        ensures
            outcome(r) == arbitrary_json_parse(line@, now),
            now.wf() && r.is_ok() ==> r.unwrap().timestamp.wf(),
    {
        let raw = strip_newline(line);
        let format = Self::detect_format(raw.as_str());
        match format {
            LogFormat::ArbitraryJSON => {},
            other => {
                return Err(ParseError::NotArbitraryJson(other));
            },
        }
        let doc = match parse_json(raw.as_str()) {
            Some(doc) => doc,
            None => {
                return Err(ParseError::BadField);
            },
        };
        let time = match field_text(lookup(&doc, "time")) {
            Some(text) => Some(read_instant(text.as_str(), now)),
            None => None,
        };
        let level = optional_field_text(lookup(&doc, "level"));
        let msg = optional_field_text(lookup(&doc, "msg"));
        let alternative = optional_field_text(lookup(&doc, "message"));
        arbitrary_json_record(raw, time, level, msg, alternative)
    }

    /// Normalizes a syslog line of either format, such as
    /// `<34>1 2003-10-11T22:14:15.003Z host app 123 ID47 - the message`.
    pub fn syslog_parser(line: &str, now: Timestamp) -> (r: Result<NormalizedLog, ParseError>)
        ensures
            outcome(r) == syslog_parse(line@, now),
            now.wf() && r.is_ok() ==> r.unwrap().timestamp.wf(),
    {
        let raw = strip_newline(line);
        match Self::detect_format(raw.as_str()) {
            LogFormat::Syslog(SyslogVariant::RFC5424) => {
                let cut = splitn(raw.as_str(), 8);
                let ghost all = texts(cut@);
                assert(cut@.len() > 7 ==> all[1] == cut@[1]@ && all[7] == cut@[7]@);
                match pick_parts(cut, 1, 7) {
                    Ok(picked) => {
                        let timestamp = read_instant(picked.0.as_str(), now);
                        Ok(syslog_record(raw, picked.1, timestamp))
                    },
                    Err(e) => Err(e),
                }
            },
            LogFormat::Syslog(SyslogVariant::RFC3164) => {
                let cut = splitn(raw.as_str(), 5);
                let ghost all = texts(cut@);
                assert(cut@.len() > 4 ==> all[1] == cut@[1]@ && all[4] == cut@[4]@);
                match pick_parts(cut, 1, 4) {
                    Ok(picked) => {
                        let timestamp = read_instant(picked.0.as_str(), now);
                        Ok(syslog_record(raw, picked.1, timestamp))
                    },
                    Err(e) => Err(e),
                }
            },
            other => Err(ParseError::NotSyslog(other)),
        }
    }
}

/// The first match wins: a line that matches the container-runtime pattern
/// is a container-runtime line whatever else holds of it, and a line that
/// matches no pattern and is no JSON has no known format.
pub proof fn lemma_first_match_wins(json: Option<JsonKeys>, rfc5424: bool, rfc3164: bool)
    ensures
        format_of(true, json, rfc5424, rfc3164) == LogFormat::CRI,
        format_of(false, None, false, false) == LogFormat::Unknown,
        format_of(false, None, true, rfc3164) == LogFormat::Syslog(SyslogVariant::RFC5424),
{
}

/// The raw line of a record is the line as it came, without its newline:
/// whatever the format, a parser that succeeds leaves the line untouched.
pub proof fn lemma_raw_line_is_kept(line: Seq<char>, now: Timestamp)
    ensures
        parse(line, now).is_ok() ==> parse(line, now).unwrap().raw_line == without_newline(line),
{
}

} // verus!
