//! The calls that this library makes into other crates. Nothing in this file
//! is proved: each item states what the library takes for granted about the
//! function it calls, and everything else is proved from these statements.

use crate::record::Timestamp;
use rand::Rng;
use std::str::FromStr;
use vstd::prelude::*;

verus! {

/// Draws a number with `rand::thread_rng().gen_range(lo..=hi)`.
///
/// Taken for granted: the number lies in the closed range. Which number
/// comes is left open, and two calls may differ. `gen_range` panics on an
/// empty range, so the range must not be empty.
#[verifier::external_body]
pub(crate) fn random_between(lo: u64, hi: u64) -> (r: u64)
    requires
        lo <= hi,
    ensures
        lo <= r <= hi,
{
    rand::thread_rng().gen_range(lo..=hi)
}

/// What `regex::Regex::new(pattern)` followed by `Regex::is_match(text)`
/// returns: `None` where the pattern does not compile, else whether the
/// pattern matches anywhere in the text.
pub uninterp spec fn regex_search(pattern: Seq<char>, text: Seq<char>) -> Option<bool>;

/// Compiles a pattern with `regex::Regex::new` and searches a text with
/// `Regex::is_match`.
///
/// Taken for granted: the answer depends on the pattern and the text alone.
#[verifier::external_body]
pub(crate) fn regex_is_match(pattern: &str, text: &str) -> (r: Option<bool>)
    ensures
        r == regex_search(pattern@, text@),
{
    match regex::Regex::new(pattern) {
        Ok(re) => Some(re.is_match(text)),
        Err(_) => None,
    }
}

/// A parsed JSON document, `serde_json::Value`.
#[verifier::external_type_specification]
#[verifier::external_body]
pub struct ExJsonValue(serde_json::Value);

/// What a member of a JSON object holds, as far as the parsers read it.
#[derive(Clone, Debug, PartialEq, Eq)]
pub enum JsonField {
    /// A string, with its text.
    Text(String),
    /// `null`.
    Null,
    /// Anything else: a number, a boolean, an array or an object.
    Other,
}

/// Mathematical value of a [`JsonField`].
pub enum JsonKind {
    Text(Seq<char>),
    Null,
    Other,
}

impl View for JsonField {
    type V = JsonKind;

    open spec fn view(&self) -> JsonKind {
        match self {
            JsonField::Text(s) => JsonKind::Text(s@),
            JsonField::Null => JsonKind::Null,
            JsonField::Other => JsonKind::Other,
        }
    }
}

/// The members of a JSON document by key, each with what it holds. A
/// document that is no object has no members.
pub uninterp spec fn json_members(doc: serde_json::Value) -> Map<Seq<char>, JsonKind>;

/// What `serde_json::from_str::<serde_json::Value>` makes of a text: `None`
/// where the text is no JSON document, else the members of the document.
pub uninterp spec fn json_document(text: Seq<char>) -> Option<Map<Seq<char>, JsonKind>>;

/// Parses a text with `serde_json::from_str::<serde_json::Value>`.
///
/// Taken for granted: whether the text parses, and to what, depends on the
/// text alone.
#[verifier::external_body]
pub(crate) fn parse_json(text: &str) -> (doc: Option<serde_json::Value>)
    ensures
        doc.is_some() == json_document(text@).is_some(),
        doc.is_some() ==> json_members(doc.unwrap()) == json_document(text@).unwrap(),
{
    match serde_json::from_str::<serde_json::Value>(text) {
        Ok(v) => Some(v),
        Err(_) => None,
    }
}

/// Looks a member up with `serde_json::Value::get`.
///
/// Taken for granted: `get` with a string key returns the member of an
/// object under that key, and nothing for a missing key or a document that
/// is no object.
#[verifier::external_body]
pub(crate) fn json_field(doc: &serde_json::Value, key: &str) -> (f: Option<JsonField>)
    ensures
        f.is_some() == json_members(*doc).contains_key(key@),
        f.is_some() ==> f.unwrap()@ == json_members(*doc)[key@],
{
    match doc.get(key) {
        None => None,
        Some(serde_json::Value::String(s)) => Some(JsonField::Text(s.clone())),
        Some(serde_json::Value::Null) => Some(JsonField::Null),
        Some(_) => Some(JsonField::Other),
    }
}

/// The instant that `chrono::DateTime::<chrono::Utc>::from_str` reads from a
/// text, as seconds since the epoch (`DateTime::timestamp`) and nanoseconds
/// into the second (`DateTime::timestamp_subsec_nanos`); `None` where the
/// text is no timestamp.
pub uninterp spec fn utc_instant(text: Seq<char>) -> Option<Timestamp>;

/// Reads a timestamp with `chrono::DateTime::<chrono::Utc>::from_str`.
///
/// Taken for granted: the result depends on the text alone, and the
/// nanoseconds stay below two seconds (values from one second on stand for a
/// leap second).
#[verifier::external_body]
pub(crate) fn parse_utc(text: &str) -> (t: Option<Timestamp>)
    ensures
        t == utc_instant(text@),
        t.is_some() ==> t.unwrap().wf(),
{
    match chrono::DateTime::<chrono::Utc>::from_str(text) {
        Ok(dt) => Some(Timestamp { seconds: dt.timestamp(), nanos: dt.timestamp_subsec_nanos() }),
        Err(_) => None,
    }
}

/// The text that `chrono::DateTime::<chrono::Utc>::from_timestamp` followed
/// by `DateTime::to_rfc3339_opts(SecondsFormat::Nanos, true)` gives for an
/// instant: `None` where the instant lies outside the range of dates that
/// `from_timestamp` takes, else the instant in RFC 3339 with nine digits of
/// a second.
pub uninterp spec fn rfc3339_of(t: Timestamp) -> Option<Seq<char>>;

/// Writes an instant as text with `chrono::DateTime::from_timestamp` and
/// `DateTime::to_rfc3339_opts`.
///
/// Taken for granted: the text depends on the instant alone.
#[verifier::external_body]
pub(crate) fn rfc3339_text(t: Timestamp) -> (text: Option<String>)
    ensures
        match text {
            Some(s) => rfc3339_of(t) == Some(s@),
            None => rfc3339_of(t).is_none(),
        },
{
    match chrono::DateTime::<chrono::Utc>::from_timestamp(t.seconds, t.nanos) {
        Some(dt) => Some(dt.to_rfc3339_opts(chrono::SecondsFormat::Nanos, true)),
        None => None,
    }
}

/// Whether `char::is_whitespace` holds of a character: whether the character
/// has the Unicode property `White_Space`.
pub uninterp spec fn white_space(c: char) -> bool;

/// Asks `char::is_whitespace`.
///
/// Taken for granted: the answer depends on the character alone.
#[verifier::external_body]
pub(crate) fn is_whitespace(c: char) -> (r: bool)
    ensures
        r == white_space(c),
{
    c.is_whitespace()
}

/// A cheaply shared byte buffer, `bytes::Bytes`.
#[verifier::external_type_specification]
#[verifier::external_body]
pub struct ExBytes(bytes::Bytes);

/// The bytes that a `bytes::Bytes` holds, in order.
pub uninterp spec fn bytes_of(b: bytes::Bytes) -> Seq<u8>;

/// `bytes::Bytes::copy_from_slice` makes a buffer that holds a copy of the
/// slice.
pub assume_specification[ bytes::Bytes::copy_from_slice ](data: &[u8]) -> (b: bytes::Bytes)
    ensures
        bytes_of(b) == data@,
;

/// `bytes::Bytes::len` is the number of bytes held.
pub assume_specification[ bytes::Bytes::len ](b: &bytes::Bytes) -> (n: usize)
    ensures
        n == bytes_of(*b).len(),
;

/// `bytes::Bytes::is_empty` says whether no byte is held.
pub assume_specification[ bytes::Bytes::is_empty ](b: &bytes::Bytes) -> (e: bool)
    ensures
        e == (bytes_of(*b).len() == 0),
;

/// Borrows the bytes of a buffer with `bytes::Bytes::as_ref`.
///
/// Taken for granted: the slice is the bytes held, in order.
#[verifier::external_body]
pub(crate) fn bytes_as_slice(b: &bytes::Bytes) -> (s: &[u8])
    ensures
        s@ == bytes_of(*b),
{
    b.as_ref()
}

} // verus!
