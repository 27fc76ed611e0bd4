//! Core logic of a log collection agent: parsing raw lines into structured
//! records, buffering and batching them, following files and their read
//! offsets, and deciding what the tailers and the shipper do next.
//!
//! The library makes decisions and keeps state; it performs no input or
//! output. Whatever is read from a file, a clock or the network comes in as a
//! plain value, and whatever has to be done comes out as one.

pub mod async_read;
pub mod buffer;
pub mod checkpoint;
pub mod config;
pub mod durable;
pub mod manager;
pub mod parser;
pub mod payload;
pub mod pipeline;
pub mod record;
pub mod runtime;
pub mod shipper;
pub mod tailer;
pub mod text;
pub mod trusted;
pub mod watcher;
pub mod wire;
