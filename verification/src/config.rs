//! Configuration values as they arrive from the configuration file, and the
//! enumerated settings the buffer derives from them.

use vstd::prelude::*;

verus! {

/// Which modes of operation are switched on.
#[derive(Clone, Debug, PartialEq, Eq)]
pub struct GeneralConfig {
    pub enable_local_mode: bool,
    pub enable_network_mode: bool,
}

/// Where flushed records are made durable, as configured.
#[derive(Clone, Debug, PartialEq, Eq)]
pub enum DurabilityConfig {
    InMemory,
    SQLite(String),
}

/// Buffer settings, with the policies still spelled as text.
#[derive(Clone, Debug, PartialEq, Eq)]
pub struct BufferConfig {
    pub capacity_option: String,
    pub buffer_capacity: u64,
    pub batch_size: usize,
    pub batch_timeout_ms: u64,
    pub durability: DurabilityConfig,
    pub overflow_policy: String,
    pub drain_policy: String,
    pub flush_policy: String,
}

/// Settings of the directory watcher.
#[derive(Clone, Debug, PartialEq, Eq)]
pub struct WatcherConfig {
    pub enabled: bool,
    pub log_dir: String,
    pub checkpoint_path: String,
    pub poll_interval_ms: Option<u64>,
    pub recursive: Option<bool>,
}

/// Parser settings; none are defined yet.
#[derive(Clone, Debug, PartialEq, Eq)]
pub struct ParserConfig {}

/// Rescan period used when the configuration names none.
pub const DEFAULT_POLL_INTERVAL_MS: u64 = 5000;

impl WatcherConfig {
    /// The rescan period in milliseconds: the configured one, or the default.
    pub fn poll_interval(&self) -> (ms: u64)
        ensures
            ms == match self.poll_interval_ms {
                Some(v) => v,
                None => DEFAULT_POLL_INTERVAL_MS,
            },
    {
        match self.poll_interval_ms {
            Some(v) => v,
            None => DEFAULT_POLL_INTERVAL_MS,
        }
    }

    /// Whether subdirectories are watched too; they are unless switched off.
    pub fn is_recursive(&self) -> (r: bool)
        ensures
            r == match self.recursive {
                Some(v) => v,
                None => true,
            },
    {
        match self.recursive {
            Some(v) => v,
            None => true,
        }
    }
}

/// Whether the queue has a hard cap.
#[derive(Clone, Copy, Debug, PartialEq, Eq, Structural)]
pub enum CapacityOption {
    Bounded,
    Unbounded,
}

/// What `push` does when a bounded queue is full.
#[derive(Clone, Copy, Debug, PartialEq, Eq, Structural)]
pub enum OverflowPolicy {
    DropNewest,
    DropOldest,
    BlockWithBackpressure,
    GrowCapacity,
}

/// Which condition makes a flush fire.
#[derive(Clone, Copy, Debug, PartialEq, Eq, Structural)]
pub enum FlushPolicy {
    BatchSize,
    BatchTimeout,
    HybridSizeTimeout,
}

/// How much `drain` removes from the queue.
#[derive(Clone, Copy, Debug, PartialEq, Eq, Structural)]
pub enum DrainPolicy {
    DrainAll,
    DrainBatchSize,
    DrainBatchTimeout,
}

/// A configuration field whose text names no known setting, with the text.
#[derive(Clone, Debug, PartialEq, Eq)]
pub enum ConfigError {
    CapacityOption(String),
    OverflowPolicy(String),
    FlushPolicy(String),
    DrainPolicy(String),
}

impl ConfigError {
    /// The error in words: the offending text, then the field that it was
    /// configured for.
    pub fn message(&self) -> (text: String)
        ensures
            text@ == match self {
                ConfigError::CapacityOption(v) => v@ + " is not a valid capacity_option"@,
                ConfigError::OverflowPolicy(v) => v@ + " is not a valid overflow_policy"@,
                ConfigError::FlushPolicy(v) => v@ + " is not a valid flush_policy"@,
                ConfigError::DrainPolicy(v) => v@ + " is not a valid drain_policy"@,
            },
    {
        match self {
            ConfigError::CapacityOption(v) => {
                let mut text = v.clone();
                text.append(" is not a valid capacity_option");
                text
            },
            ConfigError::OverflowPolicy(v) => {
                let mut text = v.clone();
                text.append(" is not a valid overflow_policy");
                text
            },
            ConfigError::FlushPolicy(v) => {
                let mut text = v.clone();
                text.append(" is not a valid flush_policy");
                text
            },
            ConfigError::DrainPolicy(v) => {
                let mut text = v.clone();
                text.append(" is not a valid drain_policy");
                text
            },
        }
    }
}

/// Whether two pieces of text are the same sequence of characters.
pub fn text_eq(a: &str, b: &str) -> (r: bool)
    ensures
        r == (a@ == b@),
{
    a.to_owned() == b.to_owned()
}

/// The capacity option a text names, if any.
pub open spec fn capacity_option_of(s: Seq<char>) -> Option<CapacityOption> {
    if s == "bounded"@ {
        Some(CapacityOption::Bounded)
    } else if s == "unbounded"@ {
        Some(CapacityOption::Unbounded)
    } else {
        None
    }
}

/// The overflow policy a text names, if any.
pub open spec fn overflow_policy_of(s: Seq<char>) -> Option<OverflowPolicy> {
    if s == "drop_newest"@ {
        Some(OverflowPolicy::DropNewest)
    } else if s == "drop_oldest"@ {
        Some(OverflowPolicy::DropOldest)
    } else if s == "block_with_backpressure"@ {
        Some(OverflowPolicy::BlockWithBackpressure)
    } else if s == "grow_capacity"@ {
        Some(OverflowPolicy::GrowCapacity)
    } else {
        None
    }
}

/// The flush policy a text names, if any.
pub open spec fn flush_policy_of(s: Seq<char>) -> Option<FlushPolicy> {
    if s == "batch_size"@ {
        Some(FlushPolicy::BatchSize)
    } else if s == "batch_timeout"@ {
        Some(FlushPolicy::BatchTimeout)
    } else if s == "hybrid_size_timeout"@ {
        Some(FlushPolicy::HybridSizeTimeout)
    } else {
        None
    }
}

/// The drain policy a text names, if any.
pub open spec fn drain_policy_of(s: Seq<char>) -> Option<DrainPolicy> {
    if s == "drain_all"@ {
        Some(DrainPolicy::DrainAll)
    } else if s == "drain_batch_size"@ {
        Some(DrainPolicy::DrainBatchSize)
    } else if s == "drain_batch_timeout"@ {
        Some(DrainPolicy::DrainBatchTimeout)
    } else {
        None
    }
}

/// Reads a capacity option from its configured spelling.
pub fn parse_capacity_option(s: &str) -> (r: Option<CapacityOption>)
    ensures
        r == capacity_option_of(s@),
{
    if text_eq(s, "bounded") {
        Some(CapacityOption::Bounded)
    } else if text_eq(s, "unbounded") {
        Some(CapacityOption::Unbounded)
    } else {
        None
    }
}

/// Reads an overflow policy from its configured spelling.
pub fn parse_overflow_policy(s: &str) -> (r: Option<OverflowPolicy>)
    ensures
        r == overflow_policy_of(s@),
{
    if text_eq(s, "drop_newest") {
        Some(OverflowPolicy::DropNewest)
    } else if text_eq(s, "drop_oldest") {
        Some(OverflowPolicy::DropOldest)
    } else if text_eq(s, "block_with_backpressure") {
        Some(OverflowPolicy::BlockWithBackpressure)
    } else if text_eq(s, "grow_capacity") {
        Some(OverflowPolicy::GrowCapacity)
    } else {
        None
    }
}

/// Reads a flush policy from its configured spelling.
pub fn parse_flush_policy(s: &str) -> (r: Option<FlushPolicy>)
    ensures
        r == flush_policy_of(s@),
{
    if text_eq(s, "batch_size") {
        Some(FlushPolicy::BatchSize)
    } else if text_eq(s, "batch_timeout") {
        Some(FlushPolicy::BatchTimeout)
    } else if text_eq(s, "hybrid_size_timeout") {
        Some(FlushPolicy::HybridSizeTimeout)
    } else {
        None
    }
}

/// Reads a drain policy from its configured spelling.
pub fn parse_drain_policy(s: &str) -> (r: Option<DrainPolicy>)
    ensures
        r == drain_policy_of(s@),
{
    if text_eq(s, "drain_all") {
        Some(DrainPolicy::DrainAll)
    } else if text_eq(s, "drain_batch_size") {
        Some(DrainPolicy::DrainBatchSize)
    } else if text_eq(s, "drain_batch_timeout") {
        Some(DrainPolicy::DrainBatchTimeout)
    } else {
        None
    }
}

} // verus!
