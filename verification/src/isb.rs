//! Inter-step buffer routing configuration.
//!
//! Loaded once at stage startup, already validated by the external loader,
//! and immutable for the stage's lifetime. This core only consumes its
//! shape: downstream writers map a source's `partitions()` output onto the
//! `streams` entries.

use vstd::prelude::*;

pub mod jetstream;

verus! {

/// Default partition index of the single default stream.
pub const DEFAULT_PARTITION_IDX: u16 = 0;

/// Default partition count.
pub const DEFAULT_PARTITIONS: u16 = 1;

/// Default capacity ceiling per partition.
pub const DEFAULT_MAX_LENGTH: usize = 30000;

/// Default usage limit, in hundredths of capacity: 80 means backpressure
/// engages at 80% of `max_length`.
pub const DEFAULT_USAGE_LIMIT_HUNDREDTHS: u64 = 80;

/// Default capacity-refresh polling cadence, in milliseconds.
pub const DEFAULT_REFRESH_INTERVAL_MILLIS: u64 = 1000;

/// Default retry cadence when the buffer is full, in milliseconds.
pub const DEFAULT_RETRY_INTERVAL_MILLIS: u64 = 10;

/// Default in-flight-ack flush cadence, in milliseconds.
pub const DEFAULT_WIP_ACK_INTERVAL_MILLIS: u64 = 1000;

/// What a writer does when a downstream buffer is full.
#[derive(Debug, Clone, Eq, PartialEq)]
pub enum BufferFullStrategy {
    /// Keep retrying the write until space frees.
    RetryUntilSuccess,
    /// Drop the newest record.
    DiscardLatest,
}

impl BufferFullStrategy {
    /// The stable, case-sensitive external encoding of the strategy.
    pub open spec fn encoding(self) -> Seq<char> {
        match self {
            BufferFullStrategy::RetryUntilSuccess => "retryUntilSuccess"@,
            BufferFullStrategy::DiscardLatest => "discardLatest"@,
        }
    }

    /// Render the strategy's external string encoding.
    pub fn to_display_string(&self) -> (r: String)
        ensures
            r@ == self.encoding(),
    {
        match self {
            BufferFullStrategy::RetryUntilSuccess => String::from_str("retryUntilSuccess"),
            BufferFullStrategy::DiscardLatest => String::from_str("discardLatest"),
        }
    }
}

/// Writer-side buffer configuration: where records go and what happens as
/// the buffer fills.
#[derive(Debug, Clone, PartialEq)]
pub struct BufferWriterConfig {
    /// The downstream streams, as (stream name, partition index) pairs with
    /// unique indices.
    pub streams: Vec<(String, u16)>,
    /// Number of partitions; must equal the number of streams.
    pub partitions: u16,
    /// Capacity ceiling per partition.
    pub max_length: usize,
    /// Capacity-refresh polling cadence, in milliseconds.
    pub refresh_interval_millis: u64,
    /// Fraction of capacity, in hundredths, at which backpressure engages;
    /// within (0, 100].
    pub usage_limit_hundredths: u64,
    /// What to do when the buffer is full.
    pub buffer_full_strategy: BufferFullStrategy,
    /// Retry cadence when the buffer is full, in milliseconds.
    pub retry_interval_millis: u64,
}

impl BufferWriterConfig {
    /// Validity the external loader establishes before this core runs.
    pub open spec fn wf(self) -> bool {
        &&& self.partitions as int == self.streams@.len()
        &&& 0 < self.usage_limit_hundredths <= 100
        &&& forall|i: int, j: int|
            0 <= i < j < self.streams@.len() ==> (#[trigger] self.streams@[i]).1 != (
            #[trigger] self.streams@[j]).1
    }
}

impl Default for BufferWriterConfig {
    fn default() -> (r: Self)
        ensures
            r.wf(),
            r.streams@.len() == 1,
            r.streams@[0].0@ == "default-0"@,
            r.streams@[0].1 == DEFAULT_PARTITION_IDX,
            r.partitions == DEFAULT_PARTITIONS,
            r.max_length == DEFAULT_MAX_LENGTH,
            r.refresh_interval_millis == DEFAULT_REFRESH_INTERVAL_MILLIS,
            r.usage_limit_hundredths == DEFAULT_USAGE_LIMIT_HUNDREDTHS,
            r.buffer_full_strategy == BufferFullStrategy::RetryUntilSuccess,
            r.retry_interval_millis == DEFAULT_RETRY_INTERVAL_MILLIS,
    {
        let mut streams: Vec<(String, u16)> = Vec::new();
        streams.push((String::from_str("default-0"), DEFAULT_PARTITION_IDX));
        BufferWriterConfig {
            streams,
            partitions: DEFAULT_PARTITIONS,
            max_length: DEFAULT_MAX_LENGTH,
            refresh_interval_millis: DEFAULT_REFRESH_INTERVAL_MILLIS,
            usage_limit_hundredths: DEFAULT_USAGE_LIMIT_HUNDREDTHS,
            buffer_full_strategy: BufferFullStrategy::RetryUntilSuccess,
            retry_interval_millis: DEFAULT_RETRY_INTERVAL_MILLIS,
        }
    }
}

/// Reader-side buffer configuration.
#[derive(Debug, Clone, PartialEq)]
pub struct BufferReaderConfig {
    /// Number of partitions; must equal the number of streams.
    pub partitions: u16,
    /// The upstream streams, as (stream name, partition index) pairs.
    pub streams: Vec<(&'static str, u16)>,
    /// In-flight-ack flush cadence, in milliseconds.
    pub wip_ack_interval_millis: u64,
}

impl BufferReaderConfig {
    /// Validity the external loader establishes before this core runs.
    pub open spec fn wf(self) -> bool {
        self.partitions as int == self.streams@.len()
    }
}

impl Default for BufferReaderConfig {
    fn default() -> (r: Self)
        ensures
            r.wf(),
            r.partitions == DEFAULT_PARTITIONS,
            r.streams@.len() == 1,
            r.streams@[0].0@ == "default-0"@,
            r.streams@[0].1 == DEFAULT_PARTITION_IDX,
            r.wip_ack_interval_millis == DEFAULT_WIP_ACK_INTERVAL_MILLIS,
    {
        let mut streams: Vec<(&'static str, u16)> = Vec::new();
        streams.push(("default-0", DEFAULT_PARTITION_IDX));
        BufferReaderConfig {
            partitions: DEFAULT_PARTITIONS,
            streams,
            wip_ack_interval_millis: DEFAULT_WIP_ACK_INTERVAL_MILLIS,
        }
    }
}

} // verus!
