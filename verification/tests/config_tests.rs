use gensource::isb::jetstream::ClientConfig;
use gensource::isb::BufferFullStrategy;
use gensource::isb::BufferReaderConfig;
use gensource::isb::BufferWriterConfig;
use gensource::isb::DEFAULT_MAX_LENGTH;
use gensource::isb::DEFAULT_PARTITIONS;
use gensource::isb::DEFAULT_PARTITION_IDX;
use gensource::isb::DEFAULT_REFRESH_INTERVAL_MILLIS;
use gensource::isb::DEFAULT_RETRY_INTERVAL_MILLIS;
use gensource::isb::DEFAULT_USAGE_LIMIT_HUNDREDTHS;
use gensource::isb::DEFAULT_WIP_ACK_INTERVAL_MILLIS;

#[test]
fn test_default_client_config() {
    let expected_config = ClientConfig {
        url: "localhost:4222".to_string(),
        user: None,
        password: None,
    };
    let config = ClientConfig::default();
    assert_eq!(config, expected_config);
}

#[test]
fn test_default_buffer_writer_config() {
    let expected = BufferWriterConfig {
        streams: vec![("default-0".to_string(), DEFAULT_PARTITION_IDX)],
        partitions: DEFAULT_PARTITIONS,
        max_length: DEFAULT_MAX_LENGTH,
        usage_limit_hundredths: DEFAULT_USAGE_LIMIT_HUNDREDTHS,
        refresh_interval_millis: DEFAULT_REFRESH_INTERVAL_MILLIS,
        buffer_full_strategy: BufferFullStrategy::RetryUntilSuccess,
        retry_interval_millis: DEFAULT_RETRY_INTERVAL_MILLIS,
    };
    let config = BufferWriterConfig::default();

    assert_eq!(config, expected);
}

#[test]
fn test_buffer_full_strategy_display() {
    let val = BufferFullStrategy::RetryUntilSuccess;
    assert_eq!(val.to_display_string(), "retryUntilSuccess");

    let val = BufferFullStrategy::DiscardLatest;
    assert_eq!(val.to_display_string(), "discardLatest");
}

#[test]
fn test_default_buffer_reader_config() {
    let expected = BufferReaderConfig {
        partitions: DEFAULT_PARTITIONS,
        streams: vec![("default-0", DEFAULT_PARTITION_IDX)],
        wip_ack_interval_millis: DEFAULT_WIP_ACK_INTERVAL_MILLIS,
    };
    let config = BufferReaderConfig::default();
    assert_eq!(config, expected);
}

#[test]
fn default_writer_config_values() {
    let config = BufferWriterConfig::default();
    assert_eq!(config.max_length, 30000);
    assert_eq!(config.usage_limit_hundredths, 80);
    assert_eq!(config.refresh_interval_millis, 1000);
    assert_eq!(config.retry_interval_millis, 10);
    assert_eq!(config.partitions as usize, config.streams.len());
}

#[test]
fn default_reader_config_values() {
    let config = BufferReaderConfig::default();
    assert_eq!(config.wip_ack_interval_millis, 1000);
    assert_eq!(config.partitions as usize, config.streams.len());
}
