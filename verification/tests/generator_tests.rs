use bytes::Bytes;

use gensource::generator::new_generator;
use gensource::generator::GeneratorAck;
use gensource::generator::GeneratorLagReader;
use gensource::generator::GeneratorRead;
use gensource::message::Offset;
use gensource::message::StringOffset;
use gensource::reader::LagReader;
use gensource::scheduler::StreamGenerator;
use gensource::source::SourceAcker;
use gensource::source::SourceReader;

#[test]
fn test_stream_generator() {
    // Define the content to be generated
    let content = Bytes::from("test_data");
    // Define requests per unit (rpu), batch size, and time unit (millis)
    let rpu = 10;
    let batch = 6;
    let unit = 100;

    // Create a new StreamGenerator
    let mut stream_generator = StreamGenerator::new(content.clone(), rpu, batch, unit);

    // Collect the first batch of data
    let first_batch = stream_generator.poll_next(0).unwrap();
    assert_eq!(first_batch.len(), batch);
    for item in first_batch {
        assert_eq!(item, content);
    }

    // Collect the second batch of data
    let second_batch = stream_generator.poll_next(0).unwrap();
    assert_eq!(second_batch.len(), rpu - batch);
    for item in second_batch {
        assert_eq!(item, content);
    }

    // no there is no more data left in the quota
    let size = stream_generator.size_hint();
    assert_eq!(size.0, 0);
    assert_eq!(size.1, Some(rpu));

    // quota is exhausted until the next window boundary fires
    assert!(stream_generator.poll_next(50).is_none());

    let third_batch = stream_generator.poll_next(100).unwrap();
    assert_eq!(third_batch.len(), 6);
    for item in third_batch {
        assert_eq!(item, content);
    }

    // we should now have data
    let size = stream_generator.size_hint();
    assert_eq!(size.0, 4);
    assert_eq!(size.1, Some(rpu));
}

#[test]
fn test_generator_read() {
    // Define the content to be generated
    let content = Bytes::from("test_data");
    // Define requests per unit (rpu), batch size, and time unit (millis)
    let rpu = 10;
    let batch = 5;
    let unit = 100;

    // Create a new Generator
    let mut generator = GeneratorRead::new(content.clone(), rpu, batch, unit, "vertex".to_string(), 0);

    // Read the first batch of messages
    let messages = generator.read(0).unwrap().unwrap();
    assert_eq!(messages.len(), batch);

    // Read the second batch of messages
    let messages = generator.read(0).unwrap().unwrap();
    assert_eq!(messages.len(), rpu - batch);
}

#[test]
fn test_generator_lag_pending() {
    // Create a new GeneratorLagReader
    let mut lag_reader = GeneratorLagReader::new();

    // Call the pending method and check the result
    let pending_result = lag_reader.pending();

    // Assert that the result is Ok(None)
    assert!(pending_result.is_ok());
    assert_eq!(pending_result.unwrap(), None);
}

#[test]
fn test_generator_ack() {
    // Create a new GeneratorAck instance
    let mut generator_ack = GeneratorAck::new();

    // Create a vector of offsets to acknowledge
    let offsets = vec![
        Offset::Str(StringOffset::new("offset1".to_string(), 0)),
        Offset::Str(StringOffset::new("offset2".to_string(), 0)),
    ];

    // Call the ack method and check the result
    let ack_result = generator_ack.ack(offsets);

    // Assert that the result is Ok(())
    assert!(ack_result.is_ok());
}

#[test]
fn effective_batch_is_min_of_batch_and_rpu() {
    let content = Bytes::from("x");
    // batch larger than rpu is clamped to rpu
    let g = StreamGenerator::new(content.clone(), 5, 10, 100);
    assert_eq!(g.batch, 5);
    // batch within rpu stays as configured
    let g = StreamGenerator::new(content, 10, 4, 100);
    assert_eq!(g.batch, 4);
}

#[test]
fn window_delivery_never_exceeds_rpu() {
    let content = Bytes::from("x");
    let rpu = 10;
    let mut g = StreamGenerator::new(content, rpu, 3, 100);

    // Open a window, then drain it with repeated polls inside the window.
    let mut delivered = g.poll_next(100).unwrap().len();
    for now in [110, 120, 130, 140, 150, 199] {
        if let Some(data) = g.poll_next(now) {
            delivered += data.len();
        }
    }
    assert_eq!(delivered, rpu);

    // A later poll in the same window yields nothing more.
    assert!(g.poll_next(199).is_none());
}

#[test]
fn backlog_estimate_bounds() {
    let content = Bytes::from("x");
    let mut g = StreamGenerator::new(content, 10, 6, 100);

    // After a partial delivery of k = 6 records the lower bound is rpu - k.
    let first = g.poll_next(0).unwrap();
    assert_eq!(first.len(), 6);
    assert_eq!(g.size_hint(), (4, Some(10)));

    // After full quota exhaustion: lower bound 0, upper bound rpu.
    let second = g.poll_next(0).unwrap();
    assert_eq!(second.len(), 4);
    assert_eq!(g.size_hint(), (0, Some(10)));
}

#[test]
fn skipped_windows_do_not_accumulate() {
    let content = Bytes::from("x");
    let mut g = StreamGenerator::new(content, 10, 6, 100);

    assert_eq!(g.poll_next(0).unwrap().len(), 6);
    assert_eq!(g.poll_next(0).unwrap().len(), 4);

    // Ten whole windows pass unobserved: the next poll still yields exactly
    // one batch, and the window continues from the latest boundary.
    assert_eq!(g.poll_next(1050).unwrap().len(), 6);
    assert_eq!(g.poll_next(1050).unwrap().len(), 4);
    assert!(g.poll_next(1099).is_none());
    assert_eq!(g.poll_next(1100).unwrap().len(), 6);
}

#[test]
fn ack_succeeds_for_empty_duplicate_and_unseen_offsets() {
    let mut ack = GeneratorAck::new();

    // empty
    assert!(ack.ack(vec![]).is_ok());

    // previously unseen
    let unseen = vec![Offset::Str(StringOffset::new("a".to_string(), 0))];
    assert!(ack.ack(unseen).is_ok());

    // duplicates of an already-seen offset
    let dup = vec![
        Offset::Str(StringOffset::new("a".to_string(), 0)),
        Offset::Str(StringOffset::new("a".to_string(), 0)),
    ];
    assert!(ack.ack(dup).is_ok());
}

#[test]
fn generated_messages_carry_content_and_identity() {
    let content = Bytes::from("test_data");
    let (mut read, _ack, _lag) =
        new_generator(content, 4, 2, 100, "my-vertex".to_string(), 3).unwrap();

    assert_eq!(read.name(), "generator");
    assert_eq!(read.partitions(), vec![3]);

    let messages = read.read(0).unwrap().unwrap();
    assert_eq!(messages.len(), 2);
    for msg in messages {
        // the payload is copied into every message
        assert_eq!(msg.value, b"test_data".to_vec());
        assert!(msg.keys.is_empty());
        assert!(msg.headers.is_empty());
        assert_eq!(msg.event_time, 0);
        assert_eq!(msg.id.index, 0);
        assert_eq!(msg.id.vertex_name, "my-vertex");
        // the offset pairs a decimal timestamp with the replica, and its
        // encoding is stamped into the message id
        let Some(Offset::Str(so)) = msg.offset else {
            panic!("generator must emit a string offset");
        };
        assert_eq!(so.partition, 3);
        assert!(so.value.parse::<i64>().is_ok());
        assert_eq!(msg.id.offset, format!("{}-{}", so.value, so.partition));
    }
}

#[test]
fn suspended_read_resumes_at_boundary() {
    let content = Bytes::from("p");
    let mut read = GeneratorRead::new(content, 3, 3, 100, "v".to_string(), 0);

    assert_eq!(read.read(0).unwrap().unwrap().len(), 3);
    // quota exhausted: the call reports a suspension, not an empty batch
    assert!(read.read(50).unwrap().is_none());
    // the next boundary replenishes exactly one batch
    assert_eq!(read.read(100).unwrap().unwrap().len(), 3);
}
