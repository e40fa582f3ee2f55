use casper_client::coordinator::{complete_upload, ChunkProducer};
use casper_client::error::CasperError;
use casper_client::planner::{plan_upload, StreamMessage};

fn bits(values: &[f32]) -> Vec<u32> {
    values.iter().map(|v| v.to_bits()).collect()
}

#[test]
fn end_to_end_upload_scenario() {
    // dimension 3, two vectors, requested chunk size 1 (clamped to 3):
    // header, then exactly two data chunks of one vector each.
    let values = bits(&[1.0, 2.0, 3.0, 4.0, 5.0, 6.0]);
    let plan = plan_upload("m", 3, values.clone(), 1).unwrap();
    let mut producer = ChunkProducer::new(plan);

    match producer.next_message() {
        Some(StreamMessage::Header(h)) => {
            assert_eq!(h.name, "m");
            assert_eq!(h.dimension, 3);
            assert_eq!(h.total_chunks, 2);
            assert_eq!(h.max_vectors_per_chunk, 1);
        }
        other => panic!("expected header first, got {:?}", other),
    }
    match producer.next_message() {
        Some(StreamMessage::Data(c)) => {
            assert_eq!(c.chunk_index, 0);
            assert_eq!(c.values, values[0..3].to_vec());
        }
        other => panic!("expected first data chunk, got {:?}", other),
    }
    match producer.next_message() {
        Some(StreamMessage::Data(c)) => {
            assert_eq!(c.chunk_index, 1);
            assert_eq!(c.values, values[3..6].to_vec());
        }
        other => panic!("expected second data chunk, got {:?}", other),
    }
    assert_eq!(producer.next_message(), None);
    assert_eq!(producer.next_message(), None);

    let outcome = complete_upload(Ok((2, 2))).unwrap();
    assert!(outcome.success);
    assert_eq!(outcome.total_vectors, 2);
    assert_eq!(outcome.total_chunks, 2);
    assert_eq!(outcome.message, "Successfully uploaded 2 vectors in 2 chunks");
}

#[test]
fn stream_failure_maps_to_streaming_error() {
    let err = complete_upload(Err("connection reset".to_string())).unwrap_err();
    assert_eq!(err, CasperError::Grpc("connection reset".to_string()));
}

#[test]
fn producer_emits_header_then_all_indices_in_order() {
    let plan = plan_upload("m", 1, bits(&[0.0; 10]), 3).unwrap();
    let mut producer = ChunkProducer::new(plan);
    let mut messages = Vec::new();
    while let Some(m) = producer.next_message() {
        messages.push(m);
    }
    assert_eq!(messages.len(), 5);
    assert!(matches!(messages[0], StreamMessage::Header(_)));
    for (i, m) in messages[1..].iter().enumerate() {
        match m {
            StreamMessage::Data(c) => assert_eq!(c.chunk_index as usize, i),
            other => panic!("expected data message, got {:?}", other),
        }
    }
}

#[test]
fn backpressure_bounded_queue_pauses_producer() {
    // Queue capacity 4 and a consumer that drains nothing: production
    // pauses after 4 unconsumed messages are pending, resumes one step
    // per drained message, and stops when the consumer is gone.
    let plan = plan_upload("m", 1, bits(&[0.0; 8]), 1).unwrap();
    let mut producer = ChunkProducer::new(plan);
    let (tx, mut rx) = tokio::sync::mpsc::channel::<StreamMessage>(4);

    let mut produced = 0usize;
    loop {
        match tx.try_reserve() {
            Ok(permit) => {
                let msg = producer.next_message().expect("plan has 9 messages");
                permit.send(msg);
                produced += 1;
            }
            Err(tokio::sync::mpsc::error::TrySendError::Full(())) => break,
            Err(e) => panic!("unexpected channel state: {:?}", e),
        }
    }
    assert_eq!(produced, 4);

    // The consumer drains one message: production resumes for exactly one.
    assert!(matches!(rx.try_recv(), Ok(StreamMessage::Header(_))));
    let permit = tx.try_reserve().expect("one slot was freed");
    permit.send(producer.next_message().expect("messages remain"));
    produced += 1;
    assert_eq!(produced, 5);
    assert!(matches!(tx.try_reserve(), Err(tokio::sync::mpsc::error::TrySendError::Full(()))));

    // The consumer goes away: the producer detects the closed channel
    // and stops instead of generating further chunks.
    drop(rx);
    assert!(matches!(tx.try_reserve(), Err(tokio::sync::mpsc::error::TrySendError::Closed(()))));
}
