use copypasta::streams::{
    consumer_opening, producer_opening, relay_in_memory, topic_name, ConsumerAction,
    ConsumerState, ProducerAction, ProducerState, ReadOutcome, CHUNK_SIZE, MAX_ENCODED_CHUNK,
};
use copypasta::client::HeyError;
use copypasta::wire::{Message, StreamEvent};

fn pull() -> StreamEvent {
    StreamEvent::custom("bytes_requested", "{}")
}

fn pattern(len: usize) -> Vec<u8> {
    (0..len).map(|i| (i * 7 + i / 251) as u8).collect()
}

/// Drives a producer over `input` as a runner would, reading whole chunks,
/// and returns what it sent.
fn produce_all(input: &[u8]) -> Vec<Message> {
    let mut state = ProducerState::new();
    let mut sent = Vec::new();
    let mut pos = 0;
    while !state.is_done() {
        match state.on_event(&pull()) {
            ProducerAction::ReadChunk(max) => {
                let end = std::cmp::min(pos + max, input.len());
                let (next, message) = state.on_read(ReadOutcome::Chunk(input[pos..end].to_vec()));
                pos = end;
                state = next;
                sent.push(message.expect("a ready producer answers every read"));
            }
            ProducerAction::Ignore => panic!("a ready producer must read on a pull"),
        }
    }
    sent
}

fn decoded_len(message: &Message) -> usize {
    match message {
        Message::Bytes(text) => base64::decode(text).unwrap().len(),
        _ => panic!("not a chunk"),
    }
}

#[test]
fn empty_input_answers_first_pull_with_done() {
    let sent = produce_all(&[]);
    assert_eq!(sent.len(), 1);
    assert!(matches!(sent[0], Message::Done { error: false }));
    assert_eq!(sent[0].kind(), "done");
    assert_eq!(sent[0].payload(), "{}");
}

#[test]
fn large_input_goes_in_three_chunks() {
    let input = pattern(2_500_000);
    let sent = produce_all(&input);
    assert_eq!(sent.len(), 4);
    assert_eq!(decoded_len(&sent[0]), 1_000_000);
    assert_eq!(decoded_len(&sent[1]), 1_000_000);
    assert_eq!(decoded_len(&sent[2]), 500_000);
    assert!(matches!(sent[3], Message::Done { error: false }));
    assert_eq!(sent[3].payload(), "{}");
}

#[test]
fn producer_encodes_chunk_as_base64_data() {
    let state = ProducerState::new();
    let (next, message) = state.on_read(ReadOutcome::Chunk(b"hello".to_vec()));
    assert_eq!(next, ProducerState::ReadyToProduce);
    let message = message.unwrap();
    assert_eq!(message.kind(), "bytes");
    assert_eq!(message.payload(), "{\"data\":\"aGVsbG8=\"}");
}

#[test]
fn producer_ignores_other_events() {
    let state = ProducerState::new();
    assert_eq!(state.on_event(&StreamEvent::custom("phx_reply", "{}")), ProducerAction::Ignore);
    assert_eq!(state.on_event(&StreamEvent::Defined), ProducerAction::Ignore);
    assert_eq!(state.on_event(&pull()), ProducerAction::ReadChunk(1_000_000));
    assert_eq!(CHUNK_SIZE, 1_000_000);
}

#[test]
fn read_failure_sends_done_with_error_then_nothing() {
    let state = ProducerState::new();
    let (next, message) = state.on_read(ReadOutcome::Failed);
    assert_eq!(next, ProducerState::Done);
    let message = message.unwrap();
    assert_eq!(message.kind(), "done");
    assert_eq!(message.payload(), "{\"error\":true}");
    assert_eq!(next.on_event(&pull()), ProducerAction::Ignore);
    let (after, nothing) = next.on_read(ReadOutcome::Chunk(b"more".to_vec()));
    assert_eq!(after, ProducerState::Done);
    assert!(nothing.is_none());
}

#[test]
fn end_of_input_sends_one_done_and_no_bytes_afterwards() {
    let state = ProducerState::new();
    let (next, message) = state.on_read(ReadOutcome::Chunk(Vec::new()));
    assert_eq!(next, ProducerState::Done);
    assert!(matches!(message, Some(Message::Done { error: false })));
    assert_eq!(next.on_event(&pull()), ProducerAction::Ignore);
    let (_, nothing) = next.on_read(ReadOutcome::Chunk(b"x".to_vec()));
    assert!(nothing.is_none());
}

#[test]
fn producer_sends_at_most_one_chunk_per_pull() {
    let events = vec![pull(), StreamEvent::custom("phx_reply", "{}"), StreamEvent::Defined, pull()];
    let mut state = ProducerState::new();
    let mut chunks = 0;
    for event in &events {
        if let ProducerAction::ReadChunk(_) = state.on_event(event) {
            let (next, message) = state.on_read(ReadOutcome::Chunk(b"abc".to_vec()));
            state = next;
            if let Some(Message::Bytes(_)) = message {
                chunks += 1;
            }
        }
    }
    assert_eq!(chunks, 2);
}

#[test]
fn consumer_opens_with_join_and_one_request() {
    let opening = consumer_opening();
    assert_eq!(opening.len(), 2);
    assert_eq!(opening[0].kind(), "consumer_join");
    assert_eq!(opening[1].kind(), "request_bytes");
    assert_eq!(opening[1].payload(), "{}");
    let producer = producer_opening();
    assert_eq!(producer.len(), 1);
    assert_eq!(producer[0].kind(), "producer_join");
    assert_eq!(producer[0].payload(), "{}");
}

#[test]
fn consumer_decodes_bytes_payload() {
    let state = ConsumerState::new();
    let event = StreamEvent::custom("bytes", "{\"data\":\"aGVsbG8=\"}");
    match state.on_event(&event) {
        Ok((next, ConsumerAction::Deliver(bytes))) => {
            assert_eq!(next, ConsumerState::Consuming);
            assert_eq!(bytes, b"hello".to_vec());
        }
        other => panic!("unexpected {:?}", other),
    }
}

#[test]
fn consumer_stops_on_no_more_data() {
    let state = ConsumerState::new();
    match state.on_event(&StreamEvent::custom("no_more_data", "{}")) {
        Ok((next, ConsumerAction::Finish)) => {
            assert!(next.is_done());
            let chunk = StreamEvent::custom("bytes", "{\"data\":\"aGVsbG8=\"}");
            assert!(matches!(next.on_event(&chunk), Ok((ConsumerState::Done, ConsumerAction::Ignore))));
        }
        other => panic!("unexpected {:?}", other),
    }
}

#[test]
fn consumer_ignores_other_events() {
    let state = ConsumerState::new();
    assert!(matches!(
        state.on_event(&StreamEvent::custom("phx_reply", "{}")),
        Ok((ConsumerState::Consuming, ConsumerAction::Ignore))
    ));
    assert!(matches!(
        state.on_event(&StreamEvent::Defined),
        Ok((ConsumerState::Consuming, ConsumerAction::Ignore))
    ));
}

#[test]
fn consumer_rejects_payload_without_data() {
    let state = ConsumerState::new();
    let event = StreamEvent::custom("bytes", "{\"other\":\"aGVsbG8=\"}");
    assert!(matches!(state.on_event(&event), Err(HeyError::FatalProtocolError)));
}

#[test]
fn consumer_rejects_invalid_base64() {
    let state = ConsumerState::new();
    let event = StreamEvent::custom("bytes", "{\"data\":\"not base64!\"}");
    assert!(matches!(state.on_event(&event), Err(HeyError::FatalProtocolError)));
}

#[test]
fn consumer_rejects_oversized_chunk_text() {
    let state = ConsumerState::new();
    let text = "A".repeat(MAX_ENCODED_CHUNK + 4);
    let event = StreamEvent::custom("bytes", &format!("{{\"data\":\"{}\"}}", text));
    assert!(matches!(state.on_event(&event), Err(HeyError::FatalProtocolError)));
}

#[test]
fn accept_chunk_maps_decoding_outcome() {
    let state = ConsumerState::new();
    assert!(matches!(
        state.accept_chunk(Some(vec![1, 2, 3])),
        Ok((ConsumerState::Consuming, ConsumerAction::Deliver(ref b))) if *b == vec![1, 2, 3]
    ));
    assert!(matches!(state.accept_chunk(None), Err(HeyError::FatalProtocolError)));
    assert!(matches!(
        ConsumerState::Done.accept_chunk(Some(vec![1])),
        Ok((ConsumerState::Done, ConsumerAction::Ignore))
    ));
}

#[test]
fn consumer_requests_once_per_chunk() {
    let events = vec![
        StreamEvent::custom("bytes", "{\"data\":\"YQ==\"}"),
        StreamEvent::custom("phx_reply", "{}"),
        StreamEvent::custom("bytes", "{\"data\":\"Yg==\"}"),
        StreamEvent::custom("no_more_data", "{}"),
        StreamEvent::custom("bytes", "{\"data\":\"Yw==\"}"),
    ];
    let mut state = ConsumerState::new();
    let mut requests = 0;
    let mut output = Vec::new();
    for event in &events {
        let (next, action) = state.on_event(event).unwrap();
        state = next;
        match action {
            ConsumerAction::Deliver(bytes) => {
                output.extend_from_slice(&bytes);
                requests += 1;
            }
            ConsumerAction::Finish => break,
            ConsumerAction::Ignore => {}
        }
    }
    assert_eq!(requests, 2);
    assert_eq!(output, b"ab".to_vec());
    assert!(state.is_done());
}

#[test]
fn relay_round_trips_empty_input() {
    let (output, sent) = relay_in_memory(&[]);
    assert_eq!(output, Vec::<u8>::new());
    assert_eq!(sent.len(), 1);
    assert!(matches!(sent[0], Message::Done { error: false }));
}

#[test]
fn relay_round_trips_small_inputs() {
    for len in [1usize, 2, 3, 4, 5, 255, 1000] {
        let input = pattern(len);
        assert_eq!(relay_in_memory(&input).0, input);
    }
}

#[test]
fn relay_round_trips_chunk_boundaries() {
    for len in [999_999usize, 1_000_000, 1_000_001, 2_500_000] {
        let input = pattern(len);
        assert_eq!(relay_in_memory(&input).0, input);
    }
}

#[test]
fn relay_round_trips_several_megabytes() {
    let input = pattern(5_300_017);
    assert_eq!(relay_in_memory(&input).0, input);
}

#[test]
fn topic_name_prefixes_streams() {
    assert_eq!(topic_name("abc123"), "streams:abc123");
}

#[test]
fn delivery_is_answered_with_request_bytes() {
    let reply = ConsumerAction::Deliver(vec![1]).reply().unwrap();
    assert_eq!(reply.kind(), "request_bytes");
    assert_eq!(reply.payload(), "{}");
    assert!(ConsumerAction::Finish.reply().is_none());
    assert!(ConsumerAction::Ignore.reply().is_none());
}

#[test]
fn relay_reports_the_chunks_it_sent() {
    let input = pattern(2_500_000);
    let (output, sent) = relay_in_memory(&input);
    assert_eq!(output, input);
    assert_eq!(sent.len(), 4);
    assert_eq!(decoded_len(&sent[0]), 1_000_000);
    assert_eq!(decoded_len(&sent[1]), 1_000_000);
    assert_eq!(decoded_len(&sent[2]), 500_000);
    assert_eq!(sent[2].payload(), format!("{{\"data\":\"{}\"}}", base64::encode(&input[2_000_000..])));
    assert!(matches!(sent[3], Message::Done { error: false }));
}
