use babeltrace2_sys::status::{STATUS_AGAIN, STATUS_END, STATUS_ERROR, STATUS_OK};
use babeltrace2_sys::{
    consume_status, ClockSnapshot, ConsumeError, EnvEntry, EnvValue, Error, Event, EventClass,
    EventLogLevel, Field, Message, MessageArray, MessageType, NextStatus, OwnedField,
    ProxyPluginState, RawEnvValue, ScalarField, SinkPhase, Stream, Trace,
};

fn trace() -> Trace {
    Trace {
        name: Some(b"kernel".to_vec()),
        uuid: Some((1u8..=16).collect()),
        environment: vec![
            EnvEntry { name: Some(b"domain".to_vec()), value: RawEnvValue::String(Some(b"bare".to_vec())) },
            EnvEntry { name: Some(b"tracer_major".to_vec()), value: RawEnvValue::SignedInteger(3) },
        ],
    }
}

fn stream(id: u64) -> Stream {
    Stream { id, name: Some(b"chan".to_vec()), clock_class: None, trace: Some(trace()) }
}

fn event(id: u64) -> Event {
    Event {
        stream_id: 0,
        clock_snapshot: Some(ClockSnapshot::new(id * 10, Some(id as i64 * 100))),
        class: Some(EventClass { id, name: Some(b"ev".to_vec()), log_level: Some(6) }),
        payload: Some(Field::Structure(vec![(Some(b"n".to_vec()), Field::UnsignedInteger(id))])),
        specific_context: None,
        common_context: None,
    }
}

fn begin(id: u64) -> Message {
    Message::from_raw(MessageType::StreamBeginning, Some(stream(id)), None)
}

fn ev(id: u64) -> Message {
    Message::from_raw(MessageType::Event, None, Some(event(id)))
}

fn other(t: MessageType) -> Message {
    Message::from_raw(t, None, None)
}

fn batch(msgs: Vec<Message>) -> Result<(NextStatus, MessageArray), Error> {
    Ok((NextStatus::Ready, MessageArray::new(msgs)))
}

fn configured() -> ProxyPluginState {
    let mut s = ProxyPluginState::new();
    assert_eq!(s.initialize(&Ok(())), STATUS_OK);
    assert_eq!(s.graph_is_configured(&Ok(())), STATUS_OK);
    assert!(s.has_iterator());
    s
}

#[test]
fn events_drain_in_arrival_order_across_batches() {
    let mut s = configured();
    assert_eq!(s.consume(batch(vec![begin(0), ev(1)])), Ok(STATUS_OK));
    assert_eq!(s.consume(batch(vec![ev(2), other(MessageType::StreamEnd)])), Ok(STATUS_OK));
    let events = s.drain_events();
    assert_eq!(events.len(), 2);
    assert_eq!(events[0].class_properties.id, 1);
    assert_eq!(events[1].class_properties.id, 2);
    assert_eq!(events[0].clock_snapshot, Some(100));
    assert_eq!(events[1].class_properties.log_level, Some(EventLogLevel::Info));
    assert_eq!(
        events[0].properties.payload,
        Some(OwnedField::Structure(vec![OwnedField::Scalar(
            Some(String::from("n")),
            ScalarField::UnsignedInteger(1)
        )]))
    );
    assert!(s.pop_event().is_none());
}

#[test]
fn pop_event_is_fifo() {
    let mut s = configured();
    assert_eq!(s.consume(batch(vec![ev(5), ev(6), ev(7)])), Ok(STATUS_OK));
    assert_eq!(s.events().len(), 3);
    assert_eq!(s.pop_event().unwrap().class_properties.id, 5);
    assert_eq!(s.pop_event().unwrap().class_properties.id, 6);
    assert_eq!(s.pop_event().unwrap().class_properties.id, 7);
    assert!(s.pop_event().is_none());
}

#[test]
fn trace_properties_are_idempotent() {
    let mut s = configured();
    assert_eq!(s.consume(batch(vec![begin(0)])), Ok(STATUS_OK));
    let first = s.trace_properties().clone();
    assert_eq!(s.consume(batch(vec![begin(1)])), Ok(STATUS_OK));
    assert_eq!(s.trace_properties(), &first);
    assert_eq!(first.name, Some(String::from("kernel")));
    assert_eq!(first.uuid, Some(0x0102030405060708090a0b0c0d0e0f10));
    let env = first.env.unwrap();
    assert_eq!(
        env.entries(),
        &vec![
            (String::from("domain"), EnvValue::String(String::from("bare"))),
            (String::from("tracer_major"), EnvValue::Integer(3)),
        ]
    );
    assert_eq!(env.get(&String::from("tracer_major")), Some(&EnvValue::Integer(3)));
    assert_eq!(env.get(&String::from("missing")), None);
}

#[test]
fn streams_are_a_set() {
    let mut s = configured();
    assert_eq!(s.consume(batch(vec![begin(0), begin(1), begin(0)])), Ok(STATUS_OK));
    let ids: Vec<u64> = s.stream_properties().iter().map(|p| p.id).collect();
    assert_eq!(ids, vec![0, 1]);
    assert_eq!(s.stream_properties()[0].name, Some(String::from("chan")));
}

#[test]
fn discard_notices_are_counted() {
    let mut s = configured();
    let msgs = vec![
        other(MessageType::DiscardedEvents),
        other(MessageType::DiscardedPackets),
        other(MessageType::DiscardedEvents),
        other(MessageType::PacketBeginning),
    ];
    assert_eq!(s.consume(batch(msgs)), Ok(STATUS_OK));
    assert_eq!(s.discarded_events(), 2);
    assert_eq!(s.discarded_packets(), 1);
    assert_eq!(s.events().len(), 0);
}

#[test]
fn end_releases_the_iterator() {
    let mut s = configured();
    assert_eq!(s.consume(Ok((NextStatus::TryAgain, MessageArray::zero()))), Ok(STATUS_AGAIN));
    assert!(s.has_iterator());
    assert_eq!(s.consume(Ok((NextStatus::End, MessageArray::zero()))), Ok(STATUS_END));
    assert_eq!(s.phase(), SinkPhase::Ended);
    assert_eq!(s.consume(batch(vec![ev(1)])), Err(ConsumeError::NullIterator));
    assert_eq!(s.events().len(), 0);
}

#[test]
fn consume_errors() {
    let mut fresh = ProxyPluginState::new();
    assert_eq!(fresh.consume(batch(vec![ev(1)])), Err(ConsumeError::NullIterator));

    let mut s = configured();
    assert_eq!(
        s.consume(Err(Error::Failure(-1))),
        Err(ConsumeError::MessageIterator(Error::Failure(-1)))
    );
    let no_stream = Message::from_raw(MessageType::StreamBeginning, None, None);
    assert_eq!(
        s.consume(batch(vec![ev(1), no_stream, ev(2)])),
        Err(ConsumeError::StreamBorrow(Error::ResourceBorrow))
    );
    // What came before the failing message stays done; what came after is not.
    assert_eq!(s.events().len(), 1);
    let no_event = Message::from_raw(MessageType::Event, None, None);
    assert_eq!(s.consume(batch(vec![no_event])), Err(ConsumeError::EventBorrow(Error::ResourceBorrow)));
    let mut orphan = stream(3);
    orphan.trace = None;
    let m = Message::from_raw(MessageType::StreamBeginning, Some(orphan), None);
    assert_eq!(s.consume(batch(vec![m])), Err(ConsumeError::Error(Error::ResourceBorrow)));
    assert_eq!(s.stream_properties().len(), 1);
    let mut bad = event(9);
    bad.class = None;
    let m = Message::from_raw(MessageType::Event, None, Some(bad));
    assert_eq!(s.consume(batch(vec![m])), Err(ConsumeError::Error(Error::ResourceBorrow)));
    assert_eq!(consume_status(&Err(ConsumeError::NullState)), STATUS_ERROR);
    assert_eq!(consume_status(&Ok(STATUS_AGAIN)), STATUS_AGAIN);
}

#[test]
fn callbacks_follow_the_lifecycle() {
    let mut s = ProxyPluginState::default();
    assert_eq!(s.phase(), SinkPhase::Uninitialized);
    assert_eq!(s.graph_is_configured(&Ok(())), STATUS_ERROR);
    assert_eq!(s.initialize(&Err(Error::Failure(-1))), STATUS_ERROR);
    assert_eq!(s.phase(), SinkPhase::Uninitialized);
    assert_eq!(s.initialize(&Ok(())), STATUS_OK);
    assert_eq!(s.phase(), SinkPhase::Initialized);
    assert_eq!(s.initialize(&Ok(())), STATUS_ERROR);
    assert_eq!(s.graph_is_configured(&Err(Error::ResourceBorrow)), STATUS_ERROR);
    assert_eq!(s.phase(), SinkPhase::Initialized);
    assert_eq!(s.graph_is_configured(&Ok(())), STATUS_OK);
    assert_eq!(s.phase(), SinkPhase::Configured);
    s.finalize();
    assert_eq!(s.phase(), SinkPhase::Finalized);
}

#[test]
fn message_types_from_engine_codes() {
    assert_eq!(MessageType::from_raw(1), MessageType::StreamBeginning);
    assert_eq!(MessageType::from_raw(4), MessageType::Event);
    assert_eq!(MessageType::from_raw(64), MessageType::DiscardedPackets);
    assert_eq!(MessageType::from_raw(3), MessageType::Unknown(3));
}

#[test]
fn arrival_order_survives_try_again_and_recapture() {
    let mut s = configured();
    assert_eq!(s.consume(batch(vec![begin(0)])), Ok(STATUS_OK));
    let captured = s.trace_properties().clone();
    assert_eq!(s.consume(Ok((NextStatus::TryAgain, MessageArray::zero()))), Ok(STATUS_AGAIN));
    assert_eq!(s.consume(batch(vec![ev(1)])), Ok(STATUS_OK));
    assert_eq!(s.consume(Ok((NextStatus::TryAgain, MessageArray::zero()))), Ok(STATUS_AGAIN));
    assert_eq!(s.consume(batch(vec![begin(1), ev(2), other(MessageType::StreamEnd)])), Ok(STATUS_OK));
    assert_eq!(s.trace_properties(), &captured);
    let ids: Vec<u64> = s.drain_events().iter().map(|e| e.class_properties.id).collect();
    assert_eq!(ids, vec![1, 2]);
}
