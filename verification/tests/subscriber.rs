use tokio::sync::mpsc::{self, error::TrySendError};

use tosca_controller::events::{BrokerData, Event, Events, EventsDescription, IpAddress, Topic};
use tosca_controller::subscriber::{
    after_delivery, after_poll, at_start, parse_event, BrokerEvent, EventPayload, EventsRunner, Next,
    PollOutcome, Sink, SubscriberConfig, TaskState, ASYNC_CHANNEL_CAPACITY, DEVICE_POLL_DELAY_MS,
    KEEP_ALIVE_SECS,
};

fn batch(name: &'static str) -> Events {
    let mut events = Events::empty();
    events.add_bool_event(Event::bool(name));
    events
}

fn description() -> EventsDescription {
    EventsDescription::new(
        BrokerData::new(IpAddress::V6([0; 16]), 8883),
        Topic::new("devices/light".to_string()),
        batch("motion"),
    )
}

fn shared(device_id: usize) -> SubscriberConfig {
    EventsRunner::run_global_subscriber(&description(), device_id).config
}

fn broadcast(device_id: usize) -> SubscriberConfig {
    EventsRunner::run_device_subscriber(&description(), device_id).config
}

#[test]
fn only_decoded_publications_carry_events() {
    assert_eq!(parse_event(BrokerEvent::Failed), None);
    assert_eq!(parse_event(BrokerEvent::Outgoing), None);
    assert_eq!(parse_event(BrokerEvent::Ignored), None);
    assert_eq!(parse_event(BrokerEvent::Publish(None)), None);
    assert_eq!(
        parse_event(BrokerEvent::Publish(Some(batch("motion")))),
        Some(batch("motion"))
    );
}

#[test]
fn payload_pairs_device_and_events() {
    let payload = EventPayload::new(4, batch("motion"));
    assert_eq!(payload.device_id, 4);
    assert_eq!(payload.events, batch("motion"));
}

#[test]
fn subscriber_plans_name_broker_topic_and_client() {
    let global = EventsRunner::run_global_subscriber(&description(), 12);
    assert_eq!(global.session.client_id, "12");
    assert_eq!(global.session.address, IpAddress::V6([0; 16]));
    assert_eq!(global.session.port, 8883);
    assert_eq!(global.session.topic, "devices/light");
    assert_eq!(global.session.keep_alive_secs, KEEP_ALIVE_SECS);
    assert_eq!(global.session.keep_alive_secs, 5);
    assert_eq!(global.session.capacity, ASYNC_CHANNEL_CAPACITY);
    assert_eq!(global.session.capacity, 10);
    assert_eq!(
        global.config,
        SubscriberConfig { device_id: 12, sink: Sink::Shared, delay_ms: None }
    );

    let device = EventsRunner::run_device_subscriber(&description(), 0);
    assert_eq!(device.session, EventsRunner::init(0, &description()));
    assert_eq!(device.session.client_id, "0");
    assert_eq!(
        device.config,
        SubscriberConfig {
            device_id: 0,
            sink: Sink::Broadcast,
            delay_ms: Some(DEVICE_POLL_DELAY_MS),
        }
    );
    assert_eq!(DEVICE_POLL_DELAY_MS, 100);
    assert_eq!(EventsRunner::init(usize::MAX, &description()).client_id, usize::MAX.to_string());
}

#[test]
fn task_begins_with_a_poll_without_delay() {
    for config in [shared(1), broadcast(1)] {
        assert_eq!(at_start(&config), Next::Poll { delay_ms: None });
        assert_eq!(at_start(&config).state(), TaskState::Polling);
    }
}

#[test]
fn cancellation_stops_the_task() {
    for config in [shared(1), broadcast(1)] {
        let next = after_poll(&config, PollOutcome::Cancelled);
        assert_eq!(next, Next::Stop);
        assert_eq!(next.state(), TaskState::Stopped);
    }
}

#[test]
fn faults_and_other_packets_keep_the_task_polling() {
    for event in [
        BrokerEvent::Failed,
        BrokerEvent::Outgoing,
        BrokerEvent::Ignored,
        BrokerEvent::Publish(None),
    ] {
        let next = after_poll(&shared(3), PollOutcome::Event(event.clone()));
        assert_eq!(next, Next::Poll { delay_ms: None });
        assert_eq!(next.state(), TaskState::Polling);

        let next = after_poll(&broadcast(3), PollOutcome::Event(event));
        assert_eq!(next, Next::Poll { delay_ms: Some(100) });
        assert_eq!(next.state(), TaskState::Polling);
    }
}

#[test]
fn decoded_events_are_delivered_under_the_device_identifier() {
    let outcome = PollOutcome::Event(BrokerEvent::Publish(Some(batch("motion"))));
    let next = after_poll(&shared(7), outcome.clone());
    assert_eq!(next, Next::Deliver(EventPayload::new(7, batch("motion"))));
    assert_eq!(next.state(), TaskState::Polling);

    assert_eq!(
        after_poll(&broadcast(9), outcome),
        Next::Deliver(EventPayload::new(9, batch("motion")))
    );
}

#[test]
fn lost_consumer_stops_only_the_shared_queue_task() {
    assert_eq!(after_delivery(&shared(1), true), Next::Poll { delay_ms: None });
    assert_eq!(after_delivery(&shared(1), false), Next::Stop);
    assert_eq!(
        after_delivery(&broadcast(1), true),
        Next::Poll { delay_ms: Some(100) }
    );
    assert_eq!(
        after_delivery(&broadcast(1), false),
        Next::Poll { delay_ms: Some(100) }
    );
}

#[test]
fn full_queue_holds_the_payload_back_until_the_consumer_reads() {
    let (sender, mut receiver) = mpsc::channel::<EventPayload>(1);
    let first_device = shared(0);
    let second_device = shared(1);

    // The first event of device 0 fills the queue.
    let first = match after_poll(
        &first_device,
        PollOutcome::Event(BrokerEvent::Publish(Some(batch("first")))),
    ) {
        Next::Deliver(payload) => payload,
        other => panic!("unexpected step {other:?}"),
    };
    assert!(sender.try_send(first).is_ok());
    assert_eq!(after_delivery(&first_device, true), Next::Poll { delay_ms: None });

    // The event of device 1 finds the queue full: its task keeps the payload.
    let second = match after_poll(
        &second_device,
        PollOutcome::Event(BrokerEvent::Publish(Some(batch("second")))),
    ) {
        Next::Deliver(payload) => payload,
        other => panic!("unexpected step {other:?}"),
    };
    let blocked = match sender.try_send(second) {
        Err(TrySendError::Full(payload)) => payload,
        other => panic!("the queue should be full: {other:?}"),
    };
    assert_eq!(blocked, EventPayload::new(1, batch("second")));

    // Once the consumer has read one item, the blocked payload goes through,
    // behind the first one and unchanged.
    assert_eq!(receiver.try_recv().unwrap(), EventPayload::new(0, batch("first")));
    assert!(sender.try_send(blocked).is_ok());
    assert_eq!(after_delivery(&second_device, true), Next::Poll { delay_ms: None });
    assert_eq!(receiver.try_recv().unwrap(), EventPayload::new(1, batch("second")));
    assert!(receiver.try_recv().is_err());

    // A consumer that is gone ends the task at its next delivery.
    drop(receiver);
    let delivered = sender.try_send(EventPayload::new(0, batch("third"))).is_ok();
    assert!(!delivered);
    assert_eq!(after_delivery(&first_device, delivered), Next::Stop);
}
