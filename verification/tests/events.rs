use std::time::Duration;

use tosca_controller::events::{
    BrokerData, Event, Events, EventsDescription, Float32, Float64, IpAddress, PeriodicEvent, Topic,
    TypeName,
};

const DEFAULT_DURATION: Duration = Duration::from_secs(1);

#[test]
fn event_constructors_start_from_zero() {
    let bool_event = Event::bool("bool_event");
    assert_eq!(bool_event.name, "bool_event");
    assert_eq!(bool_event.description, None);
    assert!(!bool_event.value);

    assert_eq!(Event::u8("u8_event").value, 0);
    assert_eq!(Event::i32("i32_event").value, 0);
    assert_eq!(f32::from_bits(Event::float32("f32_event").value.bits), 0.0);
    assert_eq!(f64::from_bits(Event::float64("f64_event").value.bits), 0.0);
    assert_eq!(Event::float64("f64_event").name, "f64_event");
}

#[test]
fn event_description_is_set_and_removed() {
    let mut event = Event::u8("u8_event").description("An u8 event");
    assert_eq!(event.name, "u8_event");
    assert_eq!(event.description.as_deref(), Some("An u8 event"));
    assert_eq!(event.value, 0);

    event.update_value(9);
    assert_eq!(event.value, 9);
    assert_eq!(event.description.as_deref(), Some("An u8 event"));

    event.remove_description();
    assert_eq!(event.description, None);
    assert_eq!(event.name, "u8_event");
    assert_eq!(event.value, 9);
}

#[test]
fn type_names() {
    assert_eq!(<bool as TypeName>::label(), "bool");
    assert_eq!(<u8 as TypeName>::label(), "u8");
    assert_eq!(<i32 as TypeName>::label(), "i32");
    assert_eq!(<Float32 as TypeName>::label(), "f32");
    assert_eq!(<Float64 as TypeName>::label(), "f64");
}

#[test]
fn periodic_events_keep_event_and_interval() {
    let event = Event::i32("i32_event").description("An i32 event");
    let periodic = PeriodicEvent::i32(event.clone(), DEFAULT_DURATION);
    assert_eq!(periodic.event, event);
    assert_eq!(periodic.interval, DEFAULT_DURATION);

    let periodic = PeriodicEvent::bool(Event::bool("b"), Duration::from_millis(1500));
    assert_eq!(periodic.interval.as_secs(), 1);
    assert_eq!(periodic.interval.subsec_millis(), 500);
    assert_eq!(
        PeriodicEvent::u8(Event::u8("u"), DEFAULT_DURATION).event.name,
        "u"
    );
    assert_eq!(
        PeriodicEvent::float32(Event::float32("f"), DEFAULT_DURATION).event.value,
        Float32 { bits: 0 }
    );
    assert_eq!(
        PeriodicEvent::float64(Event::float64("d"), DEFAULT_DURATION).event.value,
        Float64 { bits: 0 }
    );
}

#[test]
fn topic_holds_its_text() {
    assert_eq!(Topic::empty().as_str(), "");
    assert_eq!(Topic::new("test".into()).as_str(), "test");
    assert_eq!(Topic::new("test".into()), Topic::new(String::from("test")));
}

#[test]
fn events_with_single_event_kind() {
    let bool_event = Event::bool("bool_event").description("A bool event");

    let mut events = Events::empty();
    assert!(events.is_empty());
    events.add_bool_event(bool_event.clone());

    assert!(!events.is_empty());
    assert_eq!(events.bool_events_as_slice(), &[bool_event]);
    assert!(events.u8_events_as_slice().is_empty());
    assert!(events.periodic_bool_events_as_slice().is_empty());
}

#[test]
fn events_with_all_event_kinds() {
    let bool_event = Event::bool("bool_event").description("A bool event");
    let periodic_bool_event = PeriodicEvent::bool(bool_event.clone(), DEFAULT_DURATION);
    let u8_event = Event::u8("u8_event").description("An u8 event");
    let periodic_u8_event = PeriodicEvent::u8(u8_event.clone(), DEFAULT_DURATION);
    let i32_event = Event::i32("i32_event").description("An i32 event");
    let periodic_i32_event = PeriodicEvent::i32(i32_event.clone(), DEFAULT_DURATION);
    let f32_event = Event::float32("f32_event").description("An f32 event");
    let periodic_f32_event = PeriodicEvent::float32(f32_event.clone(), DEFAULT_DURATION);
    let f64_event = Event::float64("f64_event").description("An f64 event");
    let periodic_f64_event = PeriodicEvent::float64(f64_event.clone(), DEFAULT_DURATION);

    let mut events = Events::with_capacity(2);
    assert!(events.is_empty());
    events.add_bool_event(bool_event.clone());
    events.add_periodic_bool_event(periodic_bool_event.clone());
    events.add_u8_event(u8_event.clone());
    events.add_periodic_u8_event(periodic_u8_event.clone());
    events.add_i32_event(i32_event.clone());
    events.add_periodic_i32_event(periodic_i32_event.clone());
    events.add_f32_event(f32_event.clone());
    events.add_periodic_f32_event(periodic_f32_event.clone());
    events.add_f64_event(f64_event.clone());
    events.add_periodic_f64_event(periodic_f64_event.clone());

    let built = Events::empty()
        .bool_events(vec![bool_event])
        .periodic_bool_events(vec![periodic_bool_event])
        .u8_events(vec![u8_event])
        .periodic_u8_events(vec![periodic_u8_event])
        .i32_events(vec![i32_event])
        .periodic_i32_events(vec![periodic_i32_event])
        .f32_events(vec![f32_event])
        .periodic_f32_events(vec![periodic_f32_event])
        .f64_events(vec![f64_event])
        .periodic_f64_events(vec![periodic_f64_event]);

    assert_eq!(events, built);
    assert_eq!(events.f64_events_as_slice().len(), 1);
    assert_eq!(events.periodic_f32_events_as_slice().len(), 1);
}

#[test]
fn event_values_are_updated_in_place() {
    let mut events = Events::empty()
        .bool_events(vec![Event::bool("first"), Event::bool("second")])
        .u8_events(vec![Event::u8("level")])
        .i32_events(vec![Event::i32("offset")])
        .f32_events(vec![Event::float32("ratio")])
        .f64_events(vec![Event::float64("exact")])
        .periodic_bool_events(vec![PeriodicEvent::bool(Event::bool("p"), DEFAULT_DURATION)])
        .periodic_u8_events(vec![PeriodicEvent::u8(Event::u8("p"), DEFAULT_DURATION)])
        .periodic_i32_events(vec![PeriodicEvent::i32(Event::i32("p"), DEFAULT_DURATION)])
        .periodic_f32_events(vec![PeriodicEvent::float32(
            Event::float32("p"),
            DEFAULT_DURATION,
        )])
        .periodic_f64_events(vec![PeriodicEvent::float64(
            Event::float64("p"),
            DEFAULT_DURATION,
        )]);

    events.update_bool_value(1, true);
    events.update_u8_value(0, 7);
    events.update_i32_value(0, -3);
    events.update_f32_value(0, Float32 { bits: 1.5f32.to_bits() });
    events.update_f64_value(0, Float64 { bits: 2.5f64.to_bits() });
    events.update_periodic_bool_value(0, true);
    events.update_periodic_u8_value(0, 8);
    events.update_periodic_i32_value(0, -4);
    events.update_periodic_f32_value(0, Float32 { bits: 0.5f32.to_bits() });
    events.update_periodic_f64_value(0, Float64 { bits: 0.25f64.to_bits() });

    assert!(!events.bool_events_as_slice()[0].value);
    assert!(events.bool_events_as_slice()[1].value);
    assert_eq!(events.bool_events_as_slice()[1].name, "second");
    assert_eq!(events.u8_events_as_slice()[0].value, 7);
    assert_eq!(events.i32_events_as_slice()[0].value, -3);
    assert_eq!(f32::from_bits(events.f32_events_as_slice()[0].value.bits), 1.5);
    assert_eq!(f64::from_bits(events.f64_events_as_slice()[0].value.bits), 2.5);
    assert!(events.periodic_bool_events_as_slice()[0].event.value);
    assert_eq!(events.periodic_u8_events_as_slice()[0].event.value, 8);
    assert_eq!(events.periodic_i32_events_as_slice()[0].event.value, -4);
    assert_eq!(
        f32::from_bits(events.periodic_f32_events_as_slice()[0].event.value.bits),
        0.5
    );
    assert_eq!(
        f64::from_bits(events.periodic_f64_events_as_slice()[0].event.value.bits),
        0.25
    );
    assert_eq!(events.periodic_f64_events_as_slice()[0].interval, DEFAULT_DURATION);
}

#[test]
fn events_description_keeps_its_parts() {
    let broker_data = BrokerData::new(IpAddress::V4([127, 0, 0, 1]), 80);
    assert_eq!(broker_data.address, IpAddress::V4([127, 0, 0, 1]));
    assert_eq!(broker_data.port, 80);

    let topic = Topic::new("test".into());

    let bool_event = Event::bool("bool_event").description("A bool event");
    let mut events = Events::empty();
    events.add_bool_event(bool_event);

    let events_description = EventsDescription::new(broker_data, topic.clone(), events.clone());
    assert_eq!(events_description.broker_data, broker_data);
    assert_eq!(events_description.topic, topic);
    assert_eq!(events_description.events, events);
}
