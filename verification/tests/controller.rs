use tosca_controller::controller::{sender_error, Controller, Discovery, StartStep};
use tosca_controller::device::{Device, Devices};
use tosca_controller::error::{Error, ErrorKind};
use tosca_controller::events::{BrokerData, Events, EventsDescription, IpAddress, Topic};
use tosca_controller::hazards::{Hazard, Hazards};
use tosca_controller::policy::Policy;
use tosca_controller::receivers::{ShutdownStep, SkipReason};
use tosca_controller::request::{OkResponseParser, Request, Response, SendPlan, SerialResponseParser};
use tosca_controller::response::ResponseKind;
use tosca_controller::subscriber::{Sink, ASYNC_CHANNEL_CAPACITY, KEEP_ALIVE_SECS};

fn configure_discovery() -> Discovery {
    Discovery::new("tosca").timeout(2000)
}

fn create_light() -> Device {
    Device::new()
        .add_request(Request::new("/on", ResponseKind::Okay).with_parameter("brightness"))
        .add_request(
            Request::new("/off", ResponseKind::Okay)
                .with_hazards(Hazards::init(Hazard::LogEnergyConsumption)),
        )
        .add_request(
            Request::new("/toggle", ResponseKind::Serial)
                .with_hazards(Hazards::init(Hazard::FireHazard))
                .with_parameter("brightness"),
        )
}

fn create_unknown() -> Device {
    Device::new().add_request(Request::new("/info", ResponseKind::Info))
}

fn events_description(last: u8, topic: &str) -> EventsDescription {
    EventsDescription::new(
        BrokerData::new(IpAddress::V4([127, 0, 0, last]), 1883),
        Topic::new(topic.to_string()),
        Events::empty(),
    )
}

#[test]
fn empty_controller() {
    let controller = Controller::new(configure_discovery());

    assert_eq!(
        controller,
        Controller::from_devices(configure_discovery(), Devices::new())
    );
    assert_eq!(controller.discovery(), &configure_discovery());
    assert!(controller.devices().is_empty());

    // No devices.
    assert_eq!(controller.device(0), Err(sender_error("No devices found.")));
}

#[test]
fn controller_from_devices() {
    let devices = Devices::from_devices(vec![create_light(), create_unknown()]);

    let controller = Controller::from_devices(configure_discovery(), devices);

    assert_eq!(
        controller,
        Controller::new(configure_discovery())
            .policy(Policy::init())
            .with_registry(Devices::from_devices(vec![create_light(), create_unknown()]))
    );
    assert_eq!(
        controller.devices(),
        &Devices::from_devices(vec![create_light(), create_unknown()])
    );
    assert_eq!(controller.devices().len(), 2);
}

#[test]
fn empty_registry_never_reports_a_missing_device() {
    let controller = Controller::new(configure_discovery());

    for id in [0, 1, 7, usize::MAX] {
        let error = controller.device(id).unwrap_err();
        assert_eq!(error.kind(), ErrorKind::Sender);
        assert_eq!(error.description(), "No devices found.");
    }
}

#[test]
fn unknown_device_and_unknown_route_are_reported() {
    let devices = Devices::from_devices(vec![create_light()]);
    let controller = Controller::from_devices(configure_discovery(), devices);

    // Wrong device id.
    assert_eq!(
        controller.device(1),
        Err(sender_error(
            "Error in retrieving the device with identifier 1."
        ))
    );
    assert_eq!(
        controller.device(1230).unwrap_err().description(),
        "Error in retrieving the device with identifier 1230."
    );

    // Get device.
    let device_sender = controller.device(0).unwrap();
    assert_eq!(device_sender.device_id(), 0);

    // Wrong request.
    assert_eq!(
        device_sender.request("/wrong"),
        Err(sender_error(
            "Error in retrieving the request with route `/wrong`."
        ))
    );
}

#[test]
fn requests_without_policy_are_sent() {
    let devices = Devices::from_devices(vec![create_light()]);
    let controller = Controller::from_devices(configure_discovery(), devices);
    let device_sender = controller.device(0).unwrap();

    for route in ["/on", "/off", "/toggle"] {
        let sender = device_sender.request(route).unwrap();
        assert!(!sender.is_skipped());
        assert_eq!(sender.route(), route);
        assert_eq!(sender.send(), SendPlan::Plain);
    }

    // A request that declares parameters is sent with the values.
    let sender = device_sender.request("/toggle").unwrap();
    assert_eq!(sender.send_with_parameters(), SendPlan::WithParameters);
    assert_eq!(
        sender.response(Ok(b"{\"brightness\":5}".to_vec())),
        Ok(Response::SerialBody(SerialResponseParser::new(
            b"{\"brightness\":5}".to_vec()
        )))
    );

    // A request that declares none falls back to the plain call.
    let sender = device_sender.request("/off").unwrap();
    assert_eq!(sender.send_with_parameters(), SendPlan::Plain);
}

#[test]
fn policy_with_global_and_local_blocks_skips_requests() {
    // Global blocked hazards.
    let global_hazards = Hazards::new().insert(Hazard::LogEnergyConsumption);

    // Local blocked hazards for a specific device.
    let local_hazards = Hazards::new().insert(Hazard::FireHazard);

    // Create both a global policy and a local one.
    let policy = Policy::new(global_hazards).block_device_on_hazards(0, local_hazards);

    let devices = Devices::from_devices(vec![create_light(), create_light()]);
    let controller = Controller::from_devices(configure_discovery(), devices).policy(policy);
    let device_sender = controller.device(0).unwrap();

    // "/off" declares a globally blocked hazard.
    let off = device_sender.request("/off").unwrap();
    assert_eq!(off.global_blocked_hazards().to_vec(), vec![Hazard::LogEnergyConsumption]);
    assert!(off.local_blocked_hazards().is_empty());
    assert_eq!(off.send(), SendPlan::Skipped);
    assert_eq!(off.send_with_parameters(), SendPlan::Skipped);
    assert_eq!(off.response(Ok(b"ignored".to_vec())), Ok(Response::Skipped));

    // "/toggle" declares a hazard blocked for device 0.
    let toggle = device_sender.request("/toggle").unwrap();
    assert!(toggle.global_blocked_hazards().is_empty());
    assert_eq!(toggle.local_blocked_hazards().to_vec(), vec![Hazard::FireHazard]);
    assert_eq!(toggle.send(), SendPlan::Skipped);
    assert_eq!(toggle.send_with_parameters(), SendPlan::Skipped);

    // "/on" declares no hazards: the real call is made.
    let on = device_sender.request("/on").unwrap();
    assert_eq!(on.send(), SendPlan::Plain);
    assert_eq!(on.send_with_parameters(), SendPlan::WithParameters);
    let body = b"{\"action_terminated_correctly\":true}".to_vec();
    assert_eq!(
        on.response(Ok(body.clone())),
        Ok(Response::OkBody(OkResponseParser::new(body)))
    );

    // The local block of device 0 does not reach device 1.
    let other = controller.device(1).unwrap();
    assert_eq!(other.request("/toggle").unwrap().send(), SendPlan::Plain);
    assert_eq!(other.request("/off").unwrap().send(), SendPlan::Skipped);
}

#[test]
fn request_without_hazards_is_never_skipped() {
    let every = Hazards::init_from_hazards([
        Hazard::AirPoisoning,
        Hazard::FireHazard,
        Hazard::LogEnergyConsumption,
        Hazard::WaterFlooding,
    ]);
    let policy = Policy::new(every.clone()).block_device_on_hazards(0, every);
    let controller = Controller::from_devices(
        configure_discovery(),
        Devices::from_devices(vec![create_light()]),
    )
    .policy(policy);

    let sender = controller.device(0).unwrap();
    assert!(!sender.request("/on").unwrap().is_skipped());
    assert!(sender.request("/off").unwrap().is_skipped());
}

#[test]
fn transport_error_is_handed_on_unchanged() {
    let controller = Controller::from_devices(
        configure_discovery(),
        Devices::from_devices(vec![create_light()]),
    );
    let device_sender = controller.device(0).unwrap();
    let sender = device_sender.request("/on").unwrap();

    assert_eq!(
        sender.response(Err(Error::new(ErrorKind::Request, "timed out"))),
        Err(Error::new(ErrorKind::Request, "timed out"))
    );
}

#[test]
fn decision_is_taken_when_the_sender_is_built() {
    let global = Policy::new(Hazards::init(Hazard::LogEnergyConsumption));
    let mut controller = Controller::from_devices(
        configure_discovery(),
        Devices::from_devices(vec![create_light()]),
    )
    .policy(global);

    let skipped = {
        let device_sender = controller.device(0).unwrap();
        let sender = device_sender.request("/off").unwrap();
        (sender.is_skipped(), sender.send(), sender.send())
    };
    assert_eq!(skipped, (true, SendPlan::Skipped, SendPlan::Skipped));

    // A new policy only reaches the senders built after the change.
    controller.change_policy(Policy::init());
    let device_sender = controller.device(0).unwrap();
    assert_eq!(device_sender.request("/off").unwrap().send(), SendPlan::Plain);
}

#[test]
fn discover_replaces_the_registry_as_a_whole() {
    let mut controller = Controller::from_devices(
        configure_discovery(),
        Devices::from_devices(vec![create_light(), create_unknown()]),
    );

    assert_eq!(
        controller.discover(Err(Error::new(ErrorKind::Discovery, "no network"))),
        Err(Error::new(ErrorKind::Discovery, "no network"))
    );
    assert_eq!(controller.devices().len(), 2);

    assert_eq!(
        controller.discover(Ok(Devices::from_devices(vec![create_unknown()]))),
        Ok(())
    );
    assert_eq!(
        controller.devices(),
        &Devices::from_devices(vec![create_unknown()])
    );
    assert!(controller.device(0).unwrap().request("/on").is_err());
}

fn no_receivers() -> StartStep {
    StartStep::Finished(Err(Error::new(
        ErrorKind::Events,
        "No event receiver tasks has started",
    )))
}

#[test]
fn start_without_event_sources_fails_and_starts_nothing() {
    let controller = Controller::from_devices(
        configure_discovery(),
        Devices::from_devices(vec![create_light(), create_unknown()]),
    );

    let mut start = controller.start_event_receivers(8);
    assert_eq!(start.buffer_size(), 8);
    assert_eq!(
        controller.next_receiver(&mut start),
        StartStep::Skip { id: 0, reason: SkipReason::NoEvents }
    );
    assert_eq!(
        controller.next_receiver(&mut start),
        StartStep::Skip { id: 1, reason: SkipReason::NoEvents }
    );
    assert_eq!(controller.next_receiver(&mut start), no_receivers());
    assert_eq!(controller.next_receiver(&mut start), no_receivers());
    assert_eq!((start.next(), start.started()), (2, 0));
    assert!(!controller.devices().get(0).unwrap().is_receiving());
    assert!(!controller.devices().get(1).unwrap().is_receiving());

    // The same holds for an empty registry.
    let empty = Controller::new(configure_discovery());
    assert_eq!(
        empty.next_receiver(&mut empty.start_event_receivers(1)),
        no_receivers()
    );
}

#[test]
fn start_subscribes_to_every_device_with_events_once() {
    let devices = Devices::from_devices(vec![
        create_unknown(),
        create_light().events(events_description(1, "light/one")),
        create_unknown(),
        create_light().events(events_description(2, "light/two")),
    ]);
    let mut controller = Controller::from_devices(configure_discovery(), devices);

    let mut start = controller.start_event_receivers(1);
    let mut subscribed = Vec::new();
    let mut skipped = Vec::new();
    let finished = loop {
        match controller.next_receiver(&mut start) {
            StartStep::Skip { id, reason } => skipped.push((id, reason)),
            StartStep::Subscribe(plan) => {
                let id = plan.config.device_id;
                assert_eq!(plan.config.sink, Sink::Shared);
                assert_eq!(plan.config.delay_ms, None);
                assert_eq!(plan.session.client_id, id.to_string());
                assert_eq!(plan.session.port, 1883);
                assert_eq!(plan.session.keep_alive_secs, KEEP_ALIVE_SECS);
                assert_eq!(plan.session.capacity, ASYNC_CHANNEL_CAPACITY);
                subscribed.push((id, plan.session.topic.clone(), plan.session.address));
                assert!(controller.receiver_started(&mut start, id));
            }
            StartStep::Finished(result) => break result,
        }
    };

    assert_eq!(finished, Ok(2));
    assert_eq!(
        subscribed,
        vec![
            (1, "light/one".to_string(), IpAddress::V4([127, 0, 0, 1])),
            (3, "light/two".to_string(), IpAddress::V4([127, 0, 0, 2])),
        ]
    );
    assert_eq!(
        skipped,
        vec![(0, SkipReason::NoEvents), (2, SkipReason::NoEvents)]
    );
    assert!(controller.devices().get(1).unwrap().is_receiving());
    assert!(controller.devices().get(3).unwrap().is_receiving());
    assert!(!controller.devices().get(0).unwrap().is_receiving());

    // A second start finds every receiver running: it starts none.
    let mut second = controller.start_event_receivers(1);
    let mut steps = Vec::new();
    loop {
        let step = controller.next_receiver(&mut second);
        let finished = matches!(step, StartStep::Finished(_));
        steps.push(step);
        if finished {
            break;
        }
    }
    assert_eq!(
        steps,
        vec![
            StartStep::Skip { id: 0, reason: SkipReason::NoEvents },
            StartStep::Skip { id: 1, reason: SkipReason::AlreadyStarted },
            StartStep::Skip { id: 2, reason: SkipReason::NoEvents },
            StartStep::Skip { id: 3, reason: SkipReason::AlreadyStarted },
            no_receivers(),
        ]
    );
}

#[test]
fn receiver_is_recorded_only_for_the_device_asked_for() {
    let devices = Devices::from_devices(vec![
        create_light().events(events_description(1, "a")),
        create_unknown(),
        create_light().events(events_description(2, "b")),
    ]);
    let mut controller = Controller::from_devices(configure_discovery(), devices);
    let mut start = controller.start_event_receivers(4);

    // Device 0 is next: neither 1 (no events), 2 (not yet) nor 9 is recorded.
    assert!(!controller.receiver_started(&mut start, 1));
    assert!(!controller.receiver_started(&mut start, 2));
    assert!(!controller.receiver_started(&mut start, 9));
    assert_eq!(start, controller.start_event_receivers(4));

    assert!(controller.receiver_started(&mut start, 0));
    assert_eq!((start.next(), start.started()), (1, 1));
    assert!(!controller.receiver_started(&mut start, 0));
    // The start stands at device 1, which has no events.
    assert!(!controller.receiver_started(&mut start, 1));
    assert!(!controller.receiver_started(&mut start, 2));
    assert_eq!(
        controller.next_receiver(&mut start),
        StartStep::Skip { id: 1, reason: SkipReason::NoEvents }
    );
    assert!(controller.receiver_started(&mut start, 2));
    assert_eq!((start.next(), start.started()), (3, 2));
    assert_eq!(controller.next_receiver(&mut start), StartStep::Finished(Ok(2)));
}

#[test]
fn failed_subscription_leaves_started_receivers_running() {
    let devices = Devices::from_devices(vec![
        create_light().events(events_description(1, "a")),
        create_light().events(events_description(2, "b")),
    ]);
    let mut controller = Controller::from_devices(configure_discovery(), devices);
    let mut start = controller.start_event_receivers(4);

    assert!(controller.receiver_started(&mut start, 0));
    // The subscription of device 1 fails: the caller gives up here.
    match controller.next_receiver(&mut start) {
        StartStep::Subscribe(plan) => assert_eq!(plan.config.device_id, 1),
        other => panic!("device 1 should be next, not {other:?}"),
    }
    assert!(controller.devices().get(0).unwrap().is_receiving());
    assert!(!controller.devices().get(1).unwrap().is_receiving());

    // A later start passes the running receiver over and asks for device 1.
    let mut later = controller.start_event_receivers(4);
    assert_eq!(
        controller.next_receiver(&mut later),
        StartStep::Skip { id: 0, reason: SkipReason::AlreadyStarted }
    );
    match controller.next_receiver(&mut later) {
        StartStep::Subscribe(plan) => assert_eq!(plan.config.device_id, 1),
        other => panic!("device 1 should be next, not {other:?}"),
    }
}

#[test]
fn shutdown_cancels_and_awaits_in_registry_order() {
    let devices = Devices::from_devices(vec![
        create_light().events(events_description(1, "a")),
        create_unknown(),
        create_light().events(events_description(2, "b")),
        create_light().events(events_description(3, "c")),
    ]);
    let mut controller = Controller::from_devices(configure_discovery(), devices);
    let mut start = controller.start_event_receivers(4);
    assert!(controller.receiver_started(&mut start, 0));
    assert_eq!(
        controller.next_receiver(&mut start),
        StartStep::Skip { id: 1, reason: SkipReason::NoEvents }
    );
    assert!(controller.receiver_started(&mut start, 2));

    // Device 3 has an event source, but its receiver was never started.
    assert_eq!(
        controller.shutdown(),
        vec![
            ShutdownStep::Cancel(0),
            ShutdownStep::Await(0),
            ShutdownStep::Cancel(2),
            ShutdownStep::Await(2),
            ShutdownStep::Cancel(3),
        ]
    );

    assert_eq!(Controller::new(configure_discovery()).shutdown(), vec![]);
}

#[test]
fn shutdown_awaits_each_running_receiver_once() {
    let mut devices = Devices::new();
    for index in 0..5u8 {
        devices.add(create_light().events(events_description(index, "topic")));
    }
    let mut controller = Controller::from_devices(configure_discovery(), devices);
    let mut start = controller.start_event_receivers(2);
    for id in 0..5 {
        assert!(controller.receiver_started(&mut start, id));
    }

    let steps = controller.shutdown();
    let awaited: Vec<usize> = steps
        .iter()
        .filter_map(|step| match step {
            ShutdownStep::Await(id) => Some(*id),
            ShutdownStep::Cancel(_) => None,
        })
        .collect();
    assert_eq!(awaited, vec![0, 1, 2, 3, 4]);
    for (position, step) in steps.iter().enumerate() {
        if let ShutdownStep::Await(id) = step {
            assert_eq!(steps[position - 1], ShutdownStep::Cancel(*id));
        }
    }
}
