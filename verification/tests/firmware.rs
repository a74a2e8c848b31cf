use tosca_controller::events::IpAddress;
use tosca_controller::firmware::broker::BrokerData;
use tosca_controller::firmware::mdns::{Host, Mdns, Service};
use tosca_controller::firmware::net::NetworkStack;
use tosca_controller::firmware::response::{
    Body, ErrorResponse, Headers, InfoResponse, OkResponse, Response, SerialResponse,
};
use tosca_controller::firmware::server::{
    handle, is_method_allowed, method_map, FuncIndex, FuncType, Handling, Method, Server, Timeouts,
};
use tosca_controller::firmware::state::{State, ValueFromRef};
use tosca_controller::request::RestKind;
use tosca_controller::response::SERIALIZATION_ERROR;

#[test]
fn unit_state_is_its_own_value() {
    let state = State(());
    let value: () = state.0.value_from_ref();
    assert_eq!(value, ());
}

#[test]
fn seed_joins_two_random_numbers() {
    assert_eq!(NetworkStack::seed(0, 0), 0);
    assert_eq!(NetworkStack::seed(1, 2), (1 << 32) | 2);
    assert_eq!(NetworkStack::seed(u32::MAX, u32::MAX), u64::MAX);
    assert_eq!(NetworkStack::seed(0xDEAD_BEEF, 0x0BAD_F00D), 0xDEAD_BEEF_0BAD_F00D);
}

#[test]
fn broker_data_by_url_or_address() {
    assert_eq!(BrokerData::url("broker.local", 1883), BrokerData::Url("broker.local", 1883));
    assert_eq!(
        BrokerData::ip(IpAddress::V4([10, 0, 0, 1]), 8883),
        BrokerData::Ip(IpAddress::V4([10, 0, 0, 1]), 8883)
    );
}

#[test]
fn mdns_settings() {
    let mdns = Mdns::new();
    assert_eq!(mdns.hostname, "tosca");
    assert_eq!(mdns.service, "tosca");
    assert_eq!(mdns.service_type, "_tosca");
    assert_eq!(mdns.time_to_live, 60);
    assert!(mdns.properties.is_empty());

    let mdns = mdns
        .hostname("light")
        .service("kitchen")
        .service_type("_light")
        .time_to_live(0)
        .properties(vec![("scheme", "https")]);
    assert_eq!(mdns.hostname, "light");
    assert_eq!(mdns.service, "kitchen");
    assert_eq!(mdns.service_type, "_light");
    assert_eq!(mdns.time_to_live, 1);
    assert_eq!(mdns.properties, vec![("scheme", "https")]);
    assert_eq!(Mdns::new().time_to_live(120).time_to_live, 120);
}

#[test]
fn server_settings() {
    let server = Server::new();
    assert_eq!(server.port, 80);
    assert_eq!(server.keepalive_timeout_ms, None);
    assert!(!server.is_https);
    assert_eq!(server.run(), Timeouts::Neither);

    assert_eq!(server.io_timeout(5).run(), Timeouts::Socket(5));
    assert_eq!(server.handler_timeout(7).run(), Timeouts::Handler(7));
    let server = server.port(8080).keepalive_timeout(1000).io_timeout(5).handler_timeout(7).https();
    assert_eq!(server.port, 8080);
    assert_eq!(server.keepalive_timeout_ms, Some(1000));
    assert!(server.is_https);
    assert_eq!(server.run(), Timeouts::Both(5, 7));
}

#[test]
fn methods_of_routes() {
    assert_eq!(method_map(RestKind::Get), Method::Get);
    assert_eq!(method_map(RestKind::Put), Method::Put);
    assert_eq!(method_map(RestKind::Post), Method::Post);
    assert_eq!(method_map(RestKind::Delete), Method::Delete);
    for method in [Method::Get, Method::Put, Method::Post, Method::Delete] {
        assert!(!is_method_allowed(method));
    }
    assert!(is_method_allowed(Method::Other));

    let index = FuncIndex::new(FuncType::SerialStateful, 3);
    assert_eq!(index.func_type, FuncType::SerialStateful);
    assert_eq!(index.index, 3);
}

#[test]
fn response_headers() {
    let not_found = Headers::not_found();
    assert_eq!((not_found.status, not_found.message), (404, "Not Found"));
    assert!(not_found.content_type.is_empty());

    let not_allowed = Headers::not_allowed();
    assert_eq!((not_allowed.status, not_allowed.message), (405, "Method Not Allowed"));
    assert!(not_allowed.content_type.is_empty());

    let json = Headers::json();
    assert_eq!((json.status, json.message), (200, "Ok"));
    assert_eq!(json.content_type, vec![("Content-Type", "application/json")]);

    let json_error = Headers::json_error();
    assert_eq!((json_error.status, json_error.message), (500, "Error"));
    assert_eq!(json_error.content_type, vec![("Content-Type", "application/json")]);

    let failed = Headers::serialization_error();
    assert_eq!((failed.status, failed.message), (500, "Error"));
    assert_eq!(
        failed.content_type,
        vec![("Content-Type", "text/plain"), (SERIALIZATION_ERROR, "")]
    );
    assert_eq!(SERIALIZATION_ERROR, "Serialization-Error");
}

#[test]
fn response_bodies() {
    assert!(Body::empty().0.is_empty());
    assert_eq!(Body::static_ref("héllo").0, "héllo".as_bytes());
    assert_eq!(Body::owned(vec![1, 2, 3]).0, vec![1, 2, 3]);

    assert_eq!(Response::not_found(), Response::new(Headers::not_found(), Body::empty()));
    assert_eq!(Response::not_allowed().body.0, b"Method not allowed");
    assert_eq!(Response::not_allowed().headers, Headers::not_allowed());
}

#[test]
fn serialized_values_become_responses() {
    let ok = OkResponse::new(Ok(b"{\"action_terminated_correctly\":true}".to_vec()));
    assert_eq!(ok.0.headers, Headers::json());
    assert_eq!(ok.0.body.0, b"{\"action_terminated_correctly\":true}");

    let failed = SerialResponse::new(Err("key must be a string".to_string()));
    assert_eq!(failed.0.headers, Headers::serialization_error());
    assert_eq!(failed.0.body.0, b"key must be a string");

    assert_eq!(InfoResponse::new(Ok(b"{}".to_vec())).0.headers.status, 200);

    let error = ErrorResponse::error(Ok(b"{\"error\":\"Internal\"}".to_vec()));
    assert_eq!(error.0.headers, Headers::json_error());
    assert_eq!(error.0.body.0, b"{\"error\":\"Internal\"}");
    assert_eq!(
        ErrorResponse::error(Err("broken".to_string())).0.headers,
        Headers::serialization_error()
    );

    assert_eq!(Response::from_result(Ok(ok.0.clone())), ok.0);
    assert_eq!(Response::from_result(Err(error.clone())), error.0);
}

#[test]
fn discovery_service_records() {
    let (host, service) = Mdns::new()
        .hostname("light")
        .time_to_live(30)
        .properties(vec![("scheme", "http")])
        .run([192, 168, 1, 7], 8080);

    assert_eq!(host, Host { hostname: "light", ipv4: [192, 168, 1, 7], ttl_secs: 30 });
    assert_eq!(
        service,
        Service {
            name: "tosca",
            priority: 1,
            weight: 5,
            service: "_tosca",
            protocol: "_udp",
            port: 8080,
            txt_kvs: vec![("scheme", "http")],
        }
    );
}

#[test]
fn https_server_announces_its_scheme() {
    let mdns = Mdns::new().properties(vec![("kind", "light")]);
    assert_eq!(Server::new().announce(mdns.clone()), mdns);
    let announced = Server::new().https().announce(mdns.clone());
    assert_eq!(announced.properties, vec![("scheme", "https")]);
    assert_eq!(announced.hostname, mdns.hostname);
    assert_eq!(announced.time_to_live, mdns.time_to_live);
}

#[test]
fn requests_are_handled_by_path_and_method() {
    assert_eq!(handle("/", Method::Get), Handling::MainRoute);
    assert_eq!(handle("/", Method::Other), Handling::MainRoute);
    assert_eq!(handle("/light/on", Method::Other), Handling::NotAllowed);
    assert_eq!(handle("", Method::Other), Handling::NotAllowed);
    assert_eq!(handle("/light/on", Method::Put), Handling::Route);
    assert_eq!(handle("//", Method::Get), Handling::Route);
    assert_eq!(handle("", Method::Delete), Handling::Route);
}
