//! The settings of the `mDNS-SD` discovery service of a device.

use vstd::prelude::*;

verus! {

/// Hostname.
pub const HOSTNAME: &'static str = "tosca";

/// Service name.
pub const SERVICE: &'static str = "tosca";

/// Service type.
pub const SERVICE_TYPE: &'static str = "_tosca";

/// Transport protocol.
pub const TRANSPORT_PROTOCOL: &'static str = "_udp";

/// Time-to-live for answers in seconds.
pub const TIME_TO_LIVE: u32 = 60;

/// Priority of the service among the services of its type.
pub const SERVICE_PRIORITY: u16 = 1;

/// Weight of the service among the services of its priority.
pub const SERVICE_WEIGHT: u16 = 5;

/// The host that the discovery service answers for.
#[derive(Debug, Clone, PartialEq)]
pub struct Host {
    /// The name of the host.
    pub hostname: &'static str,
    /// The version 4 address of the host.
    pub ipv4: [u8; 4],
    /// Seconds for which an answer stays valid.
    pub ttl_secs: u32,
}

/// The service that the discovery service announces.
#[derive(Debug, Clone, PartialEq)]
pub struct Service {
    /// The name of the service.
    pub name: &'static str,
    /// The priority of the service.
    pub priority: u16,
    /// The weight of the service.
    pub weight: u16,
    /// The type of the service.
    pub service: &'static str,
    /// The transport protocol of the service.
    pub protocol: &'static str,
    /// The port of the service.
    pub port: u16,
    /// The properties of the service, each a key with its value.
    pub txt_kvs: Vec<(&'static str, &'static str)>,
}

/// The `mDNS-SD` discovery service.
#[derive(Debug, Clone, PartialEq)]
pub struct Mdns {
    /// The hostname under which the device answers.
    pub hostname: &'static str,
    /// The name of the service: typically the name of the device.
    pub service: &'static str,
    /// The service type that clients search for.
    pub service_type: &'static str,
    /// Seconds for which an answer of the service stays valid: at least
    /// one.
    pub time_to_live: u32,
    /// The properties of the service, each a key with its value.
    pub properties: Vec<(&'static str, &'static str)>,
}

impl Mdns {
    /// Creates the [`Mdns`] discovery service with its default settings.
    #[must_use]
    pub fn new() -> (mdns: Self)
        ensures
            mdns.hostname@ == HOSTNAME@,
            mdns.service@ == SERVICE@,
            mdns.service_type@ == SERVICE_TYPE@,
            mdns.time_to_live == TIME_TO_LIVE,
            mdns.properties@.len() == 0,
    {
        Mdns {
            hostname: HOSTNAME,
            service: SERVICE,
            service_type: SERVICE_TYPE,
            time_to_live: TIME_TO_LIVE,
            properties: Vec::new(),
        }
    }

    /// Sets the service hostname.
    ///
    /// An example might be `tosca`.
    #[must_use]
    pub fn hostname(self, hostname: &'static str) -> (mdns: Self)
        ensures
            mdns == (Mdns { hostname, ..self }),
    {
        Mdns { hostname, ..self }
    }

    /// Sets the service.
    ///
    /// The service is typically the name of the device to be discovered.
    #[must_use]
    pub fn service(self, service: &'static str) -> (mdns: Self)
        ensures
            mdns == (Mdns { service, ..self }),
    {
        Mdns { service, ..self }
    }

    /// Sets the service type.
    ///
    /// The service type searched by the client.
    #[must_use]
    pub fn service_type(self, service_type: &'static str) -> (mdns: Self)
        ensures
            mdns == (Mdns { service_type, ..self }),
    {
        Mdns { service_type, ..self }
    }

    /// Time-to-live (TTL) in seconds for the discovery service responses:
    /// zero seconds are taken as one.
    #[must_use]
    pub fn time_to_live(self, seconds: u32) -> (mdns: Self)
        ensures
            mdns == (Mdns {
                time_to_live: if seconds == 0 {
                    1
                } else {
                    seconds
                },
                ..self
            }),
    {
        let time_to_live: u32 = if seconds == 0 {
            1
        } else {
            seconds
        };
        Mdns { time_to_live, ..self }
    }

    /// Sets the service properties.
    ///
    /// An example of property could be the server scheme.
    #[must_use]
    pub fn properties(self, properties: Vec<(&'static str, &'static str)>) -> (mdns: Self)
        ensures
            mdns == (Mdns { properties, ..self }),
    {
        Mdns { properties, ..self }
    }

    /// Says what the discovery service answers with when it runs on the
    /// given address and announces the given port: the host, under the
    /// hostname and for the time to live of the settings, and the service,
    /// under the names and with the properties of the settings.
    #[must_use]
    pub fn run(self, address: [u8; 4], port: u16) -> (records: (Host, Service))
        ensures
            records.0 == (Host {
                hostname: self.hostname,
                ipv4: address,
                ttl_secs: self.time_to_live,
            }),
            records.1 == (Service {
                name: self.service,
                priority: SERVICE_PRIORITY,
                weight: SERVICE_WEIGHT,
                service: self.service_type,
                protocol: TRANSPORT_PROTOCOL,
                port,
                txt_kvs: self.properties,
            }),
    {
        let host = Host { hostname: self.hostname, ipv4: address, ttl_secs: self.time_to_live };
        let service = Service {
            name: self.service,
            priority: SERVICE_PRIORITY,
            weight: SERVICE_WEIGHT,
            service: self.service_type,
            protocol: TRANSPORT_PROTOCOL,
            port,
            txt_kvs: self.properties,
        };
        (host, service)
    }
}

} // verus!
