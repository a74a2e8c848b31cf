//! Devices: the registry of the controller.

use vstd::prelude::*;
use vstd::string::StringExecFns;

use crate::events::EventsDescription;
use crate::request::{Request, RequestView};

verus! {

/// The position of the first request with the given route, if there is one.
pub open spec fn route_position(requests: Seq<RequestView>, route: Seq<char>) -> Option<int>
    decreases requests.len(),
{
    if requests.len() == 0 {
        None
    } else if requests[0].route == route {
        Some(0)
    } else {
        match route_position(requests.drop_first(), route) {
            Some(position) => Some(position + 1),
            None => None,
        }
    }
}

/// The position that `route_position` gives holds the route, and no earlier
/// one does; it gives none exactly when no request has the route.
pub proof fn lemma_route_position(requests: Seq<RequestView>, route: Seq<char>)
    ensures
        match route_position(requests, route) {
            Some(position) => {
                &&& 0 <= position < requests.len()
                &&& requests[position].route == route
                &&& forall|i: int| 0 <= i < position ==> requests[i].route != route
            },
            None => forall|i: int| 0 <= i < requests.len() ==> requests[i].route != route,
        },
    decreases requests.len(),
{
    if requests.len() > 0 && requests[0].route != route {
        let rest = requests.drop_first();
        lemma_route_position(rest, route);
        match route_position(rest, route) {
            Some(position) => {
                assert forall|i: int| 0 <= i < position + 1 implies requests[i].route
                    != route by {
                    if i > 0 {
                        assert(rest[i - 1].route != route);
                    }
                }
            },
            None => {
                assert forall|i: int| 0 <= i < requests.len() implies requests[i].route
                    != route by {
                    if i > 0 {
                        assert(rest[i - 1].route != route);
                    }
                }
            },
        }
    }
}

/// What a [`Device`] says.
pub struct DeviceView {
    /// The requests of the device, each with a route of its own.
    pub requests: Seq<RequestView>,
    /// Where the device publishes its events, if it publishes any.
    pub events: Option<EventsDescription>,
    /// Whether an event receiver of the device has been started and not yet
    /// been stopped.
    pub receiving: bool,
}

impl DeviceView {
    /// The request of the device with the given route, if it has one.
    pub open spec fn request(self, route: Seq<char>) -> Option<RequestView> {
        match route_position(self.requests, route) {
            Some(position) => Some(self.requests[position]),
            None => None,
        }
    }

    /// Whether an event receiver can be started for the device: it has an
    /// event source and no receiver yet.
    pub open spec fn can_receive(self) -> bool {
        self.events is Some && !self.receiving
    }
}

/// One registered device: its requests, where it publishes its events, and
/// whether a receiver of those events is running.
#[derive(Debug, Clone, PartialEq)]
pub struct Device {
    requests: Vec<Request>,
    events: Option<EventsDescription>,
    receiving: bool,
}

impl View for Device {
    type V = DeviceView;

    closed spec fn view(&self) -> DeviceView {
        DeviceView {
            requests: self.requests@.map_values(|request: Request| request@),
            events: self.events,
            receiving: self.receiving,
        }
    }
}

impl Device {
    /// Every request is well formed and has a route of its own, and only a
    /// device with an event source has a running receiver.
    pub closed spec fn wf(&self) -> bool {
        &&& forall|i: int| 0 <= i < self.requests@.len() ==> (#[trigger] self.requests@[i]).wf()
        &&& forall|i: int, j: int|
            0 <= i < j < self.requests@.len() ==> self.requests@[i]@.route
                != self.requests@[j]@.route
        &&& self.receiving ==> self.events is Some
    }

    /// Creates a device without requests and without an event source.
    #[must_use]
    pub fn new() -> (device: Self)
        ensures
            device@ == (DeviceView { requests: Seq::empty(), events: None, receiving: false }),
            device.wf(),
    {
        let device = Device { requests: Vec::new(), events: None, receiving: false };
        assert(device@.requests =~= Seq::empty());
        device
    }

    /// The position of the request with the given route.
    fn position(&self, route: &String) -> (position: Option<usize>)
        ensures
            match position {
                Some(position) => route_position(self@.requests, route@) == Some(position as int),
                None => route_position(self@.requests, route@) is None,
            },
    {
        let ghost requests = self@.requests;
        let mut i: usize = 0;
        while i < self.requests.len()
            invariant
                i <= self.requests@.len(),
                requests == self@.requests,
                requests.len() == self.requests@.len(),
                forall|k: int| 0 <= k < i ==> requests[k].route != route@,
            decreases self.requests@.len() - i,
        {
            if self.requests[i].has_route(route) {
                proof {
                    assert(requests[i as int] == self.requests@[i as int]@);
                    lemma_route_position(requests, route@);
                }
                return Some(i);
            }
            i += 1;
        }
        proof {
            lemma_route_position(requests, route@);
        }
        None
    }

    /// Adds a request to the device. A request that the device already has
    /// under the same route is replaced, in its place; a request with a new
    /// route goes to the end.
    #[must_use]
    pub fn add_request(self, request: Request) -> (device: Self)
        requires
            self.wf(),
            request.wf(),
        ensures
            device@ == (DeviceView {
                requests: match route_position(self@.requests, request@.route) {
                    Some(position) => self@.requests.update(position, request@),
                    None => self@.requests.push(request@),
                },
                ..self@
            }),
            device.wf(),
    {
        let mut device = self;
        let route = String::from_str(request.route());
        proof {
            lemma_route_position(self@.requests, request@.route);
        }
        match device.position(&route) {
            Some(position) => {
                device.requests.set(position, request);
                assert(device@.requests =~= self@.requests.update(position as int, request@));
            },
            None => {
                device.requests.push(request);
                assert(device@.requests =~= self@.requests.push(request@));
            },
        }
        proof {
            assert forall|i: int, j: int| 0 <= i < j < device.requests@.len() implies device.requests@[i]@.route
                != device.requests@[j]@.route by {
                if i < self.requests@.len() {
                    assert(self@.requests[i] == self.requests@[i]@);
                }
                if j < self.requests@.len() {
                    assert(self@.requests[j] == self.requests@[j]@);
                }
            }
        }
        device
    }

    /// Sets where the device publishes its events.
    #[must_use]
    pub fn events(self, events: EventsDescription) -> (device: Self)
        requires
            self.wf(),
        ensures
            device@ == (DeviceView { events: Some(events), ..self@ }),
            device.wf(),
    {
        let mut device = self;
        device.events = Some(events);
        device
    }

    /// Returns the request with the given route, if the device has one.
    #[must_use]
    pub fn request(&self, route: &str) -> (request: Option<&Request>)
        ensures
            match request {
                Some(request) => self@.request(route@) == Some(request@),
                None => self@.request(route@) is None,
            },
            self.wf() && request is Some ==> request->Some_0.wf(),
    {
        let key = String::from_str(route);
        match self.position(&key) {
            Some(position) => {
                proof {
                    lemma_route_position(self@.requests, route@);
                }
                Some(&self.requests[position])
            },
            None => None,
        }
    }

    /// Returns where the device publishes its events, if it publishes any.
    #[must_use]
    pub fn events_description(&self) -> (events: Option<&EventsDescription>)
        ensures
            match events {
                Some(events) => self@.events == Some(*events),
                None => self@.events is None,
            },
    {
        self.events.as_ref()
    }

    /// Checks whether an event receiver of the device is running.
    #[must_use]
    pub fn is_receiving(&self) -> (receiving: bool)
        ensures
            receiving == self@.receiving,
    {
        self.receiving
    }

    /// Records whether an event receiver of the device is running.
    pub(crate) fn set_receiving(&mut self, receiving: bool)
        requires
            old(self).wf(),
            receiving ==> old(self)@.events is Some,
        ensures
            final(self)@ == (DeviceView { receiving, ..old(self)@ }),
            final(self).wf(),
    {
        self.receiving = receiving;
    }
}

/// The registry of devices. The position of a device in the registry is its
/// identifier, for as long as the registry is not replaced.
#[derive(Debug, Clone, PartialEq)]
pub struct Devices {
    devices: Vec<Device>,
}

impl View for Devices {
    type V = Seq<DeviceView>;

    closed spec fn view(&self) -> Seq<DeviceView> {
        self.devices@.map_values(|device: Device| device@)
    }
}

impl Devices {
    /// Every device of the registry is well formed.
    pub closed spec fn wf(&self) -> bool {
        forall|i: int| 0 <= i < self.devices@.len() ==> (#[trigger] self.devices@[i]).wf()
    }

    /// Creates an empty registry.
    #[must_use]
    pub fn new() -> (devices: Self)
        ensures
            devices@ == Seq::<DeviceView>::empty(),
            devices.wf(),
    {
        let devices = Devices { devices: Vec::new() };
        devices
    }

    /// Creates a registry from the given devices, in their order.
    #[must_use]
    pub fn from_devices(devices: Vec<Device>) -> (registry: Self)
        requires
            forall|i: int| 0 <= i < devices@.len() ==> (#[trigger] devices@[i]).wf(),
        ensures
            registry@ == devices@.map_values(|device: Device| device@),
            registry.wf(),
    {
        Devices { devices }
    }

    /// Adds a device at the end of the registry.
    pub fn add(&mut self, device: Device)
        requires
            old(self).wf(),
            device.wf(),
        ensures
            final(self)@ == old(self)@.push(device@),
            final(self).wf(),
    {
        self.devices.push(device);
    }

    /// Returns the number of devices.
    #[must_use]
    pub fn len(&self) -> (len: usize)
        ensures
            len == self@.len(),
    {
        self.devices.len()
    }

    /// Checks whether the registry holds no device.
    #[must_use]
    pub fn is_empty(&self) -> (empty: bool)
        ensures
            empty == (self@.len() == 0),
    {
        self.devices.len() == 0
    }

    /// Returns the device with the given identifier, if there is one.
    #[must_use]
    pub fn get(&self, id: usize) -> (device: Option<&Device>)
        ensures
            match device {
                Some(device) => id < self@.len() && device@ == self@[id as int],
                None => id >= self@.len(),
            },
            self.wf() && device is Some ==> device->Some_0.wf(),
    {
        if id < self.devices.len() {
            Some(&self.devices[id])
        } else {
            None
        }
    }

    /// Records whether an event receiver of the device `id` is running.
    pub(crate) fn set_receiving(&mut self, id: usize, receiving: bool)
        requires
            old(self).wf(),
            id < old(self)@.len(),
            receiving ==> old(self)@[id as int].events is Some,
        ensures
            final(self)@ == old(self)@.update(
                id as int,
                (DeviceView { receiving, ..old(self)@[id as int] }),
            ),
            final(self).wf(),
    {
        self.devices[id].set_receiving(receiving);
    }
}

} // verus!
