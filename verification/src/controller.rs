//! The controller: the registry of devices, the privacy policy, and the
//! senders that gate every request through that policy.

use vstd::prelude::*;
use vstd::string::StringExecFns;

use crate::device::{Device, DeviceView, Devices};
use crate::error::{Error, ErrorKind};
use crate::hazards::Hazards;
use crate::policy::{lemma_no_hazards_never_skipped, Policy, PolicyView};
use crate::receivers::{
    device_steps, next_step, shutdown_steps, ReceiversStart, ReceiversStartView, ShutdownStep,
    SkipReason, StartStepView,
};
use crate::request::{response_of, Request, RequestView, Response, RestKind, SendPlan};
use crate::subscriber::{EventsRunner, Sink, SubscriberConfig, SubscriberPlan};
use crate::text::{decimal, decimal_text, join3};

verus! {

/// The description of the error for a registry without devices.
pub open spec fn no_devices_message() -> Seq<char> {
    "No devices found."@
}

/// The description of the error for an identifier that names no device.
pub open spec fn device_not_found_message(id: usize) -> Seq<char> {
    "Error in retrieving the device with identifier "@ + decimal_text(id as nat) + "."@
}

/// The description of the error for a route that the device does not have.
pub open spec fn route_not_found_message(route: Seq<char>) -> Seq<char> {
    "Error in retrieving the request with route `"@ + route + "`."@
}

/// Creates an error of a sender.
pub fn sender_error(error: &str) -> (e: Error)
    ensures
        e@ == (ErrorKind::Sender, error@),
{
    Error::new(ErrorKind::Sender, error)
}

/// How the devices of the network are looked for.
#[derive(Debug, Clone, PartialEq)]
pub struct Discovery {
    domain: String,
    timeout_ms: u64,
}

impl Discovery {
    /// The service domain that is looked for.
    pub closed spec fn domain_spec(self) -> Seq<char> {
        self.domain@
    }

    /// The time that a search may take, in milliseconds.
    pub closed spec fn timeout_spec(self) -> u64 {
        self.timeout_ms
    }

    /// Creates the configuration of a search for the given service domain,
    /// which may take one second.
    #[must_use]
    pub fn new(domain: &str) -> (discovery: Self)
        ensures
            discovery.domain_spec() == domain@,
            discovery.timeout_spec() == 1000,
    {
        Discovery { domain: String::from_str(domain), timeout_ms: 1000 }
    }

    /// Sets the time that a search may take, in milliseconds.
    #[must_use]
    pub fn timeout(self, timeout_ms: u64) -> (discovery: Self)
        ensures
            discovery.domain_spec() == self.domain_spec(),
            discovery.timeout_spec() == timeout_ms,
    {
        Discovery { domain: self.domain, timeout_ms }
    }

    /// Returns the service domain that is looked for.
    #[must_use]
    pub fn domain(&self) -> (domain: &str)
        ensures
            domain@ == self.domain_spec(),
    {
        self.domain.as_str()
    }

    /// Returns the time that a search may take, in milliseconds.
    #[must_use]
    pub fn timeout_ms(&self) -> (timeout_ms: u64)
        ensures
            timeout_ms == self.timeout_spec(),
    {
        self.timeout_ms
    }
}

/// What a [`Controller`] holds: its devices, by identifier, and its policy.
pub struct ControllerView {
    /// The registry: the position of a device is its identifier.
    pub devices: Seq<DeviceView>,
    /// The privacy policy.
    pub policy: PolicyView,
}

impl ControllerView {
    /// Whether a sender for the device `id` can be built, and the error
    /// where it cannot: an empty registry is reported as such, whatever the
    /// identifier; in a registry with devices, an identifier that is not
    /// below their number is reported as not found.
    pub open spec fn device(self, id: usize) -> Result<DeviceView, (ErrorKind, Seq<char>)> {
        if self.devices.len() == 0 {
            Err((ErrorKind::Sender, no_devices_message()))
        } else if id >= self.devices.len() {
            Err((ErrorKind::Sender, device_not_found_message(id)))
        } else {
            Ok(self.devices[id as int])
        }
    }
}

/// A controller for interacting with devices.
///
/// The main functionalities include:
///
/// - Registering the devices found on the network in memory.
/// - Building senders for the requests of a device identified by its ID.
/// - Controlling request sending by allowing or blocking requests based on the
///   defined privacy policy.
#[derive(Debug, PartialEq)]
pub struct Controller {
    discovery: Discovery,
    devices: Devices,
    privacy_policy: Policy,
}

impl View for Controller {
    type V = ControllerView;

    closed spec fn view(&self) -> ControllerView {
        ControllerView { devices: self.devices@, policy: self.privacy_policy@ }
    }
}

impl Controller {
    /// The registry and the policy are well formed.
    pub closed spec fn wf(&self) -> bool {
        self.devices.wf() && self.privacy_policy.wf()
    }

    /// The configuration of the search for devices.
    pub closed spec fn discovery_spec(&self) -> Discovery {
        self.discovery
    }

    /// Creates a [`Controller`] from a [`Discovery`] configuration: its
    /// registry is empty and its policy blocks nothing.
    #[must_use]
    pub fn new(discovery: Discovery) -> (controller: Self)
        ensures
            controller@ == (ControllerView {
                devices: Seq::empty(),
                policy: PolicyView { global: Seq::empty(), local: Map::empty() },
            }),
            controller.discovery_spec() == discovery,
            controller.wf(),
    {
        Controller { discovery, devices: Devices::new(), privacy_policy: Policy::init() }
    }

    /// Creates a [`Controller`] from a [`Discovery`] configuration and
    /// an initial set of [`Devices`]. Its policy blocks nothing.
    ///
    /// This method is useful when [`Devices`] are retrieved from database.
    #[must_use]
    pub fn from_devices(discovery: Discovery, devices: Devices) -> (controller: Self)
        requires
            devices.wf(),
        ensures
            controller@ == (ControllerView {
                devices: devices@,
                policy: PolicyView { global: Seq::empty(), local: Map::empty() },
            }),
            controller.discovery_spec() == discovery,
            controller.wf(),
    {
        Controller { discovery, devices, privacy_policy: Policy::init() }
    }

    /// Defines a [`Policy`] while constructing a [`Controller`].
    #[must_use]
    pub fn policy(self, privacy_policy: Policy) -> (controller: Self)
        requires
            self.wf(),
            privacy_policy.wf(),
        ensures
            controller@ == (ControllerView { policy: privacy_policy@, ..self@ }),
            controller.discovery_spec() == self.discovery_spec(),
            controller.wf(),
    {
        let mut controller = self;
        controller.privacy_policy = privacy_policy;
        controller
    }

    /// Replaces the registry while constructing a [`Controller`].
    #[must_use]
    pub fn with_registry(self, devices: Devices) -> (controller: Self)
        requires
            self.wf(),
            devices.wf(),
        ensures
            controller@ == (ControllerView { devices: devices@, ..self@ }),
            controller.discovery_spec() == self.discovery_spec(),
            controller.wf(),
    {
        let mut controller = self;
        controller.devices = devices;
        controller
    }

    /// Changes the [`Policy`]: the new one replaces the old one as a whole,
    /// and the registry stays as it is.
    pub fn change_policy(&mut self, privacy_policy: Policy)
        requires
            old(self).wf(),
            privacy_policy.wf(),
        ensures
            final(self)@ == (ControllerView { policy: privacy_policy@, ..old(self)@ }),
            final(self).discovery_spec() == old(self).discovery_spec(),
            final(self).wf(),
    {
        self.privacy_policy = privacy_policy;
    }

    /// Takes in what a search for devices gave. The devices that were found
    /// replace the registry as a whole; a failed search leaves the registry
    /// as it was, and its error is handed on.
    pub fn discover(&mut self, found: Result<Devices, Error>) -> (result: Result<(), Error>)
        requires
            old(self).wf(),
            found is Ok ==> found->Ok_0.wf(),
        ensures
            match found {
                Ok(devices) => result is Ok && final(self)@ == (ControllerView {
                    devices: devices@,
                    ..old(self)@
                }),
                Err(error) => result == Err::<(), Error>(error) && final(self)@ == old(self)@,
            },
            final(self).discovery_spec() == old(self).discovery_spec(),
            final(self).wf(),
    {
        match found {
            Ok(devices) => {
                self.devices = devices;
                Ok(())
            },
            Err(error) => Err(error),
        }
    }

    /// Returns the configuration of the search for devices.
    #[must_use]
    pub fn discovery(&self) -> (discovery: &Discovery)
        ensures
            *discovery == self.discovery_spec(),
    {
        &self.discovery
    }

    /// Returns an immutable reference to [`Devices`].
    #[must_use]
    pub fn devices(&self) -> (devices: &Devices)
        ensures
            devices@ == self@.devices,
            self.wf() ==> devices.wf(),
    {
        &self.devices
    }

    /// Returns a mutable reference to [`Devices`].
    #[must_use]
    pub fn devices_mut(&mut self) -> (devices: &mut Devices)
        requires
            old(self).wf(),
        ensures
            devices@ == old(self)@.devices,
            devices.wf(),
            final(self)@ == (ControllerView { devices: final(devices)@, ..old(self)@ }),
            final(self).discovery_spec() == old(self).discovery_spec(),
            final(devices).wf() ==> final(self).wf(),
    {
        &mut self.devices
    }

    /// Builds a [`DeviceSender`] for the [`Device`] with the given identifier.
    ///
    /// # Errors
    ///
    /// An error is returned if no devices are found or if the given index
    /// **does** not exist.
    pub fn device(&self, id: usize) -> (sender: Result<DeviceSender<'_>, Error>)
        requires
            self.wf(),
        ensures
            match sender {
                Ok(sender) => {
                    &&& self@.device(id) == Ok::<DeviceView, (ErrorKind, Seq<char>)>(sender.device())
                    &&& sender.id() == id
                    &&& sender.policy() == self@.policy
                    &&& sender.wf()
                },
                Err(error) => self@.device(id) == Err::<DeviceView, (ErrorKind, Seq<char>)>(error@),
            },
    {
        if self.devices.is_empty() {
            return Err(sender_error("No devices found."));
        }
        match self.devices.get(id) {
            Some(device) => Ok(DeviceSender { controller: self, device, id }),
            None => {
                let description = join3(
                    "Error in retrieving the device with identifier ",
                    decimal(id).as_str(),
                    ".",
                );
                Err(sender_error(description.as_str()))
            },
        }
    }
}

/// What a start of the event receivers does next.
#[derive(Debug, PartialEq)]
pub enum StartStep {
    /// Pass the device over: warn that it is skipped, and why.
    Skip {
        /// The device that is passed over.
        id: usize,
        /// Why it is passed over.
        reason: SkipReason,
    },
    /// Connect to the broker that the plan names, subscribe to its topic and
    /// spawn the receiver of the device; then report the receiver as
    /// started.
    Subscribe(SubscriberPlan),
    /// Every device has been looked at: the number of receivers started, or
    /// the error for a start that started none.
    Finished(Result<usize, Error>),
}

impl View for StartStep {
    type V = StartStepView;

    open spec fn view(&self) -> StartStepView {
        match self {
            StartStep::Skip { id, reason } => StartStepView::Skip(*id as int, *reason),
            StartStep::Subscribe(plan) => StartStepView::Subscribe(plan.config.device_id as int),
            StartStep::Finished(Ok(started)) => StartStepView::Finished(Ok(*started)),
            StartStep::Finished(Err(error)) => StartStepView::Finished(Err(error@)),
        }
    }
}

impl Controller {
    /// Begins to start the event receivers of all devices that support
    /// events, for a shared queue that holds `buffer_size` messages.
    ///
    /// The devices are gone through one by one: `next_receiver` says what
    /// to do about the next device, and `receiver_started` records that its
    /// receiver runs.
    #[must_use]
    pub fn start_event_receivers(&self, buffer_size: usize) -> (start: ReceiversStart)
        ensures
            start@ == (ReceiversStartView { buffer_size, next: 0, started: 0 }),
            start.wf(),
    {
        ReceiversStart::new(buffer_size)
    }

    /// Says what a start does next, by the first device that it has not
    /// looked at yet. A device whose receiver is running is passed over,
    /// and so is a device without an event source: the start then stands
    /// behind that device. Any other device is to be subscribed to, as the
    /// plan says: its events go to the shared queue, and the start goes on
    /// once its receiver has been recorded as started. When no device is
    /// left, the start is finished: with an error if it started no receiver
    /// at all.
    pub fn next_receiver(&self, start: &mut ReceiversStart) -> (step: StartStep)
        requires
            self.wf(),
            old(start).wf(),
        ensures
            step@ == next_step(self@.devices, old(start)@),
            match step {
                StartStep::Skip { id, reason } => {
                    &&& final(start)@.next == id + 1
                    &&& final(start)@.started == old(start)@.started
                    &&& final(start)@.buffer_size == old(start)@.buffer_size
                },
                StartStep::Subscribe(plan) => {
                    let id = plan.config.device_id;
                    &&& final(start)@ == old(start)@
                    &&& id < self@.devices.len()
                    &&& self@.devices[id as int].events is Some
                    &&& EventsRunner::session_spec(
                        id,
                        self@.devices[id as int].events->Some_0,
                        plan.session,
                    )
                    &&& plan.config == (SubscriberConfig {
                        device_id: id,
                        sink: Sink::Shared,
                        delay_ms: None,
                    })
                },
                StartStep::Finished(_) => final(start)@ == old(start)@,
            },
            final(start).wf(),
    {
        let id = start.next();
        let len = self.devices.len();
        match self.devices.get(id) {
            Some(device) => {
                assert(id < len);
                if device.is_receiving() {
                    start.pass_over();
                    StartStep::Skip { id, reason: SkipReason::AlreadyStarted }
                } else {
                    match device.events_description() {
                        Some(events) => StartStep::Subscribe(
                            EventsRunner::run_global_subscriber(events, id),
                        ),
                        None => {
                            start.pass_over();
                            StartStep::Skip { id, reason: SkipReason::NoEvents }
                        },
                    }
                }
            },
            None => {
                if start.started() == 0 {
                    StartStep::Finished(
                        Err(Error::new(ErrorKind::Events, "No event receiver tasks has started")),
                    )
                } else {
                    StartStep::Finished(Ok(start.started()))
                }
            },
        }
    }

    /// Records that the receiver of the device `id` has been started. The
    /// record is made only where `id` is the device that the start asks a
    /// subscription for: then the device has a running receiver from now on,
    /// and the start goes on behind it. Otherwise nothing changes.
    pub fn receiver_started(&mut self, start: &mut ReceiversStart, id: usize) -> (recorded: bool)
        requires
            old(self).wf(),
            old(start).wf(),
        ensures
            recorded == (next_step(old(self)@.devices, old(start)@) == StartStepView::Subscribe(
                id as int,
            )),
            recorded ==> final(self)@ == (ControllerView {
                devices: old(self)@.devices.update(
                    id as int,
                    (DeviceView { receiving: true, ..old(self)@.devices[id as int] }),
                ),
                ..old(self)@
            }),
            recorded ==> final(start)@.next == id + 1 && final(start)@.started == old(start)@.started
                + 1 && final(start)@.buffer_size == old(start)@.buffer_size,
            !recorded ==> final(self)@ == old(self)@ && final(start)@ == old(start)@,
            final(self).discovery_spec() == old(self).discovery_spec(),
            final(self).wf(),
            final(start).wf(),
    {
        let len = self.devices.len();
        let expected = match self.devices.get(id) {
            Some(device) => id == start.next() && !device.is_receiving()
                && device.events_description().is_some(),
            None => false,
        };
        if expected {
            assert(id < len);
            self.devices.set_receiving(id, true);
            start.record(id);
        }
        expected
    }

    /// Shuts down the [`Controller`]: gives the steps that stop all event
    /// receivers, to be taken one after the other.
    ///
    /// The devices are gone through in the order of the registry. The
    /// cancellation signal of each device with an event source is fired, and
    /// the receiver of each device that has one running is then waited for,
    /// before the next device is looked at.
    #[must_use]
    pub fn shutdown(self) -> (steps: Vec<ShutdownStep>)
        requires
            self.wf(),
        ensures
            steps@ == shutdown_steps(self@.devices, 0),
    {
        let mut steps: Vec<ShutdownStep> = Vec::new();
        let len = self.devices.len();
        let mut id: usize = len;
        while id > 0
            invariant
                id <= len,
                len == self@.devices.len(),
                steps@ == shutdown_steps(self@.devices, id as int),
            decreases id,
        {
            id -= 1;
            let mut found: Vec<ShutdownStep> = Vec::new();
            if let Some(device) = self.devices.get(id) {
                if device.events_description().is_some() {
                    found.push(ShutdownStep::Cancel(id));
                }
                if device.is_receiving() {
                    found.push(ShutdownStep::Await(id));
                }
            }
            found.append(&mut steps);
            steps = found;
        }
        steps
    }
}

/// A device sender.
///
/// It generates multiple unique request senders for a device.
#[derive(Debug, PartialEq)]
pub struct DeviceSender<'controller> {
    controller: &'controller Controller,
    device: &'controller Device,
    id: usize,
}

impl<'controller> DeviceSender<'controller> {
    /// The device that the sender is for.
    pub closed spec fn device(&self) -> DeviceView {
        self.device@
    }

    /// The identifier of the device that the sender is for.
    pub closed spec fn id(&self) -> usize {
        self.id
    }

    /// The policy that the sender evaluates.
    pub closed spec fn policy(&self) -> PolicyView {
        self.controller@.policy
    }

    /// The controller and the device of the sender are well formed.
    pub closed spec fn wf(&self) -> bool {
        self.controller.wf() && self.device.wf()
    }

    /// What `request` gives for a route: the request with that route and the
    /// decision of the policy on its hazards, or the error for a route that
    /// the device does not have.
    pub open spec fn request_spec(&self, route: Seq<char>) -> Result<
        (RequestView, bool),
        (ErrorKind, Seq<char>),
    > {
        match self.device().request(route) {
            Some(request) => Ok((request, self.policy().skips(self.id(), request.hazards))),
            None => Err((ErrorKind::Sender, route_not_found_message(route))),
        }
    }

    /// Returns the identifier of the device that the sender is for.
    #[must_use]
    pub fn device_id(&self) -> (id: usize)
        ensures
            id == self.id(),
    {
        self.id
    }

    /// Builds a [`RequestSender`] for the given route.
    ///
    /// The policy is evaluated here, once: the sender keeps the decision for
    /// as long as it lives. A request that declares no hazard is never
    /// suppressed.
    ///
    /// # Errors
    ///
    /// An error is returned if the given route **does** not exist.
    pub fn request(&self, route: &str) -> (sender: Result<RequestSender<'_>, Error>)
        requires
            self.wf(),
        ensures
            match sender {
                Ok(sender) => self.request_spec(route@) == Ok::<
                    (RequestView, bool),
                    (ErrorKind, Seq<char>),
                >((sender.request(), sender.skips())),
                Err(error) => self.request_spec(route@) == Err::<
                    (RequestView, bool),
                    (ErrorKind, Seq<char>),
                >(error@),
            },
            sender is Ok && sender->Ok_0.request().hazards.len() == 0 ==> !sender->Ok_0.skips(),
            sender is Ok ==> sender->Ok_0.wf() && sender->Ok_0.current_policy() == self.policy()
                && sender->Ok_0.device_id() == self.id(),
    {
        let request = match self.device.request(route) {
            Some(request) => request,
            None => {
                let description = join3(
                    "Error in retrieving the request with route `",
                    route,
                    "`.",
                );
                return Err(sender_error(description.as_str()));
            },
        };
        let skip = if request.hazards().is_empty() {
            proof {
                lemma_no_hazards_never_skipped(self.policy(), self.id);
            }
            false
        } else {
            self.evaluate_privacy_policy(request, route)
        };
        Ok(RequestSender { controller: self.controller, request, id: self.id, skip })
    }

    /// Decides whether the policy suppresses the request: it does where it
    /// blocks, for every device or for this one, a hazard of the request.
    fn evaluate_privacy_policy(&self, request: &Request, route: &str) -> (skip: bool)
        requires
            self.wf(),
            request.wf(),
        ensures
            skip == self.policy().skips(self.id(), request@.hazards),
    {
        let mut skip = false;

        let global_blocked_hazards = self.controller.privacy_policy.global_blocked_hazards(
            request.hazards(),
        );

        let local_blocked_hazards = self.controller.privacy_policy.local_blocked_hazards(
            self.id,
            request.hazards(),
        );

        if !global_blocked_hazards.is_empty() {
            skip = true;
        }
        if !local_blocked_hazards.is_empty() {
            skip = true;
        }
        skip
    }
}

/// A request sender.
#[derive(Debug, PartialEq)]
pub struct RequestSender<'controller> {
    controller: &'controller Controller,
    request: &'controller Request,
    id: usize,
    skip: bool,
}

impl<'controller> RequestSender<'controller> {
    /// The request that the sender is for.
    pub closed spec fn request(&self) -> RequestView {
        self.request@
    }

    /// The identifier of the device that the request goes to.
    pub closed spec fn device_id(&self) -> usize {
        self.id
    }

    /// The decision of the policy that the sender was built with.
    pub closed spec fn skips(&self) -> bool {
        self.skip
    }

    /// The policy of the controller that the sender refers to.
    pub closed spec fn current_policy(&self) -> PolicyView {
        self.controller@.policy
    }

    /// The controller and the request of the sender are well formed.
    pub closed spec fn wf(&self) -> bool {
        self.controller.wf() && self.request.wf()
    }

    /// The same sender, over a controller whose policy has been replaced.
    pub closed spec fn after_policy_change(self, policy: Policy) -> Self {
        RequestSender {
            controller: &Controller {
                discovery: self.controller.discovery,
                devices: self.controller.devices,
                privacy_policy: policy,
            },
            request: self.request,
            id: self.id,
            skip: self.skip,
        }
    }

    /// What `send` asks of the caller.
    pub open spec fn send_spec(&self) -> SendPlan {
        if self.skips() {
            SendPlan::Skipped
        } else {
            SendPlan::Plain
        }
    }

    /// What `send_with_parameters` asks of the caller.
    pub open spec fn send_with_parameters_spec(&self) -> SendPlan {
        if self.skips() {
            SendPlan::Skipped
        } else if self.request().parameters.len() == 0 {
            SendPlan::Plain
        } else {
            SendPlan::WithParameters
        }
    }

    /// Returns whether the policy suppressed the request when the sender was
    /// built.
    #[must_use]
    pub fn is_skipped(&self) -> (skip: bool)
        ensures
            skip == self.skips(),
    {
        self.skip
    }

    /// Returns the hazards of the request that the policy blocks for every
    /// device: what a warning about a suppressed request names as globally
    /// blocked.
    #[must_use]
    pub fn global_blocked_hazards(&self) -> (found: Hazards)
        requires
            self.wf(),
        ensures
            found@ == self.current_policy().global_blocked(self.request().hazards),
            found.wf(),
    {
        self.controller.privacy_policy.global_blocked_hazards(self.request.hazards())
    }

    /// Returns the hazards of the request that the policy blocks for the
    /// device of the request alone: what a warning about a suppressed
    /// request names as locally blocked.
    #[must_use]
    pub fn local_blocked_hazards(&self) -> (found: Hazards)
        requires
            self.wf(),
        ensures
            found@ == self.current_policy().local_blocked(
                self.device_id(),
                self.request().hazards,
            ),
            found.wf(),
    {
        self.controller.privacy_policy.local_blocked_hazards(self.id, self.request.hazards())
    }

    /// Returns the route of the request.
    #[must_use]
    pub fn route(&self) -> (route: &str)
        ensures
            route@ == self.request().route,
    {
        self.request.route()
    }

    /// Returns the method with which the request is sent.
    #[must_use]
    pub fn kind(&self) -> (kind: RestKind)
        ensures
            kind == self.request().kind,
    {
        self.request.kind()
    }

    /// Decides how the request is sent to the device: not at all where the
    /// policy suppressed it, else without parameters.
    #[must_use]
    pub fn send(&self) -> (plan: SendPlan)
        ensures
            plan == self.send_spec(),
    {
        if self.skip {
            SendPlan::Skipped
        } else {
            SendPlan::Plain
        }
    }

    /// Decides how the request is sent to the device when the caller has
    /// parameter values for it: not at all where the policy suppressed it;
    /// without the values where the request declares no parameters; else
    /// with them.
    #[must_use]
    pub fn send_with_parameters(&self) -> (plan: SendPlan)
        ensures
            plan == self.send_with_parameters_spec(),
    {
        if self.request.parameters_len() == 0 {
            return self.send();
        }
        if self.skip {
            SendPlan::Skipped
        } else {
            SendPlan::WithParameters
        }
    }

    /// Turns what the transport gave into the response of the request: a
    /// suppressed request is answered with [`Response::Skipped`], an error of
    /// the transport is handed on unchanged, and a body is wrapped as the
    /// response kind of the request asks.
    pub fn response(&self, outcome: Result<Vec<u8>, Error>) -> (response: Result<Response, Error>)
        ensures
            response == response_of(self.skips(), self.request().response_kind, outcome),
    {
        self.request.retrieve_response(self.skip, outcome)
    }
}

/// The decision of a sender is fixed when it is built: replacing the policy
/// of the controller afterwards changes neither the decision nor what the
/// sender asks of its caller nor the responses it gives, even where the new
/// policy would decide otherwise.
pub proof fn lemma_policy_change_keeps_decision(
    sender: RequestSender<'_>,
    policy: Policy,
    outcome: Result<Vec<u8>, Error>,
)
    ensures
        sender.after_policy_change(policy).current_policy() == policy@,
        sender.after_policy_change(policy).request() == sender.request(),
        sender.after_policy_change(policy).device_id() == sender.device_id(),
        sender.after_policy_change(policy).skips() == sender.skips(),
        sender.after_policy_change(policy).send_spec() == sender.send_spec(),
        sender.after_policy_change(policy).send_with_parameters_spec()
            == sender.send_with_parameters_spec(),
        response_of(
            sender.after_policy_change(policy).skips(),
            sender.after_policy_change(policy).request().response_kind,
            outcome,
        ) == response_of(sender.skips(), sender.request().response_kind, outcome),
{
}

/// On an empty registry no sender can be built, and the error is the one for
/// an empty registry, never the one for an unknown identifier.
pub proof fn lemma_empty_registry_error(controller: ControllerView, id: usize)
    requires
        controller.devices.len() == 0,
    ensures
        controller.device(id) == Err::<DeviceView, (ErrorKind, Seq<char>)>(
            (ErrorKind::Sender, no_devices_message()),
        ),
        controller.device(id) != Err::<DeviceView, (ErrorKind, Seq<char>)>(
            (ErrorKind::Sender, device_not_found_message(id)),
        ),
{
    reveal_strlit("No devices found.");
    reveal_strlit("Error in retrieving the device with identifier ");
    reveal_strlit(".");
    let found = no_devices_message();
    let missing = device_not_found_message(id);
    assert(missing.len() >= 47);
}

} // verus!
