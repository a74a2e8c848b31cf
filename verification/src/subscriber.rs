//! Event subscribers: one task for each device, which polls the broker of
//! the device and hands every decoded batch of events on.
//!
//! The task itself runs outside this library. Here stand its decisions: what
//! it connects to, and what it does after each poll and after each delivery.

use vstd::prelude::*;
use vstd::string::StringExecFns;

use crate::events::{Events, EventsDescription, IpAddress};
use crate::text::{decimal, decimal_text};

verus! {

/// The capacity of the bounded channel between a broker client and its
/// event loop.
pub const ASYNC_CHANNEL_CAPACITY: usize = 10;

/// Seconds of silence after which a ping is sent to the broker.
pub const KEEP_ALIVE_SECS: u64 = 5;

/// Milliseconds that the subscriber of a single device waits between two
/// polls.
pub const DEVICE_POLL_DELAY_MS: u64 = 100;

/// Event payload transmitted by the global receiver task.
///
/// The payload consists of a device identifier and its associated event data.
#[derive(Debug, Clone, PartialEq)]
pub struct EventPayload {
    /// Device identifier.
    pub device_id: usize,
    /// Device events.
    pub events: Events,
}

impl EventPayload {
    /// Pairs a batch of events with the device that published it.
    #[must_use]
    pub fn new(device_id: usize, events: Events) -> (payload: Self)
        ensures
            payload.device_id == device_id,
            payload.events == events,
    {
        EventPayload { device_id, events }
    }
}

/// What one poll of the broker gave.
#[derive(Debug, Clone, PartialEq)]
pub enum BrokerEvent {
    /// The poll failed.
    Failed,
    /// A packet on its way to the broker.
    Outgoing,
    /// A packet from the broker that publishes nothing.
    Ignored,
    /// A publication, with the events that its payload decodes to: `None`
    /// where the payload does not hold events.
    Publish(Option<Events>),
}

/// Returns the events that a poll of the broker brought: those of a
/// publication whose payload could be decoded, and nothing for a failed
/// poll, for any other packet or for a payload that could not be decoded.
#[must_use]
pub fn parse_event(event: BrokerEvent) -> (events: Option<Events>)
    ensures
        events == match event {
            BrokerEvent::Publish(decoded) => decoded,
            _ => None,
        },
{
    match event {
        BrokerEvent::Failed => None,
        BrokerEvent::Outgoing => None,
        BrokerEvent::Ignored => None,
        BrokerEvent::Publish(decoded) => decoded,
    }
}

/// Where a subscriber hands its events.
#[derive(Debug, Clone, Copy, PartialEq, Eq, Structural)]
pub enum Sink {
    /// The bounded queue that all devices share and one consumer drains.
    Shared,
    /// The broadcast channel of one device, for any number of listeners.
    Broadcast,
}

/// How the subscriber of one device behaves.
#[derive(Debug, Clone, Copy, PartialEq, Eq, Structural)]
pub struct SubscriberConfig {
    /// The device whose events the subscriber receives.
    pub device_id: usize,
    /// Where the events go.
    pub sink: Sink,
    /// The wait before every poll but the first, in milliseconds, if any.
    pub delay_ms: Option<u64>,
}

/// What a subscriber connects to.
#[derive(Debug, Clone, PartialEq)]
pub struct BrokerSession {
    /// The identifier under which the client presents itself to the broker.
    pub client_id: String,
    /// Broker address.
    pub address: IpAddress,
    /// Broker port number.
    pub port: u16,
    /// The topic to subscribe to.
    pub topic: String,
    /// Seconds of silence after which a ping is sent to the broker.
    pub keep_alive_secs: u64,
    /// The capacity of the channel between the client and its event loop.
    pub capacity: usize,
}

/// A subscriber that is ready to start: what it connects to and how it
/// behaves.
#[derive(Debug, Clone, PartialEq)]
pub struct SubscriberPlan {
    /// What the subscriber connects to.
    pub session: BrokerSession,
    /// How the subscriber behaves.
    pub config: SubscriberConfig,
}

/// The two states of a subscriber task.
#[derive(Debug, Clone, Copy, PartialEq, Eq, Structural)]
pub enum TaskState {
    /// The task waits for its cancellation or for the next message of the
    /// broker, whichever comes first.
    Polling,
    /// The task has released its broker client and ended.
    Stopped,
}

/// What the wait of a polling task ended with.
#[derive(Debug, Clone, PartialEq)]
pub enum PollOutcome {
    /// The cancellation signal fired.
    Cancelled,
    /// The broker client gave its next message, or failed to.
    Event(BrokerEvent),
}

/// What a subscriber task does next.
#[derive(Debug, Clone, PartialEq)]
pub enum Next {
    /// Wait as long as `delay_ms` says, if it says so, then poll again.
    Poll {
        /// The wait before the poll, in milliseconds.
        delay_ms: Option<u64>,
    },
    /// Hand the payload to the sink, waiting for room where the sink is
    /// full, and report what became of it.
    Deliver(EventPayload),
    /// Release the broker client and end.
    Stop,
}

impl Next {
    /// The state of the task once it has been told what to do.
    pub open spec fn state_spec(self) -> TaskState {
        match self {
            Next::Stop => TaskState::Stopped,
            _ => TaskState::Polling,
        }
    }

    /// Returns the state of the task once it has been told what to do.
    #[must_use]
    pub fn state(&self) -> (state: TaskState)
        ensures
            state == self.state_spec(),
    {
        match self {
            Next::Stop => TaskState::Stopped,
            _ => TaskState::Polling,
        }
    }
}

/// What follows a poll: a cancelled task stops; a batch of events is
/// delivered, under the identifier of the device; anything else is
/// discarded and the task polls again.
pub open spec fn after_poll_spec(config: SubscriberConfig, outcome: PollOutcome) -> Next {
    match outcome {
        PollOutcome::Cancelled => Next::Stop,
        PollOutcome::Event(BrokerEvent::Publish(Some(events))) => Next::Deliver(
            EventPayload { device_id: config.device_id, events },
        ),
        PollOutcome::Event(_) => Next::Poll { delay_ms: config.delay_ms },
    }
}

/// What follows a delivery: after a delivered payload the task polls again;
/// after a failed delivery a task of the shared queue stops, since its
/// consumer is gone, and a task of a broadcast channel polls again.
pub open spec fn after_delivery_spec(config: SubscriberConfig, delivered: bool) -> Next {
    if !delivered && config.sink == Sink::Shared {
        Next::Stop
    } else {
        Next::Poll { delay_ms: config.delay_ms }
    }
}

/// Says how a task begins: it polls at once, in the polling state.
#[must_use]
pub fn at_start(config: &SubscriberConfig) -> (next: Next)
    ensures
        next == (Next::Poll { delay_ms: None }),
        next.state_spec() == TaskState::Polling,
{
    Next::Poll { delay_ms: None }
}

/// Decides what a polling task does after its wait has ended. The
/// cancellation signal is looked at in this wait only: a task that is busy
/// delivering a payload learns of it with its next poll.
#[must_use]
pub fn after_poll(config: &SubscriberConfig, outcome: PollOutcome) -> (next: Next)
    ensures
        next == after_poll_spec(*config, outcome),
{
    match outcome {
        PollOutcome::Cancelled => Next::Stop,
        PollOutcome::Event(event) => match parse_event(event) {
            Some(events) => Next::Deliver(EventPayload::new(config.device_id, events)),
            None => Next::Poll { delay_ms: config.delay_ms },
        },
    }
}

/// Decides what a task does after it has tried to deliver a payload.
#[must_use]
pub fn after_delivery(config: &SubscriberConfig, delivered: bool) -> (next: Next)
    ensures
        next == after_delivery_spec(*config, delivered),
{
    if delivered {
        Next::Poll { delay_ms: config.delay_ms }
    } else {
        match config.sink {
            Sink::Shared => Next::Stop,
            Sink::Broadcast => Next::Poll { delay_ms: config.delay_ms },
        }
    }
}

/// A task leaves the polling state only when it is cancelled or when the
/// consumer of the shared queue is gone: no failed poll, no other packet and
/// no payload that cannot be decoded ends it.
pub proof fn lemma_only_cancellation_and_lost_consumer_stop(
    config: SubscriberConfig,
    outcome: PollOutcome,
    delivered: bool,
)
    ensures
        after_poll_spec(config, outcome).state_spec() == TaskState::Stopped
            <==> outcome == PollOutcome::Cancelled,
        after_delivery_spec(config, delivered).state_spec() == TaskState::Stopped <==> (!delivered
            && config.sink == Sink::Shared),
{
}

/// Builds the subscribers of the devices.
pub struct EventsRunner;

impl EventsRunner {
    /// What the subscriber of the device `id` connects to.
    pub open spec fn session_spec(id: usize, events: EventsDescription, session: BrokerSession) -> bool {
        &&& session.client_id@ == decimal_text(id as nat)
        &&& session.address == events.broker_data.address
        &&& session.port == events.broker_data.port
        &&& session.topic@ == events.topic@
        &&& session.keep_alive_secs == KEEP_ALIVE_SECS
        &&& session.capacity == ASYNC_CHANNEL_CAPACITY
    }

    /// Plans the subscriber that hands the events of the device `id` to the
    /// queue that all devices share. It polls again without waiting.
    #[must_use]
    pub fn run_global_subscriber(events: &EventsDescription, id: usize) -> (plan: SubscriberPlan)
        ensures
            Self::session_spec(id, *events, plan.session),
            plan.config == (SubscriberConfig { device_id: id, sink: Sink::Shared, delay_ms: None }),
    {
        SubscriberPlan {
            session: Self::init(id, events),
            config: SubscriberConfig { device_id: id, sink: Sink::Shared, delay_ms: None },
        }
    }

    /// Plans the subscriber that hands the events of the device `id` to the
    /// broadcast channel of that device. It waits a fixed time before it
    /// polls again.
    #[must_use]
    pub fn run_device_subscriber(events: &EventsDescription, id: usize) -> (plan: SubscriberPlan)
        ensures
            Self::session_spec(id, *events, plan.session),
            plan.config == (SubscriberConfig {
                device_id: id,
                sink: Sink::Broadcast,
                delay_ms: Some(DEVICE_POLL_DELAY_MS),
            }),
    {
        SubscriberPlan {
            session: Self::init(id, events),
            config: SubscriberConfig {
                device_id: id,
                sink: Sink::Broadcast,
                delay_ms: Some(DEVICE_POLL_DELAY_MS),
            },
        }
    }

    /// Says what the subscriber of the device `id` connects to: the broker
    /// and the topic of the device, under the identifier of the device
    /// written in decimal.
    #[must_use]
    pub fn init(id: usize, events: &EventsDescription) -> (session: BrokerSession)
        ensures
            Self::session_spec(id, *events, session),
    {
        BrokerSession {
            client_id: decimal(id),
            address: events.broker_data.address,
            port: events.broker_data.port,
            topic: String::from_str(events.topic.as_str()),
            keep_alive_secs: KEEP_ALIVE_SECS,
            capacity: ASYNC_CHANNEL_CAPACITY,
        }
    }
}

} // verus!
