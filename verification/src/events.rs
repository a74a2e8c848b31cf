//! Events that a device publishes, and where it publishes them.

use core::time::Duration;
use vstd::prelude::*;
use vstd::string::StringExecFns;

verus! {

/// `Duration::clone`: the clone is equal to the duration it was made from.
pub assume_specification[ <Duration as Clone>::clone ](duration: &Duration) -> (copy: Duration)
    ensures
        copy == *duration,
;

/// A 32-bit floating-point value, held as its IEEE 754 bit pattern.
#[derive(Debug, Clone, Copy, PartialEq, Eq, Structural)]
pub struct Float32 {
    /// The bit pattern of the value.
    pub bits: u32,
}

/// A 64-bit floating-point value, held as its IEEE 754 bit pattern.
#[derive(Debug, Clone, Copy, PartialEq, Eq, Structural)]
pub struct Float64 {
    /// The bit pattern of the value.
    pub bits: u64,
}

/// An address of the Internet Protocol.
#[derive(Debug, Clone, Copy, PartialEq, Eq)]
pub enum IpAddress {
    /// The four bytes of a version 4 address.
    V4([u8; 4]),
    /// The sixteen bytes of a version 6 address.
    V6([u8; 16]),
}

/// Event broker data.
#[derive(Debug, Clone, Copy, PartialEq)]
pub struct BrokerData {
    /// Broker address.
    pub address: IpAddress,
    /// Broker port number.
    pub port: u16,
}

impl BrokerData {
    /// Creates a [`BrokerData`].
    #[must_use]
    pub fn new(address: IpAddress, port: u16) -> (data: Self)
        ensures
            data.address == address,
            data.port == port,
    {
        BrokerData { address, port }
    }
}

/// The name of the type of an event value.
pub trait TypeName {
    /// The name of the type.
    spec fn label_spec() -> Seq<char>;

    /// Returns the name of the type.
    fn label() -> (label: &'static str)
        ensures
            label@ == Self::label_spec(),
    ;
}

impl TypeName for bool {
    open spec fn label_spec() -> Seq<char> {
        "bool"@
    }

    fn label() -> (label: &'static str) {
        "bool"
    }
}

impl TypeName for u8 {
    open spec fn label_spec() -> Seq<char> {
        "u8"@
    }

    fn label() -> (label: &'static str) {
        "u8"
    }
}

impl TypeName for i32 {
    open spec fn label_spec() -> Seq<char> {
        "i32"@
    }

    fn label() -> (label: &'static str) {
        "i32"
    }
}

impl TypeName for Float32 {
    open spec fn label_spec() -> Seq<char> {
        "f32"@
    }

    fn label() -> (label: &'static str) {
        "f32"
    }
}

impl TypeName for Float64 {
    open spec fn label_spec() -> Seq<char> {
        "f64"@
    }

    fn label() -> (label: &'static str) {
        "f64"
    }
}

/// An event of a specific type.
#[derive(Debug, PartialEq)]
pub struct Event<T: Clone + Copy + TypeName> {
    /// Event name.
    pub name: String,
    /// Event description.
    pub description: Option<String>,
    /// Event value.
    pub value: T,
}

impl<T: Clone + Copy + TypeName> Clone for Event<T> {
    fn clone(&self) -> (copy: Self)
        ensures
            copy == *self,
    {
        Event {
            name: self.name.clone(),
            description: match &self.description {
                Some(description) => Some(description.clone()),
                None => None,
            },
            value: self.value,
        }
    }
}

impl Event<bool> {
    /// Creates a [`Event<bool>`] without a description, whose value is
    /// `false`.
    #[must_use]
    pub fn bool(name: &'static str) -> (event: Self)
        ensures
            event.name@ == name@,
            event.description is None,
            event.value == false,
    {
        Event { name: String::from_str(name), description: None, value: false }
    }
}

impl Event<u8> {
    /// Creates an [`Event<u8>`] without a description, whose value is
    /// zero.
    #[must_use]
    pub fn u8(name: &'static str) -> (event: Self)
        ensures
            event.name@ == name@,
            event.description is None,
            event.value == 0,
    {
        Event { name: String::from_str(name), description: None, value: 0 }
    }
}

impl Event<i32> {
    /// Creates an [`Event<i32>`] without a description, whose value is
    /// zero.
    #[must_use]
    pub fn i32(name: &'static str) -> (event: Self)
        ensures
            event.name@ == name@,
            event.description is None,
            event.value == 0,
    {
        Event { name: String::from_str(name), description: None, value: 0 }
    }
}

impl Event<Float32> {
    /// Creates a [`Event<Float32>`] without a description, whose value is
    /// zero.
    #[must_use]
    pub fn float32(name: &'static str) -> (event: Self)
        ensures
            event.name@ == name@,
            event.description is None,
            event.value == (Float32 { bits: 0 }),
    {
        Event { name: String::from_str(name), description: None, value: Float32 { bits: 0 } }
    }
}

impl Event<Float64> {
    /// Creates a [`Event<Float64>`] without a description, whose value is
    /// zero.
    #[must_use]
    pub fn float64(name: &'static str) -> (event: Self)
        ensures
            event.name@ == name@,
            event.description is None,
            event.value == (Float64 { bits: 0 }),
    {
        Event { name: String::from_str(name), description: None, value: Float64 { bits: 0 } }
    }
}

impl<T: Clone + Copy + TypeName> Event<T> {
    /// Sets the event description.
    #[must_use]
    pub fn description(self, description: &'static str) -> (event: Self)
        ensures
            event.name == self.name,
            event.value == self.value,
            event.description is Some,
            event.description->Some_0@ == description@,
    {
        Event {
            name: self.name,
            description: Some(String::from_str(description)),
            value: self.value,
        }
    }

    /// Removes the event description.
    ///
    /// This method can help reduce the amount of data transmitted over
    /// the network.
    pub fn remove_description(&mut self)
        ensures
            final(self).name == old(self).name,
            final(self).value == old(self).value,
            final(self).description is None,
    {
        self.description = None;
    }

    /// Updates the event value.
    pub fn update_value(&mut self, value: T)
        ensures
            final(self).name == old(self).name,
            final(self).description == old(self).description,
            final(self).value == value,
    {
        self.value = value;
    }
}

/// A periodic [`Event`].
///
/// An event is considered periodic when it is triggered or checked at regular,
/// fixed intervals of time.
#[derive(Debug, PartialEq)]
pub struct PeriodicEvent<T: Clone + Copy + TypeName> {
    /// The [`Event`].
    pub event: Event<T>,
    /// Time interval for checking if the event has occurred.
    pub interval: Duration,
}

impl<T: Clone + Copy + TypeName> Clone for PeriodicEvent<T> {
    fn clone(&self) -> (copy: Self)
        ensures
            copy == *self,
    {
        PeriodicEvent { event: self.event.clone(), interval: self.interval.clone() }
    }
}

impl PeriodicEvent<bool> {
    /// Creates a [`PeriodicEvent<bool>`].
    #[must_use]
    pub fn bool(event: Event<bool>, interval: Duration) -> (periodic: Self)
        ensures
            periodic.event == event,
            periodic.interval == interval,
    {
        PeriodicEvent { event, interval }
    }
}

impl PeriodicEvent<u8> {
    /// Creates a [`PeriodicEvent<u8>`].
    #[must_use]
    pub fn u8(event: Event<u8>, interval: Duration) -> (periodic: Self)
        ensures
            periodic.event == event,
            periodic.interval == interval,
    {
        PeriodicEvent { event, interval }
    }
}

impl PeriodicEvent<i32> {
    /// Creates a [`PeriodicEvent<i32>`].
    #[must_use]
    pub fn i32(event: Event<i32>, interval: Duration) -> (periodic: Self)
        ensures
            periodic.event == event,
            periodic.interval == interval,
    {
        PeriodicEvent { event, interval }
    }
}

impl PeriodicEvent<Float32> {
    /// Creates a [`PeriodicEvent<Float32>`].
    #[must_use]
    pub fn float32(event: Event<Float32>, interval: Duration) -> (periodic: Self)
        ensures
            periodic.event == event,
            periodic.interval == interval,
    {
        PeriodicEvent { event, interval }
    }
}

impl PeriodicEvent<Float64> {
    /// Creates a [`PeriodicEvent<Float64>`].
    #[must_use]
    pub fn float64(event: Event<Float64>, interval: Duration) -> (periodic: Self)
        ensures
            periodic.event == event,
            periodic.interval == interval,
    {
        PeriodicEvent { event, interval }
    }
}

/// The topic for event publication over the network.
///
/// This topic uniquely identifies all events coming from a device, allowing
/// controllers to retrieve all related event data using it as a reference.
#[derive(Debug, Clone, PartialEq)]
pub struct Topic(String);

impl View for Topic {
    type V = Seq<char>;

    closed spec fn view(&self) -> Seq<char> {
        self.0@
    }
}

impl Topic {
    /// Creates an empty [`Topic`].
    #[must_use]
    pub fn empty() -> (topic: Self)
        ensures
            topic@ == Seq::<char>::empty(),
    {
        Topic(String::new())
    }

    /// Creates a [`Topic`].
    #[must_use]
    pub fn new(value: String) -> (topic: Self)
        ensures
            topic@ == value@,
    {
        Topic(value)
    }

    /// Returns the [`Topic`] as a [`&str`].
    #[must_use]
    pub fn as_str(&self) -> (text: &str)
        ensures
            text@ == self@,
    {
        self.0.as_str()
    }
}

/// What an [`Events`] holds: one sequence for each type of event.
pub struct EventsView {
    /// The events of type `bool`.
    pub bool_events: Seq<Event<bool>>,
    /// The events of type `u8`.
    pub u8_events: Seq<Event<u8>>,
    /// The events of type `i32`.
    pub i32_events: Seq<Event<i32>>,
    /// The events of type `f32`.
    pub f32_events: Seq<Event<Float32>>,
    /// The events of type `f64`.
    pub f64_events: Seq<Event<Float64>>,
    /// The periodic events of type `bool`.
    pub periodic_bool_events: Seq<PeriodicEvent<bool>>,
    /// The periodic events of type `u8`.
    pub periodic_u8_events: Seq<PeriodicEvent<u8>>,
    /// The periodic events of type `i32`.
    pub periodic_i32_events: Seq<PeriodicEvent<i32>>,
    /// The periodic events of type `f32`.
    pub periodic_f32_events: Seq<PeriodicEvent<Float32>>,
    /// The periodic events of type `f64`.
    pub periodic_f64_events: Seq<PeriodicEvent<Float64>>,
}

impl EventsView {
    /// The view without any event.
    pub open spec fn empty() -> EventsView {
        EventsView {
            bool_events: Seq::empty(),
            u8_events: Seq::empty(),
            i32_events: Seq::empty(),
            f32_events: Seq::empty(),
            f64_events: Seq::empty(),
            periodic_bool_events: Seq::empty(),
            periodic_u8_events: Seq::empty(),
            periodic_i32_events: Seq::empty(),
            periodic_f32_events: Seq::empty(),
            periodic_f64_events: Seq::empty(),
        }
    }

    /// Whether no sequence holds an event.
    pub open spec fn is_empty(self) -> bool {
        &&& self.bool_events.len() == 0
        &&& self.u8_events.len() == 0
        &&& self.i32_events.len() == 0
        &&& self.f32_events.len() == 0
        &&& self.f64_events.len() == 0
        &&& self.periodic_bool_events.len() == 0
        &&& self.periodic_u8_events.len() == 0
        &&& self.periodic_i32_events.len() == 0
        &&& self.periodic_f32_events.len() == 0
        &&& self.periodic_f64_events.len() == 0
    }
}

/// All events types that can be generated by a device.
///
/// Events of the same type are stored sequentially.
#[derive(Debug, Clone, PartialEq)]
pub struct Events {
    bool_events: Vec<Event<bool>>,
    u8_events: Vec<Event<u8>>,
    i32_events: Vec<Event<i32>>,
    f32_events: Vec<Event<Float32>>,
    f64_events: Vec<Event<Float64>>,
    periodic_bool_events: Vec<PeriodicEvent<bool>>,
    periodic_u8_events: Vec<PeriodicEvent<u8>>,
    periodic_i32_events: Vec<PeriodicEvent<i32>>,
    periodic_f32_events: Vec<PeriodicEvent<Float32>>,
    periodic_f64_events: Vec<PeriodicEvent<Float64>>,
}

impl View for Events {
    type V = EventsView;

    closed spec fn view(&self) -> EventsView {
        EventsView {
            bool_events: self.bool_events@,
            u8_events: self.u8_events@,
            i32_events: self.i32_events@,
            f32_events: self.f32_events@,
            f64_events: self.f64_events@,
            periodic_bool_events: self.periodic_bool_events@,
            periodic_u8_events: self.periodic_u8_events@,
            periodic_i32_events: self.periodic_i32_events@,
            periodic_f32_events: self.periodic_f32_events@,
            periodic_f64_events: self.periodic_f64_events@,
        }
    }
}

impl Events {
    /// Creates an empty [`Events`].
    #[must_use]
    pub fn empty() -> (events: Self)
        ensures
            events@ == EventsView::empty(),
    {
        Events {
            bool_events: Vec::new(),
            u8_events: Vec::new(),
            i32_events: Vec::new(),
            f32_events: Vec::new(),
            f64_events: Vec::new(),
            periodic_bool_events: Vec::new(),
            periodic_u8_events: Vec::new(),
            periodic_i32_events: Vec::new(),
            periodic_f32_events: Vec::new(),
            periodic_f64_events: Vec::new(),
        }
    }

    /// Creates an empty [`Events`] with equal memory capacity for each of its
    /// internal event sequences.
    #[must_use]
    pub fn with_capacity(size: usize) -> (events: Self)
        ensures
            events@ == EventsView::empty(),
    {
        Events {
            bool_events: Vec::with_capacity(size),
            u8_events: Vec::with_capacity(size),
            i32_events: Vec::with_capacity(size),
            f32_events: Vec::with_capacity(size),
            f64_events: Vec::with_capacity(size),
            periodic_bool_events: Vec::with_capacity(size),
            periodic_u8_events: Vec::with_capacity(size),
            periodic_i32_events: Vec::with_capacity(size),
            periodic_f32_events: Vec::with_capacity(size),
            periodic_f64_events: Vec::with_capacity(size),
        }
    }

    /// Replaces the sequence of [`Event<bool>`].
    #[must_use]
    pub fn bool_events(self, bool_events: Vec<Event<bool>>) -> (events: Self)
        ensures
            events@ == (EventsView { bool_events: bool_events@, ..self@ }),
    {
        let mut events = self;
        events.bool_events = bool_events;
        events
    }

    /// Replaces the sequence of [`Event<u8>`].
    #[must_use]
    pub fn u8_events(self, u8_events: Vec<Event<u8>>) -> (events: Self)
        ensures
            events@ == (EventsView { u8_events: u8_events@, ..self@ }),
    {
        let mut events = self;
        events.u8_events = u8_events;
        events
    }

    /// Replaces the sequence of [`Event<i32>`].
    #[must_use]
    pub fn i32_events(self, i32_events: Vec<Event<i32>>) -> (events: Self)
        ensures
            events@ == (EventsView { i32_events: i32_events@, ..self@ }),
    {
        let mut events = self;
        events.i32_events = i32_events;
        events
    }

    /// Replaces the sequence of [`Event<Float32>`].
    #[must_use]
    pub fn f32_events(self, f32_events: Vec<Event<Float32>>) -> (events: Self)
        ensures
            events@ == (EventsView { f32_events: f32_events@, ..self@ }),
    {
        let mut events = self;
        events.f32_events = f32_events;
        events
    }

    /// Replaces the sequence of [`Event<Float64>`].
    #[must_use]
    pub fn f64_events(self, f64_events: Vec<Event<Float64>>) -> (events: Self)
        ensures
            events@ == (EventsView { f64_events: f64_events@, ..self@ }),
    {
        let mut events = self;
        events.f64_events = f64_events;
        events
    }

    /// Replaces the sequence of [`PeriodicEvent<bool>`].
    #[must_use]
    pub fn periodic_bool_events(self, periodic_bool_events: Vec<PeriodicEvent<bool>>) -> (events: Self)
        ensures
            events@ == (EventsView { periodic_bool_events: periodic_bool_events@, ..self@ }),
    {
        let mut events = self;
        events.periodic_bool_events = periodic_bool_events;
        events
    }

    /// Replaces the sequence of [`PeriodicEvent<u8>`].
    #[must_use]
    pub fn periodic_u8_events(self, periodic_u8_events: Vec<PeriodicEvent<u8>>) -> (events: Self)
        ensures
            events@ == (EventsView { periodic_u8_events: periodic_u8_events@, ..self@ }),
    {
        let mut events = self;
        events.periodic_u8_events = periodic_u8_events;
        events
    }

    /// Replaces the sequence of [`PeriodicEvent<i32>`].
    #[must_use]
    pub fn periodic_i32_events(self, periodic_i32_events: Vec<PeriodicEvent<i32>>) -> (events: Self)
        ensures
            events@ == (EventsView { periodic_i32_events: periodic_i32_events@, ..self@ }),
    {
        let mut events = self;
        events.periodic_i32_events = periodic_i32_events;
        events
    }

    /// Replaces the sequence of [`PeriodicEvent<Float32>`].
    #[must_use]
    pub fn periodic_f32_events(self, periodic_f32_events: Vec<PeriodicEvent<Float32>>) -> (events: Self)
        ensures
            events@ == (EventsView { periodic_f32_events: periodic_f32_events@, ..self@ }),
    {
        let mut events = self;
        events.periodic_f32_events = periodic_f32_events;
        events
    }

    /// Replaces the sequence of [`PeriodicEvent<Float64>`].
    #[must_use]
    pub fn periodic_f64_events(self, periodic_f64_events: Vec<PeriodicEvent<Float64>>) -> (events: Self)
        ensures
            events@ == (EventsView { periodic_f64_events: periodic_f64_events@, ..self@ }),
    {
        let mut events = self;
        events.periodic_f64_events = periodic_f64_events;
        events
    }

    /// Adds a single [`Event<bool>`] at the end of its sequence.
    pub fn add_bool_event(&mut self, bool_event: Event<bool>)
        ensures
            final(self)@ == (EventsView { bool_events: old(self)@.bool_events.push(bool_event), ..old(self)@ }),
    {
        self.bool_events.push(bool_event);
    }

    /// Adds a single [`Event<u8>`] at the end of its sequence.
    pub fn add_u8_event(&mut self, u8_event: Event<u8>)
        ensures
            final(self)@ == (EventsView { u8_events: old(self)@.u8_events.push(u8_event), ..old(self)@ }),
    {
        self.u8_events.push(u8_event);
    }

    /// Adds a single [`Event<i32>`] at the end of its sequence.
    pub fn add_i32_event(&mut self, i32_event: Event<i32>)
        ensures
            final(self)@ == (EventsView { i32_events: old(self)@.i32_events.push(i32_event), ..old(self)@ }),
    {
        self.i32_events.push(i32_event);
    }

    /// Adds a single [`Event<Float32>`] at the end of its sequence.
    pub fn add_f32_event(&mut self, f32_event: Event<Float32>)
        ensures
            final(self)@ == (EventsView { f32_events: old(self)@.f32_events.push(f32_event), ..old(self)@ }),
    {
        self.f32_events.push(f32_event);
    }

    /// Adds a single [`Event<Float64>`] at the end of its sequence.
    pub fn add_f64_event(&mut self, f64_event: Event<Float64>)
        ensures
            final(self)@ == (EventsView { f64_events: old(self)@.f64_events.push(f64_event), ..old(self)@ }),
    {
        self.f64_events.push(f64_event);
    }

    /// Adds a single [`PeriodicEvent<bool>`] at the end of its sequence.
    pub fn add_periodic_bool_event(&mut self, periodic_bool_event: PeriodicEvent<bool>)
        ensures
            final(self)@ == (EventsView { periodic_bool_events: old(self)@.periodic_bool_events.push(periodic_bool_event), ..old(self)@ }),
    {
        self.periodic_bool_events.push(periodic_bool_event);
    }

    /// Adds a single [`PeriodicEvent<u8>`] at the end of its sequence.
    pub fn add_periodic_u8_event(&mut self, periodic_u8_event: PeriodicEvent<u8>)
        ensures
            final(self)@ == (EventsView { periodic_u8_events: old(self)@.periodic_u8_events.push(periodic_u8_event), ..old(self)@ }),
    {
        self.periodic_u8_events.push(periodic_u8_event);
    }

    /// Adds a single [`PeriodicEvent<i32>`] at the end of its sequence.
    pub fn add_periodic_i32_event(&mut self, periodic_i32_event: PeriodicEvent<i32>)
        ensures
            final(self)@ == (EventsView { periodic_i32_events: old(self)@.periodic_i32_events.push(periodic_i32_event), ..old(self)@ }),
    {
        self.periodic_i32_events.push(periodic_i32_event);
    }

    /// Adds a single [`PeriodicEvent<Float32>`] at the end of its sequence.
    pub fn add_periodic_f32_event(&mut self, periodic_f32_event: PeriodicEvent<Float32>)
        ensures
            final(self)@ == (EventsView { periodic_f32_events: old(self)@.periodic_f32_events.push(periodic_f32_event), ..old(self)@ }),
    {
        self.periodic_f32_events.push(periodic_f32_event);
    }

    /// Adds a single [`PeriodicEvent<Float64>`] at the end of its sequence.
    pub fn add_periodic_f64_event(&mut self, periodic_f64_event: PeriodicEvent<Float64>)
        ensures
            final(self)@ == (EventsView { periodic_f64_events: old(self)@.periodic_f64_events.push(periodic_f64_event), ..old(self)@ }),
    {
        self.periodic_f64_events.push(periodic_f64_event);
    }

    /// Updates the [`Event<bool>`] value located at the given index.
    pub fn update_bool_value(&mut self, index: usize, value: bool)
        requires
            index < old(self)@.bool_events.len(),
        ensures
            final(self)@ == (EventsView {
                bool_events: old(self)@.bool_events.update(
                    index as int,
                    (Event { value, ..old(self)@.bool_events[index as int] }),
                ),
                ..old(self)@
            }),
    {
        self.bool_events[index].update_value(value);
    }

    /// Updates the [`Event<u8>`] value located at the given index.
    pub fn update_u8_value(&mut self, index: usize, value: u8)
        requires
            index < old(self)@.u8_events.len(),
        ensures
            final(self)@ == (EventsView {
                u8_events: old(self)@.u8_events.update(
                    index as int,
                    (Event { value, ..old(self)@.u8_events[index as int] }),
                ),
                ..old(self)@
            }),
    {
        self.u8_events[index].update_value(value);
    }

    /// Updates the [`Event<i32>`] value located at the given index.
    pub fn update_i32_value(&mut self, index: usize, value: i32)
        requires
            index < old(self)@.i32_events.len(),
        ensures
            final(self)@ == (EventsView {
                i32_events: old(self)@.i32_events.update(
                    index as int,
                    (Event { value, ..old(self)@.i32_events[index as int] }),
                ),
                ..old(self)@
            }),
    {
        self.i32_events[index].update_value(value);
    }

    /// Updates the [`Event<Float32>`] value located at the given index.
    pub fn update_f32_value(&mut self, index: usize, value: Float32)
        requires
            index < old(self)@.f32_events.len(),
        ensures
            final(self)@ == (EventsView {
                f32_events: old(self)@.f32_events.update(
                    index as int,
                    (Event { value, ..old(self)@.f32_events[index as int] }),
                ),
                ..old(self)@
            }),
    {
        self.f32_events[index].update_value(value);
    }

    /// Updates the [`Event<Float64>`] value located at the given index.
    pub fn update_f64_value(&mut self, index: usize, value: Float64)
        requires
            index < old(self)@.f64_events.len(),
        ensures
            final(self)@ == (EventsView {
                f64_events: old(self)@.f64_events.update(
                    index as int,
                    (Event { value, ..old(self)@.f64_events[index as int] }),
                ),
                ..old(self)@
            }),
    {
        self.f64_events[index].update_value(value);
    }

    /// Updates the [`PeriodicEvent<bool>`] value located at the given index.
    pub fn update_periodic_bool_value(&mut self, index: usize, value: bool)
        requires
            index < old(self)@.periodic_bool_events.len(),
        ensures
            final(self)@ == (EventsView {
                periodic_bool_events: old(self)@.periodic_bool_events.update(
                    index as int,
                    (PeriodicEvent { event: (Event { value, ..old(self)@.periodic_bool_events[index as int].event }), ..old(self)@.periodic_bool_events[index as int] }),
                ),
                ..old(self)@
            }),
    {
        self.periodic_bool_events[index].event.update_value(value);
    }

    /// Updates the [`PeriodicEvent<u8>`] value located at the given index.
    pub fn update_periodic_u8_value(&mut self, index: usize, value: u8)
        requires
            index < old(self)@.periodic_u8_events.len(),
        ensures
            final(self)@ == (EventsView {
                periodic_u8_events: old(self)@.periodic_u8_events.update(
                    index as int,
                    (PeriodicEvent { event: (Event { value, ..old(self)@.periodic_u8_events[index as int].event }), ..old(self)@.periodic_u8_events[index as int] }),
                ),
                ..old(self)@
            }),
    {
        self.periodic_u8_events[index].event.update_value(value);
    }

    /// Updates the [`PeriodicEvent<i32>`] value located at the given index.
    pub fn update_periodic_i32_value(&mut self, index: usize, value: i32)
        requires
            index < old(self)@.periodic_i32_events.len(),
        ensures
            final(self)@ == (EventsView {
                periodic_i32_events: old(self)@.periodic_i32_events.update(
                    index as int,
                    (PeriodicEvent { event: (Event { value, ..old(self)@.periodic_i32_events[index as int].event }), ..old(self)@.periodic_i32_events[index as int] }),
                ),
                ..old(self)@
            }),
    {
        self.periodic_i32_events[index].event.update_value(value);
    }

    /// Updates the [`PeriodicEvent<Float32>`] value located at the given index.
    pub fn update_periodic_f32_value(&mut self, index: usize, value: Float32)
        requires
            index < old(self)@.periodic_f32_events.len(),
        ensures
            final(self)@ == (EventsView {
                periodic_f32_events: old(self)@.periodic_f32_events.update(
                    index as int,
                    (PeriodicEvent { event: (Event { value, ..old(self)@.periodic_f32_events[index as int].event }), ..old(self)@.periodic_f32_events[index as int] }),
                ),
                ..old(self)@
            }),
    {
        self.periodic_f32_events[index].event.update_value(value);
    }

    /// Updates the [`PeriodicEvent<Float64>`] value located at the given index.
    pub fn update_periodic_f64_value(&mut self, index: usize, value: Float64)
        requires
            index < old(self)@.periodic_f64_events.len(),
        ensures
            final(self)@ == (EventsView {
                periodic_f64_events: old(self)@.periodic_f64_events.update(
                    index as int,
                    (PeriodicEvent { event: (Event { value, ..old(self)@.periodic_f64_events[index as int].event }), ..old(self)@.periodic_f64_events[index as int] }),
                ),
                ..old(self)@
            }),
    {
        self.periodic_f64_events[index].event.update_value(value);
    }

    /// Returns an immutable slice of the [`Event<bool>`] sequence.
    #[must_use]
    pub fn bool_events_as_slice(&self) -> (slice: &[Event<bool>])
        ensures
            slice@ == self@.bool_events,
    {
        self.bool_events.as_slice()
    }

    /// Returns an immutable slice of the [`Event<u8>`] sequence.
    #[must_use]
    pub fn u8_events_as_slice(&self) -> (slice: &[Event<u8>])
        ensures
            slice@ == self@.u8_events,
    {
        self.u8_events.as_slice()
    }

    /// Returns an immutable slice of the [`Event<i32>`] sequence.
    #[must_use]
    pub fn i32_events_as_slice(&self) -> (slice: &[Event<i32>])
        ensures
            slice@ == self@.i32_events,
    {
        self.i32_events.as_slice()
    }

    /// Returns an immutable slice of the [`Event<Float32>`] sequence.
    #[must_use]
    pub fn f32_events_as_slice(&self) -> (slice: &[Event<Float32>])
        ensures
            slice@ == self@.f32_events,
    {
        self.f32_events.as_slice()
    }

    /// Returns an immutable slice of the [`Event<Float64>`] sequence.
    #[must_use]
    pub fn f64_events_as_slice(&self) -> (slice: &[Event<Float64>])
        ensures
            slice@ == self@.f64_events,
    {
        self.f64_events.as_slice()
    }

    /// Returns an immutable slice of the [`PeriodicEvent<bool>`] sequence.
    #[must_use]
    pub fn periodic_bool_events_as_slice(&self) -> (slice: &[PeriodicEvent<bool>])
        ensures
            slice@ == self@.periodic_bool_events,
    {
        self.periodic_bool_events.as_slice()
    }

    /// Returns an immutable slice of the [`PeriodicEvent<u8>`] sequence.
    #[must_use]
    pub fn periodic_u8_events_as_slice(&self) -> (slice: &[PeriodicEvent<u8>])
        ensures
            slice@ == self@.periodic_u8_events,
    {
        self.periodic_u8_events.as_slice()
    }

    /// Returns an immutable slice of the [`PeriodicEvent<i32>`] sequence.
    #[must_use]
    pub fn periodic_i32_events_as_slice(&self) -> (slice: &[PeriodicEvent<i32>])
        ensures
            slice@ == self@.periodic_i32_events,
    {
        self.periodic_i32_events.as_slice()
    }

    /// Returns an immutable slice of the [`PeriodicEvent<Float32>`] sequence.
    #[must_use]
    pub fn periodic_f32_events_as_slice(&self) -> (slice: &[PeriodicEvent<Float32>])
        ensures
            slice@ == self@.periodic_f32_events,
    {
        self.periodic_f32_events.as_slice()
    }

    /// Returns an immutable slice of the [`PeriodicEvent<Float64>`] sequence.
    #[must_use]
    pub fn periodic_f64_events_as_slice(&self) -> (slice: &[PeriodicEvent<Float64>])
        ensures
            slice@ == self@.periodic_f64_events,
    {
        self.periodic_f64_events.as_slice()
    }

    /// Checks if [`Events`] is **entirely** empty.
    #[must_use]
    pub fn is_empty(&self) -> (empty: bool)
        ensures
            empty == self@.is_empty(),
    {
        self.bool_events.is_empty()
            && self.u8_events.is_empty()
            && self.i32_events.is_empty()
            && self.f32_events.is_empty()
            && self.f64_events.is_empty()
            && self.periodic_bool_events.is_empty()
            && self.periodic_u8_events.is_empty()
            && self.periodic_i32_events.is_empty()
            && self.periodic_f32_events.is_empty()
            && self.periodic_f64_events.is_empty()
    }
}

/// All events to be published over the network, including their associated
/// topic and broker data.
#[derive(Debug, Clone, PartialEq)]
pub struct EventsDescription {
    /// Broker data.
    pub broker_data: BrokerData,
    /// Topic information.
    pub topic: Topic,
    /// All device events.
    pub events: Events,
}

impl EventsDescription {
    /// Creates an [`EventsDescription`].
    #[must_use]
    pub fn new(broker_data: BrokerData, topic: Topic, events: Events) -> (description: Self)
        ensures
            description.broker_data == broker_data,
            description.topic == topic,
            description.events == events,
    {
        EventsDescription { broker_data, topic, events }
    }
}

} // verus!
