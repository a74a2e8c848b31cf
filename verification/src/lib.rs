//! Control plane of a fleet of networked devices, and the data that devices
//! and controller exchange.
//!
//! The controller gates outgoing requests through a privacy policy, keeps
//! the registry of discovered devices, and decides every step of the
//! per-device event subscriptions and of their shutdown. Network work is
//! left to the caller: the library tells it what to do next and is told what
//! came back.
//!
//! Every function of the library is verified against its contract. The
//! only contracts taken on trust are those of the insertion-ordered set in
//! [`ordered_keys`] and of two `clone` methods.

/// A controller for interacting with devices.
pub mod controller;
/// Device data along with its associated methods.
pub mod device;
/// Sensor drivers.
pub mod drivers;
/// Economic information about a device.
pub mod economy;
/// Energy-related information about a device.
pub mod energy;
/// Error management.
pub mod error;
/// Event descriptions and methods.
pub mod events;
/// Building blocks of the firmware of a device.
pub mod firmware;
/// Hazard descriptions and methods.
pub mod hazards;
/// Hardware addresses of network interfaces.
pub mod mac;
/// Insertion-ordered sets of integer keys.
pub mod ordered_keys;
/// Numbers and hardware addresses read from text.
pub mod parse;
/// A privacy policy manager that blocks or allows the requests to devices
/// based on a set of privacy rules.
pub mod policy;
/// Starting and stopping the event receivers of a registry.
pub mod receivers;
/// Request data and the associated methods.
pub mod request;
/// All supported responses from a device.
pub mod response;
/// The event subscriber of a device.
pub mod subscriber;
/// Decimal text and searches in bytes.
pub mod text;
