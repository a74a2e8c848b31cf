//! Building blocks of the firmware of a device: its state, the settings of
//! its server and of its discovery service, and the responses it gives.

pub mod broker;
pub mod mdns;
pub mod net;
pub mod response;
pub mod server;
pub mod state;
