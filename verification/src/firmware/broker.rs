//! Where a device publishes its events.

use vstd::prelude::*;

use crate::events::IpAddress;

verus! {

/// Broker data.
#[derive(Debug, Clone, Copy, PartialEq)]
pub enum BrokerData {
    /// Broker `URL` and `port`.
    Url(&'static str, u16),
    /// Broker address and `port`.
    Ip(IpAddress, u16),
}

impl BrokerData {
    /// Creates a [`BrokerData`] from the `URL` and `port`.
    #[must_use]
    pub fn url(url: &'static str, port: u16) -> (data: Self)
        ensures
            data == BrokerData::Url(url, port),
    {
        BrokerData::Url(url, port)
    }

    /// Creates a [`BrokerData`] from the address and `port`.
    #[must_use]
    pub fn ip(ip: IpAddress, port: u16) -> (data: Self)
        ensures
            data == BrokerData::Ip(ip, port),
    {
        BrokerData::Ip(ip, port)
    }
}

} // verus!
