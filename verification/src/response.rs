//! The responses that a device gives to a request.

use vstd::prelude::*;
use vstd::string::StringExecFns;

use crate::economy::Economy;
use crate::energy::Energy;

verus! {

/// The header value associated with a response sent by a device which had
/// failed to serialize its values.
///
/// This constant signals to the controller to discard the invalid response
/// because a serialization error occurred on a device.
pub const SERIALIZATION_ERROR: &'static str = "Serialization-Error";

/// Response kinds.
#[derive(Debug, Clone, Copy, PartialEq, Eq, Structural)]
pub enum ResponseKind {
    /// This response transmits a concise JSON message over the network to
    /// notify a controller that an operation completed successfully.
    Okay,
    /// This response transmits a JSON message over the network containing
    /// the data produced during a device operation.
    Serial,
    /// This response transmits a JSON message over the network containing
    /// a device energy and economy information.
    Info,
    /// This response transmits a stream of data, represented as a
    /// sequence of bytes, over the network.
    Stream,
}

impl Default for ResponseKind {
    fn default() -> (kind: Self)
        ensures
            kind == ResponseKind::Okay,
    {
        ResponseKind::Okay
    }
}

impl ResponseKind {
    /// The name of each kind.
    pub open spec fn name_spec(self) -> Seq<char> {
        match self {
            ResponseKind::Okay => "Ok"@,
            ResponseKind::Serial => "Serial"@,
            ResponseKind::Info => "Info"@,
            ResponseKind::Stream => "Stream"@,
        }
    }

    /// Returns the name of the kind.
    #[must_use]
    pub fn name(&self) -> (name: &'static str)
        ensures
            name@ == self.name_spec(),
    {
        match self {
            ResponseKind::Okay => "Ok",
            ResponseKind::Serial => "Serial",
            ResponseKind::Info => "Info",
            ResponseKind::Stream => "Stream",
        }
    }
}

/// A response which transmits a concise JSON message over the network to notify
/// a controller that an operation completed successfully.
#[derive(Debug, Clone, Copy, PartialEq, Eq, Structural)]
pub struct OkResponse {
    action_terminated_correctly: bool,
}

impl OkResponse {
    /// Whether the response says that the action terminated correctly.
    pub closed spec fn terminated_correctly(self) -> bool {
        self.action_terminated_correctly
    }

    /// Generates an [`OkResponse`].
    #[must_use]
    pub fn ok() -> (response: Self)
        ensures
            response.terminated_correctly(),
    {
        OkResponse { action_terminated_correctly: true }
    }

    /// Generates the [`OkResponse`] that a device sent, which says whether
    /// the action terminated correctly.
    #[must_use]
    pub fn received(action_terminated_correctly: bool) -> (response: Self)
        ensures
            response.terminated_correctly() == action_terminated_correctly,
    {
        OkResponse { action_terminated_correctly }
    }

    /// Returns whether the action terminated correctly.
    #[must_use]
    pub fn action_terminated_correctly(&self) -> (terminated: bool)
        ensures
            terminated == self.terminated_correctly(),
    {
        self.action_terminated_correctly
    }
}

/// A response which transmits a JSON message over the network containing
/// the data produced during a device operation.
#[derive(Debug, PartialEq)]
pub struct SerialResponse<T>(T);

impl<T> SerialResponse<T> {
    /// The data that the response carries.
    pub closed spec fn data(self) -> T {
        self.0
    }

    /// Generates a [`SerialResponse`].
    #[must_use]
    pub fn new(data: T) -> (response: Self)
        ensures
            response.data() == data,
    {
        SerialResponse(data)
    }

    /// Gives the data back.
    #[must_use]
    pub fn into_inner(self) -> (data: T)
        ensures
            data == self.data(),
    {
        self.0
    }
}

/// The energy and economy information of a device.
#[derive(Debug, Clone, PartialEq)]
pub struct DeviceInfo {
    /// Energy information.
    pub energy: Energy,
    /// Economy information.
    pub economy: Economy,
}

impl DeviceInfo {
    /// Creates a [`DeviceInfo`] without any information.
    #[must_use]
    pub fn empty() -> (info: Self)
        ensures
            info.energy == (Energy {
                energy_efficiencies: None,
                carbon_footprints: None,
                water_use_efficiency: None,
            }),
            info.economy == (Economy { costs: None, roi: None }),
    {
        DeviceInfo { energy: Energy::empty(), economy: Economy::empty() }
    }

    /// Sets the energy information.
    #[must_use]
    pub fn add_energy(self, energy: Energy) -> (info: Self)
        ensures
            info == (DeviceInfo { energy, ..self }),
    {
        let mut info = self;
        info.energy = energy;
        info
    }

    /// Sets the economy information.
    #[must_use]
    pub fn add_economy(self, economy: Economy) -> (info: Self)
        ensures
            info == (DeviceInfo { economy, ..self }),
    {
        let mut info = self;
        info.economy = economy;
        info
    }
}

/// A response which transmits a JSON message over the network containing
/// a device's energy and economy information.
#[derive(Debug, PartialEq)]
pub struct InfoResponse(DeviceInfo);

impl InfoResponse {
    /// The information that the response carries.
    pub closed spec fn info(self) -> DeviceInfo {
        self.0
    }

    /// Generates an [`InfoResponse`].
    #[must_use]
    pub fn new(info: DeviceInfo) -> (response: Self)
        ensures
            response.info() == info,
    {
        InfoResponse(info)
    }

    /// Gives the information back.
    #[must_use]
    pub fn into_inner(self) -> (info: DeviceInfo)
        ensures
            info == self.info(),
    {
        self.0
    }
}

/// All possible errors that may cause a device operation to fail.
#[derive(Debug, Clone, Copy, PartialEq, Eq, Structural)]
pub enum ErrorKind {
    /// Some data encountered during a device operation is invalid or malformed.
    InvalidData,
    /// An internal error has occurred during the execution of a device
    /// operation.
    Internal,
}

/// A response providing details about an error encountered during a
/// device operation.
///
/// Contains the [`ErrorKind`], a general error description,
/// and optional information about the encountered error.
#[derive(Debug, PartialEq)]
pub struct ErrorResponse {
    /// Error kind.
    pub error: ErrorKind,
    /// Error description.
    pub description: String,
    /// Information describing the encountered error.
    pub info: Option<String>,
}

impl ErrorResponse {
    /// Generates an [`ErrorResponse`].
    ///
    /// Requires specifying the [`ErrorKind`] and a general error description.
    #[must_use]
    pub fn with_description(error: ErrorKind, description: &str) -> (response: Self)
        ensures
            response.error == error,
            response.description@ == description@,
            response.info is None,
    {
        ErrorResponse { error, description: String::from_str(description), info: None }
    }

    /// Generates an [`ErrorResponse`].
    ///
    /// Requires specifying the [`ErrorKind`], a general error
    /// description, and optional information about the encountered error.
    #[must_use]
    pub fn with_description_error(error: ErrorKind, description: &str, info: &str) -> (response:
        Self)
        ensures
            response.error == error,
            response.description@ == description@,
            response.info is Some,
            response.info->Some_0@ == info@,
    {
        ErrorResponse {
            error,
            description: String::from_str(description),
            info: Some(String::from_str(info)),
        }
    }

    /// Generates an [`ErrorResponse`] for invalid data.
    ///
    /// Requires specifying a general error description.
    #[must_use]
    pub fn invalid_data(description: &str) -> (response: Self)
        ensures
            response.error == ErrorKind::InvalidData,
            response.description@ == description@,
            response.info is None,
    {
        Self::with_description(ErrorKind::InvalidData, description)
    }

    /// Generates an [`ErrorResponse`] for invalid data.
    ///
    /// Requires specifying a general error description and optional
    /// information about the encountered error.
    #[must_use]
    pub fn invalid_data_with_error(description: &str, info: &str) -> (response: Self)
        ensures
            response.error == ErrorKind::InvalidData,
            response.description@ == description@,
            response.info is Some,
            response.info->Some_0@ == info@,
    {
        Self::with_description_error(ErrorKind::InvalidData, description, info)
    }

    /// Generates an [`ErrorResponse`] for an internal error.
    ///
    /// Requires specifying a general error description.
    #[must_use]
    pub fn internal(description: &str) -> (response: Self)
        ensures
            response.error == ErrorKind::Internal,
            response.description@ == description@,
            response.info is None,
    {
        Self::with_description(ErrorKind::Internal, description)
    }

    /// Generates an [`ErrorResponse`] for an internal error.
    ///
    /// Requires specifying a general error description and optional
    /// information about the encountered error.
    #[must_use]
    pub fn internal_with_error(description: &str, info: &str) -> (response: Self)
        ensures
            response.error == ErrorKind::Internal,
            response.description@ == description@,
            response.info is Some,
            response.info->Some_0@ == info@,
    {
        Self::with_description_error(ErrorKind::Internal, description, info)
    }
}

} // verus!
