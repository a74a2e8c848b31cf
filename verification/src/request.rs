//! Requests: the operations of a device, and the responses to them.

use vstd::prelude::*;
use vstd::string::StringExecFns;

use crate::error::Error;
use crate::hazards::{Hazard, Hazards};
use crate::response::ResponseKind;

verus! {

/// The kind of a route: the method of the requests that it takes.
#[derive(Debug, Clone, Copy, PartialEq, Eq, Structural)]
pub enum RestKind {
    /// `GET` request.
    Get,
    /// `PUT` request.
    Put,
    /// `POST` request.
    Post,
    /// `DELETE` request.
    Delete,
}

/// What a [`Request`] says.
pub struct RequestView {
    /// The method with which the request is sent.
    pub kind: RestKind,
    /// The route that identifies the request on its device.
    pub route: Seq<char>,
    /// The hazards that the request declares.
    pub hazards: Seq<Hazard>,
    /// The names of the parameters that the request declares.
    pub parameters: Seq<Seq<char>>,
    /// The kind of response that the device gives.
    pub response_kind: ResponseKind,
}

/// One operation of a device: its route, the hazards it declares, the
/// parameters it takes and the kind of response it gives.
#[derive(Debug, Clone, PartialEq)]
pub struct Request {
    kind: RestKind,
    route: String,
    hazards: Hazards,
    parameters: Vec<String>,
    response_kind: ResponseKind,
}

impl View for Request {
    type V = RequestView;

    closed spec fn view(&self) -> RequestView {
        RequestView {
            kind: self.kind,
            route: self.route@,
            hazards: self.hazards@,
            parameters: self.parameters@.map_values(|name: String| name@),
            response_kind: self.response_kind,
        }
    }
}

impl Request {
    /// The hazards of the request are well formed.
    pub closed spec fn wf(&self) -> bool {
        self.hazards.wf()
    }

    /// Creates a `GET` request for the given route, without hazards and
    /// without parameters.
    #[must_use]
    pub fn new(route: &str, response_kind: ResponseKind) -> (request: Self)
        ensures
            request@ == (RequestView {
                kind: RestKind::Get,
                route: route@,
                hazards: Seq::empty(),
                parameters: Seq::empty(),
                response_kind,
            }),
            request.wf(),
    {
        let request = Request {
            kind: RestKind::Get,
            route: String::from_str(route),
            hazards: Hazards::new(),
            parameters: Vec::new(),
            response_kind,
        };
        assert(request@.parameters =~= Seq::empty());
        request
    }

    /// Sets the method with which the request is sent.
    #[must_use]
    pub fn with_kind(self, kind: RestKind) -> (request: Self)
        requires
            self.wf(),
        ensures
            request@ == (RequestView { kind, ..self@ }),
            request.wf(),
    {
        let mut request = self;
        request.kind = kind;
        request
    }

    /// Sets the hazards that the request declares.
    #[must_use]
    pub fn with_hazards(self, hazards: Hazards) -> (request: Self)
        requires
            self.wf(),
            hazards.wf(),
        ensures
            request@ == (RequestView { hazards: hazards@, ..self@ }),
            request.wf(),
    {
        let mut request = self;
        request.hazards = hazards;
        request
    }

    /// Declares one more parameter, by name.
    #[must_use]
    pub fn with_parameter(self, name: &str) -> (request: Self)
        requires
            self.wf(),
        ensures
            request@ == (RequestView { parameters: self@.parameters.push(name@), ..self@ }),
            request.wf(),
    {
        let mut request = self;
        request.parameters.push(String::from_str(name));
        assert(request@.parameters =~= self@.parameters.push(name@));
        request
    }

    /// Returns the method with which the request is sent.
    #[must_use]
    pub fn kind(&self) -> (kind: RestKind)
        ensures
            kind == self@.kind,
    {
        self.kind
    }

    /// Returns the route of the request.
    #[must_use]
    pub fn route(&self) -> (route: &str)
        ensures
            route@ == self@.route,
    {
        self.route.as_str()
    }

    /// Returns the hazards that the request declares.
    #[must_use]
    pub fn hazards(&self) -> (hazards: &Hazards)
        ensures
            hazards@ == self@.hazards,
            self.wf() ==> hazards.wf(),
    {
        &self.hazards
    }

    /// Returns the number of parameters that the request declares.
    #[must_use]
    pub fn parameters_len(&self) -> (len: usize)
        ensures
            len == self@.parameters.len(),
    {
        self.parameters.len()
    }

    /// Returns the kind of response that the device gives to the request.
    #[must_use]
    pub fn response_kind(&self) -> (kind: ResponseKind)
        ensures
            kind == self@.response_kind,
    {
        self.response_kind
    }

    /// Whether the route of the request is `route`.
    pub(crate) fn has_route(&self, route: &String) -> (same: bool)
        ensures
            same == (self@.route == route@),
    {
        self.route == *route
    }

    /// Turns what the transport gave into the response of this request.
    ///
    /// A skipped request gives [`Response::Skipped`] whatever `outcome`
    /// holds. Otherwise an error of the transport is handed on unchanged, and
    /// a body is wrapped in the parser that the response kind of the request
    /// asks for.
    pub fn retrieve_response(&self, skip: bool, outcome: Result<Vec<u8>, Error>) -> (response:
        Result<Response, Error>)
        ensures
            response == response_of(skip, self@.response_kind, outcome),
    {
        if skip {
            return Ok(Response::Skipped);
        }
        match outcome {
            Ok(body) => Ok(
                match self.response_kind {
                    ResponseKind::Okay => Response::OkBody(OkResponseParser::new(body)),
                    ResponseKind::Serial => Response::SerialBody(SerialResponseParser::new(body)),
                    ResponseKind::Info => Response::InfoBody(InfoResponseParser::new(body)),
                    ResponseKind::Stream => Response::StreamBody(StreamResponse::new(body)),
                },
            ),
            Err(error) => Err(error),
        }
    }
}

/// The response to a request, given whether the policy suppressed it, the
/// kind of response it asks for, and what the transport gave.
pub open spec fn response_of(
    skip: bool,
    kind: ResponseKind,
    outcome: Result<Vec<u8>, Error>,
) -> Result<Response, Error> {
    if skip {
        Ok(Response::Skipped)
    } else {
        match outcome {
            Ok(body) => Ok(
                match kind {
                    ResponseKind::Okay => Response::OkBody(OkResponseParser(body)),
                    ResponseKind::Serial => Response::SerialBody(SerialResponseParser(body)),
                    ResponseKind::Info => Response::InfoBody(InfoResponseParser(body)),
                    ResponseKind::Stream => Response::StreamBody(StreamResponse(body)),
                },
            ),
            Err(error) => Err(error),
        }
    }
}

/// What a sender asks of its caller.
#[derive(Debug, Clone, Copy, PartialEq, Eq, Structural)]
pub enum SendPlan {
    /// The policy suppresses the request: nothing goes to the device.
    Skipped,
    /// The request goes to the device without parameters.
    Plain,
    /// The request goes to the device with the caller's parameter values.
    WithParameters,
}

/// The body of a response that holds an `OkResponse`.
#[derive(Debug, PartialEq)]
pub struct OkResponseParser(pub Vec<u8>);

/// The body of a response that holds a `SerialResponse`.
#[derive(Debug, PartialEq)]
pub struct SerialResponseParser(pub Vec<u8>);

/// The body of a response that holds an `InfoResponse`.
#[derive(Debug, PartialEq)]
pub struct InfoResponseParser(pub Vec<u8>);

/// The body of a response that is a stream of bytes.
#[derive(Debug, PartialEq)]
pub struct StreamResponse(pub Vec<u8>);

impl OkResponseParser {
    /// Wraps the body of a response.
    #[must_use]
    pub fn new(body: Vec<u8>) -> (parser: Self)
        ensures
            parser == OkResponseParser(body),
    {
        OkResponseParser(body)
    }
}

impl SerialResponseParser {
    /// Wraps the body of a response.
    #[must_use]
    pub fn new(body: Vec<u8>) -> (parser: Self)
        ensures
            parser == SerialResponseParser(body),
    {
        SerialResponseParser(body)
    }
}

impl InfoResponseParser {
    /// Wraps the body of a response.
    #[must_use]
    pub fn new(body: Vec<u8>) -> (parser: Self)
        ensures
            parser == InfoResponseParser(body),
    {
        InfoResponseParser(body)
    }
}

impl StreamResponse {
    /// Wraps the body of a response.
    #[must_use]
    pub fn new(body: Vec<u8>) -> (stream: Self)
        ensures
            stream == StreamResponse(body),
    {
        StreamResponse(body)
    }
}

/// All response types supported by a device.
///
/// Each response but the skipped one carries the body that the device sent.
#[derive(Debug, PartialEq)]
pub enum Response {
    /// A skipped response indicates a request that is not sent due to
    /// privacy policy rules.
    Skipped,
    /// An `OkResponse` body.
    OkBody(OkResponseParser),
    /// A `SerialResponse` body.
    SerialBody(SerialResponseParser),
    /// An `InfoResponse` body.
    InfoBody(InfoResponseParser),
    /// A byte stream response body.
    StreamBody(StreamResponse),
}

} // verus!
