//! The responses of the server of a device: status line, headers and body.

use vstd::prelude::*;
use vstd::string::StringSliceAdditionalSpecFns;
use vstd::string::StrSliceExecFns;

use crate::response::SERIALIZATION_ERROR;

verus! {

/// The status line and the headers of a response.
#[derive(Debug, Clone, PartialEq)]
pub struct Headers {
    /// The status code.
    pub status: u16,
    /// The reason phrase.
    pub message: &'static str,
    /// The headers, each a name with its value.
    pub content_type: Vec<(&'static str, &'static str)>,
}

impl Headers {
    /// What the headers say: the status code, the reason phrase, and each
    /// header as a name with its value.
    pub open spec fn says(
        &self,
        status: u16,
        message: Seq<char>,
        headers: Seq<(Seq<char>, Seq<char>)>,
    ) -> bool {
        &&& self.status == status
        &&& self.message@ == message
        &&& self.content_type@.len() == headers.len()
        &&& forall|i: int|
            0 <= i < headers.len() ==> (#[trigger] self.content_type@[i]).0@ == headers[i].0
                && self.content_type@[i].1@ == headers[i].1
    }

    /// The headers of the answer to a request for an unknown route.
    #[must_use]
    pub fn not_found() -> (headers: Self)
        ensures
            headers.says(404, "Not Found"@, Seq::empty()),
    {
        Headers { status: 404, message: "Not Found", content_type: Vec::new() }
    }

    /// The headers of the answer to a request with a method that the
    /// server does not take.
    #[must_use]
    pub fn not_allowed() -> (headers: Self)
        ensures
            headers.says(405, "Method Not Allowed"@, Seq::empty()),
    {
        Headers { status: 405, message: "Method Not Allowed", content_type: Vec::new() }
    }

    /// The headers of a response whose body is a JSON value.
    #[must_use]
    pub fn json() -> (headers: Self)
        ensures
            headers.says(200, "Ok"@, seq![("Content-Type"@, "application/json"@)]),
    {
        Headers {
            status: 200,
            message: "Ok",
            content_type: vec![("Content-Type", "application/json")],
        }
    }

    /// The headers of a response whose body is the JSON value of an error.
    #[must_use]
    pub fn json_error() -> (headers: Self)
        ensures
            headers.says(500, "Error"@, seq![("Content-Type"@, "application/json"@)]),
    {
        Headers {
            status: 500,
            message: "Error",
            content_type: vec![("Content-Type", "application/json")],
        }
    }

    /// The headers of a response whose value could not be serialized: the
    /// body is plain text, and a header of its own tells the controller to
    /// discard the response.
    #[must_use]
    pub fn serialization_error() -> (headers: Self)
        ensures
            headers.says(
                500,
                "Error"@,
                seq![("Content-Type"@, "text/plain"@), (SERIALIZATION_ERROR@, ""@)],
            ),
    {
        Headers {
            status: 500,
            message: "Error",
            content_type: vec![("Content-Type", "text/plain"), (SERIALIZATION_ERROR, "")],
        }
    }
}

/// The body of a response.
#[derive(Debug, Clone, PartialEq)]
pub struct Body(pub Vec<u8>);

impl Body {
    /// Creates a body without bytes.
    #[must_use]
    pub fn empty() -> (body: Self)
        ensures
            body.0@ == Seq::<u8>::empty(),
    {
        Body(Vec::new())
    }

    /// Creates a body from the bytes of a text.
    #[must_use]
    pub fn static_ref(text: &'static str) -> (body: Self)
        ensures
            body.0@ == text.spec_bytes(),
    {
        Body(text.as_bytes_vec())
    }

    /// Creates a body from bytes.
    #[must_use]
    pub fn owned(bytes: Vec<u8>) -> (body: Self)
        ensures
            body.0 == bytes,
    {
        Body(bytes)
    }
}

/// A response of the server.
#[derive(Debug, Clone, PartialEq)]
pub struct Response {
    /// The status line and the headers.
    pub headers: Headers,
    /// The body.
    pub body: Body,
}

impl Response {
    /// Creates a response.
    #[must_use]
    pub fn new(headers: Headers, body: Body) -> (response: Self)
        ensures
            response.headers == headers,
            response.body == body,
    {
        Response { headers, body }
    }

    /// The answer to a request for an unknown route: no body.
    #[must_use]
    pub fn not_found() -> (response: Self)
        ensures
            response.headers.says(404, "Not Found"@, Seq::empty()),
            response.body.0@ == Seq::<u8>::empty(),
    {
        Response::new(Headers::not_found(), Body::empty())
    }

    /// The answer to a request with a method that the server does not
    /// take.
    #[must_use]
    pub fn not_allowed() -> (response: Self)
        ensures
            response.headers.says(405, "Method Not Allowed"@, Seq::empty()),
            response.body.0@ == "Method not allowed".spec_bytes(),
    {
        Response::new(Headers::not_allowed(), Body::static_ref("Method not allowed"))
    }

    /// The response for a value that was to be serialized as JSON: the
    /// bytes under the given headers where that succeeded, and else the text
    /// of the failure under the headers of a serialization error.
    #[must_use]
    pub fn json_to_response(headers: Headers, serialized: Result<Vec<u8>, String>) -> (response:
        Self)
        ensures
            match serialized {
                Ok(bytes) => response.headers == headers && response.body.0 == bytes,
                Err(failure) => response.headers.says(
                    500,
                    "Error"@,
                    seq![("Content-Type"@, "text/plain"@), (SERIALIZATION_ERROR@, ""@)],
                ) && response.body.0@ == vstd::utf8::encode_utf8(failure@),
            },
    {
        match serialized {
            Ok(bytes) => Response::new(headers, Body::owned(bytes)),
            Err(failure) => Response::new(
                Headers::serialization_error(),
                Body::owned(failure.as_str().as_bytes_vec()),
            ),
        }
    }

    /// The response of a handler: that of its success or that of its error.
    #[must_use]
    pub fn from_result(result: Result<Response, ErrorResponse>) -> (response: Self)
        ensures
            response == match result {
                Ok(value) => value,
                Err(error) => error.0,
            },
    {
        match result {
            Ok(value) => value,
            Err(error) => error.0,
        }
    }
}

/// A response which transmits a concise JSON message over the network to notify
/// a controller that an operation completed successfully.
#[derive(Debug, Clone, PartialEq)]
pub struct OkResponse(pub Response);

/// A response which transmits a JSON message over the network containing
/// the data produced during a device operation.
#[derive(Debug, Clone, PartialEq)]
pub struct SerialResponse(pub Response);

/// A response which transmits a JSON message over the network containing
/// a device energy and economy information.
#[derive(Debug, Clone, PartialEq)]
pub struct InfoResponse(pub Response);

/// What a response says whose value was to be serialized as JSON under the
/// headers of a success.
pub open spec fn is_json_response(response: Response, serialized: Result<Vec<u8>, String>) -> bool {
    match serialized {
        Ok(bytes) => response.headers.says(
            200,
            "Ok"@,
            seq![("Content-Type"@, "application/json"@)],
        ) && response.body.0 == bytes,
        Err(failure) => response.headers.says(
            500,
            "Error"@,
            seq![("Content-Type"@, "text/plain"@), (SERIALIZATION_ERROR@, ""@)],
        ) && response.body.0@ == vstd::utf8::encode_utf8(failure@),
    }
}

impl OkResponse {
    /// Creates an [`OkResponse`] from the outcome of serializing its
    /// message as JSON.
    #[must_use]
    pub fn new(serialized: Result<Vec<u8>, String>) -> (response: Self)
        ensures
            is_json_response(response.0, serialized),
    {
        OkResponse(Response::json_to_response(Headers::json(), serialized))
    }
}

impl SerialResponse {
    /// Creates a [`SerialResponse`] from the outcome of serializing its
    /// value as JSON.
    #[must_use]
    pub fn new(serialized: Result<Vec<u8>, String>) -> (response: Self)
        ensures
            is_json_response(response.0, serialized),
    {
        SerialResponse(Response::json_to_response(Headers::json(), serialized))
    }
}

impl InfoResponse {
    /// Creates an [`InfoResponse`] from the outcome of serializing the
    /// information about the device as JSON.
    #[must_use]
    pub fn new(serialized: Result<Vec<u8>, String>) -> (response: Self)
        ensures
            is_json_response(response.0, serialized),
    {
        InfoResponse(Response::json_to_response(Headers::json(), serialized))
    }
}

/// A response providing details about an error encountered during a
/// device operation.
#[derive(Debug, Clone, PartialEq)]
pub struct ErrorResponse(pub Response);

impl ErrorResponse {
    /// Generates an [`ErrorResponse`] from the outcome of serializing the
    /// description of the error as JSON.
    #[must_use]
    pub fn error(serialized: Result<Vec<u8>, String>) -> (response: Self)
        ensures
            match serialized {
                Ok(bytes) => response.0.headers.says(
                    500,
                    "Error"@,
                    seq![("Content-Type"@, "application/json"@)],
                ) && response.0.body.0 == bytes,
                Err(failure) => response.0.headers.says(
                    500,
                    "Error"@,
                    seq![("Content-Type"@, "text/plain"@), (SERIALIZATION_ERROR@, ""@)],
                ) && response.0.body.0@ == vstd::utf8::encode_utf8(failure@),
            },
    {
        ErrorResponse(Response::json_to_response(Headers::json_error(), serialized))
    }
}

} // verus!
