//! The settings of the server of a device.

use vstd::prelude::*;

use vstd::string::StrSliceExecFns;

use crate::firmware::mdns::Mdns;
use crate::request::RestKind;

verus! {

/// Default port.
pub const DEFAULT_SERVER_PORT: u16 = 80;

/// The maximum number of clients the server can support simultaneously.
pub const NUMBER_OF_CLIENTS: usize = 2;

/// Maximum request size in bytes.
pub const MAXIMUM_REQUEST_SIZE: usize = 128;

/// The method of a request.
#[derive(Debug, Clone, Copy, PartialEq, Eq, Structural)]
pub enum Method {
    /// `GET`
    Get,
    /// `PUT`
    Put,
    /// `POST`
    Post,
    /// `DELETE`
    Delete,
    /// Any other method.
    Other,
}

/// Returns the method of the requests that a route of the given kind takes.
#[must_use]
pub fn method_map(kind: RestKind) -> (method: Method)
    ensures
        method == match kind {
            RestKind::Get => Method::Get,
            RestKind::Put => Method::Put,
            RestKind::Post => Method::Post,
            RestKind::Delete => Method::Delete,
        },
{
    match kind {
        RestKind::Get => Method::Get,
        RestKind::Put => Method::Put,
        RestKind::Post => Method::Post,
        RestKind::Delete => Method::Delete,
    }
}

/// Checks a method against those that the server takes, which are `GET`,
/// `POST`, `PUT` and `DELETE`: the answer is `true` for a method that is
/// none of them, whose requests the server refuses.
#[must_use]
pub fn is_method_allowed(method: Method) -> (refused: bool)
    ensures
        refused == (method == Method::Other),
{
    !matches!(method, Method::Get | Method::Post | Method::Put | Method::Delete)
}

/// The kind of the handler of a route: what it answers with, and whether
/// it is given the state of the device.
#[derive(Debug, Clone, Copy, PartialEq, Eq, Structural)]
pub enum FuncType {
    /// Answers with an `Ok` response; takes no state.
    OkStateless,
    /// Answers with an `Ok` response; takes the state.
    OkStateful,
    /// Answers with a serial response; takes no state.
    SerialStateless,
    /// Answers with a serial response; takes the state.
    SerialStateful,
    /// Answers with an info response; takes no state.
    InfoStateless,
    /// Answers with an info response; takes the state.
    InfoStateful,
}

/// Where the handler of a route is found: among the handlers of its kind,
/// at a position.
#[derive(Debug, Clone, Copy, PartialEq, Eq, Structural)]
pub struct FuncIndex {
    /// The kind of the handler.
    pub func_type: FuncType,
    /// The position of the handler among those of its kind.
    pub index: usize,
}

impl FuncIndex {
    /// Creates a [`FuncIndex`].
    #[must_use]
    pub fn new(func_type: FuncType, index: usize) -> (func_index: Self)
        ensures
            func_index.func_type == func_type,
            func_index.index == index,
    {
        FuncIndex { func_type, index }
    }
}

/// Which parts of the server run under a timeout, each with its time in
/// milliseconds.
#[derive(Debug, Clone, Copy, PartialEq, Eq, Structural)]
pub enum Timeouts {
    /// Neither the socket nor the handlers.
    Neither,
    /// The operations on the socket.
    Socket(u32),
    /// The handlers.
    Handler(u32),
    /// The operations on the socket, then the handlers.
    Both(u32, u32),
}

/// The settings of the server of a device.
#[derive(Debug, Clone, Copy, PartialEq, Eq, Structural)]
pub struct Server {
    /// The port on which the server listens for incoming connections.
    pub port: u16,
    /// Milliseconds after which an idle keep-alive connection is closed, if
    /// it ever is.
    pub keepalive_timeout_ms: Option<u32>,
    /// Milliseconds that an operation on the socket may take, if bounded.
    pub io_timeout_ms: Option<u32>,
    /// Milliseconds that a handler may take, if bounded.
    pub handler_timeout_ms: Option<u32>,
    /// Whether the scheme is `HTTPS`.
    pub is_https: bool,
}

impl Server {
    /// Creates a [`Server`] with the default settings: port 80, no
    /// timeouts, not `HTTPS`.
    #[must_use]
    pub fn new() -> (server: Self)
        ensures
            server == (Server {
                port: DEFAULT_SERVER_PORT,
                keepalive_timeout_ms: None,
                io_timeout_ms: None,
                handler_timeout_ms: None,
                is_https: false,
            }),
    {
        Server {
            port: DEFAULT_SERVER_PORT,
            keepalive_timeout_ms: None,
            io_timeout_ms: None,
            handler_timeout_ms: None,
            is_https: false,
        }
    }

    /// Sets the port number for the server to listen on.
    #[must_use]
    pub fn port(self, port: u16) -> (server: Self)
        ensures
            server == (Server { port, ..self }),
    {
        Server { port, ..self }
    }

    /// Sets the timeout (in milliseconds) for persistent HTTP keep-alive connections.
    #[must_use]
    pub fn keepalive_timeout(self, timeout_ms: u32) -> (server: Self)
        ensures
            server == (Server { keepalive_timeout_ms: Some(timeout_ms), ..self }),
    {
        Server { keepalive_timeout_ms: Some(timeout_ms), ..self }
    }

    /// Sets the timeout (in milliseconds) for socket I/O operations.
    #[must_use]
    pub fn io_timeout(self, timeout_ms: u32) -> (server: Self)
        ensures
            server == (Server { io_timeout_ms: Some(timeout_ms), ..self }),
    {
        Server { io_timeout_ms: Some(timeout_ms), ..self }
    }

    /// Sets the timeout (in milliseconds) for handler execution.
    #[must_use]
    pub fn handler_timeout(self, timeout_ms: u32) -> (server: Self)
        ensures
            server == (Server { handler_timeout_ms: Some(timeout_ms), ..self }),
    {
        Server { handler_timeout_ms: Some(timeout_ms), ..self }
    }

    /// Sets the scheme to `HTTPS`.
    #[must_use]
    pub fn https(self) -> (server: Self)
        ensures
            server == (Server { is_https: true, ..self }),
    {
        Server { is_https: true, ..self }
    }

    /// Gives the discovery service as the server announces it: with the
    /// scheme among its properties where the scheme is `HTTPS`, and else as
    /// it is.
    #[must_use]
    pub fn announce(&self, mdns: Mdns) -> (announced: Mdns)
        ensures
            self.is_https ==> announced.hostname == mdns.hostname && announced.service
                == mdns.service && announced.service_type == mdns.service_type
                && announced.time_to_live == mdns.time_to_live && announced.properties@.len() == 1
                && announced.properties@[0].0@ == "scheme"@ && announced.properties@[0].1@
                == "https"@,
            !self.is_https ==> announced == mdns,
    {
        if self.is_https {
            mdns.properties(vec![("scheme", "https")])
        } else {
            mdns
        }
    }

    /// Says which parts of the server run under a timeout.
    #[must_use]
    pub fn run(&self) -> (timeouts: Timeouts)
        ensures
            timeouts == match (self.io_timeout_ms, self.handler_timeout_ms) {
                (Some(socket), Some(handler)) => Timeouts::Both(socket, handler),
                (Some(socket), None) => Timeouts::Socket(socket),
                (None, Some(handler)) => Timeouts::Handler(handler),
                (None, None) => Timeouts::Neither,
            },
    {
        match (self.io_timeout_ms, self.handler_timeout_ms) {
            (Some(socket), Some(handler)) => Timeouts::Both(socket, handler),
            (Some(socket), None) => Timeouts::Socket(socket),
            (None, Some(handler)) => Timeouts::Handler(handler),
            (None, None) => Timeouts::Neither,
        }
    }
}

/// How the server deals with a request, by its path and its method.
#[derive(Debug, Clone, Copy, PartialEq, Eq, Structural)]
pub enum Handling {
    /// Answer with the description of the device.
    MainRoute,
    /// Answer that the method is not allowed.
    NotAllowed,
    /// Look for the route of the request and run its handler.
    Route,
}

/// Decides how the server deals with a request: a request for the path `/`
/// is answered with the description of the device, whatever its method;
/// any other request with a method that the server does not take is
/// refused; the rest is routed.
#[must_use]
pub fn handle(path: &str, method: Method) -> (handling: Handling)
    ensures
        handling == if path@ == seq!['/'] {
            Handling::MainRoute
        } else if method == Method::Other {
            Handling::NotAllowed
        } else {
            Handling::Route
        },
{
    let is_root = path.unicode_len() == 1 && path.get_char(0) == '/';
    assert(is_root == (path@ =~= seq!['/']));
    if is_root {
        Handling::MainRoute
    } else if is_method_allowed(method) {
        Handling::NotAllowed
    } else {
        Handling::Route
    }
}

} // verus!
