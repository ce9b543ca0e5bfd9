//! Endpoints: where a socket binds or connects.
//!
//! Over `tcp` an endpoint is a host and a port, written `tcp://<host>:<port>`.
//! Between the processes of one machine it is a path, written `ipc://<path>`,
//! and a port plays no part. There is no third kind: a protocol of any
//! other name gives an error, and no endpoint.

use crate::decimal::{integer_text, write_i32};
use crate::error::{ConfigError, ConfigErrorView};
use vstd::prelude::*;
use vstd::string::*;

verus! {

/// The transports that an endpoint can name.
#[derive(Clone, Copy, Debug, PartialEq, Eq, Structural)]
pub enum Protocol {
    Tcp,
    Ipc,
}

/// Where a socket binds or connects.
#[derive(Debug, PartialEq, Eq)]
pub enum Endpoint {
    /// A port of a host, over TCP.
    Tcp { host: String, port: i32 },
    /// A path on this machine.
    Ipc { path: String },
}

/// An `Endpoint`, its text taken as a sequence of characters.
pub enum EndpointView {
    Tcp { host: Seq<char>, port: i32 },
    Ipc { path: Seq<char> },
}

impl View for Endpoint {
    type V = EndpointView;

    open spec fn view(&self) -> EndpointView {
        match *self {
            Endpoint::Tcp { host, port } => EndpointView::Tcp { host: host@, port },
            Endpoint::Ipc { path } => EndpointView::Ipc { path: path@ },
        }
    }
}

impl EndpointView {
    /// The protocol of the endpoint.
    pub open spec fn protocol(self) -> Protocol {
        match self {
            EndpointView::Tcp { .. } => Protocol::Tcp,
            EndpointView::Ipc { .. } => Protocol::Ipc,
        }
    }

    /// The endpoint as it is written: `tcp://<host>:<port>`, the port in
    /// decimal, or `ipc://<path>`.
    pub open spec fn text(self) -> Seq<char> {
        match self {
            EndpointView::Tcp { host, port } => "tcp"@ + "://"@ + host + ":"@ + integer_text(
                port as int,
            ),
            EndpointView::Ipc { path } => "ipc"@ + "://"@ + path,
        }
    }
}

/// The name of a protocol, as it stands at the head of an endpoint.
pub open spec fn protocol_name(protocol: Protocol) -> Seq<char> {
    match protocol {
        Protocol::Tcp => "tcp"@,
        Protocol::Ipc => "ipc"@,
    }
}

/// The protocol that `name` names, if it names one.
pub open spec fn protocol_named(name: Seq<char>) -> Option<Protocol> {
    if name == "tcp"@ {
        Some(Protocol::Tcp)
    } else if name == "ipc"@ {
        Some(Protocol::Ipc)
    } else {
        None
    }
}

/// The endpoint of `address` and `port` under `protocol`: under `tcp` the
/// address is the host; under `ipc` it is the path, and the port is left out.
pub open spec fn endpoint_of(protocol: Protocol, address: Seq<char>, port: i32) -> EndpointView {
    match protocol {
        Protocol::Tcp => EndpointView::Tcp { host: address, port },
        Protocol::Ipc => EndpointView::Ipc { path: address },
    }
}

/// What resolving the three parts gives: the endpoint, or the protocol name
/// as one that is not supported.
pub open spec fn resolution(name: Seq<char>, address: Seq<char>, port: i32) -> Result<
    EndpointView,
    ConfigErrorView,
> {
    match protocol_named(name) {
        Some(protocol) => Ok(endpoint_of(protocol, address, port)),
        None => Err(ConfigErrorView::UnsupportedProtocol(name)),
    }
}

/// Whether a result is this endpoint, or this error: the two are compared by
/// their views.
pub open spec fn resolves_to(
    r: Result<Endpoint, ConfigError>,
    expected: Result<EndpointView, ConfigErrorView>,
) -> bool {
    match (r, expected) {
        (Ok(endpoint), Ok(view)) => endpoint@ == view,
        (Err(error), Err(view)) => error@ == view,
        _ => false,
    }
}

/// Whether two texts hold the same characters.
pub fn same_text(a: &str, b: &str) -> (same: bool)
    ensures
        same == (a@ == b@),
{
    a.to_owned() == b.to_owned()
}

impl Protocol {
    /// The protocol that `name` names: `tcp` or `ipc`, and nothing else.
    pub fn parse(name: &str) -> (r: Option<Protocol>)
        ensures
            r == protocol_named(name@),
    {
        if same_text(name, "tcp") {
            Some(Protocol::Tcp)
        } else if same_text(name, "ipc") {
            Some(Protocol::Ipc)
        } else {
            None
        }
    }

    /// The name of the protocol.
    pub fn name(self) -> (s: &'static str)
        ensures
            s@ == protocol_name(self),
    {
        match self {
            Protocol::Tcp => "tcp",
            Protocol::Ipc => "ipc",
        }
    }
}

impl Endpoint {
    /// The endpoint of `address` and `port` under `protocol`.
    pub fn new(protocol: Protocol, address: &str, port: i32) -> (endpoint: Endpoint)
        ensures
            endpoint@ == endpoint_of(protocol, address@, port),
    {
        match protocol {
            Protocol::Tcp => Endpoint::Tcp { host: address.to_owned(), port },
            Protocol::Ipc => Endpoint::Ipc { path: address.to_owned() },
        }
    }

    /// The protocol of the endpoint.
    pub fn protocol(&self) -> (protocol: Protocol)
        ensures
            protocol == self@.protocol(),
    {
        match self {
            Endpoint::Tcp { .. } => Protocol::Tcp,
            Endpoint::Ipc { .. } => Protocol::Ipc,
        }
    }

    /// The endpoint as it is written, and as a socket takes it.
    pub fn text(&self) -> (s: String)
        ensures
            s@ == self@.text(),
    {
        let mut s = String::from_str(self.protocol().name());
        s.append("://");
        match self {
            Endpoint::Tcp { host, port } => {
                s.append(host.as_str());
                s.append(":");
                write_i32(&mut s, *port);
            },
            Endpoint::Ipc { path } => {
                s.append(path.as_str());
            },
        }
        s
    }
}

/// The endpoint that a protocol name, an address and a port name together.
///
/// Succeeds exactly when `protocol` is `tcp` or `ipc`; any other name comes
/// back as `ConfigError::UnsupportedProtocol`. Nothing is done but to look
/// at the name and to keep the parts.
pub fn resolve(protocol: &str, address: &str, port: i32) -> (r: Result<Endpoint, ConfigError>)
    ensures
        resolves_to(r, resolution(protocol@, address@, port)),
{
    match Protocol::parse(protocol) {
        Some(p) => Ok(Endpoint::new(p, address, port)),
        None => Err(ConfigError::UnsupportedProtocol(protocol.to_owned())),
    }
}

} // verus!
