//! Object types of the remote protocol and the crate's error type.
use vstd::prelude::*;

use crate::dict::str_equal;

verus! {

/// Errors of the remote object operations.
#[derive(Debug, Clone, Copy, PartialEq, Eq, Structural)]
pub enum Error {
    /// The native side could not create the object.
    CreationFailed,
    /// The native side returned no object: it ran out of memory.
    NoMemory,
    /// A remote object is not of the type that the caller asked for.
    WrongProxyType,
}

/// Client-side interface version of `Client` objects.
pub const VERSION_CLIENT: u32 = 3;

/// Client-side interface version of `ClientEndpoint` objects.
pub const VERSION_CLIENT_ENDPOINT: u32 = 0;

/// Client-side interface version of `ClientNode` objects.
pub const VERSION_CLIENT_NODE: u32 = 3;

/// Client-side interface version of `ClientSession` objects.
pub const VERSION_CLIENT_SESSION: u32 = 0;

/// Client-side interface version of `Core` objects.
pub const VERSION_CORE: u32 = 3;

/// Client-side interface version of `Device` objects.
pub const VERSION_DEVICE: u32 = 3;

/// Client-side interface version of `Endpoint` objects.
pub const VERSION_ENDPOINT: u32 = 0;

/// Client-side interface version of `EndpointLink` objects.
pub const VERSION_ENDPOINT_LINK: u32 = 0;

/// Client-side interface version of `EndpointStream` objects.
pub const VERSION_ENDPOINT_STREAM: u32 = 0;

/// Client-side interface version of `Factory` objects.
pub const VERSION_FACTORY: u32 = 3;

/// Client-side interface version of `Link` objects.
pub const VERSION_LINK: u32 = 3;

/// Client-side interface version of `Metadata` objects.
pub const VERSION_METADATA: u32 = 3;

/// Client-side interface version of `Module` objects.
pub const VERSION_MODULE: u32 = 3;

/// Client-side interface version of `Node` objects.
pub const VERSION_NODE: u32 = 3;

/// Client-side interface version of `Port` objects.
pub const VERSION_PORT: u32 = 3;

/// Client-side interface version of `Profiler` objects.
pub const VERSION_PROFILER: u32 = 3;

/// Client-side interface version of `Registry` objects.
pub const VERSION_REGISTRY: u32 = 3;

/// Client-side interface version of `Session` objects.
pub const VERSION_SESSION: u32 = 0;

/// The type of a remote object, by interface name.
#[derive(Debug, Clone, PartialEq)]
pub enum ObjectType {
    Client,
    ClientEndpoint,
    ClientNode,
    ClientSession,
    Core,
    Device,
    Endpoint,
    EndpointLink,
    EndpointStream,
    Factory,
    Link,
    Metadata,
    Module,
    Node,
    Port,
    Profiler,
    Registry,
    Session,
    /// A type this library has no binding for, by its full name.
    Other(String),
}

/// The full interface name of a type.
pub open spec fn interface_name(t: ObjectType) -> Seq<char> {
    match t {
        ObjectType::Client => "PipeWire:Interface:Client"@,
        ObjectType::ClientEndpoint => "PipeWire:Interface:ClientEndpoint"@,
        ObjectType::ClientNode => "PipeWire:Interface:ClientNode"@,
        ObjectType::ClientSession => "PipeWire:Interface:ClientSession"@,
        ObjectType::Core => "PipeWire:Interface:Core"@,
        ObjectType::Device => "PipeWire:Interface:Device"@,
        ObjectType::Endpoint => "PipeWire:Interface:Endpoint"@,
        ObjectType::EndpointLink => "PipeWire:Interface:EndpointLink"@,
        ObjectType::EndpointStream => "PipeWire:Interface:EndpointStream"@,
        ObjectType::Factory => "PipeWire:Interface:Factory"@,
        ObjectType::Link => "PipeWire:Interface:Link"@,
        ObjectType::Metadata => "PipeWire:Interface:Metadata"@,
        ObjectType::Module => "PipeWire:Interface:Module"@,
        ObjectType::Node => "PipeWire:Interface:Node"@,
        ObjectType::Port => "PipeWire:Interface:Port"@,
        ObjectType::Profiler => "PipeWire:Interface:Profiler"@,
        ObjectType::Registry => "PipeWire:Interface:Registry"@,
        ObjectType::Session => "PipeWire:Interface:Session"@,
        ObjectType::Other(s) => s@,
    }
}

/// The client-side interface version of a known type.
pub open spec fn type_version(t: ObjectType) -> u32 {
    match t {
        ObjectType::Client => VERSION_CLIENT,
        ObjectType::ClientEndpoint => VERSION_CLIENT_ENDPOINT,
        ObjectType::ClientNode => VERSION_CLIENT_NODE,
        ObjectType::ClientSession => VERSION_CLIENT_SESSION,
        ObjectType::Core => VERSION_CORE,
        ObjectType::Device => VERSION_DEVICE,
        ObjectType::Endpoint => VERSION_ENDPOINT,
        ObjectType::EndpointLink => VERSION_ENDPOINT_LINK,
        ObjectType::EndpointStream => VERSION_ENDPOINT_STREAM,
        ObjectType::Factory => VERSION_FACTORY,
        ObjectType::Link => VERSION_LINK,
        ObjectType::Metadata => VERSION_METADATA,
        ObjectType::Module => VERSION_MODULE,
        ObjectType::Node => VERSION_NODE,
        ObjectType::Port => VERSION_PORT,
        ObjectType::Profiler => VERSION_PROFILER,
        ObjectType::Registry => VERSION_REGISTRY,
        ObjectType::Session => VERSION_SESSION,
        ObjectType::Other(_) => 0,
    }
}

/// A type that this library has a binding for.
pub open spec fn is_known(t: ObjectType) -> bool {
    !(t is Other)
}

impl ObjectType {
    /// The type named `s`: the known type of that name, else `Other(s)`.
    pub fn from_str(s: &str) -> (r: ObjectType)
        ensures
            interface_name(r) == s@,
            r is Other ==> forall|t: ObjectType| is_known(t) ==> interface_name(t) != s@,
    {
        if str_equal(s, "PipeWire:Interface:Client") {
            return ObjectType::Client;
        }
        if str_equal(s, "PipeWire:Interface:ClientEndpoint") {
            return ObjectType::ClientEndpoint;
        }
        if str_equal(s, "PipeWire:Interface:ClientNode") {
            return ObjectType::ClientNode;
        }
        if str_equal(s, "PipeWire:Interface:ClientSession") {
            return ObjectType::ClientSession;
        }
        if str_equal(s, "PipeWire:Interface:Core") {
            return ObjectType::Core;
        }
        if str_equal(s, "PipeWire:Interface:Device") {
            return ObjectType::Device;
        }
        if str_equal(s, "PipeWire:Interface:Endpoint") {
            return ObjectType::Endpoint;
        }
        if str_equal(s, "PipeWire:Interface:EndpointLink") {
            return ObjectType::EndpointLink;
        }
        if str_equal(s, "PipeWire:Interface:EndpointStream") {
            return ObjectType::EndpointStream;
        }
        if str_equal(s, "PipeWire:Interface:Factory") {
            return ObjectType::Factory;
        }
        if str_equal(s, "PipeWire:Interface:Link") {
            return ObjectType::Link;
        }
        if str_equal(s, "PipeWire:Interface:Metadata") {
            return ObjectType::Metadata;
        }
        if str_equal(s, "PipeWire:Interface:Module") {
            return ObjectType::Module;
        }
        if str_equal(s, "PipeWire:Interface:Node") {
            return ObjectType::Node;
        }
        if str_equal(s, "PipeWire:Interface:Port") {
            return ObjectType::Port;
        }
        if str_equal(s, "PipeWire:Interface:Profiler") {
            return ObjectType::Profiler;
        }
        if str_equal(s, "PipeWire:Interface:Registry") {
            return ObjectType::Registry;
        }
        if str_equal(s, "PipeWire:Interface:Session") {
            return ObjectType::Session;
        }
        ObjectType::Other(s.to_string())
    }

    /// The full interface name.
    pub fn to_str(&self) -> (r: &str)
        ensures
            r@ == interface_name(*self),
    {
        match self {
            ObjectType::Client => "PipeWire:Interface:Client",
            ObjectType::ClientEndpoint => "PipeWire:Interface:ClientEndpoint",
            ObjectType::ClientNode => "PipeWire:Interface:ClientNode",
            ObjectType::ClientSession => "PipeWire:Interface:ClientSession",
            ObjectType::Core => "PipeWire:Interface:Core",
            ObjectType::Device => "PipeWire:Interface:Device",
            ObjectType::Endpoint => "PipeWire:Interface:Endpoint",
            ObjectType::EndpointLink => "PipeWire:Interface:EndpointLink",
            ObjectType::EndpointStream => "PipeWire:Interface:EndpointStream",
            ObjectType::Factory => "PipeWire:Interface:Factory",
            ObjectType::Link => "PipeWire:Interface:Link",
            ObjectType::Metadata => "PipeWire:Interface:Metadata",
            ObjectType::Module => "PipeWire:Interface:Module",
            ObjectType::Node => "PipeWire:Interface:Node",
            ObjectType::Port => "PipeWire:Interface:Port",
            ObjectType::Profiler => "PipeWire:Interface:Profiler",
            ObjectType::Registry => "PipeWire:Interface:Registry",
            ObjectType::Session => "PipeWire:Interface:Session",
            ObjectType::Other(s) => s.as_str(),
        }
    }

    /// The interface version a client binds to; only known types have one.
    pub fn client_version(&self) -> (r: u32)
        requires
            is_known(*self),
        ensures
            r == type_version(*self),
    {
        match self {
            ObjectType::Client => VERSION_CLIENT,
            ObjectType::ClientEndpoint => VERSION_CLIENT_ENDPOINT,
            ObjectType::ClientNode => VERSION_CLIENT_NODE,
            ObjectType::ClientSession => VERSION_CLIENT_SESSION,
            ObjectType::Core => VERSION_CORE,
            ObjectType::Device => VERSION_DEVICE,
            ObjectType::Endpoint => VERSION_ENDPOINT,
            ObjectType::EndpointLink => VERSION_ENDPOINT_LINK,
            ObjectType::EndpointStream => VERSION_ENDPOINT_STREAM,
            ObjectType::Factory => VERSION_FACTORY,
            ObjectType::Link => VERSION_LINK,
            ObjectType::Metadata => VERSION_METADATA,
            ObjectType::Module => VERSION_MODULE,
            ObjectType::Node => VERSION_NODE,
            ObjectType::Port => VERSION_PORT,
            ObjectType::Profiler => VERSION_PROFILER,
            ObjectType::Registry => VERSION_REGISTRY,
            ObjectType::Session => VERSION_SESSION,
            ObjectType::Other(_) => 0,
        }
    }
}

} // verus!
