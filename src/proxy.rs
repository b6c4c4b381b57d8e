//! Local references to objects that the remote side tracks.
//!
//! A proxy carries the identity that the remote side assigned, the type the
//! remote side advertises for it and its interface version. It moves from
//! unbound to bound to a global, and the remote side may later report it
//! removed, which is final. Destroying a proxy consumes it, so the remote
//! side hears of the destruction exactly once.
use vstd::prelude::*;

use crate::listener::{handler_of, Event, ListenerLocalBuilder, ObjectKind};
use crate::types::{interface_name, ObjectType};

verus! {

/// Where a remote object stands as seen from here.
#[derive(Debug, Clone, Copy, PartialEq, Eq, Structural)]
pub enum ProxyState {
    /// Not yet bound to a global.
    Unbound,
    /// Bound to the global of this id.
    Bound(u32),
    /// The remote side removed the object; local resources remain until
    /// the proxy is destroyed.
    Removed,
}

/// A local reference to a remote object.
#[derive(Debug)]
pub struct Proxy {
    id: u32,
    advertised: String,
    version: u32,
    state: ProxyState,
}

impl Proxy {
    pub closed spec fn spec_id(&self) -> u32 {
        self.id
    }

    /// The type name that the remote side advertises.
    pub closed spec fn spec_advertised(&self) -> Seq<char> {
        self.advertised@
    }

    pub closed spec fn spec_version(&self) -> u32 {
        self.version
    }

    pub closed spec fn spec_state(&self) -> ProxyState {
        self.state
    }

    /// A fresh, unbound proxy for the object `id` of the advertised type
    /// `advertised` at `version`.
    pub fn new(id: u32, advertised: String, version: u32) -> (r: Proxy)
        ensures
            r.spec_id() == id,
            r.spec_advertised() == advertised@,
            r.spec_version() == version,
            r.spec_state() == ProxyState::Unbound,
    {
        Proxy { id, advertised, version, state: ProxyState::Unbound }
    }

    pub fn id(&self) -> (r: u32)
        ensures
            r == self.spec_id(),
    {
        self.id
    }

    /// The advertised type name and the version.
    pub fn get_type(&self) -> (r: (&str, u32))
        ensures
            r.0@ == self.spec_advertised(),
            r.1 == self.spec_version(),
    {
        (self.advertised.as_str(), self.version)
    }

    pub fn state(&self) -> (r: ProxyState)
        ensures
            r == self.spec_state(),
    {
        self.state
    }

    /// The remote side bound the object to the global `global_id`. A
    /// removed object stays removed.
    pub fn on_bound(&mut self, global_id: u32)
        ensures
            final(self).spec_id() == old(self).spec_id(),
            final(self).spec_advertised() == old(self).spec_advertised(),
            final(self).spec_version() == old(self).spec_version(),
            final(self).spec_state() == if old(self).spec_state() == ProxyState::Removed {
                ProxyState::Removed
            } else {
                ProxyState::Bound(global_id)
            },
    {
        if self.state != ProxyState::Removed {
            self.state = ProxyState::Bound(global_id);
        }
    }

    /// The remote side removed the object.
    pub fn on_removed(&mut self)
        ensures
            final(self).spec_id() == old(self).spec_id(),
            final(self).spec_advertised() == old(self).spec_advertised(),
            final(self).spec_version() == old(self).spec_version(),
            final(self).spec_state() == ProxyState::Removed,
    {
        self.state = ProxyState::Removed;
    }

    /// A builder for a subscription to the proxy's own events.
    pub fn add_listener_local<H>(&self) -> (r: ListenerLocalBuilder<H>)
        ensures
            r.spec_kind() == ObjectKind::Proxy,
            forall|ev: Event| handler_of(r.spec_callbacks(), ev) is None,
    {
        ListenerLocalBuilder::new(ObjectKind::Proxy)
    }

    /// Ends the proxy; the result is the id whose destruction the remote
    /// side must be told of. Taking the proxy by value makes that happen once.
    pub fn destroy(self) -> (r: u32)
        ensures
            r == self.spec_id(),
    {
        self.id
    }
}

/// A typed wrapper over a proxy of one object type.
pub trait ProxyT: Sized {
    /// The object type this wrapper stands for.
    spec fn spec_object_type() -> ObjectType;

    /// The proxy inside.
    spec fn spec_proxy(&self) -> &Proxy;

    fn type_() -> (r: ObjectType)
        ensures
            r == Self::spec_object_type(),
    ;

    fn upcast(self) -> (r: Proxy)
        ensures
            &r == self.spec_proxy(),
    ;

    fn upcast_ref(&self) -> (r: &Proxy)
        ensures
            r == self.spec_proxy(),
    ;

    /// Wraps `proxy` without checking its type.
    fn from_proxy_unchecked(proxy: Proxy) -> (r: Self)
        ensures
            r.spec_proxy() == &proxy,
    ;
}

/// Whether `proxy` advertises the type `t`.
pub open spec fn proxy_has_type(proxy: &Proxy, t: ObjectType) -> bool {
    proxy.spec_advertised() == interface_name(t)
}

/// A media processing node.
#[derive(Debug)]
pub struct Node {
    proxy: Proxy,
}

impl ProxyT for Node {
    open spec fn spec_object_type() -> ObjectType {
        ObjectType::Node
    }

    closed spec fn spec_proxy(&self) -> &Proxy {
        &self.proxy
    }

    fn type_() -> (r: ObjectType) {
        ObjectType::Node
    }

    fn upcast(self) -> (r: Proxy) {
        self.proxy
    }

    fn upcast_ref(&self) -> (r: &Proxy) {
        &self.proxy
    }

    fn from_proxy_unchecked(proxy: Proxy) -> (r: Self) {
        Node { proxy }
    }
}

/// A port of a node.
#[derive(Debug)]
pub struct Port {
    proxy: Proxy,
}

impl ProxyT for Port {
    open spec fn spec_object_type() -> ObjectType {
        ObjectType::Port
    }

    closed spec fn spec_proxy(&self) -> &Proxy {
        &self.proxy
    }

    fn type_() -> (r: ObjectType) {
        ObjectType::Port
    }

    fn upcast(self) -> (r: Proxy) {
        self.proxy
    }

    fn upcast_ref(&self) -> (r: &Proxy) {
        &self.proxy
    }

    fn from_proxy_unchecked(proxy: Proxy) -> (r: Self) {
        Port { proxy }
    }
}

/// A link between two ports.
#[derive(Debug)]
pub struct Link {
    proxy: Proxy,
}

impl ProxyT for Link {
    open spec fn spec_object_type() -> ObjectType {
        ObjectType::Link
    }

    closed spec fn spec_proxy(&self) -> &Proxy {
        &self.proxy
    }

    fn type_() -> (r: ObjectType) {
        ObjectType::Link
    }

    fn upcast(self) -> (r: Proxy) {
        self.proxy
    }

    fn upcast_ref(&self) -> (r: &Proxy) {
        &self.proxy
    }

    fn from_proxy_unchecked(proxy: Proxy) -> (r: Self) {
        Link { proxy }
    }
}

impl Node {
    /// A builder for a subscription to the events of the node.
    pub fn add_listener_local<H>(&self) -> (r: ListenerLocalBuilder<H>)
        ensures
            r.spec_kind() == ObjectKind::Node,
            forall|ev: Event| handler_of(r.spec_callbacks(), ev) is None,
    {
        ListenerLocalBuilder::new(ObjectKind::Node)
    }
}

impl Port {
    /// A builder for a subscription to the events of the port.
    pub fn add_listener_local<H>(&self) -> (r: ListenerLocalBuilder<H>)
        ensures
            r.spec_kind() == ObjectKind::Port,
            forall|ev: Event| handler_of(r.spec_callbacks(), ev) is None,
    {
        ListenerLocalBuilder::new(ObjectKind::Port)
    }
}

impl Link {
    /// A builder for a subscription to the events of the link.
    pub fn add_listener_local<H>(&self) -> (r: ListenerLocalBuilder<H>)
        ensures
            r.spec_kind() == ObjectKind::Link,
            forall|ev: Event| handler_of(r.spec_callbacks(), ev) is None,
    {
        ListenerLocalBuilder::new(ObjectKind::Link)
    }
}

} // verus!
