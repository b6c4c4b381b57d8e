//! The registry of remote globals and binding to them.
//!
//! Binding asks the remote side for a proxy to a global, with the client
//! version of the global's type. The proxy that comes back is checked
//! against the type that the caller asked for: on a mismatch the bind fails
//! and the proxy goes back to the caller to be destroyed, so it never
//! leaks.
use vstd::prelude::*;

use crate::dict::ForeignDict;
use crate::listener::{handler_of, Event, ListenerLocalBuilder, ObjectKind};
use crate::proxy::{proxy_has_type, Proxy, ProxyT};
use crate::types::{interface_name, is_known, type_version, Error, ObjectType};

verus! {

pub const PERM_R: u32 = 0o400;

pub const PERM_W: u32 = 0o200;

pub const PERM_X: u32 = 0o100;

pub const PERM_M: u32 = 0o010;

/// Every permission bit that the protocol defines.
pub const PERM_ALL: u32 = 0o710;

/// The permissions that a client holds on a global.
#[derive(Debug, Clone, Copy, PartialEq, Eq, Structural)]
pub struct Permission {
    bits: u32,
}

/// Whether `bits` holds only defined permission bits.
pub open spec fn valid_permissions(bits: u32) -> bool {
    bits & !PERM_ALL == 0
}

impl Permission {
    pub closed spec fn spec_bits(self) -> u32 {
        self.bits
    }

    /// The permissions of `bits`, or none where `bits` holds an undefined
    /// bit.
    pub fn from_bits(bits: u32) -> (r: Option<Permission>)
        ensures
            r is Some <==> valid_permissions(bits),
            r matches Some(p) ==> p.spec_bits() == bits,
    {
        if bits & !PERM_ALL == 0 {
            Some(Permission { bits })
        } else {
            None
        }
    }

    pub fn bits(&self) -> (r: u32)
        ensures
            r == self.spec_bits(),
    {
        self.bits
    }

    /// Whether every permission of `other` is held.
    pub fn contains(&self, other: Permission) -> (r: bool)
        ensures
            r == (self.spec_bits() & other.spec_bits() == other.spec_bits()),
    {
        self.bits & other.bits == other.bits
    }
}

/// A global that the registry announced.
pub struct GlobalObject {
    pub id: u32,
    pub permissions: Permission,
    pub type_: ObjectType,
    pub version: u32,
    pub props: Option<ForeignDict>,
}

impl GlobalObject {
    /// The global `id` of the type named `type_`, announced with
    /// `permissions`, which must hold only defined bits.
    pub fn new(
        id: u32,
        permissions: u32,
        type_: &str,
        version: u32,
        props: Option<ForeignDict>,
    ) -> (r: GlobalObject)
        requires
            valid_permissions(permissions),
        ensures
            r.id == id,
            r.permissions.spec_bits() == permissions,
            interface_name(r.type_) == type_@,
            r.type_ is Other ==> forall|t: ObjectType| is_known(t) ==> interface_name(t) != type_@,
            r.version == version,
            r.props == props,
    {
        GlobalObject {
            id,
            permissions: Permission { bits: permissions },
            type_: ObjectType::from_str(type_),
            version,
            props,
        }
    }
}

/// What a bind asks the remote side for.
#[derive(Debug)]
pub struct BindRequest {
    /// The global to bind.
    pub global_id: u32,
    /// The interface name of its type.
    pub interface: String,
    /// The client-side version of that interface.
    pub version: u32,
}

/// A failed bind, with the proxy that the caller must destroy, if the
/// remote side created one.
#[derive(Debug)]
pub struct BindFailure {
    pub error: Error,
    pub destroy: Option<Proxy>,
}

/// The registry object of a connection.
#[derive(Debug)]
pub struct Registry {
    proxy: Proxy,
}

impl Registry {
    pub closed spec fn spec_proxy(&self) -> &Proxy {
        &self.proxy
    }

    pub fn new(proxy: Proxy) -> (r: Registry)
        ensures
            r.spec_proxy() == &proxy,
    {
        Registry { proxy }
    }

    /// A builder for a subscription to the registry's events.
    pub fn add_listener_local<H>(&self) -> (r: ListenerLocalBuilder<H>)
        ensures
            r.spec_kind() == ObjectKind::Registry,
            forall|ev: Event| handler_of(r.spec_callbacks(), ev) is None,
    {
        ListenerLocalBuilder::new(ObjectKind::Registry)
    }

    /// What to ask the remote side for to bind `object`, whose type must be
    /// one this library binds.
    pub fn bind_request(&self, object: &GlobalObject) -> (r: BindRequest)
        requires
            is_known(object.type_),
        ensures
            r.global_id == object.id,
            r.interface@ == interface_name(object.type_),
            r.version == type_version(object.type_),
    {
        BindRequest {
            global_id: object.id,
            interface: object.type_.to_str().to_string(),
            version: object.type_.client_version(),
        }
    }

    /// Completes a bind with the proxy that the remote side created, if
    /// any. No proxy means the remote side ran out of memory. A proxy that
    /// does not advertise the type of `T` fails the bind and goes back to
    /// the caller for destruction.
    pub fn bind<T: ProxyT>(&self, created: Option<Proxy>) -> (r: Result<T, BindFailure>)
        ensures
            created is None ==> (r matches Err(f) && f.error == Error::NoMemory && f.destroy is None),
            created is Some && proxy_has_type(&created->0, T::spec_object_type()) ==> (r matches Ok(
                t,
            ) && t.spec_proxy() == &created->0),
            created is Some && !proxy_has_type(&created->0, T::spec_object_type()) ==> (r matches Err(
                f,
            ) && f.error == Error::WrongProxyType && f.destroy == created),
    {
        match created {
            None => Err(BindFailure { error: Error::NoMemory, destroy: None }),
            Some(p) => {
                let wanted = T::type_();
                if crate::dict::str_equal(p.get_type().0, wanted.to_str()) {
                    Ok(T::from_proxy_unchecked(p))
                } else {
                    Err(BindFailure { error: Error::WrongProxyType, destroy: Some(p) })
                }
            },
        }
    }
}

/// Two different known types have different interface names, so a proxy
/// that advertises one never passes the check for the other: binding it as
/// the other always fails with a type mismatch.
pub proof fn lemma_mismatch_fails(requested: ObjectType, advertised: ObjectType, p: Proxy)
    requires
        is_known(requested),
        is_known(advertised),
        requested != advertised,
        proxy_has_type(&p, advertised),
    ensures
        !proxy_has_type(&p, requested),
{
    reveal_strlit("PipeWire:Interface:Client");
    reveal_strlit("PipeWire:Interface:ClientEndpoint");
    reveal_strlit("PipeWire:Interface:ClientNode");
    reveal_strlit("PipeWire:Interface:ClientSession");
    reveal_strlit("PipeWire:Interface:Core");
    reveal_strlit("PipeWire:Interface:Device");
    reveal_strlit("PipeWire:Interface:Endpoint");
    reveal_strlit("PipeWire:Interface:EndpointLink");
    reveal_strlit("PipeWire:Interface:EndpointStream");
    reveal_strlit("PipeWire:Interface:Factory");
    reveal_strlit("PipeWire:Interface:Link");
    reveal_strlit("PipeWire:Interface:Metadata");
    reveal_strlit("PipeWire:Interface:Module");
    reveal_strlit("PipeWire:Interface:Node");
    reveal_strlit("PipeWire:Interface:Port");
    reveal_strlit("PipeWire:Interface:Profiler");
    reveal_strlit("PipeWire:Interface:Registry");
    reveal_strlit("PipeWire:Interface:Session");
    if proxy_has_type(&p, requested) {
        let a = interface_name(requested);
        let b = interface_name(advertised);
        assert(a == b);
        assert(a.len() == b.len());
        assert(a[19] == b[19]);
    }
}

} // verus!
