use pipewire_core::proxy::{Link, Node, Port, Proxy, ProxyState, ProxyT};
use pipewire_core::registry::{GlobalObject, Permission, Registry, PERM_R, PERM_X};
use pipewire_core::types::{Error, ObjectType};

fn registry() -> Registry {
    Registry::new(Proxy::new(2, "PipeWire:Interface:Registry".to_string(), 3))
}

#[test]
fn bind_matching_type_succeeds() {
    let reg = registry();
    let p = Proxy::new(40, "PipeWire:Interface:Node".to_string(), 3);
    let node: Node = reg.bind(Some(p)).ok().unwrap();
    assert_eq!(40, node.upcast_ref().id());
    assert_eq!(("PipeWire:Interface:Node", 3), node.upcast_ref().get_type());
}

#[test]
fn bind_without_proxy_is_out_of_memory() {
    let reg = registry();
    let r: Result<Node, _> = reg.bind(None);
    let f = r.err().unwrap();
    assert_eq!(Error::NoMemory, f.error);
    assert!(f.destroy.is_none());
}

#[test]
fn bind_mismatch_fails_and_returns_proxy_for_destruction() {
    let reg = registry();
    let types = [ObjectType::Node, ObjectType::Port, ObjectType::Link, ObjectType::Client, ObjectType::Device];
    for advertised in types.iter() {
        let mk = || Proxy::new(9, advertised.to_str().to_string(), 3);
        let checks: [(ObjectType, bool); 3] = [
            (ObjectType::Node, reg.bind::<Node>(Some(mk())).is_ok()),
            (ObjectType::Port, reg.bind::<Port>(Some(mk())).is_ok()),
            (ObjectType::Link, reg.bind::<Link>(Some(mk())).is_ok()),
        ];
        for (requested, ok) in checks.iter() {
            assert_eq!(requested == advertised, *ok);
        }
        if *advertised != ObjectType::Port {
            let f = reg.bind::<Port>(Some(mk())).err().unwrap();
            assert_eq!(Error::WrongProxyType, f.error);
            let p = f.destroy.unwrap();
            assert_eq!(9, p.destroy());
        }
    }
}

#[test]
fn bind_request_uses_client_version() {
    let reg = registry();
    let g = GlobalObject::new(31, PERM_R | PERM_X, "PipeWire:Interface:Client", 3, None);
    assert_eq!(ObjectType::Client, g.type_);
    assert_eq!(PERM_R | PERM_X, g.permissions.bits());
    let req = reg.bind_request(&g);
    assert_eq!(31, req.global_id);
    assert_eq!("PipeWire:Interface:Client", req.interface);
    assert_eq!(3, req.version);
}

#[test]
fn permissions_reject_unknown_bits() {
    assert!(Permission::from_bits(0o710).is_some());
    assert!(Permission::from_bits(0o001).is_none());
    let p = Permission::from_bits(PERM_R | PERM_X).unwrap();
    assert!(p.contains(Permission::from_bits(PERM_R).unwrap()));
    assert!(!p.contains(Permission::from_bits(0o200).unwrap()));
}

#[test]
fn proxy_state_machine() {
    let mut p = Proxy::new(5, "PipeWire:Interface:Link".to_string(), 3);
    assert_eq!(ProxyState::Unbound, p.state());
    p.on_bound(77);
    assert_eq!(ProxyState::Bound(77), p.state());
    p.on_removed();
    assert_eq!(ProxyState::Removed, p.state());
    p.on_bound(78);
    assert_eq!(ProxyState::Removed, p.state());
    assert_eq!(5, p.destroy());
}
