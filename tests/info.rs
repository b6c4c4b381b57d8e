use pipewire_core::context::Context;
use pipewire_core::dict::ForeignDict;
use pipewire_core::info::{
    ChangeMask, Direction, Info, LinkInfo, LinkState, NodeInfo, NodeState, PortInfo, NODE_CHANGE_ALL,
    NODE_CHANGE_STATE,
};
use pipewire_core::listener::ObjectKind;
use pipewire_core::main_loop::MainLoop;
use pipewire_core::types::Error;

fn node(state: i32, error: Option<&str>) -> NodeInfo {
    NodeInfo {
        id: 4,
        max_input_ports: 8,
        max_output_ports: 2,
        change_mask: NODE_CHANGE_STATE,
        n_input_ports: 1,
        n_output_ports: 0,
        state,
        error: error.map(|e| e.to_string()),
        props: None,
    }
}

fn link(state: i32, error: Option<&str>) -> LinkInfo {
    LinkInfo {
        id: 9,
        output_node_id: 1,
        output_port_id: 2,
        input_node_id: 3,
        input_port_id: 4,
        change_mask: 5,
        state,
        error: error.map(|e| e.to_string()),
        props: Some(ForeignDict::from_items(vec![(b"k".to_vec(), b"v".to_vec())], 0)),
    }
}

#[test]
fn node_states_decode() {
    assert_eq!(NodeState::Error("broken"), node(-1, Some("broken")).state());
    assert_eq!(NodeState::Creating, node(0, None).state());
    assert_eq!(NodeState::Suspended, node(1, None).state());
    assert_eq!(NodeState::Idle, node(2, None).state());
    assert_eq!(NodeState::Running, node(3, None).state());
    let n = node(3, None);
    assert_eq!(4, n.id());
    assert_eq!(8, n.max_input_ports());
    assert_eq!(2, n.max_output_ports());
    assert_eq!(1, n.n_input_ports());
    assert_eq!(0, n.n_output_ports());
    assert_eq!(NODE_CHANGE_STATE, n.change_mask().bits());
    assert!(n.props().is_none());
}

#[test]
fn link_states_decode() {
    assert_eq!(LinkState::Error("no format"), link(-2, Some("no format")).state());
    assert_eq!(LinkState::Unlinked, link(-1, None).state());
    assert_eq!(LinkState::Init, link(0, None).state());
    assert_eq!(LinkState::Negotiating, link(1, None).state());
    assert_eq!(LinkState::Allocating, link(2, None).state());
    assert_eq!(LinkState::Paused, link(3, None).state());
    assert_eq!(LinkState::Active, link(4, None).state());
    let l = link(4, None);
    assert_eq!((9, 1, 2, 3, 4), (l.id(), l.output_node_id(), l.output_port_id(), l.input_node_id(), l.input_port_id()));
    assert_eq!(5, l.change_mask().bits());
    assert_eq!(Some("v"), l.props().unwrap().get("k"));
}

#[test]
fn port_direction_decodes() {
    let mut p = PortInfo { id: 3, direction: 0, change_mask: 2, props: None };
    assert_eq!(Direction::Input, p.direction());
    p.direction = 1;
    assert_eq!(Direction::Output, p.direction());
    assert_eq!(3, p.id());
    assert_eq!(2, p.change_mask().bits());
}

#[test]
fn change_masks_reject_unknown_flags() {
    assert!(ChangeMask::from_bits(NODE_CHANGE_ALL, NODE_CHANGE_ALL).is_some());
    assert!(ChangeMask::from_bits(32, NODE_CHANGE_ALL).is_none());
    let m = ChangeMask::from_bits(5, 7).unwrap();
    assert!(m.contains(4));
    assert!(!m.contains(2));
}

#[test]
fn core_info_fields() {
    let i = Info {
        id: 0,
        cookie: 77,
        user_name: "user".to_string(),
        host_name: "host".to_string(),
        version: "0.3.0".to_string(),
        name: "pipewire-0".to_string(),
        change_mask: 1,
        props: None,
    };
    assert_eq!((0, 77, "user", "host", "0.3.0", "pipewire-0"), (i.id(), i.cookie(), i.user_name(), i.host_name(), i.version(), i.name()));
    assert_eq!(1, i.change_mask().bits());
}

#[test]
fn context_and_core_creation() {
    let l = MainLoop::new(0x10).ok().unwrap();
    assert!(matches!(Context::new(&l, 0), Err(Error::CreationFailed)));
    let c = Context::new(&l, 0x20).ok().unwrap();
    assert_eq!(0x20, c.as_raw());
    assert!(matches!(c.connect(0), Err(Error::CreationFailed)));
    let core = c.connect(0x30).ok().unwrap();
    assert_eq!(0x30, core.as_raw());
    let b = core.add_listener_local::<u32>();
    let mut list = pipewire_core::listener::ListenerList::new(ObjectKind::Core);
    let id = b.done(1).register(&mut list);
    assert!(list.is_linked(id));
}
