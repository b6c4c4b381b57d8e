//! What the native side reports about an object in an "info" event,
//! copied into plain values, and the decoding of its state codes and change
//! masks.
use vstd::prelude::*;

use crate::dict::ForeignDict;

verus! {

/// A set of change flags, restricted to the ones a kind of object defines.
#[derive(Debug, Clone, Copy, PartialEq, Eq, Structural)]
pub struct ChangeMask {
    bits: u64,
}

impl ChangeMask {
    pub closed spec fn spec_bits(self) -> u64 {
        self.bits
    }

    /// The mask `bits`, or none where it holds a flag outside `known`.
    pub fn from_bits(bits: u64, known: u64) -> (r: Option<ChangeMask>)
        ensures
            r is Some <==> bits & !known == 0,
            r matches Some(m) ==> m.spec_bits() == bits,
    {
        if bits & !known == 0 {
            Some(ChangeMask { bits })
        } else {
            None
        }
    }

    pub fn bits(&self) -> (r: u64)
        ensures
            r == self.spec_bits(),
    {
        self.bits
    }

    /// Whether every flag of `flags` is set.
    pub fn contains(&self, flags: u64) -> (r: bool)
        ensures
            r == (self.spec_bits() & flags == flags),
    {
        self.bits & flags == flags
    }
}

/// The change flags of the core: its properties.
pub const CORE_CHANGE_PROPS: u64 = 1;

pub const NODE_CHANGE_INPUT_PORTS: u64 = 1;

pub const NODE_CHANGE_OUTPUT_PORTS: u64 = 2;

pub const NODE_CHANGE_STATE: u64 = 4;

pub const NODE_CHANGE_PROPS: u64 = 8;

pub const NODE_CHANGE_PARAMS: u64 = 16;

/// Every change flag of a node.
pub const NODE_CHANGE_ALL: u64 = 31;

pub const LINK_CHANGE_STATE: u64 = 1;

pub const LINK_CHANGE_FORMAT: u64 = 2;

pub const LINK_CHANGE_PROPS: u64 = 4;

/// Every change flag of a link.
pub const LINK_CHANGE_ALL: u64 = 7;

pub const PORT_CHANGE_PROPS: u64 = 1;

pub const PORT_CHANGE_PARAMS: u64 = 2;

/// Every change flag of a port.
pub const PORT_CHANGE_ALL: u64 = 3;

/// Raw node state codes.
pub const NODE_STATE_ERROR: i32 = -1;

pub const NODE_STATE_CREATING: i32 = 0;

pub const NODE_STATE_SUSPENDED: i32 = 1;

pub const NODE_STATE_IDLE: i32 = 2;

pub const NODE_STATE_RUNNING: i32 = 3;

/// Raw link state codes.
pub const LINK_STATE_ERROR: i32 = -2;

pub const LINK_STATE_UNLINKED: i32 = -1;

pub const LINK_STATE_INIT: i32 = 0;

pub const LINK_STATE_NEGOTIATING: i32 = 1;

pub const LINK_STATE_ALLOCATING: i32 = 2;

pub const LINK_STATE_PAUSED: i32 = 3;

pub const LINK_STATE_ACTIVE: i32 = 4;

/// Raw port directions.
pub const DIRECTION_INPUT: u32 = 0;

pub const DIRECTION_OUTPUT: u32 = 1;

/// The state of a node.
#[derive(Debug, PartialEq, Eq)]
pub enum NodeState<'a> {
    Error(&'a str),
    Creating,
    Suspended,
    Idle,
    Running,
}

/// The state of a link.
#[derive(Debug, PartialEq, Eq)]
pub enum LinkState<'a> {
    Error(&'a str),
    Unlinked,
    Init,
    Negotiating,
    Allocating,
    Paused,
    Active,
}

/// The direction of a port.
#[derive(Debug, Clone, Copy, PartialEq, Eq, Structural)]
pub enum Direction {
    Input,
    Output,
}

/// A raw node state that names a state; an error state comes with its
/// message.
pub open spec fn valid_node_state(state: i32, error: Option<String>) -> bool {
    (NODE_STATE_ERROR <= state <= NODE_STATE_RUNNING) && (state == NODE_STATE_ERROR ==> error is Some)
}

/// A raw link state that names a state; an error state comes with its
/// message.
pub open spec fn valid_link_state(state: i32, error: Option<String>) -> bool {
    (LINK_STATE_ERROR <= state <= LINK_STATE_ACTIVE) && (state == LINK_STATE_ERROR ==> error is Some)
}

/// What a node reports about itself.
pub struct NodeInfo {
    pub id: u32,
    pub max_input_ports: u32,
    pub max_output_ports: u32,
    pub change_mask: u64,
    pub n_input_ports: u32,
    pub n_output_ports: u32,
    pub state: i32,
    pub error: Option<String>,
    pub props: Option<ForeignDict>,
}

impl NodeInfo {
    pub fn id(&self) -> (r: u32)
        ensures
            r == self.id,
    {
        self.id
    }

    pub fn max_input_ports(&self) -> (r: u32)
        ensures
            r == self.max_input_ports,
    {
        self.max_input_ports
    }

    pub fn max_output_ports(&self) -> (r: u32)
        ensures
            r == self.max_output_ports,
    {
        self.max_output_ports
    }

    pub fn n_input_ports(&self) -> (r: u32)
        ensures
            r == self.n_input_ports,
    {
        self.n_input_ports
    }

    pub fn n_output_ports(&self) -> (r: u32)
        ensures
            r == self.n_output_ports,
    {
        self.n_output_ports
    }

    /// The change flags; the node must report only flags that nodes define.
    pub fn change_mask(&self) -> (r: ChangeMask)
        requires
            self.change_mask & !NODE_CHANGE_ALL == 0,
        ensures
            r.spec_bits() == self.change_mask,
    {
        ChangeMask { bits: self.change_mask }
    }

    /// The decoded state; the node must report a state that nodes define.
    pub fn state(&self) -> (r: NodeState<'_>)
        requires
            valid_node_state(self.state, self.error),
        ensures
            self.state == NODE_STATE_ERROR ==> (r matches NodeState::Error(e) && e@ == self.error->0@),
            self.state == NODE_STATE_CREATING ==> r == NodeState::Creating,
            self.state == NODE_STATE_SUSPENDED ==> r == NodeState::Suspended,
            self.state == NODE_STATE_IDLE ==> r == NodeState::Idle,
            self.state == NODE_STATE_RUNNING ==> r == NodeState::Running,
    {
        if self.state == NODE_STATE_ERROR {
            NodeState::Error(self.error.as_ref().unwrap().as_str())
        } else if self.state == NODE_STATE_CREATING {
            NodeState::Creating
        } else if self.state == NODE_STATE_SUSPENDED {
            NodeState::Suspended
        } else if self.state == NODE_STATE_IDLE {
            NodeState::Idle
        } else {
            NodeState::Running
        }
    }

    pub fn props(&self) -> (r: Option<&ForeignDict>)
        ensures
            r is Some <==> self.props is Some,
            r matches Some(d) ==> *d == self.props->0,
    {
        self.props.as_ref()
    }
}

/// What a link reports about itself.
pub struct LinkInfo {
    pub id: u32,
    pub output_node_id: u32,
    pub output_port_id: u32,
    pub input_node_id: u32,
    pub input_port_id: u32,
    pub change_mask: u64,
    pub state: i32,
    pub error: Option<String>,
    pub props: Option<ForeignDict>,
}

impl LinkInfo {
    pub fn id(&self) -> (r: u32)
        ensures
            r == self.id,
    {
        self.id
    }

    pub fn output_node_id(&self) -> (r: u32)
        ensures
            r == self.output_node_id,
    {
        self.output_node_id
    }

    pub fn output_port_id(&self) -> (r: u32)
        ensures
            r == self.output_port_id,
    {
        self.output_port_id
    }

    pub fn input_node_id(&self) -> (r: u32)
        ensures
            r == self.input_node_id,
    {
        self.input_node_id
    }

    pub fn input_port_id(&self) -> (r: u32)
        ensures
            r == self.input_port_id,
    {
        self.input_port_id
    }

    /// The change flags; the link must report only flags that links define.
    pub fn change_mask(&self) -> (r: ChangeMask)
        requires
            self.change_mask & !LINK_CHANGE_ALL == 0,
        ensures
            r.spec_bits() == self.change_mask,
    {
        ChangeMask { bits: self.change_mask }
    }

    /// The decoded state; the link must report a state that links define.
    pub fn state(&self) -> (r: LinkState<'_>)
        requires
            valid_link_state(self.state, self.error),
        ensures
            self.state == LINK_STATE_ERROR ==> (r matches LinkState::Error(e) && e@ == self.error->0@),
            self.state == LINK_STATE_UNLINKED ==> r == LinkState::Unlinked,
            self.state == LINK_STATE_INIT ==> r == LinkState::Init,
            self.state == LINK_STATE_NEGOTIATING ==> r == LinkState::Negotiating,
            self.state == LINK_STATE_ALLOCATING ==> r == LinkState::Allocating,
            self.state == LINK_STATE_PAUSED ==> r == LinkState::Paused,
            self.state == LINK_STATE_ACTIVE ==> r == LinkState::Active,
    {
        if self.state == LINK_STATE_ERROR {
            LinkState::Error(self.error.as_ref().unwrap().as_str())
        } else if self.state == LINK_STATE_UNLINKED {
            LinkState::Unlinked
        } else if self.state == LINK_STATE_INIT {
            LinkState::Init
        } else if self.state == LINK_STATE_NEGOTIATING {
            LinkState::Negotiating
        } else if self.state == LINK_STATE_ALLOCATING {
            LinkState::Allocating
        } else if self.state == LINK_STATE_PAUSED {
            LinkState::Paused
        } else {
            LinkState::Active
        }
    }

    pub fn props(&self) -> (r: Option<&ForeignDict>)
        ensures
            r is Some <==> self.props is Some,
            r matches Some(d) ==> *d == self.props->0,
    {
        self.props.as_ref()
    }
}

/// What a port reports about itself.
pub struct PortInfo {
    pub id: u32,
    pub direction: u32,
    pub change_mask: u64,
    pub props: Option<ForeignDict>,
}

impl PortInfo {
    pub fn id(&self) -> (r: u32)
        ensures
            r == self.id,
    {
        self.id
    }

    /// The decoded direction; the port must report a direction that ports
    /// define.
    pub fn direction(&self) -> (r: Direction)
        requires
            self.direction == DIRECTION_INPUT || self.direction == DIRECTION_OUTPUT,
        ensures
            self.direction == DIRECTION_INPUT ==> r == Direction::Input,
            self.direction == DIRECTION_OUTPUT ==> r == Direction::Output,
    {
        if self.direction == DIRECTION_INPUT {
            Direction::Input
        } else {
            Direction::Output
        }
    }

    /// The change flags; the port must report only flags that ports define.
    pub fn change_mask(&self) -> (r: ChangeMask)
        requires
            self.change_mask & !PORT_CHANGE_ALL == 0,
        ensures
            r.spec_bits() == self.change_mask,
    {
        ChangeMask { bits: self.change_mask }
    }

    pub fn props(&self) -> (r: Option<&ForeignDict>)
        ensures
            r is Some <==> self.props is Some,
            r matches Some(d) ==> *d == self.props->0,
    {
        self.props.as_ref()
    }
}

/// What the core reports about itself.
pub struct Info {
    pub id: u32,
    pub cookie: u32,
    pub user_name: String,
    pub host_name: String,
    pub version: String,
    pub name: String,
    pub change_mask: u64,
    pub props: Option<ForeignDict>,
}

impl Info {
    pub fn id(&self) -> (r: u32)
        ensures
            r == self.id,
    {
        self.id
    }

    pub fn cookie(&self) -> (r: u32)
        ensures
            r == self.cookie,
    {
        self.cookie
    }

    pub fn user_name(&self) -> (r: &str)
        ensures
            r@ == self.user_name@,
    {
        self.user_name.as_str()
    }

    pub fn host_name(&self) -> (r: &str)
        ensures
            r@ == self.host_name@,
    {
        self.host_name.as_str()
    }

    pub fn version(&self) -> (r: &str)
        ensures
            r@ == self.version@,
    {
        self.version.as_str()
    }

    pub fn name(&self) -> (r: &str)
        ensures
            r@ == self.name@,
    {
        self.name.as_str()
    }

    /// The change flags; the core must report only flags that it defines.
    pub fn change_mask(&self) -> (r: ChangeMask)
        requires
            self.change_mask & !CORE_CHANGE_PROPS == 0,
        ensures
            r.spec_bits() == self.change_mask,
    {
        ChangeMask { bits: self.change_mask }
    }

    pub fn props(&self) -> (r: Option<&ForeignDict>)
        ensures
            r is Some <==> self.props is Some,
            r matches Some(d) ==> *d == self.props->0,
    {
        self.props.as_ref()
    }
}

} // verus!
