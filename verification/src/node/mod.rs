//! Worker nodes: the capability contract a node type fulfils, the built-in
//! generic node, and the agent core that owns one node.
pub mod generic;
pub mod interface;
mod node;

pub use node::{
    heartbeat_data, heartbeat_payload, Node, NodeAction, NodeEvent, Startup,
    HEARTBEAT_PERIOD_MILLIS,
};
