//! Controllers: what an orchestrator knows of each node, and the agent core
//! that tracks liveness, pushes configuration and fans out callbacks.
mod orchestrator;

pub use orchestrator::{
    after_check, after_reply, calls_for_notice, is_stale, lemma_offline_only_when_stale,
    lemma_offline_reported_once, lemma_replies_keep_last_update, lemma_reregister_replaces,
    lemma_silent_node_goes_offline, offline_changes, with_status,
    HealthReply, Orchestrator, OrchestratorAction, OrchestratorEvent, StatusChange,
    StatusChangeView, STALENESS_CHECK_PERIOD_MILLIS, STALENESS_THRESHOLD_NANOS,
};

use crate::clock::now_or_epoch;
use crate::node::interface::{NodeConfig, NodeData, NodeDataView};
use vstd::prelude::*;

verus! {

/// What an orchestrator holds of one node: the last status envelope, and when
/// it was heard, in nanoseconds since the epoch on the orchestrator's clock.
#[derive(Debug, PartialEq, Eq)]
pub struct NodeState {
    pub last_value: NodeData,
    pub last_update: u128,
}

/// A [`NodeState`] in contracts.
pub struct NodeStateView {
    pub last_value: NodeDataView,
    pub last_update: u128,
}

impl View for NodeState {
    type V = NodeStateView;

    open spec fn view(&self) -> NodeStateView {
        NodeStateView { last_value: self.last_value@, last_update: self.last_update }
    }
}

impl Clone for NodeState {
    fn clone(&self) -> (copy: Self)
        ensures
            copy@ == self@,
    {
        NodeState { last_value: self.last_value.clone(), last_update: self.last_update }
    }
}

impl NodeState {
    /// The state of a node whose envelope `node_data` is heard now, by the
    /// clock.
    pub fn new(node_data: NodeData) -> (state: Self)
        ensures
            state@.last_value == node_data@,
    {
        Self { last_value: node_data, last_update: now_or_epoch() }
    }

    /// The state of a node whose envelope `node_data` was heard at `now`.
    pub fn at(node_data: NodeData, now: u128) -> (state: Self)
        ensures
            state@ == (NodeStateView { last_value: node_data@, last_update: now }),
    {
        Self { last_value: node_data, last_update: now }
    }
}

/// The nodes an orchestrator is to configure.
#[derive(Debug, Clone, PartialEq, Eq)]
pub struct OrchestratorConfig {
    pub nodes: Vec<NodeConfig>,
}

} // verus!
