//! The node type used where no other is given.
use crate::error::FabricError;
use crate::node::interface::{NodeConfig, NodeConfigView, NodeInterface};
use vstd::prelude::*;
use vstd::string::*;

verus! {

/// A node that stores its configuration and does nothing on events.
pub struct GenericNode {
    config: NodeConfig,
}

impl GenericNode {
    /// A generic node that holds `config`.
    pub fn new(config: NodeConfig) -> (node: Self)
        ensures
            node.current_config() == config@,
            node.node_kind() == "generic"@,
    {
        Self { config }
    }

    /// Overwrites the configuration.
    pub fn set_config(&mut self, config: NodeConfig)
        ensures
            final(self).current_config() == config@,
    {
        self.config = config;
    }
}

impl NodeInterface for GenericNode {
    closed spec fn current_config(&self) -> NodeConfigView {
        self.config@
    }

    open spec fn node_kind(&self) -> Seq<char> {
        "generic"@
    }

    fn get_config(&self) -> (config: NodeConfig) {
        self.config.clone()
    }

    fn set_config(&mut self, config: NodeConfig) {
        self.config = config;
    }

    fn get_type(&self) -> (name: String) {
        String::from_str("generic")
    }

    fn handle_event(&mut self, _event: &str, _payload: &str) -> (handled: Result<(), FabricError>)
        ensures
            handled is Ok,
            final(self).current_config() == old(self).current_config(),
    {
        Ok(())
    }

    fn update_config(&mut self, config: NodeConfig) {
        self.config = config;
    }
}

} // verus!
