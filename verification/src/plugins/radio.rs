//! The radio node type.
use crate::error::FabricError;
use crate::node::interface::{NodeConfig, NodeConfigView, NodeFactory, NodeInterface};
use vstd::prelude::*;
use vstd::string::*;

verus! {

/// A radio: it stores its configuration; reading it and reacting to events is
/// left to the driver that stands behind it.
pub struct RadioSensor {
    config: NodeConfig,
}

impl NodeInterface for RadioSensor {
    closed spec fn current_config(&self) -> NodeConfigView {
        self.config@
    }

    open spec fn node_kind(&self) -> Seq<char> {
        "radio"@
    }

    fn get_config(&self) -> (config: NodeConfig) {
        self.config.clone()
    }

    fn set_config(&mut self, config: NodeConfig) {
        self.config = config;
    }

    fn get_type(&self) -> (name: String) {
        String::from_str("radio")
    }

    fn handle_event(&mut self, _event: &str, _payload: &str) -> (handled: Result<(), FabricError>)
        ensures
            handled is Ok,
            final(self).current_config() == old(self).current_config(),
    {
        Ok(())
    }

    fn update_config(&mut self, config: NodeConfig) {
        self.config = config;
    }
}

/// Makes radios.
#[derive(Debug, Clone, Copy, PartialEq, Eq)]
pub struct RadioSensorFactory;

impl NodeFactory for RadioSensorFactory {
    type Node = RadioSensor;

    open spec fn makes(&self) -> Seq<char> {
        "radio"@
    }

    fn create(&self, config: NodeConfig) -> (node: RadioSensor) {
        RadioSensor { config }
    }
}

} // verus!
