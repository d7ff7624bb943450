//! The plugin registry: which factory makes the nodes of which type.
pub mod radio;

use crate::node::interface::{NodeConfig, NodeFactory, NodeInterface};
use crate::registry::Registry;
use vstd::prelude::*;

verus! {

/// Maps the name of a node type to the factory that makes nodes of it.
/// Registering under a name that is taken replaces the factory.
pub struct NodeRegistry<F: NodeFactory> {
    factories: Registry<F>,
}

impl<F: NodeFactory> NodeRegistry<F> {
    /// The factories by type name.
    pub closed spec fn factories(&self) -> Map<Seq<char>, F> {
        self.factories.map()
    }

    /// No type name occurs twice.
    pub closed spec fn wf(&self) -> bool {
        self.factories.wf()
    }

    /// A registry without any plugin.
    pub fn new() -> (registry: Self)
        ensures
            registry.wf(),
            registry.factories() == Map::<Seq<char>, F>::empty(),
    {
        NodeRegistry { factories: Registry::new() }
    }

    /// Registers `factory` for the type name `node_type`; the last one
    /// registered under a name is the one that counts.
    pub fn register(&mut self, node_type: &str, factory: F)
        requires
            old(self).wf(),
        ensures
            final(self).wf(),
            final(self).factories() == old(self).factories().insert(node_type@, factory),
    {
        self.factories.insert(node_type.to_owned(), factory);
    }

    /// Whether a factory is registered for `node_type`.
    pub fn is_registered(&self, node_type: &str) -> (known: bool)
        requires
            self.wf(),
        ensures
            known == self.factories().contains_key(node_type@),
    {
        self.factories.contains_key(node_type)
    }

    /// Makes a node of the type `node_type` that holds `config`; `None` where
    /// no factory is registered for that name.
    pub fn create_node(&self, node_type: &str, config: NodeConfig) -> (made: Option<F::Node>)
        requires
            self.wf(),
        ensures
            match made {
                Some(node) => {
                    &&& self.factories().contains_key(node_type@)
                    &&& node.current_config() == config@
                    &&& node.node_kind() == self.factories()[node_type@].makes()
                },
                None => !self.factories().contains_key(node_type@),
            },
    {
        match self.factories.get(node_type) {
            Some(factory) => Some(factory.create(config)),
            None => None,
        }
    }
}

impl<F: NodeFactory> Default for NodeRegistry<F> {
    fn default() -> (registry: Self)
        ensures
            registry.wf(),
            registry.factories() == Map::<Seq<char>, F>::empty(),
    {
        NodeRegistry::new()
    }
}

} // verus!
