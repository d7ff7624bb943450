//! The agent core of a worker: it owns one node, its publishers and
//! subscribers, and decides what each turn of the run loop does.
use crate::clock::{now, seconds_of};
use crate::endpoints::{reached_slots, Endpoints, Outgoing, Publisher, Put, Subscriber};
use crate::error::FabricError;
use crate::node::generic::GenericNode;
use crate::node::interface::{
    data_envelope, decode_node_config, encode_node_data, NodeConfig, NodeConfigView, NodeData,
    NodeDataView, NodeFactory, NodeInterface,
};
use crate::plugins::NodeRegistry;
use crate::text::utf8_text;
use crate::topic::{
    config_topic, event_key_name, event_name_from_key, event_topic, key_expr_valid,
    node_config_topic, node_event_topic, node_status_topic, status_topic,
};
use vstd::prelude::*;
use vstd::string::*;
use vstd::utf8::{encode_utf8, valid_utf8};

verus! {

/// The milliseconds between two heartbeats of a running node.
pub const HEARTBEAT_PERIOD_MILLIS: u64 = 1000;

/// A worker agent: one node of type `I`, with the publishers (handles `P`)
/// and subscribers (callbacks `C`, handles `S`) it has declared.
pub struct Node<I: NodeInterface, P, C, S> {
    id: String,
    node_type: String,
    config: NodeConfig,
    interface: I,
    endpoints: Endpoints<P, C, S>,
    running: bool,
}

/// What happened on the bus, on a timer or at the cancellation signal, for
/// the run loop of a node to react to.
pub enum NodeEvent {
    /// The cancellation signal fired.
    Cancelled,
    /// The heartbeat timer ticked at `now_secs` seconds since the epoch.
    HeartbeatDue { now_secs: u64 },
    /// A sample arrived on the node's configuration topic.
    Config { payload: Vec<u8> },
    /// Receiving on the configuration topic failed.
    ConfigReceiveFailed { reason: String },
    /// A sample arrived below the node's event topic.
    Event { key_expr: String, payload: Vec<u8> },
    /// A sample arrived for the node's subscribers.
    Sample { key_expr: String },
    /// The bus refused a heartbeat.
    HeartbeatFailed { reason: String },
    /// The session with the bus is lost.
    SessionLost { reason: String },
}

/// What the run loop is to do after an event.
pub enum NodeAction {
    /// Leave the loop.
    Stop,
    /// Leave the loop and report the error.
    Fail(FabricError),
    /// Put the heartbeat on the bus; a failure to do so is logged, no more.
    Publish(Put),
    /// The node took the configuration; nothing to do.
    ConfigApplied,
    /// The event was handed to the node and it succeeded; nothing to do.
    EventHandled,
    /// Call the callbacks of the subscribers at these positions.
    Deliver(Vec<usize>),
    /// Log the error as a warning and go on.
    Discard(FabricError),
}

/// What a node declares and publishes when its run loop starts.
pub struct Startup {
    /// The topic to hear configurations on.
    pub config_topic: String,
    /// The glob to hear events on.
    pub event_glob: String,
    /// The first heartbeat, to publish before anything else.
    pub heartbeat: Put,
}

/// The heartbeat that a node publishes: its id and type, the time, no
/// metadata, and the status.
pub open spec fn heartbeat_data(
    id: Seq<char>,
    node_type: Seq<char>,
    status: Seq<char>,
    now_secs: u64,
) -> NodeDataView {
    NodeDataView { node_id: id, node_type, timestamp: now_secs, metadata: None, status }
}

/// The bytes of a heartbeat on the bus.
pub open spec fn heartbeat_payload(
    id: Seq<char>,
    node_type: Seq<char>,
    status: Seq<char>,
    now_secs: u64,
) -> Seq<u8> {
    encode_utf8(data_envelope(heartbeat_data(id, node_type, status, now_secs), "null"@))
}

impl<I: NodeInterface, P, C, S> Node<I, P, C, S> {
    /// The id of the node.
    pub closed spec fn id(&self) -> Seq<char> {
        self.id@
    }

    /// The type the node was declared with.
    pub closed spec fn node_type(&self) -> Seq<char> {
        self.node_type@
    }

    /// The configuration the agent holds for its node.
    pub closed spec fn config(&self) -> NodeConfigView {
        self.config@
    }

    /// The node itself.
    pub closed spec fn interface(&self) -> I {
        self.interface
    }

    /// The publishers and subscribers.
    pub closed spec fn endpoints(&self) -> Endpoints<P, C, S> {
        self.endpoints
    }

    /// Whether the run loop has started and has not been cancelled.
    pub closed spec fn running(&self) -> bool {
        self.running
    }

    /// The registries are in order.
    pub open spec fn wf(&self) -> bool {
        self.endpoints().wf()
    }

    /// Nothing but the endpoints differs between `self` and `other`.
    pub open spec fn same_node(&self, other: &Self) -> bool {
        &&& self.id() == other.id()
        &&& self.node_type() == other.node_type()
        &&& self.config() == other.config()
        &&& self.interface() == other.interface()
        &&& self.running() == other.running()
    }

    /// An agent for `interface`, with nothing declared and the run loop not
    /// started.
    pub fn new(id: String, node_type: String, config: NodeConfig, interface: I) -> (made: Result<
        Self,
        FabricError,
    >)
        ensures
            made matches Ok(node) && {
                &&& node.wf()
                &&& node.id() == id@
                &&& node.node_type() == node_type@
                &&& node.config() == config@
                &&& node.interface() == interface
                &&& !node.running()
                &&& node.endpoints().publisher_topics().len() == 0
                &&& node.endpoints().subscriber_topics().len() == 0
            },
    {
        Ok(Node { id, node_type, config, interface, endpoints: Endpoints::new(), running: false })
    }

    /// The id of the node.
    pub fn get_id(&self) -> (id: &str)
        ensures
            id@ == self.id(),
    {
        self.id.as_str()
    }

    /// The type the node was declared with.
    pub fn get_type(&self) -> (node_type: &str)
        ensures
            node_type@ == self.node_type(),
    {
        self.node_type.as_str()
    }

    /// The configuration the agent holds for its node.
    pub fn get_config(&self) -> (config: NodeConfig)
        ensures
            config@ == self.config(),
    {
        self.config.clone()
    }

    /// The node itself.
    pub fn get_interface(&self) -> (interface: Result<&I, FabricError>)
        ensures
            interface matches Ok(node) && *node == self.interface(),
    {
        Ok(&self.interface)
    }

    /// Puts another node in the place of the one the agent owns.
    pub fn set_interface(&mut self, interface: I) -> (done: Result<(), FabricError>)
        ensures
            done is Ok,
            final(self).interface() == interface,
            final(self).id() == old(self).id(),
            final(self).node_type() == old(self).node_type(),
            final(self).config() == old(self).config(),
            final(self).endpoints() == old(self).endpoints(),
            final(self).running() == old(self).running(),
    {
        self.interface = interface;
        Ok(())
    }

    /// Whether the run loop has started and has not been cancelled.
    pub fn is_running(&self) -> (running: bool)
        ensures
            running == self.running(),
    {
        self.running
    }

    /// Hands the configuration to the node, then holds it as the agent's own.
    pub fn update_config(&mut self, new_config: NodeConfig) -> (done: Result<(), FabricError>)
        ensures
            done is Ok,
            final(self).config() == new_config@,
            final(self).interface().current_config() == new_config@,
            final(self).interface().node_kind() == old(self).interface().node_kind(),
            final(self).id() == old(self).id(),
            final(self).node_type() == old(self).node_type(),
            final(self).endpoints() == old(self).endpoints(),
            final(self).running() == old(self).running(),
    {
        self.interface.update_config(new_config.clone());
        self.config = new_config;
        Ok(())
    }

    /// The message that publishes `node_data` as this node's status: its JSON
    /// on `fabric/<id>/status`. Fails exactly where the metadata is not one
    /// JSON text.
    pub fn publish_node_status(&self, node_data: &NodeData) -> (message: Result<Put, FabricError>)
        ensures
            match message {
                Ok(put) => {
                    &&& put.key_expr@ == status_topic(self.id())
                    &&& encode_node_data(node_data@) matches Some(json) && put.payload@
                        == encode_utf8(json)
                },
                Err(e) => encode_node_data(node_data@) is None && e is SerdeJsonError,
            },
    {
        match node_data.to_json() {
            Ok(json) => Ok(
                Put {
                    key_expr: node_status_topic(self.id.as_str()),
                    payload: json.as_str().as_bytes_vec(),
                },
            ),
            Err(e) => Err(e),
        }
    }

    /// The heartbeat of this node with status `status` at `now_secs` seconds
    /// since the epoch.
    pub fn heartbeat(&self, status: String, now_secs: u64) -> (message: Put)
        ensures
            message.key_expr@ == status_topic(self.id()),
            message.payload@ == heartbeat_payload(
                self.id(),
                self.node_type(),
                status@,
                now_secs,
            ),
    {
        let node_data = NodeData {
            node_id: self.id.clone(),
            node_type: self.node_type.clone(),
            timestamp: now_secs,
            metadata: None,
            status,
        };
        Put {
            key_expr: node_status_topic(self.id.as_str()),
            payload: node_data.envelope("null").as_str().as_bytes_vec(),
        }
    }

    /// The heartbeat of this node with status `status` at the time the clock
    /// shows. Fails where the clock stands before the epoch.
    pub fn update_status(&self, status: String) -> (message: Result<Put, FabricError>)
        ensures
            match message {
                Ok(put) => put.key_expr@ == status_topic(self.id()) && exists|now_secs: u64|
                    put.payload@ == heartbeat_payload(
                        self.id(),
                        self.node_type(),
                        status@,
                        now_secs,
                    ),
                Err(e) => e is Other,
            },
    {
        match now() {
            Ok(nanos) => {
                let now_secs = seconds_of(nanos);
                Ok(self.heartbeat(status, now_secs))
            },
            Err(e) => Err(e),
        }
    }

    /// Records the publisher that the bus declared on `topic`, in the place of
    /// any that was there. Fails, and changes nothing, exactly where `topic`
    /// is no key expression.
    pub fn create_publisher(&mut self, topic: String, handle: P) -> (done: Result<(), FabricError>)
        requires
            old(self).wf(),
        ensures
            final(self).wf(),
            final(self).same_node(old(self)),
            final(self).endpoints().subscribers() == old(self).endpoints().subscribers(),
            final(self).endpoints().subscriber_topics() == old(
                self,
            ).endpoints().subscriber_topics(),
            final(self).endpoints().subscriber_entries() == old(
                self,
            ).endpoints().subscriber_entries(),
            match done {
                Ok(()) => {
                    &&& key_expr_valid(topic@)
                    &&& final(self).endpoints().publishers() == old(
                        self,
                    ).endpoints().publishers().insert(topic@, (Publisher { topic, handle }))
                },
                Err(e) => {
                    &&& !key_expr_valid(topic@)
                    &&& e is ZenohError
                    &&& final(self).endpoints().publishers() == old(self).endpoints().publishers()
                },
            },
    {
        self.endpoints.create_publisher(topic, handle)
    }

    /// Decides what `publish` puts on the bus: `data` on the publisher of
    /// `topic`. Fails exactly where `topic` has no publisher.
    pub fn publish(&self, topic: &str, data: Vec<u8>) -> (put: Result<Outgoing<'_, P>, FabricError>)
        requires
            self.wf(),
        ensures
            match put {
                Ok(out) => {
                    &&& self.endpoints().publishers().contains_key(topic@)
                    &&& *out.publisher == self.endpoints().publishers()[topic@].handle
                    &&& out.payload == data
                },
                Err(e) => {
                    &&& !self.endpoints().publishers().contains_key(topic@)
                    &&& e matches FabricError::PublisherNotFound(named)
                    &&& named@ == topic@
                },
            },
    {
        self.endpoints.publish(topic, data)
    }

    /// Records the subscriber that the bus declared on `topic` and the
    /// callback for its samples, in the place of any that was there under the
    /// same text. Fails, and changes nothing, exactly where `topic` is no key
    /// expression.
    pub fn create_subscriber(&mut self, topic: String, callback: C, handle: S) -> (done: Result<
        (),
        FabricError,
    >)
        requires
            old(self).wf(),
        ensures
            final(self).wf(),
            final(self).same_node(old(self)),
            final(self).endpoints().publishers() == old(self).endpoints().publishers(),
            match done {
                Ok(()) => {
                    &&& key_expr_valid(topic@)
                    &&& final(self).endpoints().subscribed_from(
                        &old(self).endpoints(),
                        topic,
                        callback,
                        handle,
                    )
                },
                Err(e) => {
                    &&& !key_expr_valid(topic@)
                    &&& e is ZenohError
                    &&& final(self).endpoints().subscribers() == old(self).endpoints().subscribers()
                    &&& final(self).endpoints().subscriber_topics() == old(
                        self,
                    ).endpoints().subscriber_topics()
                    &&& final(self).endpoints().subscriber_entries() == old(
                        self,
                    ).endpoints().subscriber_entries()
                },
            },
    {
        self.endpoints.create_subscriber(topic, callback, handle)
    }

    /// Takes the subscriber declared on exactly `topic` out and hands it
    /// back, for its handle to be undeclared. Changes nothing where there is
    /// none.
    pub fn unsubscribe(&mut self, topic: &str) -> (removed: Option<Subscriber<C, S>>)
        requires
            old(self).wf(),
        ensures
            final(self).wf(),
            final(self).same_node(old(self)),
            final(self).endpoints().publishers() == old(self).endpoints().publishers(),
            final(self).endpoints().subscribers() == old(self).endpoints().subscribers().remove(
                topic@,
            ),
            match removed {
                Some(entry) => old(self).endpoints().subscribers().contains_key(topic@) && entry
                    == old(self).endpoints().subscribers()[topic@],
                None => !old(self).endpoints().subscribers().contains_key(topic@),
            },
    {
        self.endpoints.unsubscribe(topic)
    }

    /// The number of subscribers.
    pub fn subscriber_count(&self) -> (n: usize)
        requires
            self.wf(),
        ensures
            n == self.endpoints().subscriber_topics().len(),
    {
        self.endpoints.subscriber_count()
    }

    /// The subscriber at position `i`.
    pub fn subscriber_at(&self, i: usize) -> (entry: &Subscriber<C, S>)
        requires
            self.wf(),
            i < self.endpoints().subscriber_topics().len(),
        ensures
            *entry == self.endpoints().subscriber_entries()[i as int],
    {
        self.endpoints.subscriber_at(i)
    }

    /// The callbacks to call for a sample on `key_expr`: one for every
    /// subscriber whose key expression the sample's key intersects.
    pub fn handle_subscriber_samples(&self, key_expr: &str) -> (callbacks: Vec<&C>)
        requires
            self.wf(),
        ensures
            callbacks@.map_values(|c: &C| *c) == self.endpoints().deliveries(key_expr@),
    {
        self.endpoints.handle_subscriber_sample(key_expr)
    }

    /// Starts the run loop: names the topics to hear configurations and
    /// events on, and makes the first `online` heartbeat.
    pub fn start(&mut self, now_secs: u64) -> (startup: Startup)
        ensures
            final(self).running(),
            final(self).id() == old(self).id(),
            final(self).node_type() == old(self).node_type(),
            final(self).config() == old(self).config(),
            final(self).interface() == old(self).interface(),
            final(self).endpoints() == old(self).endpoints(),
            startup.config_topic@ == config_topic(old(self).id()),
            startup.event_glob@ == event_topic(old(self).id(), "*"@),
            startup.heartbeat.key_expr@ == status_topic(old(self).id()),
            startup.heartbeat.payload@ == heartbeat_payload(
                old(self).id(),
                old(self).node_type(),
                "online"@,
                now_secs,
            ),
    {
        self.running = true;
        Startup {
            config_topic: node_config_topic(self.id.as_str()),
            event_glob: node_event_topic(self.id.as_str(), "*"),
            heartbeat: self.heartbeat(String::from_str("online"), now_secs),
        }
    }

    /// Takes a sample from the configuration topic: where it holds a
    /// configuration the node takes it, else the sample is discarded and
    /// nothing changes.
    pub fn on_config_sample(&mut self, payload: &[u8]) -> (action: NodeAction)
        ensures
            final(self).id() == old(self).id(),
            final(self).node_type() == old(self).node_type(),
            final(self).endpoints() == old(self).endpoints(),
            final(self).running() == old(self).running(),
            final(self).interface().node_kind() == old(self).interface().node_kind(),
            match decode_node_config(payload@) {
                Some(config) => {
                    &&& action is ConfigApplied
                    &&& final(self).config() == config
                    &&& final(self).interface().current_config() == config
                },
                None => {
                    &&& action matches NodeAction::Discard(e)
                    &&& e is SerdeJsonError
                    &&& final(self).config() == old(self).config()
                    &&& final(self).interface() == old(self).interface()
                },
            },
    {
        match NodeConfig::from_slice(payload) {
            Ok(config) => {
                let _ = self.update_config(config);
                NodeAction::ConfigApplied
            },
            Err(e) => NodeAction::Discard(e),
        }
    }

    /// What a sample from below the event topic asks of the node: the event
    /// that the last segment of its key names, and the payload as text.
    /// `None` where the payload is no UTF-8 text.
    pub fn event_request<'a>(key_expr: &str, payload: &'a [u8]) -> (request: Option<
        (String, &'a str),
    >)
        ensures
            match request {
                Some((event, text)) => {
                    &&& valid_utf8(payload@)
                    &&& event@ == event_key_name(key_expr@)
                    &&& text.spec_bytes() == payload@
                },
                None => !valid_utf8(payload@),
            },
    {
        match utf8_text(payload) {
            Some(text) => Some((event_name_from_key(key_expr), text)),
            None => None,
        }
    }

    /// What the run loop does once the node has answered an event: nothing
    /// where the node succeeded, else the node's error is logged. The loop
    /// goes on either way.
    pub fn event_outcome(handled: Result<(), FabricError>) -> (action: NodeAction)
        ensures
            match handled {
                Ok(()) => action is EventHandled,
                Err(e) => action == NodeAction::Discard(e),
            },
    {
        match handled {
            Ok(()) => NodeAction::EventHandled,
            Err(e) => NodeAction::Discard(e),
        }
    }

    /// Takes a sample from below the event topic: the last segment of its key
    /// names the event, and the node is handed the event with the payload as
    /// text. A payload that is no text is discarded; an error of the node is
    /// handed back to be logged. Either way the loop goes on.
    pub fn on_event_sample(&mut self, key_expr: &str, payload: &[u8]) -> (action: NodeAction)
        ensures
            final(self).id() == old(self).id(),
            final(self).node_type() == old(self).node_type(),
            final(self).config() == old(self).config(),
            final(self).endpoints() == old(self).endpoints(),
            final(self).running() == old(self).running(),
            final(self).interface().node_kind() == old(self).interface().node_kind(),
            action is EventHandled || action is Discard,
            !valid_utf8(payload@) ==> action is Discard,
            !valid_utf8(payload@) ==> final(self).interface() == old(self).interface(),
    {
        match Self::event_request(key_expr, payload) {
            Some((event, text)) => Self::event_outcome(
                self.interface.handle_event(event.as_str(), text),
            ),
            None => NodeAction::Discard(
                FabricError::Other(String::from_str("event payload is not UTF-8 text")),
            ),
        }
    }

    /// One turn of the run loop: what to do about `event`. Once the loop is
    /// not running, whether it was cancelled or never started, every event
    /// is answered with `Stop` and changes nothing.
    pub fn step(&mut self, event: NodeEvent) -> (action: NodeAction)
        requires
            old(self).wf(),
        ensures
            final(self).wf(),
            final(self).id() == old(self).id(),
            final(self).node_type() == old(self).node_type(),
            final(self).endpoints() == old(self).endpoints(),
            final(self).interface().node_kind() == old(self).interface().node_kind(),
            !old(self).running() ==> action is Stop && final(self).same_node(old(self)),
            old(self).running() ==> match event {
                NodeEvent::Cancelled => {
                    &&& action is Stop
                    &&& !final(self).running()
                    &&& final(self).config() == old(self).config()
                    &&& final(self).interface() == old(self).interface()
                },
                NodeEvent::HeartbeatDue { now_secs } => {
                    &&& final(self).same_node(old(self))
                    &&& action matches NodeAction::Publish(put)
                    &&& put.key_expr@ == status_topic(old(self).id())
                    &&& put.payload@ == heartbeat_payload(
                        old(self).id(),
                        old(self).node_type(),
                        "online"@,
                        now_secs,
                    )
                },
                NodeEvent::Config { payload } => {
                    &&& final(self).running()
                    &&& match decode_node_config(payload@) {
                        Some(config) => {
                            &&& action is ConfigApplied
                            &&& final(self).config() == config
                            &&& final(self).interface().current_config() == config
                        },
                        None => {
                            &&& action is Discard
                            &&& final(self).config() == old(self).config()
                            &&& final(self).interface() == old(self).interface()
                        },
                    }
                },
                NodeEvent::ConfigReceiveFailed { reason } => {
                    &&& final(self).same_node(old(self))
                    &&& action matches NodeAction::Discard(e)
                    &&& e matches FabricError::ZenohError(text)
                    &&& text@ == reason@
                },
                NodeEvent::Event { key_expr, payload } => {
                    &&& final(self).running()
                    &&& final(self).config() == old(self).config()
                    &&& (action is EventHandled || action is Discard)
                    &&& !valid_utf8(payload@) ==> action is Discard && final(self).interface()
                        == old(self).interface()
                },
                NodeEvent::Sample { key_expr } => {
                    &&& final(self).same_node(old(self))
                    &&& action matches NodeAction::Deliver(slots)
                    &&& slots@.map_values(|i: usize| i as int) == reached_slots(
                        old(self).endpoints().subscriber_topics(),
                        key_expr@,
                    )
                },
                NodeEvent::HeartbeatFailed { reason } => {
                    &&& final(self).same_node(old(self))
                    &&& action matches NodeAction::Discard(e)
                    &&& e matches FabricError::ZenohError(text)
                    &&& text@ == reason@
                },
                NodeEvent::SessionLost { reason } => {
                    &&& !final(self).running()
                    &&& final(self).config() == old(self).config()
                    &&& final(self).interface() == old(self).interface()
                    &&& action matches NodeAction::Fail(e)
                    &&& e matches FabricError::ZenohError(text)
                    &&& text@ == reason@
                },
            },
    {
        if !self.running {
            return NodeAction::Stop;
        }
        match event {
            NodeEvent::Cancelled => {
                self.running = false;
                NodeAction::Stop
            },
            NodeEvent::HeartbeatDue { now_secs } => NodeAction::Publish(
                self.heartbeat(String::from_str("online"), now_secs),
            ),
            NodeEvent::Config { payload } => self.on_config_sample(payload.as_slice()),
            NodeEvent::ConfigReceiveFailed { reason } => NodeAction::Discard(
                FabricError::ZenohError(reason),
            ),
            NodeEvent::Event { key_expr, payload } => self.on_event_sample(
                key_expr.as_str(),
                payload.as_slice(),
            ),
            NodeEvent::Sample { key_expr } => NodeAction::Deliver(
                self.endpoints.reached_subscribers(key_expr.as_str()),
            ),
            NodeEvent::HeartbeatFailed { reason } => NodeAction::Discard(
                FabricError::ZenohError(reason),
            ),
            NodeEvent::SessionLost { reason } => {
                self.running = false;
                NodeAction::Fail(FabricError::ZenohError(reason))
            },
        }
    }

    /// Ends the agent: empties the registries and hands back every publisher
    /// and subscriber, for their handles to be undeclared.
    pub fn shutdown(&mut self) -> (held: (Vec<Publisher<P>>, Vec<Subscriber<C, S>>))
        requires
            old(self).wf(),
        ensures
            final(self).wf(),
            !final(self).running(),
            final(self).id() == old(self).id(),
            final(self).node_type() == old(self).node_type(),
            final(self).config() == old(self).config(),
            final(self).interface() == old(self).interface(),
            final(self).endpoints().publisher_topics().len() == 0,
            final(self).endpoints().subscriber_topics().len() == 0,
            held.0@ == old(self).endpoints().publisher_entries(),
            held.1@ == old(self).endpoints().subscriber_entries(),
    {
        self.running = false;
        self.endpoints.close()
    }
}

impl<I: NodeInterface, P, C, S> Node<I, P, C, S> {
    /// An agent for a node of the type `node_type`, made by the plugin that
    /// is registered for that type. Fails exactly where none is.
    pub fn from_registry<F: NodeFactory<Node = I>>(
        id: String,
        node_type: String,
        config: NodeConfig,
        registry: &NodeRegistry<F>,
    ) -> (made: Result<Self, FabricError>)
        requires
            registry.wf(),
        ensures
            match made {
                Ok(node) => {
                    &&& registry.factories().contains_key(node_type@)
                    &&& node.wf()
                    &&& node.id() == id@
                    &&& node.node_type() == node_type@
                    &&& node.config() == config@
                    &&& node.interface().current_config() == config@
                    &&& node.interface().node_kind() == registry.factories()[node_type@].makes()
                    &&& !node.running()
                    &&& node.endpoints().publisher_topics().len() == 0
                    &&& node.endpoints().subscriber_topics().len() == 0
                },
                Err(e) => {
                    &&& !registry.factories().contains_key(node_type@)
                    &&& e matches FabricError::UnknownPluginType(named)
                    &&& named@ == node_type@
                },
            },
    {
        match registry.create_node(node_type.as_str(), config.clone()) {
            Some(interface) => Node::new(id, node_type, config, interface),
            None => Err(FabricError::UnknownPluginType(node_type)),
        }
    }
}

impl<P, C, S> Node<GenericNode, P, C, S> {
    /// An agent for the built-in generic node, which holds a copy of
    /// `config`.
    pub fn generic(id: String, node_type: String, config: NodeConfig) -> (made: Result<
        Self,
        FabricError,
    >)
        ensures
            made matches Ok(node) && {
                &&& node.wf()
                &&& node.id() == id@
                &&& node.node_type() == node_type@
                &&& node.config() == config@
                &&& node.interface().current_config() == config@
                &&& node.interface().node_kind() == "generic"@
                &&& !node.running()
                &&& node.endpoints().publisher_topics().len() == 0
                &&& node.endpoints().subscriber_topics().len() == 0
            },
    {
        let interface = GenericNode::new(config.clone());
        Node::new(id, node_type, config, interface)
    }
}

} // verus!
