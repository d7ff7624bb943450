use fabric::endpoints::Put;
use fabric::error::FabricError;
use fabric::node::generic::GenericNode;
use fabric::node::interface::{NodeConfig, NodeData, NodeInterface};
use fabric::node::{Node, NodeAction, NodeEvent};
use fabric::Node as Reexported;

type Agent = Node<GenericNode, u32, &'static str, u32>;

fn initial() -> NodeConfig {
    NodeConfig {
        node_id: "n1".to_string(),
        config: "{\"sampling_rate\":5,\"threshold\":50.0}".to_string(),
    }
}

fn agent() -> Agent {
    Node::generic("n1".to_string(), "generic".to_string(), initial()).unwrap()
}

struct Picky {
    config: NodeConfig,
    events: Vec<(String, String)>,
}

impl NodeInterface for Picky {
    fn get_config(&self) -> NodeConfig {
        self.config.clone()
    }

    fn set_config(&mut self, config: NodeConfig) {
        self.config = config;
    }

    fn get_type(&self) -> String {
        "picky".to_string()
    }

    fn handle_event(&mut self, event: &str, payload: &str) -> Result<(), FabricError> {
        if event == "explode" {
            return Err(FabricError::Other("boom".to_string()));
        }
        self.events.push((event.to_string(), payload.to_string()));
        Ok(())
    }

    fn update_config(&mut self, config: NodeConfig) {
        self.config = config;
    }
}

#[test]
fn test_node_new() {
    let node_config = NodeConfig {
        node_id: "test_node".to_string(),
        config: "{\"sampling_rate\":5,\"threshold\":50.0}".to_string(),
    };
    let result: Result<Node<_, u32, u32, u32>, FabricError> = Node::new(
        "test_node".to_string(),
        "mock".to_string(),
        node_config.clone(),
        GenericNode::new(node_config),
    );
    assert!(result.is_ok(), "Node created successfully");
}

#[test]
fn a_new_node_holds_what_it_was_given() {
    let node: Reexported<GenericNode, u32, u32, u32> =
        Node::generic("n1".to_string(), "generic".to_string(), initial()).unwrap();
    assert_eq!(node.get_id(), "n1");
    assert_eq!(node.get_type(), "generic");
    assert_eq!(node.get_config(), initial());
    assert_eq!(node.get_interface().unwrap().get_config(), initial());
    assert_eq!(node.get_interface().unwrap().get_type(), "generic");
    assert!(!node.is_running());
}

#[test]
fn update_config_reaches_the_interface() {
    let mut node = agent();
    let updated = NodeConfig {
        node_id: "n1".to_string(),
        config: "{\"sampling_rate\":10,\"threshold\":75.0}".to_string(),
    };
    assert!(node.update_config(updated.clone()).is_ok());
    assert_eq!(node.get_config(), updated);
    assert_eq!(node.get_interface().unwrap().get_config(), updated);
    assert!(node.update_config(updated.clone()).is_ok());
    assert_eq!(node.get_config(), updated);
}

#[test]
fn set_interface_swaps_the_node() {
    let mut node = agent();
    let other = NodeConfig { node_id: "n1".to_string(), config: "7".to_string() };
    assert!(node.set_interface(GenericNode::new(other.clone())).is_ok());
    assert_eq!(node.get_interface().unwrap().get_config(), other);
    assert_eq!(node.get_config(), initial());
}

#[test]
fn heartbeat_is_exact() {
    let node = agent();
    let put = node.heartbeat("online".to_string(), 1234567890);
    assert_eq!(put.key_expr, "fabric/n1/status");
    assert_eq!(
        String::from_utf8(put.payload).unwrap(),
        "{\"node_id\":\"n1\",\"node_type\":\"generic\",\"timestamp\":1234567890,\"metadata\":null,\"status\":\"online\"}"
    );
}

#[test]
fn update_status_stamps_the_current_time() {
    let node = agent();
    let before = std::time::SystemTime::now()
        .duration_since(std::time::UNIX_EPOCH)
        .unwrap()
        .as_secs();
    let put = node.update_status("unknown".to_string()).unwrap();
    let after = std::time::SystemTime::now()
        .duration_since(std::time::UNIX_EPOCH)
        .unwrap()
        .as_secs();
    assert_eq!(put.key_expr, "fabric/n1/status");
    let data = NodeData::from_slice(&put.payload).unwrap();
    assert_eq!(data.node_id, "n1");
    assert_eq!(data.node_type, "generic");
    assert_eq!(data.status, "unknown");
    assert_eq!(data.metadata, None);
    assert!(before <= data.timestamp && data.timestamp <= after);
}

#[test]
fn publish_node_status_uses_the_nodes_topic() {
    let node = agent();
    let data = NodeData::from_fields(
        "n1".to_string(),
        "generic".to_string(),
        3,
        Some("{\"v\":1}".to_string()),
        "online".to_string(),
    );
    let put = node.publish_node_status(&data).unwrap();
    assert_eq!(put.key_expr, "fabric/n1/status");
    assert_eq!(put.payload, data.to_json().unwrap().into_bytes());
    let broken = NodeData::from_fields(
        "n1".to_string(),
        "generic".to_string(),
        3,
        Some("{".to_string()),
        "online".to_string(),
    );
    assert!(matches!(node.publish_node_status(&broken), Err(FabricError::SerdeJsonError(_))));
}

#[test]
fn publish_without_publisher_fails_fast() {
    let mut node = agent();
    match node.publish("t", b"x".to_vec()) {
        Err(FabricError::PublisherNotFound(topic)) => assert_eq!(topic, "t"),
        _ => panic!("expected PublisherNotFound"),
    }
    node.create_publisher("t".to_string(), 5).unwrap();
    let out = node.publish("t", b"x".to_vec()).unwrap();
    assert_eq!(*out.publisher, 5);
    assert_eq!(out.payload, b"x".to_vec());
}

#[test]
fn second_subscriber_on_a_topic_supersedes_the_first() {
    let mut node = agent();
    node.create_subscriber("node/n1/data".to_string(), "cb1", 1).unwrap();
    node.create_subscriber("node/n1/data".to_string(), "cb2", 2).unwrap();
    assert_eq!(node.handle_subscriber_samples("node/n1/data"), vec![&"cb2"]);
    let removed = node.unsubscribe("node/n1/data").unwrap();
    assert_eq!(removed.callback, "cb2");
    assert!(node.handle_subscriber_samples("node/n1/data").is_empty());
    assert!(node.unsubscribe("node/n1/data").is_none());
}

#[test]
fn start_names_topics_and_beats_once() {
    let mut node = agent();
    let startup = node.start(10);
    assert!(node.is_running());
    assert_eq!(startup.config_topic, "node/n1/config");
    assert_eq!(startup.event_glob, "node/n1/event/*");
    assert_eq!(startup.heartbeat, node.heartbeat("online".to_string(), 10));
}

#[test]
fn step_answers_stop_when_not_running() {
    let mut node = agent();
    assert!(matches!(node.step(NodeEvent::HeartbeatDue { now_secs: 1 }), NodeAction::Stop));
    node.start(0);
    assert!(matches!(node.step(NodeEvent::Cancelled), NodeAction::Stop));
    assert!(!node.is_running());
    assert!(matches!(node.step(NodeEvent::HeartbeatDue { now_secs: 1 }), NodeAction::Stop));
    let payload = b"{\"node_id\":\"n1\",\"config\":1}".to_vec();
    assert!(matches!(node.step(NodeEvent::Config { payload }), NodeAction::Stop));
    assert_eq!(node.get_config(), initial());
}

#[test]
fn step_beats_on_every_tick() {
    let mut node = agent();
    node.start(0);
    match node.step(NodeEvent::HeartbeatDue { now_secs: 77 }) {
        NodeAction::Publish(put) => {
            assert_eq!(put, node.heartbeat("online".to_string(), 77));
            assert_eq!(NodeData::from_slice(&put.payload).unwrap().timestamp, 77);
        }
        _ => panic!("expected a heartbeat"),
    }
}

#[test]
fn step_applies_a_configuration() {
    let mut node = agent();
    node.start(0);
    let pushed = NodeConfig {
        node_id: "n1".to_string(),
        config: "{\"sampling_rate\":10,\"threshold\":75.0}".to_string(),
    };
    let payload = pushed.to_json().unwrap().into_bytes();
    assert!(matches!(node.step(NodeEvent::Config { payload }), NodeAction::ConfigApplied));
    assert_eq!(node.get_config(), pushed);
    assert_eq!(node.get_config().config, "{\"sampling_rate\":10,\"threshold\":75.0}");
    assert_eq!(node.get_interface().unwrap().get_config(), pushed);
    assert!(node.is_running());
}

#[test]
fn step_discards_a_malformed_configuration() {
    let mut node = agent();
    node.start(0);
    for payload in [b"garbage".to_vec(), b"{\"node_id\":\"n1\"}".to_vec(), vec![0xff]] {
        match node.step(NodeEvent::Config { payload }) {
            NodeAction::Discard(FabricError::SerdeJsonError(_)) => {}
            _ => panic!("expected the sample to be discarded"),
        }
        assert_eq!(node.get_config(), initial());
        assert!(node.is_running());
    }
    match node.step(NodeEvent::ConfigReceiveFailed { reason: "closed".to_string() }) {
        NodeAction::Discard(e) => assert_eq!(e, FabricError::ZenohError("closed".to_string())),
        _ => panic!("expected the failure to be logged"),
    }
    assert!(node.is_running());
}

#[test]
fn step_hands_events_to_the_interface() {
    let interface = Picky { config: initial(), events: Vec::new() };
    let mut node: Node<Picky, u32, u32, u32> =
        Node::new("n1".to_string(), "picky".to_string(), initial(), interface).unwrap();
    node.start(0);
    let event = NodeEvent::Event {
        key_expr: "node/n1/event/calibrate".to_string(),
        payload: b"now".to_vec(),
    };
    assert!(matches!(node.step(event), NodeAction::EventHandled));
    assert_eq!(
        node.get_interface().unwrap().events,
        vec![("calibrate".to_string(), "now".to_string())]
    );
    let event = NodeEvent::Event {
        key_expr: "node/n1/event/explode".to_string(),
        payload: b"".to_vec(),
    };
    match node.step(event) {
        NodeAction::Discard(e) => assert_eq!(e, FabricError::Other("boom".to_string())),
        _ => panic!("expected the error to be logged"),
    }
    let event = NodeEvent::Event {
        key_expr: "node/n1/event/calibrate".to_string(),
        payload: vec![0xc3, 0x28],
    };
    assert!(matches!(node.step(event), NodeAction::Discard(FabricError::Other(_))));
    assert_eq!(node.get_interface().unwrap().events.len(), 1);
    assert!(node.is_running());
}

#[test]
fn step_delivers_samples_to_matching_subscribers() {
    let mut node = agent();
    node.create_subscriber("node/n1/data".to_string(), "exact", 1).unwrap();
    node.create_subscriber("node/*/data".to_string(), "glob", 2).unwrap();
    node.create_subscriber("node/n2/data".to_string(), "other", 3).unwrap();
    node.start(0);
    match node.step(NodeEvent::Sample { key_expr: "node/n1/data".to_string() }) {
        NodeAction::Deliver(slots) => {
            assert_eq!(slots, vec![0, 1]);
            let called: Vec<&str> = slots.iter().map(|i| node.subscriber_at(*i).callback).collect();
            assert_eq!(called, vec!["exact", "glob"]);
        }
        _ => panic!("expected a delivery"),
    }
}

#[test]
fn shutdown_hands_back_every_handle() {
    let mut node = agent();
    node.create_publisher("node/n1/data".to_string(), 9).unwrap();
    node.create_subscriber("node/*/data".to_string(), "glob", 2).unwrap();
    node.start(0);
    let (publishers, subscribers) = node.shutdown();
    assert!(!node.is_running());
    assert_eq!(publishers.len(), 1);
    assert_eq!(publishers[0].handle, 9);
    assert_eq!(subscribers.len(), 1);
    assert_eq!(subscribers[0].handle, 2);
    assert!(node.handle_subscriber_samples("node/n1/data").is_empty());
    assert!(matches!(node.publish("node/n1/data", vec![]), Err(FabricError::PublisherNotFound(_))));
    let expected = Put { key_expr: "fabric/n1/status".to_string(), payload: Vec::new() };
    assert_eq!(node.heartbeat("offline".to_string(), 1).key_expr, expected.key_expr);
}

#[test]
fn a_refused_heartbeat_is_logged_and_the_loop_goes_on() {
    let mut node = agent();
    node.start(0);
    match node.step(NodeEvent::HeartbeatFailed { reason: "busy".to_string() }) {
        NodeAction::Discard(e) => assert_eq!(e, FabricError::ZenohError("busy".to_string())),
        _ => panic!("expected the failure to be logged"),
    }
    assert!(node.is_running());
}

#[test]
fn a_lost_session_ends_the_loop_with_the_error() {
    let mut node = agent();
    node.start(0);
    match node.step(NodeEvent::SessionLost { reason: "gone".to_string() }) {
        NodeAction::Fail(e) => assert_eq!(e, FabricError::ZenohError("gone".to_string())),
        _ => panic!("expected the loop to fail"),
    }
    assert!(!node.is_running());
    assert!(matches!(node.step(NodeEvent::HeartbeatDue { now_secs: 1 }), NodeAction::Stop));
}

#[test]
fn event_requests_name_event_and_text() {
    let request = Agent::event_request("node/n1/event/calibrate", b"now");
    assert_eq!(request, Some(("calibrate".to_string(), "now")));
    assert_eq!(Agent::event_request("node/n1/event/calibrate", &[0xff]), None);
    assert!(matches!(Agent::event_outcome(Ok(())), NodeAction::EventHandled));
    match Agent::event_outcome(Err(FabricError::InvalidConfig("no".to_string()))) {
        NodeAction::Discard(e) => assert_eq!(e, FabricError::InvalidConfig("no".to_string())),
        _ => panic!("expected the error to be logged"),
    }
}
