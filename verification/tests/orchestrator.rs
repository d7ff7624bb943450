use fabric::error::FabricError;
use fabric::node::generic::GenericNode;
use fabric::node::interface::{NodeConfig, NodeData};
use fabric::node::{Node, NodeAction, NodeEvent};
use fabric::orchestrator::{
    HealthReply, NodeState, Orchestrator, OrchestratorAction, OrchestratorEvent,
    OrchestratorConfig, StatusChange, STALENESS_CHECK_PERIOD_MILLIS, STALENESS_THRESHOLD_NANOS,
};
use fabric::retry::{PushEvent, PushStep};
use std::cell::RefCell;
use std::rc::Rc;

type Callback = Box<dyn Fn(NodeData)>;
type Controller = Orchestrator<u32, &'static str, u32, Callback>;
type Agent = Node<GenericNode, u32, &'static str, u32>;

const SECOND: u128 = 1_000_000_000;

fn controller() -> Controller {
    Orchestrator::new("o".to_string()).unwrap()
}

fn agent(id: &str) -> Agent {
    let config = NodeConfig {
        node_id: id.to_string(),
        config: "{\"sampling_rate\":5,\"threshold\":50.0}".to_string(),
    };
    Node::generic(id.to_string(), "generic".to_string(), config).unwrap()
}

fn recorder() -> (Rc<RefCell<Vec<NodeData>>>, Callback) {
    let seen = Rc::new(RefCell::new(Vec::new()));
    let sink = seen.clone();
    (seen, Box::new(move |data: NodeData| sink.borrow_mut().push(data)))
}

fn fire(orchestrator: &Controller, changes: &[StatusChange]) {
    for change in changes {
        if change.notify {
            let callback = orchestrator.callback(&change.node_id).unwrap();
            callback(change.data.clone());
        }
    }
}

fn status_of(orchestrator: &Controller, id: &str) -> String {
    orchestrator.node(id).unwrap().last_value.status.clone()
}

fn hear(orchestrator: &mut Controller, node: &Agent, now: u128) -> StatusChange {
    let put = node.heartbeat("online".to_string(), (now / SECOND) as u64);
    orchestrator.update_node_health_at(&put.key_expr, &put.payload, now).unwrap()
}

#[test]
fn tunables_have_their_defaults() {
    assert_eq!(STALENESS_THRESHOLD_NANOS, 10 * SECOND);
    assert_eq!(STALENESS_CHECK_PERIOD_MILLIS, 1000);
    assert_eq!(fabric::node::HEARTBEAT_PERIOD_MILLIS, 1000);
}

#[test]
fn a_new_orchestrator_knows_nothing() {
    let orchestrator = controller();
    assert_eq!(orchestrator.get_id(), "o");
    assert!(orchestrator.get_nodes().is_empty());
    assert!(orchestrator.node("n1").is_none());
    assert!(orchestrator.callback("n1").is_none());
    assert!(!orchestrator.is_running());
}

#[test]
fn single_node_online_offline_cycle() {
    let mut orchestrator = controller();
    let node = agent("n1");
    let t0 = 1_700_000_000 * SECOND;
    hear(&mut orchestrator, &node, t0);
    hear(&mut orchestrator, &node, t0 + SECOND);
    assert_eq!(status_of(&orchestrator, "n1"), "online");
    assert_eq!(orchestrator.node("n1").unwrap().last_update, t0 + SECOND);

    for tick in 2..=11 {
        assert!(orchestrator.check_offline_nodes_at(t0 + tick * SECOND).is_empty());
        assert_eq!(status_of(&orchestrator, "n1"), "online");
    }
    let changes = orchestrator.check_offline_nodes_at(t0 + 12 * SECOND);
    assert_eq!(changes.len(), 1);
    assert_eq!(changes[0].node_id, "n1");
    assert_eq!(changes[0].data.status, "offline");
    assert!(!changes[0].notify);
    assert_eq!(status_of(&orchestrator, "n1"), "offline");
    assert_eq!(orchestrator.node("n1").unwrap().last_update, t0 + SECOND);
    assert!(orchestrator.check_offline_nodes_at(t0 + 13 * SECOND).is_empty());

    hear(&mut orchestrator, &node, t0 + 14 * SECOND);
    assert_eq!(status_of(&orchestrator, "n1"), "online");
    assert_eq!(orchestrator.node("n1").unwrap().last_update, t0 + 14 * SECOND);
}

#[test]
fn staleness_is_strictly_more_than_the_threshold() {
    let mut orchestrator = controller();
    orchestrator.update_node_state_at(NodeData::new("n1".to_string()), 100);
    assert!(orchestrator.check_offline_nodes_at(100 + STALENESS_THRESHOLD_NANOS).is_empty());
    assert!(orchestrator.check_offline_nodes_at(50).is_empty());
    assert_eq!(status_of(&orchestrator, "n1"), "online");
    let changes = orchestrator.check_offline_nodes_at(101 + STALENESS_THRESHOLD_NANOS);
    assert_eq!(changes.len(), 1);
    assert_eq!(status_of(&orchestrator, "n1"), "offline");
}

#[test]
fn a_silent_node_goes_offline_and_its_callback_hears_it() {
    let mut orchestrator = controller();
    let (seen, callback) = recorder();
    orchestrator.register_callback("n1", callback).unwrap();
    let quiet = agent("n1");
    let lively = agent("n2");
    hear(&mut orchestrator, &quiet, 0);
    hear(&mut orchestrator, &lively, 0);
    hear(&mut orchestrator, &lively, 9 * SECOND);
    let changes = orchestrator.check_offline_nodes_at(10 * SECOND + 1);
    fire(&orchestrator, &changes);
    assert_eq!(changes.len(), 1);
    assert!(changes[0].notify);
    assert_eq!(seen.borrow().len(), 1);
    assert_eq!(seen.borrow()[0].node_id, "n1");
    assert_eq!(seen.borrow()[0].status, "offline");
    assert_eq!(status_of(&orchestrator, "n2"), "online");
    let changes = orchestrator.check_offline_nodes_at(11 * SECOND);
    fire(&orchestrator, &changes);
    assert_eq!(seen.borrow().len(), 1);
}

#[test]
fn heartbeats_that_are_not_online_are_kept_as_they_are() {
    let mut orchestrator = controller();
    let node = agent("n1");
    let put = node.heartbeat("unknown".to_string(), 5);
    let change =
        orchestrator.update_node_health_at(&put.key_expr, &put.payload, 5 * SECOND).unwrap();
    assert_eq!(change.data.status, "unknown");
    assert!(change.calls_for_warning());
    assert!(!hear(&mut controller(), &node, 0).calls_for_warning());
    assert_eq!(status_of(&orchestrator, "n1"), "unknown");
    assert!(orchestrator.check_offline_nodes_at(100 * SECOND).is_empty());
    assert_eq!(status_of(&orchestrator, "n1"), "unknown");
}

#[test]
fn malformed_heartbeats_are_dropped() {
    let mut orchestrator = controller();
    let seen = orchestrator.update_node_health_at("fabric/n1/status", b"not json", 1);
    assert!(matches!(seen, Err(FabricError::SerdeJsonError(_))));
    let seen = orchestrator.update_node_health_at("fabric/n1/status", b"{\"node_id\":1}", 1);
    assert!(matches!(seen, Err(FabricError::SerdeJsonError(_))));
    assert!(orchestrator.get_nodes().is_empty());
}

#[test]
fn heartbeats_are_filed_under_the_node_of_the_key() {
    let mut orchestrator = controller();
    let node = agent("n1");
    let put = node.heartbeat("online".to_string(), 5);
    let change =
        orchestrator.update_node_health_at("fabric/other/status", &put.payload, 7).unwrap();
    assert_eq!(change.node_id, "other");
    assert_eq!(change.data.node_id, "n1");
    assert!(orchestrator.node("other").is_some());
    assert!(orchestrator.node("n1").is_none());
    let change = orchestrator.update_node_health_at("odd", &put.payload, 8).unwrap();
    assert_eq!(change.node_id, "unknown");
}

#[test]
fn update_node_health_stamps_the_clock() {
    let mut orchestrator = controller();
    let node = agent("n1");
    let put = node.update_status("online".to_string()).unwrap();
    let before = std::time::SystemTime::now()
        .duration_since(std::time::UNIX_EPOCH)
        .unwrap()
        .as_nanos();
    orchestrator.update_node_health(&put.key_expr, &put.payload).unwrap();
    let first = orchestrator.node("n1").unwrap().last_update;
    orchestrator.update_node_state(NodeData::new("n1".to_string()));
    let second = orchestrator.node("n1").unwrap().last_update;
    assert!(before <= first);
    assert!(first <= second);
    assert!(orchestrator.check_offline_nodes().is_empty());
}

#[test]
fn test_orchestrator_callback_functionality() {
    let mut orchestrator = controller();
    let (seen, callback) = recorder();
    orchestrator.register_callback("test_node", callback).unwrap();

    let node_data = NodeData {
        node_id: "test_node".to_string(),
        status: "active".to_string(),
        node_type: "radio".to_string(),
        timestamp: 1234567890,
        metadata: None,
    };
    let change = orchestrator.update_node_state(node_data.clone());
    fire(&orchestrator, &[change]);

    let received = seen.borrow();
    assert_eq!(received.len(), 1);
    assert_eq!(received[0].node_id, node_data.node_id);
    assert_eq!(received[0].status, node_data.status);
}

#[test]
fn callback_replacement() {
    let mut orchestrator = controller();
    let (seen_a, a) = recorder();
    let (seen_b, b) = recorder();
    orchestrator.register_callback("n1", a).unwrap();
    let change = orchestrator.update_node_state_at(NodeData::new("n1".to_string()), 1);
    fire(&orchestrator, &[change]);
    assert_eq!(seen_a.borrow().len(), 1);

    orchestrator.register_callback("n1", b).unwrap();
    let change = orchestrator.update_node_state_at(NodeData::new("n1".to_string()), 2);
    fire(&orchestrator, &[change]);
    assert_eq!(seen_a.borrow().len(), 1);
    assert_eq!(seen_b.borrow().len(), 1);
}

#[test]
fn updates_of_other_nodes_call_nothing() {
    let mut orchestrator = controller();
    let (seen, callback) = recorder();
    orchestrator.register_callback("n1", callback).unwrap();
    let change = orchestrator.update_node_state_at(NodeData::new("n2".to_string()), 1);
    assert!(!change.notify);
    fire(&orchestrator, &[change]);
    assert!(seen.borrow().is_empty());
}

#[test]
fn get_nodes_is_a_snapshot() {
    let mut orchestrator = controller();
    orchestrator.update_node_state_at(NodeData::new("n1".to_string()), 1);
    orchestrator.update_node_state_at(NodeData::new("n2".to_string()), 2);
    orchestrator.update_node_state_at(NodeData::new("n1".to_string()), 3);
    let snapshot = orchestrator.get_nodes();
    assert_eq!(
        snapshot,
        vec![
            ("n1".to_string(), NodeState::at(NodeData::new("n1".to_string()), 3)),
            ("n2".to_string(), NodeState::at(NodeData::new("n2".to_string()), 2)),
        ]
    );
    orchestrator.update_node_state_at(NodeData::new("n3".to_string()), 4);
    assert_eq!(snapshot.len(), 2);
}

#[test]
fn config_push_reaches_the_node() {
    let orchestrator = controller();
    let mut node = agent("n1");
    let startup = node.start(0);
    let pushed = NodeConfig {
        node_id: "n1".to_string(),
        config: "{\"sampling_rate\":10,\"threshold\":75.0}".to_string(),
    };
    let mut push = orchestrator.publish_node_config("n1", &pushed).unwrap();
    let message = push.get_message();
    assert_eq!(message.key_expr, "node/n1/config");
    assert_eq!(message.key_expr, startup.config_topic);
    assert_eq!(
        String::from_utf8(message.payload.clone()).unwrap(),
        "{\"node_id\":\"n1\",\"config\":{\"sampling_rate\":10,\"threshold\":75.0}}"
    );
    let payload = message.payload.clone();
    assert!(matches!(push.step(PushEvent::Sent), PushStep::Done));
    assert!(matches!(node.step(NodeEvent::Config { payload }), NodeAction::ConfigApplied));
    assert_eq!(node.get_config(), pushed);
    assert_eq!(node.get_config().config, "{\"sampling_rate\":10,\"threshold\":75.0}");
}

#[test]
fn config_push_of_what_is_not_json_fails() {
    let orchestrator = controller();
    let broken = NodeConfig { node_id: "n1".to_string(), config: "{".to_string() };
    assert!(matches!(
        orchestrator.publish_node_config("n1", &broken),
        Err(FabricError::SerdeJsonError(_))
    ));
    assert!(matches!(
        orchestrator.update_node_config("n1", "nope"),
        Err(FabricError::SerdeJsonError(_))
    ));
}

#[test]
fn update_node_config_pushes_the_bare_value() {
    let orchestrator = controller();
    let push = orchestrator.update_node_config("n1", " { \"rate\" : 3 } ").unwrap();
    assert_eq!(push.get_message().key_expr, "fabric/n1/config");
    assert_eq!(push.get_message().payload, b"{\"rate\":3}".to_vec());
}

#[test]
fn multi_node_glob_subscription() {
    let mut orchestrator = controller();
    let mut n1 = agent("n1");
    let mut n2 = agent("n2");
    n1.create_publisher("node/n1/data".to_string(), 1).unwrap();
    n2.create_publisher("node/n2/data".to_string(), 2).unwrap();
    orchestrator.subscribe_to_node("*", "cb", 9).unwrap();
    let mut received = Vec::new();
    for (node, topic) in [(&n1, "node/n1/data"), (&n2, "node/n2/data")] {
        let out = node.publish(topic, b"ping".to_vec()).unwrap();
        assert_eq!(out.payload, b"ping".to_vec());
        for callback in orchestrator.handle_subscriber_samples(topic) {
            received.push((*callback, topic));
        }
    }
    assert_eq!(received, vec![("cb", "node/n1/data"), ("cb", "node/n2/data")]);
    assert!(orchestrator.handle_subscriber_samples("node/n1/config").is_empty());
}

#[test]
fn subscribe_to_node_again_replaces() {
    let mut orchestrator = controller();
    orchestrator.subscribe_to_node("n1", "first", 1).unwrap();
    orchestrator.subscribe_to_node("n1", "second", 2).unwrap();
    assert_eq!(orchestrator.handle_subscriber_samples("node/n1/data"), vec![&"second"]);
    assert!(orchestrator.handle_subscriber_samples("node/n2/data").is_empty());
    assert!(matches!(
        orchestrator.subscribe_to_node("bad#id", "cb", 3),
        Err(FabricError::ZenohError(_))
    ));
    let removed = orchestrator.unsubscribe("node/n1/data").unwrap();
    assert_eq!(removed.handle, 2);
    assert!(orchestrator.handle_subscriber_samples("node/n1/data").is_empty());
}

#[test]
fn orchestrator_publishes_like_a_node() {
    let mut orchestrator = controller();
    assert!(matches!(
        orchestrator.publish("t", vec![1]),
        Err(FabricError::PublisherNotFound(_))
    ));
    orchestrator.create_publisher("t".to_string(), 4).unwrap();
    assert_eq!(*orchestrator.publish("t", vec![1]).unwrap().publisher, 4);
    orchestrator.create_subscriber("t".to_string(), "cb1", 1).unwrap();
    orchestrator.create_subscriber("t".to_string(), "cb2", 2).unwrap();
    assert_eq!(orchestrator.handle_subscriber_samples("t"), vec![&"cb2"]);
    assert_eq!(orchestrator.subscriber_at(0).callback, "cb2");
}

#[test]
fn status_subscription_is_kept_and_given_up() {
    let mut orchestrator = controller();
    assert_eq!(orchestrator.unsubscribe_from_node_statuses().unwrap(), None);
    orchestrator.subscribe_to_node_statuses(11).unwrap();
    assert_eq!(orchestrator.unsubscribe_from_node_statuses().unwrap(), Some(11));
    assert_eq!(orchestrator.unsubscribe_from_node_statuses().unwrap(), None);
}

#[test]
fn health_check_asks_every_node() {
    let mut orchestrator = controller();
    orchestrator.update_node_state_at(NodeData::new("n1".to_string()), 1);
    orchestrator.update_node_state_at(NodeData::new("n2".to_string()), 1);
    assert_eq!(
        orchestrator.check_node_health(),
        vec![
            ("n1".to_string(), "node/n1/status".to_string()),
            ("n2".to_string(), "node/n2/status".to_string()),
        ]
    );
}

#[test]
fn health_replies_set_the_status() {
    let mut orchestrator = controller();
    let (seen, callback) = recorder();
    orchestrator.register_callback("n1", callback).unwrap();
    orchestrator.update_node_state_at(NodeData::new("n1".to_string()), 5);

    assert!(orchestrator.apply_health_reply("ghost", HealthReply::NoSample).is_none());

    let change = orchestrator.apply_health_reply("n1", HealthReply::NoSample).unwrap();
    assert_eq!(change.data.status, "unknown");
    assert!(change.notify);
    fire(&orchestrator, &[change]);
    assert_eq!(status_of(&orchestrator, "n1"), "unknown");
    assert!(orchestrator.apply_health_reply("n1", HealthReply::QueryFailed).is_none());
    assert!(orchestrator.apply_health_reply("n1", HealthReply::ReceiveFailed).is_none());
    assert!(orchestrator.apply_health_reply("n1", HealthReply::Sample(vec![0xff])).is_none());
    assert_eq!(status_of(&orchestrator, "n1"), "unknown");

    let online = agent("n1").heartbeat("online".to_string(), 9).payload;
    assert!(orchestrator.apply_health_reply("n1", HealthReply::Sample(online)).is_none());
    assert_eq!(status_of(&orchestrator, "n1"), "online");
    assert_eq!(orchestrator.node("n1").unwrap().last_value.timestamp, 9);
    assert_eq!(orchestrator.node("n1").unwrap().last_update, 5);

    let busy = agent("n1").heartbeat("busy".to_string(), 10).payload;
    let change = orchestrator.apply_health_reply("n1", HealthReply::Sample(busy)).unwrap();
    assert_eq!(change.data.status, "offline");
    fire(&orchestrator, &[change]);
    assert_eq!(status_of(&orchestrator, "n1"), "offline");

    assert!(orchestrator.apply_health_reply("n1", HealthReply::Sample(b"junk".to_vec())).is_none());
    assert_eq!(status_of(&orchestrator, "n1"), "offline");

    let statuses: Vec<String> = seen.borrow().iter().map(|d| d.status.clone()).collect();
    assert_eq!(statuses, vec!["unknown".to_string(), "offline".to_string()]);
}

#[test]
fn run_loop_steps() {
    let mut orchestrator = controller();
    assert!(matches!(
        orchestrator.step(OrchestratorEvent::StalenessCheckDue { now: 1 }),
        OrchestratorAction::Stop
    ));
    assert_eq!(orchestrator.start(), "fabric/*/status");
    assert!(orchestrator.is_running());
    orchestrator.subscribe_to_node_statuses(1).unwrap();
    orchestrator.subscribe_to_node("*", "cb", 2).unwrap();

    let put = agent("n1").heartbeat("online".to_string(), 0);
    let event = OrchestratorEvent::Status { key_expr: put.key_expr, payload: put.payload, now: 0 };
    match orchestrator.step(event) {
        OrchestratorAction::Notify(changes) => {
            assert_eq!(changes.len(), 1);
            assert_eq!(changes[0].node_id, "n1");
            assert!(!changes[0].notify);
        }
        _ => panic!("expected a change"),
    }
    let event = OrchestratorEvent::Status {
        key_expr: "fabric/n1/status".to_string(),
        payload: b"junk".to_vec(),
        now: 1,
    };
    assert!(matches!(
        orchestrator.step(event),
        OrchestratorAction::Discard(FabricError::SerdeJsonError(_))
    ));
    match orchestrator.step(OrchestratorEvent::StalenessCheckDue { now: 11 * SECOND }) {
        OrchestratorAction::Notify(changes) => assert_eq!(changes[0].data.status, "offline"),
        _ => panic!("expected a change"),
    }
    match orchestrator.step(OrchestratorEvent::Sample { key_expr: "node/n1/data".to_string() }) {
        OrchestratorAction::Deliver(slots) => assert_eq!(slots, vec![0]),
        _ => panic!("expected a delivery"),
    }
    assert!(matches!(orchestrator.step(OrchestratorEvent::Cancelled), OrchestratorAction::Stop));
    assert!(!orchestrator.is_running());
    assert!(matches!(
        orchestrator.step(OrchestratorEvent::StalenessCheckDue { now: 99 * SECOND }),
        OrchestratorAction::Stop
    ));
    let (status, publishers, subscribers) = orchestrator.shutdown();
    assert_eq!(status, Some(1));
    assert!(publishers.is_empty());
    assert_eq!(subscribers.len(), 1);
    assert!(orchestrator.handle_subscriber_samples("node/n1/data").is_empty());
    assert_eq!(status_of(&orchestrator, "n1"), "offline");
}

#[test]
fn orchestrator_config_lists_nodes() {
    let config = OrchestratorConfig {
        nodes: vec![NodeConfig { node_id: "n1".to_string(), config: "{}".to_string() }],
    };
    assert_eq!(config.clone(), config);
    assert_eq!(config.nodes[0].node_id, "n1");
}

#[test]
fn a_lost_session_ends_the_orchestrator_loop() {
    let mut orchestrator = controller();
    orchestrator.start();
    match orchestrator.step(OrchestratorEvent::SessionLost { reason: "gone".to_string() }) {
        OrchestratorAction::Fail(e) => assert_eq!(e, FabricError::ZenohError("gone".to_string())),
        _ => panic!("expected the loop to fail"),
    }
    assert!(!orchestrator.is_running());
    assert_eq!(orchestrator.subscriber_count(), 0);
}
