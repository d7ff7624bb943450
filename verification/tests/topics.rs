use fabric::error::FabricError;
use fabric::topic::{
    event_name_from_key, is_key_expr, key_exprs_intersect, node_config_topic, node_data_topic,
    node_event_topic, node_fabric_config_topic, node_health_topic, node_id_from_status_key,
    node_status_topic, status_subscription, validate_key_expr,
};

#[test]
fn topics_are_bit_exact() {
    assert_eq!(node_config_topic("n1"), "node/n1/config");
    assert_eq!(node_data_topic("n1"), "node/n1/data");
    assert_eq!(node_data_topic("*"), "node/*/data");
    assert_eq!(node_event_topic("n1", "calibrate"), "node/n1/event/calibrate");
    assert_eq!(node_event_topic("n1", "*"), "node/n1/event/*");
    assert_eq!(node_status_topic("n1"), "fabric/n1/status");
    assert_eq!(node_health_topic("n1"), "node/n1/status");
    assert_eq!(node_fabric_config_topic("n1"), "fabric/n1/config");
    assert_eq!(status_subscription(), "fabric/*/status");
}

#[test]
fn status_key_names_its_node() {
    assert_eq!(node_id_from_status_key("fabric/n1/status"), "n1");
    assert_eq!(node_id_from_status_key(&node_status_topic("failing_node")), "failing_node");
    assert_eq!(node_id_from_status_key("fabric"), "unknown");
    assert_eq!(node_id_from_status_key(""), "unknown");
    assert_eq!(node_id_from_status_key("a/b"), "b");
    assert_eq!(node_id_from_status_key("a//c"), "");
}

#[test]
fn event_key_names_its_event() {
    assert_eq!(event_name_from_key("node/n1/event/calibrate"), "calibrate");
    assert_eq!(event_name_from_key(&node_event_topic("n1", "reset")), "reset");
    assert_eq!(event_name_from_key("lonely"), "lonely");
    assert_eq!(event_name_from_key("a/b/"), "");
}

#[test]
fn key_expressions_are_checked() {
    assert!(is_key_expr("node/n1/data"));
    assert!(is_key_expr("node/*/data"));
    assert!(is_key_expr("node/**"));
    assert!(is_key_expr("fabric/*/status"));
    assert!(!is_key_expr(""));
    assert!(!is_key_expr("/node"));
    assert!(!is_key_expr("node/"));
    assert!(!is_key_expr("node//data"));
    assert!(!is_key_expr("sensor/#"));
    assert!(!is_key_expr("what?"));
    assert!(!is_key_expr("a/**/**"));
    assert!(validate_key_expr("node/n1/data").is_ok());
    assert!(matches!(validate_key_expr("sensor/#"), Err(FabricError::ZenohError(_))));
}

#[test]
fn key_expressions_intersect() {
    assert!(key_exprs_intersect("node/n1/data", "node/n1/data"));
    assert!(key_exprs_intersect("node/*/data", "node/n1/data"));
    assert!(key_exprs_intersect("node/**", "node/n1/data"));
    assert!(key_exprs_intersect("fabric/*/status", "fabric/n7/status"));
    assert!(!key_exprs_intersect("node/n2/data", "node/n1/data"));
    assert!(!key_exprs_intersect("node/*/data", "node/n1/config"));
    assert!(!key_exprs_intersect("node/*", "node/n1/data"));
    assert!(!key_exprs_intersect("fabric/*/status", "fabric/a/b/status"));
    assert!(!key_exprs_intersect("sensor/#", "sensor/#"));
    assert!(!key_exprs_intersect("node/n1/data", ""));
}
