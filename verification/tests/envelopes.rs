use fabric::error::FabricError;
use fabric::json::{
    codec_error, codec_failure, compact_text, parse_text, string_literal, JsonValue,
};
use fabric::node::interface::{canonical_json_text, default_status, NodeConfig, NodeData};

fn heartbeat() -> NodeData {
    NodeData {
        node_id: "n1".to_string(),
        node_type: "generic".to_string(),
        timestamp: 1234567890,
        metadata: None,
        status: "online".to_string(),
    }
}

#[test]
fn default_status_is_online() {
    assert_eq!(default_status(), "online");
}

#[test]
fn node_data_new_fills_in_defaults() {
    let data = NodeData::new("n1".to_string());
    assert_eq!(data.node_id, "n1");
    assert_eq!(data.node_type, "");
    assert_eq!(data.timestamp, 0);
    assert_eq!(data.metadata, None);
    assert_eq!(data.status, "online");
}

#[test]
fn node_data_from_fields_keeps_every_field() {
    let data = NodeData::from_fields(
        "n1".to_string(),
        "radio".to_string(),
        7,
        Some("{\"a\":1}".to_string()),
        "unknown".to_string(),
    );
    assert_eq!(data.node_id, "n1");
    assert_eq!(data.node_type, "radio");
    assert_eq!(data.timestamp, 7);
    assert_eq!(data.metadata, Some("{\"a\":1}".to_string()));
    assert_eq!(data.status, "unknown");
}

#[test]
fn node_data_to_json_is_exact() {
    assert_eq!(
        heartbeat().to_json().unwrap(),
        "{\"node_id\":\"n1\",\"node_type\":\"generic\",\"timestamp\":1234567890,\"metadata\":null,\"status\":\"online\"}"
    );
}

#[test]
fn node_data_to_json_matches_serde_json() {
    let mut data = heartbeat();
    data.metadata = Some("{ \"value\": 42.5, \"tags\": [1, 2] }".to_string());
    let json = data.to_json().unwrap();
    let value: serde_json::Value = serde_json::from_str(&json).unwrap();
    assert_eq!(value["node_id"], serde_json::Value::from("n1"));
    assert_eq!(value["timestamp"], serde_json::Value::from(1234567890u64));
    assert_eq!(value["metadata"]["value"], serde_json::Value::from(42.5));
    assert_eq!(value["metadata"]["tags"][1], serde_json::Value::from(2));
    assert_eq!(
        json,
        "{\"node_id\":\"n1\",\"node_type\":\"generic\",\"timestamp\":1234567890,\"metadata\":{\"tags\":[1,2],\"value\":42.5},\"status\":\"online\"}"
    );
}

#[test]
fn node_data_to_json_rejects_metadata_that_is_not_json() {
    let mut data = heartbeat();
    data.metadata = Some("{not json".to_string());
    assert!(matches!(data.to_json(), Err(FabricError::SerdeJsonError(_))));
}

#[test]
fn node_data_round_trip() {
    let mut data = heartbeat();
    data.metadata = Some("{\"value\":42.5}".to_string());
    data.status = "offline".to_string();
    let json = data.to_json().unwrap();
    assert_eq!(NodeData::from_json(&json).unwrap(), data);
}

#[test]
fn node_data_status_defaults_to_online() {
    let data =
        NodeData::from_json("{\"node_id\":\"n1\",\"node_type\":\"radio\",\"timestamp\":5}").unwrap();
    assert_eq!(data.status, "online");
    assert_eq!(data.metadata, None);
    assert_eq!(data.timestamp, 5);
    assert_eq!(data.node_type, "radio");
}

#[test]
fn node_data_null_metadata_is_none() {
    let data = NodeData::from_json(
        "{\"node_id\":\"n1\",\"node_type\":\"radio\",\"timestamp\":5,\"metadata\":null,\"status\":\"unknown\"}",
    )
    .unwrap();
    assert_eq!(data.metadata, None);
    assert_eq!(data.status, "unknown");
}

#[test]
fn node_data_passes_over_other_members() {
    let data = NodeData::from_json(
        "{\"extra\":[1,2],\"node_id\":\"n1\",\"node_type\":\"t\",\"timestamp\":18446744073709551615}",
    )
    .unwrap();
    assert_eq!(data.timestamp, u64::MAX);
}

#[test]
fn node_data_from_json_rejects_what_is_no_envelope() {
    let bad = [
        "",
        "not json",
        "[1,2,3]",
        "\"text\"",
        "{\"node_type\":\"t\",\"timestamp\":5}",
        "{\"node_id\":\"n1\",\"timestamp\":5}",
        "{\"node_id\":\"n1\",\"node_type\":\"t\"}",
        "{\"node_id\":7,\"node_type\":\"t\",\"timestamp\":5}",
        "{\"node_id\":\"n1\",\"node_type\":\"t\",\"timestamp\":-5}",
        "{\"node_id\":\"n1\",\"node_type\":\"t\",\"timestamp\":5.5}",
        "{\"node_id\":\"n1\",\"node_type\":\"t\",\"timestamp\":\"5\"}",
        "{\"node_id\":\"n1\",\"node_type\":\"t\",\"timestamp\":18446744073709551616}",
        "{\"node_id\":\"n1\",\"node_type\":\"t\",\"timestamp\":5,\"status\":null}",
        "{\"node_id\":\"n1\",\"node_type\":\"t\",\"timestamp\":5,\"status\":3}",
    ];
    for json in bad {
        assert!(
            matches!(NodeData::from_json(json), Err(FabricError::SerdeJsonError(_))),
            "{}",
            json
        );
    }
}

#[test]
fn node_data_from_slice_reads_bytes() {
    let json = heartbeat().to_json().unwrap();
    assert_eq!(NodeData::from_slice(json.as_bytes()).unwrap(), heartbeat());
    assert!(NodeData::from_slice(&[0xff, 0xfe]).is_err());
}

#[test]
fn node_data_get_reads_metadata_members() {
    let mut data = heartbeat();
    assert_eq!(data.get("value").unwrap(), "null");
    data.metadata = Some("{\"value\":42.5,\"name\":\"probe\",\"deep\":{\"b\":[1,2]}}".to_string());
    assert_eq!(data.get("value").unwrap(), "42.5");
    assert_eq!(data.get("name").unwrap(), "\"probe\"");
    assert_eq!(data.get("deep").unwrap(), "{\"b\":[1,2]}");
    assert_eq!(data.get("missing").unwrap(), "null");
    data.metadata = Some("[1,2]".to_string());
    assert_eq!(data.get("value").unwrap(), "null");
    data.metadata = Some("{oops".to_string());
    assert!(matches!(data.get("value"), Err(FabricError::SerdeJsonError(_))));
}

#[test]
fn node_data_set_status_changes_only_the_status() {
    let mut data = heartbeat();
    assert!(data.set_status("offline".to_string()).is_ok());
    let mut expected = heartbeat();
    expected.status = "offline".to_string();
    assert_eq!(data, expected);
}

#[test]
fn node_config_to_json_is_exact() {
    let config = NodeConfig {
        node_id: "n1".to_string(),
        config: "{\"sampling_rate\":10,\"threshold\":75.0}".to_string(),
    };
    assert_eq!(
        config.to_json().unwrap(),
        "{\"node_id\":\"n1\",\"config\":{\"sampling_rate\":10,\"threshold\":75.0}}"
    );
}

#[test]
fn node_config_to_json_compacts_the_config() {
    let config = NodeConfig {
        node_id: "n1".to_string(),
        config: " { \"threshold\" : 75.0 ,\n \"sampling_rate\" : 10 } ".to_string(),
    };
    assert_eq!(
        config.to_json().unwrap(),
        "{\"node_id\":\"n1\",\"config\":{\"sampling_rate\":10,\"threshold\":75.0}}"
    );
}

#[test]
fn node_config_to_json_escapes_the_id() {
    let config = NodeConfig { node_id: "a\"b\\c\n".to_string(), config: "null".to_string() };
    let json = config.to_json().unwrap();
    assert_eq!(json, "{\"node_id\":\"a\\\"b\\\\c\\n\",\"config\":null}");
    assert_eq!(NodeConfig::from_json(&json).unwrap(), config);
}

#[test]
fn node_config_round_trip() {
    let config = NodeConfig {
        node_id: "test_node".to_string(),
        config: "{\"mock_config\":{\"param1\":100},\"sampling_rate\":5,\"threshold\":50.0}"
            .to_string(),
    };
    let json = config.to_json().unwrap();
    assert_eq!(NodeConfig::from_json(&json).unwrap(), config);
    assert_eq!(NodeConfig::from_slice(json.as_bytes()).unwrap(), config);
}

#[test]
fn node_config_rejects_what_is_no_envelope() {
    let bad = [
        "",
        "5",
        "{\"config\":{}}",
        "{\"node_id\":\"n1\"}",
        "{\"node_id\":5,\"config\":{}}",
        "{\"node_id\":\"n1\",\"config\":",
    ];
    for json in bad {
        assert!(
            matches!(NodeConfig::from_json(json), Err(FabricError::SerdeJsonError(_))),
            "{}",
            json
        );
    }
    let config = NodeConfig { node_id: "n1".to_string(), config: "{".to_string() };
    assert!(matches!(config.to_json(), Err(FabricError::SerdeJsonError(_))));
}

#[test]
fn node_config_keeps_a_null_config() {
    let config = NodeConfig::from_json("{\"node_id\":\"n1\",\"config\":null}").unwrap();
    assert_eq!(config.config, "null");
}

#[test]
fn parse_text_reads_one_level() {
    assert_eq!(parse_text("null").unwrap(), JsonValue::Null);
    assert_eq!(parse_text(" true ").unwrap(), JsonValue::Bool(true));
    assert_eq!(parse_text("12").unwrap(), JsonValue::Number("12".to_string()));
    assert_eq!(parse_text("-1.5e3").unwrap(), JsonValue::Number("-1500.0".to_string()));
    assert_eq!(parse_text("\"a\\nb\"").unwrap(), JsonValue::Text("a\nb".to_string()));
    assert_eq!(
        parse_text("[1, \"x\", {\"k\": [ ]}]").unwrap(),
        JsonValue::Array(vec!["1".to_string(), "\"x\"".to_string(), "{\"k\":[]}".to_string()])
    );
    assert_eq!(
        parse_text("{\"b\": 1, \"a\": {\"z\": null}}").unwrap(),
        JsonValue::Object(vec![
            ("a".to_string(), "{\"z\":null}".to_string()),
            ("b".to_string(), "1".to_string()),
        ])
    );
    assert!(matches!(parse_text("{"), Err(FabricError::SerdeJsonError(_))));
    assert!(matches!(parse_text("1 2"), Err(FabricError::SerdeJsonError(_))));
}

#[test]
fn string_literal_quotes_and_escapes() {
    assert_eq!(string_literal("plain"), "\"plain\"");
    assert_eq!(string_literal(""), "\"\"");
    assert_eq!(string_literal("say \"hi\""), "\"say \\\"hi\\\"\"");
    assert_eq!(string_literal("tab\there"), "\"tab\\there\"");
    assert_eq!(string_literal("é"), "\"é\"");
}

#[test]
fn compact_text_writes_each_kind() {
    assert_eq!(compact_text(&JsonValue::Null), "null");
    assert_eq!(compact_text(&JsonValue::Bool(false)), "false");
    assert_eq!(compact_text(&JsonValue::Bool(true)), "true");
    assert_eq!(compact_text(&JsonValue::Number("3.5".to_string())), "3.5");
    assert_eq!(compact_text(&JsonValue::Text("a\"b".to_string())), "\"a\\\"b\"");
    assert_eq!(compact_text(&JsonValue::Array(vec![])), "[]");
    assert_eq!(
        compact_text(&JsonValue::Array(vec!["1".to_string(), "[2]".to_string()])),
        "[1,[2]]"
    );
    assert_eq!(compact_text(&JsonValue::Object(vec![])), "{}");
    assert_eq!(
        compact_text(&JsonValue::Object(vec![
            ("a".to_string(), "1".to_string()),
            ("b c".to_string(), "null".to_string()),
        ])),
        "{\"a\":1,\"b c\":null}"
    );
}

#[test]
fn canonical_json_text_agrees_with_serde_json() {
    let texts = [
        "null",
        "  [ 1 , 2.50 , \"x\" ]  ",
        "{\"b\":{\"d\":[true,false,null],\"c\":\"\\u00e9\"},\"a\":-0.0}",
        "\"\\u0001\"",
        "1e2",
    ];
    for text in texts {
        let value: serde_json::Value = serde_json::from_str(text).unwrap();
        assert_eq!(canonical_json_text(text).unwrap(), value.to_string(), "{}", text);
    }
    assert!(matches!(canonical_json_text("[1,"), Err(FabricError::SerdeJsonError(_))));
}

#[test]
fn codec_failure_carries_the_message() {
    assert_eq!(
        codec_failure("expected value".to_string()),
        FabricError::SerdeJsonError("expected value".to_string())
    );
    assert_eq!(codec_failure(String::new()), FabricError::SerdeJsonError(String::new()));
}

#[test]
fn codec_error_carries_the_message_of_serde_json() {
    let error = serde_json::from_str::<serde_json::Value>("{\"a\":").unwrap_err();
    assert_eq!(codec_error(&error), FabricError::SerdeJsonError(error.to_string()));
    assert_eq!(parse_text("{\"a\":"), Err(FabricError::SerdeJsonError(error.to_string())));
    assert!(!error.to_string().is_empty());
}

#[test]
fn envelopes_that_read_well_but_are_none_say_what_is_wrong() {
    assert_eq!(
        NodeData::from_json("[1,2,3]"),
        Err(FabricError::SerdeJsonError("a status envelope is a JSON object".to_string()))
    );
    assert_eq!(
        NodeData::from_json("{\"node_id\":\"n1\"}"),
        Err(FabricError::SerdeJsonError(
            "a status envelope has a field missing or of a wrong type".to_string()
        ))
    );
    assert_eq!(
        NodeConfig::from_json("5"),
        Err(FabricError::SerdeJsonError("a node configuration is a JSON object".to_string()))
    );
    assert_eq!(
        NodeConfig::from_json("{\"node_id\":\"n1\"}"),
        Err(FabricError::SerdeJsonError(
            "a node configuration has a field missing or of a wrong type".to_string()
        ))
    );
}
