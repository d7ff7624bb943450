//! What a node is configured with, what it reports, and the capability
//! contract that each concrete node type fulfils.
use crate::error::FabricError;
use crate::json::{
    codec_failure, compact, compact_text, find_member, json_parse, json_parse_text,
    json_string_literal, member, parse_bytes, parse_text, string_literal, JsonModel, JsonValue,
};
use crate::text::{decimal_text, decimal_value, parse_u64_decimal, u64_to_decimal};
use vstd::prelude::*;
use vstd::string::*;

verus! {

/// The configuration of one node. `config` is a JSON document held as text;
/// the fabric carries it and never looks inside.
#[derive(Debug, PartialEq, Eq)]
pub struct NodeConfig {
    pub node_id: String,
    pub config: String,
}

/// A [`NodeConfig`] in contracts.
pub struct NodeConfigView {
    pub node_id: Seq<char>,
    pub config: Seq<char>,
}

impl View for NodeConfig {
    type V = NodeConfigView;

    open spec fn view(&self) -> NodeConfigView {
        NodeConfigView { node_id: self.node_id@, config: self.config@ }
    }
}

impl Clone for NodeConfig {
    fn clone(&self) -> (copy: Self)
        ensures
            copy@ == self@,
    {
        NodeConfig { node_id: self.node_id.clone(), config: self.config.clone() }
    }
}

/// The status envelope a node's heartbeat carries. `metadata`, where there is
/// any, is a JSON document held as text.
#[derive(Debug, PartialEq, Eq)]
pub struct NodeData {
    pub node_id: String,
    pub node_type: String,
    pub timestamp: u64,
    pub metadata: Option<String>,
    pub status: String,
}

/// A [`NodeData`] in contracts.
pub struct NodeDataView {
    pub node_id: Seq<char>,
    pub node_type: Seq<char>,
    pub timestamp: u64,
    pub metadata: Option<Seq<char>>,
    pub status: Seq<char>,
}

/// The text of an optional string.
pub open spec fn optional_text(s: Option<String>) -> Option<Seq<char>> {
    match s {
        Some(t) => Some(t@),
        None => None,
    }
}

impl View for NodeData {
    type V = NodeDataView;

    open spec fn view(&self) -> NodeDataView {
        NodeDataView {
            node_id: self.node_id@,
            node_type: self.node_type@,
            timestamp: self.timestamp,
            metadata: optional_text(self.metadata),
            status: self.status@,
        }
    }
}

impl Clone for NodeData {
    fn clone(&self) -> (copy: Self)
        ensures
            copy@ == self@,
    {
        let metadata = match &self.metadata {
            Some(text) => Some(text.clone()),
            None => None,
        };
        NodeData {
            node_id: self.node_id.clone(),
            node_type: self.node_type.clone(),
            timestamp: self.timestamp,
            metadata,
            status: self.status.clone(),
        }
    }
}

/// The status a heartbeat carries when none is written in it.
pub fn default_status() -> (status: String)
    ensures
        status@ == "online"@,
{
    String::from_str("online")
}

/// The compact form of the JSON document `text`, or `None` where `text` is not
/// one JSON text.
pub open spec fn canonical_json(text: Seq<char>) -> Option<Seq<char>> {
    match json_parse_text(text) {
        Some(value) => Some(compact(value)),
        None => None,
    }
}

/// The string that the member `key` holds: `None` where there is no such
/// member or it is not a JSON string.
pub open spec fn text_member(members: Seq<(Seq<char>, Seq<char>)>, key: Seq<char>) -> Option<
    Seq<char>,
> {
    match member(members, key) {
        Some(text) => match json_parse_text(text) {
            Some(JsonModel::Text(s)) => Some(s),
            _ => None,
        },
        None => None,
    }
}

/// The unsigned 64-bit number that the member `key` holds: `None` where there
/// is no such member, or it is not a JSON number written with digits alone,
/// or it does not fit.
pub open spec fn u64_member(members: Seq<(Seq<char>, Seq<char>)>, key: Seq<char>) -> Option<u64> {
    match member(members, key) {
        Some(text) => match json_parse_text(text) {
            Some(JsonModel::Number(digits)) => match decimal_value(digits) {
                Some(n) => if n <= u64::MAX {
                    Some(n as u64)
                } else {
                    None
                },
                None => None,
            },
            _ => None,
        },
        None => None,
    }
}

/// The document that the member `key` holds: `None` where there is no such
/// member or it holds `null`.
pub open spec fn optional_member(members: Seq<(Seq<char>, Seq<char>)>, key: Seq<char>) -> Option<
    Seq<char>,
> {
    match member(members, key) {
        Some(text) => if text == "null"@ {
            None
        } else {
            Some(text)
        },
        None => None,
    }
}

/// The status that an envelope's members give: `online` where none is
/// written, `None` where one is written that is not a string.
pub open spec fn status_member(members: Seq<(Seq<char>, Seq<char>)>) -> Option<Seq<char>> {
    if member(members, "status"@) is None {
        Some("online"@)
    } else {
        text_member(members, "status"@)
    }
}

/// The configuration that the members of an envelope give.
pub open spec fn config_from_members(members: Seq<(Seq<char>, Seq<char>)>) -> Option<
    NodeConfigView,
> {
    match (text_member(members, "node_id"@), member(members, "config"@)) {
        (Some(node_id), Some(config)) => Some(NodeConfigView { node_id, config }),
        _ => None,
    }
}

/// The configuration that the JSON envelope in `bytes` holds: an object with a
/// string `node_id` and any `config`. Other members are passed over. `None`
/// where `bytes` are no such envelope.
pub open spec fn decode_node_config(bytes: Seq<u8>) -> Option<NodeConfigView> {
    match json_parse(bytes) {
        Some(JsonModel::Object(members)) => config_from_members(members),
        _ => None,
    }
}

/// The status envelope that the members of an object give.
pub open spec fn data_from_members(members: Seq<(Seq<char>, Seq<char>)>) -> Option<NodeDataView> {
    match (
        text_member(members, "node_id"@),
        text_member(members, "node_type"@),
        u64_member(members, "timestamp"@),
        status_member(members),
    ) {
        (Some(node_id), Some(node_type), Some(timestamp), Some(status)) => Some(
            NodeDataView {
                node_id,
                node_type,
                timestamp,
                metadata: optional_member(members, "metadata"@),
                status,
            },
        ),
        _ => None,
    }
}

/// The status envelope that the JSON in `bytes` holds: an object with string
/// `node_id` and `node_type`, a `timestamp` that fits 64 bits, an optional
/// `metadata` and an optional string `status` that stands for `online` where
/// it is missing. `None` where `bytes` are no such envelope.
pub open spec fn decode_node_data(bytes: Seq<u8>) -> Option<NodeDataView> {
    match json_parse(bytes) {
        Some(JsonModel::Object(members)) => data_from_members(members),
        _ => None,
    }
}

/// The JSON envelope of a configuration whose `config` has the compact form
/// `config`.
pub open spec fn config_envelope(node_id: Seq<char>, config: Seq<char>) -> Seq<char> {
    "{\"node_id\":"@ + json_string_literal(node_id) + ",\"config\":"@ + config + "}"@
}

/// The JSON envelope of a configuration, or `None` where its `config` is not
/// one JSON text.
pub open spec fn encode_node_config(c: NodeConfigView) -> Option<Seq<char>> {
    match canonical_json(c.config) {
        Some(config) => Some(config_envelope(c.node_id, config)),
        None => None,
    }
}

/// The JSON envelope of a heartbeat whose `metadata` is written as `metadata`.
pub open spec fn data_envelope(d: NodeDataView, metadata: Seq<char>) -> Seq<char> {
    "{\"node_id\":"@ + json_string_literal(d.node_id) + ",\"node_type\":"@ + json_string_literal(
        d.node_type,
    ) + ",\"timestamp\":"@ + decimal_text(d.timestamp as nat) + ",\"metadata\":"@ + metadata
        + ",\"status\":"@ + json_string_literal(d.status) + "}"@
}

/// How the metadata of a heartbeat is written: `null` where there is none,
/// else its compact form; `None` where it is not one JSON text.
pub open spec fn metadata_text(metadata: Option<Seq<char>>) -> Option<Seq<char>> {
    match metadata {
        None => Some("null"@),
        Some(text) => canonical_json(text),
    }
}

/// The JSON envelope of a heartbeat, or `None` where its `metadata` is not one
/// JSON text.
pub open spec fn encode_node_data(d: NodeDataView) -> Option<Seq<char>> {
    match metadata_text(d.metadata) {
        Some(metadata) => Some(data_envelope(d, metadata)),
        None => None,
    }
}

/// What `get` finds under `key` in the metadata: the compact text of that
/// member where the metadata is an object that has it, else `null`; `None`
/// where the metadata is not one JSON text.
pub open spec fn metadata_entry(metadata: Option<Seq<char>>, key: Seq<char>) -> Option<Seq<char>> {
    match metadata {
        None => Some("null"@),
        Some(text) => match json_parse_text(text) {
            None => None,
            Some(JsonModel::Object(members)) => match member(members, key) {
                Some(found) => Some(found),
                None => Some("null"@),
            },
            Some(_) => Some("null"@),
        },
    }
}

/// Brings a JSON document into compact form.
pub fn canonical_json_text(text: &str) -> (canonical: Result<String, FabricError>)
    ensures
        match canonical {
            Ok(c) => canonical_json(text@) == Some(c@),
            Err(e) => canonical_json(text@) is None && e is SerdeJsonError,
        },
{
    match parse_text(text) {
        Ok(value) => Ok(compact_text(&value)),
        Err(e) => Err(e),
    }
}

fn read_text_member(members: &Vec<(String, String)>, key: &str) -> (found: Option<String>)
    ensures
        optional_text(found) == text_member(crate::json::members_of(members@), key@),
{
    match find_member(members, key) {
        Some(text) => match parse_text(text.as_str()) {
            Ok(JsonValue::Text(s)) => Some(s),
            _ => None,
        },
        None => None,
    }
}

fn read_u64_member(members: &Vec<(String, String)>, key: &str) -> (found: Option<u64>)
    ensures
        found == u64_member(crate::json::members_of(members@), key@),
{
    match find_member(members, key) {
        Some(text) => match parse_text(text.as_str()) {
            Ok(JsonValue::Number(digits)) => parse_u64_decimal(digits.as_str()),
            _ => None,
        },
        None => None,
    }
}

fn read_optional_member(members: &Vec<(String, String)>, key: &str) -> (found: Option<String>)
    ensures
        optional_text(found) == optional_member(crate::json::members_of(members@), key@),
{
    match find_member(members, key) {
        Some(text) => if crate::text::same_text(text.as_str(), "null") {
            None
        } else {
            Some(text)
        },
        None => None,
    }
}

/// The error for JSON that reads well but is no envelope; `what` says what
/// is wrong with it.
fn malformed(what: &str) -> (e: FabricError)
    ensures
        e matches FabricError::SerdeJsonError(detail) && detail@ == what@,
{
    codec_failure(String::from_str(what))
}

impl NodeConfig {
    /// Reads a configuration from its JSON envelope.
    pub fn from_slice(bytes: &[u8]) -> (decoded: Result<NodeConfig, FabricError>)
        ensures
            match decoded {
                Ok(c) => decode_node_config(bytes@) == Some(c@),
                Err(e) => decode_node_config(bytes@) is None && e is SerdeJsonError,
            },
    {
        match parse_bytes(bytes) {
            Ok(JsonValue::Object(members)) => {
                let node_id = read_text_member(&members, "node_id");
                let config = find_member(&members, "config");
                match (node_id, config) {
                    (Some(node_id), Some(config)) => Ok(NodeConfig { node_id, config }),
                    _ => Err(
                        malformed("a node configuration has a field missing or of a wrong type"),
                    ),
                }
            },
            Ok(_) => Err(malformed("a node configuration is a JSON object")),
            Err(e) => Err(e),
        }
    }

    /// Reads a configuration from its JSON envelope.
    pub fn from_json(json: &str) -> (decoded: Result<NodeConfig, FabricError>)
        ensures
            match decoded {
                Ok(c) => decode_node_config(json.spec_bytes()) == Some(c@),
                Err(e) => decode_node_config(json.spec_bytes()) is None && e is SerdeJsonError,
            },
    {
        NodeConfig::from_slice(json.as_bytes())
    }

    /// Writes the configuration as its JSON envelope. Fails exactly where
    /// `config` is not one JSON text.
    pub fn to_json(&self) -> (encoded: Result<String, FabricError>)
        ensures
            match encoded {
                Ok(json) => encode_node_config(self@) == Some(json@),
                Err(e) => encode_node_config(self@) is None && e is SerdeJsonError,
            },
    {
        match canonical_json_text(self.config.as_str()) {
            Ok(config) => {
                let mut json = String::from_str("{\"node_id\":");
                json.append(string_literal(self.node_id.as_str()).as_str());
                json.append(",\"config\":");
                json.append(config.as_str());
                json.append("}");
                Ok(json)
            },
            Err(e) => Err(e),
        }
    }
}

impl NodeData {
    /// A status envelope for `node_id` with nothing else filled in: no type,
    /// timestamp zero, no metadata, status `online`.
    pub fn new(node_id: String) -> (data: Self)
        ensures
            data@ == (NodeDataView {
                node_id: node_id@,
                node_type: Seq::empty(),
                timestamp: 0,
                metadata: None,
                status: "online"@,
            }),
    {
        Self {
            node_id,
            node_type: String::new(),
            timestamp: 0,
            metadata: None,
            status: default_status(),
        }
    }

    /// Reads a status envelope from the bytes of its JSON.
    pub fn from_slice(bytes: &[u8]) -> (decoded: Result<NodeData, FabricError>)
        ensures
            match decoded {
                Ok(d) => decode_node_data(bytes@) == Some(d@),
                Err(e) => decode_node_data(bytes@) is None && e is SerdeJsonError,
            },
    {
        match parse_bytes(bytes) {
            Ok(JsonValue::Object(members)) => {
                let node_id = read_text_member(&members, "node_id");
                let node_type = read_text_member(&members, "node_type");
                let timestamp = read_u64_member(&members, "timestamp");
                let status = match find_member(&members, "status") {
                    None => Some(default_status()),
                    Some(_) => read_text_member(&members, "status"),
                };
                match (node_id, node_type, timestamp, status) {
                    (Some(node_id), Some(node_type), Some(timestamp), Some(status)) => {
                        let metadata = read_optional_member(&members, "metadata");
                        Ok(NodeData { node_id, node_type, timestamp, metadata, status })
                    },
                    _ => Err(malformed("a status envelope has a field missing or of a wrong type")),
                }
            },
            Ok(_) => Err(malformed("a status envelope is a JSON object")),
            Err(e) => Err(e),
        }
    }

    /// Reads a status envelope from its JSON.
    pub fn from_json(json: &str) -> (decoded: Result<NodeData, FabricError>)
        ensures
            match decoded {
                Ok(d) => decode_node_data(json.spec_bytes()) == Some(d@),
                Err(e) => decode_node_data(json.spec_bytes()) is None && e is SerdeJsonError,
            },
    {
        NodeData::from_slice(json.as_bytes())
    }

    /// A status envelope with every field given.
    pub fn from_fields(
        node_id: String,
        node_type: String,
        timestamp: u64,
        metadata: Option<String>,
        status: String,
    ) -> (data: Self)
        ensures
            data@ == (NodeDataView {
                node_id: node_id@,
                node_type: node_type@,
                timestamp,
                metadata: optional_text(metadata),
                status: status@,
            }),
    {
        Self { node_id, node_type, timestamp, metadata, status }
    }

    /// Writes the envelope as JSON. Fails exactly where the metadata is not
    /// one JSON text.
    pub fn to_json(&self) -> (encoded: Result<String, FabricError>)
        ensures
            match encoded {
                Ok(json) => encode_node_data(self@) == Some(json@),
                Err(e) => encode_node_data(self@) is None && e is SerdeJsonError,
            },
    {
        let metadata = match &self.metadata {
            None => String::from_str("null"),
            Some(text) => match canonical_json_text(text.as_str()) {
                Ok(canonical) => canonical,
                Err(e) => {
                    return Err(e);
                },
            },
        };
        Ok(self.envelope(metadata.as_str()))
    }

    /// The JSON envelope with the metadata written as `metadata`, which is
    /// `null` or a compact JSON document.
    pub fn envelope(&self, metadata: &str) -> (json: String)
        ensures
            json@ == data_envelope(self@, metadata@),
    {
        let mut json = String::from_str("{\"node_id\":");
        json.append(string_literal(self.node_id.as_str()).as_str());
        json.append(",\"node_type\":");
        json.append(string_literal(self.node_type.as_str()).as_str());
        json.append(",\"timestamp\":");
        json.append(u64_to_decimal(self.timestamp).as_str());
        json.append(",\"metadata\":");
        json.append(metadata);
        json.append(",\"status\":");
        json.append(string_literal(self.status.as_str()).as_str());
        json.append("}");
        json
    }

    /// Looks `key` up in the metadata and gives what stands there as compact
    /// JSON text; `null` where the metadata has no such member.
    pub fn get(&self, key: &str) -> (found: Result<String, FabricError>)
        ensures
            match found {
                Ok(text) => metadata_entry(self@.metadata, key@) == Some(text@),
                Err(e) => metadata_entry(self@.metadata, key@) is None && e is SerdeJsonError,
            },
    {
        match &self.metadata {
            None => Ok(String::from_str("null")),
            Some(text) => match parse_text(text.as_str()) {
                Err(e) => Err(e),
                Ok(JsonValue::Object(members)) => match find_member(&members, key) {
                    Some(found) => Ok(found),
                    None => Ok(String::from_str("null")),
                },
                Ok(_) => Ok(String::from_str("null")),
            },
        }
    }

    /// Sets the status and leaves the rest as it is.
    pub fn set_status(&mut self, status: String) -> (done: Result<(), FabricError>)
        ensures
            done is Ok,
            final(self)@ == (NodeDataView { status: status@, ..old(self)@ }),
    {
        self.status = status;
        Ok(())
    }
}

/// The capability contract of a node type: what every concrete node can do,
/// whatever it is.
pub trait NodeInterface {
    /// The configuration the node holds. A node type says here what that
    /// is; of one that does not, nothing is known.
    open spec fn current_config(&self) -> NodeConfigView {
        arbitrary()
    }

    /// The name of the node's type, which never changes. A node type says
    /// here what that is; of one that does not, nothing is known.
    open spec fn node_kind(&self) -> Seq<char> {
        arbitrary()
    }

    /// The configuration the node holds.
    fn get_config(&self) -> (config: NodeConfig)
        ensures
            config@ == self.current_config(),
    ;

    /// Overwrites the configuration.
    fn set_config(&mut self, config: NodeConfig)
        ensures
            final(self).current_config() == config@,
            final(self).node_kind() == old(self).node_kind(),
    ;

    /// The name of the node's type.
    fn get_type(&self) -> (name: String)
        ensures
            name@ == self.node_kind(),
    ;

    /// Reacts to the event `event`; what that means is up to the node type.
    fn handle_event(&mut self, event: &str, payload: &str) -> (handled: Result<(), FabricError>)
        ensures
            final(self).node_kind() == old(self).node_kind(),
    ;

    /// Takes a new configuration. Doing so twice is the same as doing so once.
    fn update_config(&mut self, config: NodeConfig)
        ensures
            final(self).current_config() == config@,
            final(self).node_kind() == old(self).node_kind(),
    ;
}

/// Makes nodes of one type from their configuration.
pub trait NodeFactory {
    /// The node type that the factory makes.
    type Node: NodeInterface;

    /// The type name of the nodes that the factory makes. A factory says
    /// here what that is; of one that does not, nothing is known.
    open spec fn makes(&self) -> Seq<char> {
        arbitrary()
    }

    /// A new node that holds `config`.
    fn create(&self, config: NodeConfig) -> (node: Self::Node)
        ensures
            node.current_config() == config@,
            node.node_kind() == self.makes(),
    ;
}

} // verus!
